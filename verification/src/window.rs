//! The per-window state the library installs: the raw handle a window
//! exposes, the attached menu, and the dispatch table serving menu-command
//! notifications, together with the subclass procedure's state machine.

use vstd::prelude::*;

use crate::dispatch::DispatchMap;
use crate::dispatch::EntryModel;
use crate::dispatch::ItemKey;
use crate::error::Error;
use crate::handler::MenuItemHandler;

verus! {

/// The raw platform handle reported by a window object, reduced to what
/// attachment inspects: the platform kind and the native handle value.
#[derive(Clone, Copy, Debug, PartialEq, Eq, Structural)]
pub enum RawWindow {
    /// A native window of the supported platform, with its handle value.
    Win32 { hwnd: usize },
    /// A raw handle of any other platform kind.
    Other,
}

impl RawWindow {
    /// Whether this is a usable native window of the supported kind.
    pub open spec fn is_proper(self) -> bool {
        match self {
            RawWindow::Win32 { hwnd } => hwnd != 0,
            RawWindow::Other => false,
        }
    }
}

/// A notification delivered to a window by the message loop, reduced to the
/// cases the menu subclass procedure distinguishes.
#[derive(Clone, Copy, Debug, PartialEq, Eq, Structural)]
pub enum WindowMessage {
    /// A menu item was selected: carries the reporting menu's handle and the
    /// item's position within that menu.
    MenuCommand { source: usize, position: usize },
    /// The window is being torn down.
    Destroy,
    /// Any other message.
    Other,
}

/// What the subclass procedure did with one message.
#[derive(Clone, Copy, Debug, PartialEq, Eq, Structural)]
pub enum MessageOutcome {
    /// A registered menu-item handler was invoked.
    Invoked,
    /// The message was left to the default window procedure.
    PassThrough,
}

/// Per-window state: the raw handle the window exposes, the handle of the
/// attached menu, and the dispatch table installed by a successful
/// attachment and reclaimed on destruction.
pub struct Window<H: MenuItemHandler> {
    raw: RawWindow,
    menu: Option<usize>,
    dispatch: Option<DispatchMap<H>>,
}

impl<H: MenuItemHandler> Window<H> {
    /// The raw handle the window exposes.
    pub closed spec fn raw(self) -> RawWindow {
        self.raw
    }

    /// The handle of the attached menu, if one is attached.
    pub closed spec fn menu(self) -> Option<usize> {
        self.menu
    }

    /// The installed dispatch table, as a map, while the window is armed.
    pub closed spec fn dispatch(self) -> Option<Map<ItemKey, EntryModel<H>>> {
        match self.dispatch {
            Some(d) => Some(d@),
            None => None,
        }
    }

    /// Well-formedness: an attached menu handle is nonzero and the installed
    /// dispatch table is itself well-formed.
    pub closed spec fn wf(self) -> bool {
        &&& (self.menu matches Some(m) ==> m != 0)
        &&& (self.dispatch matches Some(d) ==> d.wf())
    }

    /// A window exposing the raw handle `raw`, with no menu attached.
    pub fn new(raw: RawWindow) -> (r: Self)
        ensures
            r.wf(),
            r.raw() == raw,
            r.menu() is None,
            r.dispatch() is None,
    {
        Window { raw, menu: None, dispatch: None }
    }

    /// The raw platform handle the window exposes.
    pub fn raw_window_handle(&self) -> (r: RawWindow)
        ensures
            r == self.raw(),
    {
        self.raw
    }

    /// Whether the window already has a menu attached.
    pub fn has_menu(&self) -> (r: bool)
        ensures
            r == (self.menu() is Some),
    {
        self.menu.is_some()
    }

    /// The handle of the attached menu, if one is attached.
    pub fn menu_handle(&self) -> (r: Option<usize>)
        ensures
            r == self.menu(),
    {
        self.menu
    }

    /// Whether a dispatch table is installed and notifications are served.
    pub fn is_armed(&self) -> (r: bool)
        ensures
            r == (self.dispatch() is Some),
    {
        self.dispatch.is_some()
    }

    /// Attach a menu: refused (with no other effect) if one is already
    /// attached; otherwise the window takes the handle and the table.
    pub(crate) fn attach(&mut self, handle: usize, data: DispatchMap<H>) -> (r: Result<(), Error>)
        requires
            old(self).wf(),
            handle != 0,
            data.wf(),
        ensures
            final(self).wf(),
            final(self).raw() == old(self).raw(),
            old(self).menu() is Some ==> r == Err::<(), Error>(Error::MenuExists)
                && *final(self) == *old(self),
            old(self).menu() is None ==> r == Ok::<(), Error>(())
                && final(self).menu() == Some(handle)
                && final(self).dispatch() == Some(data@),
    {
        if self.menu.is_some() {
            return Err(Error::MenuExists);
        }
        self.menu = Some(handle);
        self.dispatch = Some(data);
        Ok(())
    }

    /// Serve one menu-command notification: look up `(source, position)` in
    /// the installed table and invoke the registered handler, if any.
    ///
    /// Exactly the found handler is invoked, exactly once: on success the
    /// contract carries a completed `invoke` call whose receiver started as
    /// the stored handler and ended as the handler now stored under the key.
    /// A notification with no matching entry (a separator's position, a menu
    /// this table does not know, a null source handle, or a window that is
    /// not armed) invokes nothing and changes nothing.
    pub fn menu_command(&mut self, source: usize, position: usize) -> (r: bool)
        requires
            old(self).wf(),
        ensures
            final(self).wf(),
            final(self).raw() == old(self).raw(),
            final(self).menu() == old(self).menu(),
            r == (old(self).dispatch() matches Some(m) && source != 0
                && m.contains_key(ItemKey { handle: source, position })),
            !r ==> *final(self) == *old(self),
            (final(self).dispatch() is Some) == (old(self).dispatch() is Some),
            r ==> (old(self).dispatch() matches Some(m)
                && final(self).dispatch() matches Some(m2)
                && m2.dom() == m.dom()
                && m2[ItemKey { handle: source, position }].calls
                    == m[ItemKey { handle: source, position }].calls + 1
                && (exists|x: &mut H|
                    call_ensures(H::invoke, (x,), ())
                    && mut_ref_current(x) == m[ItemKey { handle: source, position }].handler
                    && mut_ref_future(x) == m2[ItemKey { handle: source, position }].handler)
                && (forall|k: ItemKey| k != (ItemKey { handle: source, position })
                    && m.contains_key(k) ==> m2[k] == m[k])),
    {
        if source == 0 {
            return false;
        }
        match &mut self.dispatch {
            None => false,
            Some(map) => map.invoke(ItemKey { handle: source, position }),
        }
    }

    /// Tear down on the window-destroy notification: the dispatch table is
    /// reclaimed, exactly once; later notifications find nothing to serve.
    pub fn destroy(&mut self)
        requires
            old(self).wf(),
        ensures
            final(self).wf(),
            final(self).raw() == old(self).raw(),
            final(self).menu() == old(self).menu(),
            final(self).dispatch() is None,
    {
        self.dispatch = None;
    }

    /// The subclass procedure as a state machine: serve one message and say
    /// whether a handler ran or the message falls through to the default
    /// window procedure.
    ///
    /// A destroy notification reclaims the dispatch table and falls through;
    /// a menu-command notification is served from the table; every other
    /// message falls through unchanged.
    pub fn handle_message(&mut self, msg: WindowMessage) -> (r: MessageOutcome)
        requires
            old(self).wf(),
        ensures
            final(self).wf(),
            final(self).raw() == old(self).raw(),
            final(self).menu() == old(self).menu(),
            msg is Destroy ==> final(self).dispatch() is None
                && r == MessageOutcome::PassThrough,
            msg is Other ==> *final(self) == *old(self)
                && r == MessageOutcome::PassThrough,
            (msg matches WindowMessage::MenuCommand { source, position } ==> (
                (r == MessageOutcome::Invoked
                    <==> (old(self).dispatch() matches Some(m) && source != 0
                        && m.contains_key(ItemKey { handle: source, position })))
                && (r == MessageOutcome::PassThrough ==> *final(self) == *old(self))
                && (r == MessageOutcome::Invoked ==> (
                    old(self).dispatch() matches Some(m)
                    && final(self).dispatch() matches Some(m2)
                    && m2.dom() == m.dom()
                    && m2[ItemKey { handle: source, position }].calls
                        == m[ItemKey { handle: source, position }].calls + 1
                    && (exists|x: &mut H|
                        call_ensures(H::invoke, (x,), ())
                        && mut_ref_current(x) == m[ItemKey { handle: source, position }].handler
                        && mut_ref_future(x) == m2[ItemKey { handle: source, position }].handler)
                    && (forall|k: ItemKey| k != (ItemKey { handle: source, position })
                        && m.contains_key(k) ==> m2[k] == m[k])))
            )),
    {
        match msg {
            WindowMessage::Destroy => {
                self.destroy();
                MessageOutcome::PassThrough
            }
            WindowMessage::MenuCommand { source, position } => {
                if self.menu_command(source, position) {
                    MessageOutcome::Invoked
                } else {
                    MessageOutcome::PassThrough
                }
            }
            WindowMessage::Other => MessageOutcome::PassThrough,
        }
    }
}

} // verus!
