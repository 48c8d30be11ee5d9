//! Menus and menu items: building the item tree and attaching it, together
//! with its dispatch table, to a window.

use vstd::prelude::*;

use crate::dispatch::DispatchMap;
use crate::dispatch::EntryModel;
use crate::dispatch::ItemKey;
use crate::error::Error;
use crate::handler::Empty;
use crate::handler::MenuItemHandler;
use crate::window::RawWindow;
use crate::window::Window;

verus! {

broadcast use vstd::string::group_string_axioms;

/// Whether `text` is free of interior NUL characters; only such text can be
/// encoded for the native item-insertion call.
pub open spec fn nul_free(text: Seq<char>) -> bool {
    forall|i: int| 0 <= i < text.len() ==> text[i] != '\0'
}

/// Specification-level description of one inserted top-level menu entry.
pub enum ItemDesc {
    /// A horizontal separator; never registered in the dispatch table.
    Separator,
    /// A selectable text item, registered under its insertion position.
    Entry { text: Seq<char> },
    /// A text item opening the absorbed submenu with the given handle.
    Submenu { text: Seq<char>, handle: usize },
}

/// An accelerator-key description for a menu item (not yet interpreted).
pub struct Hotkey {
    key: String,
}

impl Hotkey {
    /// An accelerator bound to the given key description.
    pub fn new(key: &str) -> (r: Self)
        ensures
            r.key() == key@,
    {
        Hotkey { key: key.to_string() }
    }

    /// The key description.
    pub closed spec fn key(self) -> Seq<char> {
        self.key@
    }
}

/// One prospective menu entry: a text item carrying a handler, a separator,
/// or a whole submenu to absorb.
pub struct MenuItem<H: MenuItemHandler = Empty> {
    inner: Inner<H>,
}

enum Inner<H: MenuItemHandler> {
    /// A regular selectable item.
    Item { text: String, hotkey: Option<Hotkey>, handler: H },
    /// A separator.
    Separator,
    /// A submenu, absorbed into the parent on insertion.
    Submenu { text: String, submenu: Menu<H> },
}

impl<H: MenuItemHandler> MenuItem<H> {
    /// What this item inserts into the native menu.
    pub closed spec fn desc(self) -> ItemDesc {
        match self.inner {
            Inner::Separator => ItemDesc::Separator,
            Inner::Item { text, .. } => ItemDesc::Entry { text: text@ },
            Inner::Submenu { text, submenu } => ItemDesc::Submenu {
                text: text@,
                handle: submenu.handle(),
            },
        }
    }

    /// The handler a regular item carries.
    pub closed spec fn item_handler(self) -> H {
        match self.inner {
            Inner::Item { handler, .. } => handler,
            _ => arbitrary(),
        }
    }

    /// The hotkey a regular item carries.
    pub closed spec fn item_hotkey(self) -> Option<Hotkey> {
        match self.inner {
            Inner::Item { hotkey, .. } => hotkey,
            _ => arbitrary(),
        }
    }

    /// The submenu a submenu item carries.
    pub closed spec fn submenu_spec(self) -> Menu<H> {
        match self.inner {
            Inner::Submenu { submenu, .. } => submenu,
            _ => arbitrary(),
        }
    }

    /// Create a new separator.
    pub fn separator() -> (r: Self)
        ensures
            r.desc() == ItemDesc::Separator,
    {
        MenuItem { inner: Inner::Separator }
    }

    /// Create a drop-down menu item holding `submenu`.
    pub fn submenu(text: &str, submenu: Menu<H>) -> (r: Self)
        ensures
            r.desc() == (ItemDesc::Submenu { text: text@, handle: submenu.handle() }),
            r.submenu_spec() == submenu,
    {
        MenuItem { inner: Inner::Submenu { text: text.to_string(), submenu } }
    }

    /// Create a regular menu item with the given text, hotkey, and handler.
    pub fn new(text: &str, hotkey: Option<Hotkey>, handler: H) -> (r: Self)
        ensures
            r.desc() == (ItemDesc::Entry { text: text@ }),
            r.item_handler() == handler,
            r.item_hotkey() == hotkey,
    {
        MenuItem { inner: Inner::Item { text: text.to_string(), hotkey, handler } }
    }
}

/// A menu to be attached to a window.
///
/// The menu owns a nonzero native handle, the descriptions of its inserted
/// top-level entries, and the dispatch table registering a handler under
/// `(handle, position)` for each selectable entry of the menu and of every
/// absorbed submenu.
pub struct Menu<H: MenuItemHandler> {
    /// Nonzero handle of the native menu; also its identity.
    handle: usize,
    /// Handlers registered for this menu and its absorbed submenus.
    data: DispatchMap<H>,
    /// Number of top-level entries inserted so far.
    len: usize,
    /// Whether selections notify by item position (set for top-level menus,
    /// not for popup menus, which inherit it from the menu absorbing them).
    notify_by_position: bool,
    /// All handles merged into this menu: its own and those of every
    /// absorbed submenu (specification only).
    handles: Ghost<Set<usize>>,
    /// The inserted top-level entries (specification only).
    items: Ghost<Seq<ItemDesc>>,
}

impl<H: MenuItemHandler> Menu<H> {
    /// The native handle owned by this menu.
    pub closed spec fn handle(self) -> usize {
        self.handle
    }

    /// The inserted top-level entries, in insertion order.
    pub closed spec fn items(self) -> Seq<ItemDesc> {
        self.items@
    }

    /// The dispatch table, as a map.
    pub closed spec fn dispatch(self) -> Map<ItemKey, EntryModel<H>> {
        self.data@
    }

    /// The menu handles merged into this menu (its own and every absorbed
    /// submenu's).
    pub closed spec fn handles(self) -> Set<usize> {
        self.handles@
    }

    /// Whether selections are reported by item position.
    pub closed spec fn notify_by_position(self) -> bool {
        self.notify_by_position
    }

    /// Well-formedness:
    /// - the handle is nonzero, belongs to the handle set, and `0` does not;
    /// - the table registers keys only under merged handles;
    /// - keys under the menu's own handle lie below its length, and exist
    ///   exactly for the selectable (non-separator, non-submenu) entries.
    pub closed spec fn wf(self) -> bool {
        &&& self.handle != 0
        &&& self.handles@.contains(self.handle)
        &&& !self.handles@.contains(0usize)
        &&& self.handles@.finite()
        &&& self.data.wf()
        &&& self.items@.len() == self.len
        &&& forall|k: ItemKey| #[trigger] self.data@.contains_key(k)
            ==> self.handles@.contains(k.handle)
        &&& forall|k: ItemKey| #[trigger] self.data@.contains_key(k) && k.handle == self.handle
            ==> k.position < self.len
        &&& forall|p: usize| p < self.len
            ==> ((#[trigger] self.data@.contains_key(ItemKey { handle: self.handle, position: p }))
                <==> self.items@[p as int] is Entry)
    }

    /// Create a new menu around the fresh nonzero native handle `handle`,
    /// set up to notify selections by item position.
    pub fn new(handle: usize) -> (r: Self)
        requires
            handle != 0,
        ensures
            r.wf(),
            r.handle() == handle,
            r.items() == Seq::<ItemDesc>::empty(),
            r.dispatch() == Map::<ItemKey, EntryModel<H>>::empty(),
            r.handles() == Set::<usize>::empty().insert(handle),
            r.notify_by_position(),
    {
        Menu {
            handle,
            data: DispatchMap::new(),
            len: 0,
            notify_by_position: true,
            handles: Ghost(Set::empty().insert(handle)),
            items: Ghost(Seq::empty()),
        }
    }

    /// Create a new, empty popup menu around the fresh nonzero native handle
    /// `handle`; such a menu does not notify by position itself.
    pub fn new_popup(handle: usize) -> (r: Self)
        requires
            handle != 0,
        ensures
            r.wf(),
            r.handle() == handle,
            r.items() == Seq::<ItemDesc>::empty(),
            r.dispatch() == Map::<ItemKey, EntryModel<H>>::empty(),
            r.handles() == Set::<usize>::empty().insert(handle),
            !r.notify_by_position(),
    {
        Menu {
            handle,
            data: DispatchMap::new(),
            len: 0,
            notify_by_position: false,
            handles: Ghost(Set::empty().insert(handle)),
            items: Ghost(Seq::empty()),
        }
    }

    /// The native handle owned by this menu.
    pub fn raw_handle(&self) -> (r: usize)
        ensures
            r == self.handle(),
    {
        self.handle
    }

    /// Number of top-level entries inserted so far, separators included.
    pub fn len(&self) -> (r: usize)
        requires
            self.wf(),
        ensures
            r == self.items().len(),
    {
        self.len
    }

    /// Add a new menu item at the end of the menu, at position `len()`.
    ///
    /// A separator is inserted with no dispatch entry; a regular item
    /// registers its handler under `(handle, old length)`; a submenu item
    /// takes over the submenu's handle and merges the submenu's dispatch
    /// entries into this menu's table, where they keep their own keys.
    /// Merging cannot collide: the two menus' handle sets are disjoint, as
    /// they are whenever every handle stems from its own native creation
    /// call.  Item text holding an interior NUL character cannot be encoded
    /// for the native call and is excluded up front.
    pub fn push(&mut self, item: MenuItem<H>) -> (r: Result<(), Error>)
        requires
            old(self).wf(),
            old(self).items().len() < usize::MAX,
            (item.desc() matches ItemDesc::Entry { text } ==> nul_free(text)),
            (item.desc() matches ItemDesc::Submenu { text, .. } ==> nul_free(text)),
            item.desc() is Submenu ==> item.submenu_spec().wf()
                && old(self).handles().disjoint(item.submenu_spec().handles()),
        ensures
            r == Ok::<(), Error>(()),
            final(self).wf(),
            final(self).handle() == old(self).handle(),
            final(self).notify_by_position() == old(self).notify_by_position(),
            final(self).items() == old(self).items().push(item.desc()),
            item.desc() is Separator ==> final(self).dispatch() == old(self).dispatch()
                && final(self).handles() == old(self).handles(),
            item.desc() is Entry ==> final(self).dispatch() == old(self).dispatch().insert(
                (ItemKey { handle: old(self).handle(), position: old(self).items().len() as usize }),
                (EntryModel { handler: item.item_handler(), calls: 0 }),
            ) && final(self).handles() == old(self).handles(),
            item.desc() is Submenu ==> final(self).dispatch()
                == old(self).dispatch().union_prefer_right(item.submenu_spec().dispatch())
                && final(self).handles()
                    == old(self).handles().union(item.submenu_spec().handles()),
    {
        match item.inner {
            Inner::Separator => {
                self.len = self.len + 1;
                self.items = Ghost(self.items@.push(ItemDesc::Separator));
            }
            Inner::Item { text, hotkey: _, handler } => {
                let key = ItemKey { handle: self.handle, position: self.len };
                self.data.insert(key, handler);
                self.len = self.len + 1;
                self.items = Ghost(self.items@.push(ItemDesc::Entry { text: text@ }));
            }
            Inner::Submenu { text, submenu } => {
                let Menu {
                    handle: sub_handle,
                    data: sub_data,
                    len: _,
                    notify_by_position: _,
                    handles: sub_handles,
                    items: _,
                } = submenu;
                proof {
                    assert forall|k: ItemKey| !(old(self).dispatch().contains_key(k)
                        && sub_data@.contains_key(k)) by {
                        if old(self).dispatch().contains_key(k) && sub_data@.contains_key(k) {
                            assert(old(self).handles().contains(k.handle));
                            assert(sub_handles@.contains(k.handle));
                        }
                    }
                    assert(old(self).dispatch().dom().disjoint(sub_data@.dom()));
                }
                self.data.merge(sub_data);
                self.len = self.len + 1;
                self.handles = Ghost(self.handles@.union(sub_handles@));
                self.items = Ghost(self.items@.push(ItemDesc::Submenu {
                    text: text@,
                    handle: sub_handle,
                }));
            }
        }
        Ok(())
    }

    /// Apply this menu to a window, consuming the menu; ownership of the
    /// handle and of the dispatch table moves to the window, so applying the
    /// same menu value twice is impossible by construction.
    ///
    /// Fails with [`Error::UnexpectedWindowType`] if the window does not
    /// expose a usable native handle of the supported kind, and with
    /// [`Error::MenuExists`] if the window already has a menu attached; in
    /// both cases the window is left untouched.  On success the window takes
    /// the menu's handle and its dispatch table.
    pub fn apply(self, window: &mut Window<H>) -> (r: Result<(), Error>)
        requires
            self.wf(),
            old(window).wf(),
        ensures
            final(window).wf(),
            final(window).raw() == old(window).raw(),
            !old(window).raw().is_proper() ==> r == Err::<(), Error>(Error::UnexpectedWindowType)
                && *final(window) == *old(window),
            old(window).raw().is_proper() && old(window).menu() is Some
                ==> r == Err::<(), Error>(Error::MenuExists) && *final(window) == *old(window),
            old(window).raw().is_proper() && old(window).menu() is None
                ==> r == Ok::<(), Error>(())
                    && final(window).menu() == Some(self.handle())
                    && final(window).dispatch() == Some(self.dispatch()),
    {
        let proper = match window.raw_window_handle() {
            RawWindow::Win32 { hwnd } => hwnd != 0,
            RawWindow::Other => false,
        };
        if !proper {
            return Err(Error::UnexpectedWindowType);
        }
        let Menu { handle, data, len: _, notify_by_position: _, handles: _, items: _ } = self;
        window.attach(handle, data)
    }
}

/// Law of submenu absorption: in the table of a parent that absorbed a
/// disjoint submenu table, every key the submenu registered is still present,
/// with the submenu's own entry, so a menu-command notification for it
/// invokes exactly the handler the submenu registered.
pub proof fn lemma_absorbed_entries_preserved<H: MenuItemHandler>(
    parent: Map<ItemKey, EntryModel<H>>,
    sub: Map<ItemKey, EntryModel<H>>,
    k: ItemKey,
)
    requires
        sub.contains_key(k),
    ensures
        parent.union_prefer_right(sub).contains_key(k),
        parent.union_prefer_right(sub)[k] == sub[k],
{
}

} // verus!
