//! Attaching menus to windows and serving menu-command notifications.

use std::cell::Cell;
use std::cell::RefCell;
use std::rc::Rc;

use menubar::Empty;
use menubar::Error;
use menubar::Menu;
use menubar::MenuItem;
use menubar::MenuItemHandler;
use menubar::MessageOutcome;
use menubar::RawWindow;
use menubar::Window;
use menubar::WindowMessage;

/// Appends its label to a shared log each time it is invoked.
struct Recorder {
    label: u32,
    log: Rc<RefCell<Vec<u32>>>,
}

impl MenuItemHandler for Recorder {
    fn invoke(&mut self) {
        self.log.borrow_mut().push(self.label);
    }
}

fn recorder(label: u32, log: &Rc<RefCell<Vec<u32>>>) -> Recorder {
    Recorder {
        label,
        log: Rc::clone(log),
    }
}

#[test]
fn apply_takes_handle_and_arms_window() {
    let menu: Menu<Empty> = Menu::new(21);
    let mut window = Window::new(RawWindow::Win32 { hwnd: 5 });
    assert!(!window.has_menu());
    assert!(!window.is_armed());
    assert_eq!(menu.apply(&mut window), Ok(()));
    assert_eq!(window.menu_handle(), Some(21));
    assert!(window.is_armed());
}

#[test]
fn apply_rejects_other_platform_handle() {
    let menu: Menu<Empty> = Menu::new(22);
    let mut window = Window::new(RawWindow::Other);
    assert_eq!(menu.apply(&mut window), Err(Error::UnexpectedWindowType));
    assert!(!window.has_menu());
    assert!(!window.is_armed());
}

#[test]
fn apply_rejects_null_window_handle() {
    let menu: Menu<Empty> = Menu::new(23);
    let mut window = Window::new(RawWindow::Win32 { hwnd: 0 });
    assert_eq!(menu.apply(&mut window), Err(Error::UnexpectedWindowType));
    assert!(!window.has_menu());
}

#[test]
fn apply_onto_window_with_menu_fails_and_keeps_it() {
    let log = Rc::new(RefCell::new(Vec::new()));
    let mut first = Menu::new(31);
    first.push(MenuItem::new("Kept", None, recorder(1, &log))).unwrap();
    let mut second = Menu::new(32);
    second.push(MenuItem::new("Rejected", None, recorder(2, &log))).unwrap();

    let mut window = Window::new(RawWindow::Win32 { hwnd: 9 });
    assert_eq!(first.apply(&mut window), Ok(()));
    assert_eq!(second.apply(&mut window), Err(Error::MenuExists));
    // The window still carries the first menu, and still dispatches to it.
    assert_eq!(window.menu_handle(), Some(31));
    assert!(window.menu_command(31, 0));
    assert!(!window.menu_command(32, 0));
    assert_eq!(*log.borrow(), vec![1]);
}

#[test]
fn registered_position_invokes_exactly_that_handler_once() {
    let log = Rc::new(RefCell::new(Vec::new()));
    let mut menu = Menu::new(40);
    menu.push(MenuItem::new("A", None, recorder(0, &log))).unwrap();
    menu.push(MenuItem::new("B", None, recorder(1, &log))).unwrap();
    let mut window = Window::new(RawWindow::Win32 { hwnd: 2 });
    menu.apply(&mut window).unwrap();

    assert!(window.menu_command(40, 1));
    assert_eq!(*log.borrow(), vec![1]);
    assert!(window.menu_command(40, 0));
    assert!(window.menu_command(40, 1));
    assert_eq!(*log.borrow(), vec![1, 0, 1]);
}

#[test]
fn unregistered_positions_invoke_nothing() {
    let log = Rc::new(RefCell::new(Vec::new()));
    let mut menu = Menu::new(50);
    menu.push(MenuItem::new("A", None, recorder(0, &log))).unwrap();
    menu.push(MenuItem::separator()).unwrap();
    let mut window = Window::new(RawWindow::Win32 { hwnd: 3 });
    menu.apply(&mut window).unwrap();

    // The separator's position carries no handler.
    assert!(!window.menu_command(50, 1));
    // A position past the end carries none either.
    assert!(!window.menu_command(50, 7));
    // A menu this window does not know is ignored.
    assert!(!window.menu_command(51, 0));
    // A null source handle is ignored.
    assert!(!window.menu_command(0, 0));
    assert!(log.borrow().is_empty());
}

/// Sets a shared flag when dropped, to observe the dispatch table being freed.
struct DropFlag {
    dropped: Rc<Cell<bool>>,
}

impl Drop for DropFlag {
    fn drop(&mut self) {
        self.dropped.set(true);
    }
}

impl MenuItemHandler for DropFlag {
    fn invoke(&mut self) {}
}

#[test]
fn destroy_frees_dispatch_table_and_stops_delivery() {
    let dropped = Rc::new(Cell::new(false));
    let mut menu = Menu::new(60);
    let flag = DropFlag {
        dropped: Rc::clone(&dropped),
    };
    menu.push(MenuItem::new("A", None, flag)).unwrap();
    let mut window = Window::new(RawWindow::Win32 { hwnd: 6 });
    menu.apply(&mut window).unwrap();
    assert!(window.is_armed());
    assert!(!dropped.get());

    window.destroy();
    // The table, and with it the handler, was reclaimed ...
    assert!(!window.is_armed());
    assert!(dropped.get());
    // ... and a notification arriving afterwards is not delivered.
    assert!(!window.menu_command(60, 0));
}

#[test]
fn message_machine_routes_commands_destroy_and_others() {
    let log = Rc::new(RefCell::new(Vec::new()));
    let mut menu = Menu::new(70);
    menu.push(MenuItem::new("A", None, recorder(9, &log))).unwrap();
    let mut window = Window::new(RawWindow::Win32 { hwnd: 1 });
    menu.apply(&mut window).unwrap();

    assert_eq!(window.handle_message(WindowMessage::Other), MessageOutcome::PassThrough);
    assert_eq!(
        window.handle_message(WindowMessage::MenuCommand { source: 70, position: 0 }),
        MessageOutcome::Invoked
    );
    assert_eq!(
        window.handle_message(WindowMessage::MenuCommand { source: 70, position: 5 }),
        MessageOutcome::PassThrough
    );
    assert_eq!(window.handle_message(WindowMessage::Destroy), MessageOutcome::PassThrough);
    assert_eq!(
        window.handle_message(WindowMessage::MenuCommand { source: 70, position: 0 }),
        MessageOutcome::PassThrough
    );
    assert_eq!(*log.borrow(), vec![9]);
}
