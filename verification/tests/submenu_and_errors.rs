//! Submenu absorption, error values, and item display states.

use std::cell::RefCell;
use std::rc::Rc;

use menubar::Error;
use menubar::Menu;
use menubar::MenuItem;
use menubar::MenuItemHandler;
use menubar::MenuItemState;
use menubar::NotProperWindow;
use menubar::RawWindow;
use menubar::Window;

/// Appends its label to a shared log each time it is invoked.
struct Recorder {
    label: u32,
    log: Rc<RefCell<Vec<u32>>>,
}

impl MenuItemHandler for Recorder {
    fn invoke(&mut self) {
        self.log.borrow_mut().push(self.label);
    }
}

fn recorder(label: u32, log: &Rc<RefCell<Vec<u32>>>) -> Recorder {
    Recorder {
        label,
        log: Rc::clone(log),
    }
}

#[test]
fn absorbed_submenu_handlers_stay_reachable() {
    let log = Rc::new(RefCell::new(Vec::new()));

    let mut submenu = Menu::new_popup(90);
    submenu.push(MenuItem::new("Sub A", None, recorder(10, &log))).unwrap();
    submenu.push(MenuItem::separator()).unwrap();
    submenu.push(MenuItem::new("Sub B", None, recorder(11, &log))).unwrap();

    let mut parent = Menu::new(80);
    parent.push(MenuItem::new("Top", None, recorder(1, &log))).unwrap();
    parent.push(MenuItem::submenu("More", submenu)).unwrap();
    assert_eq!(parent.len(), 2);

    let mut window = Window::new(RawWindow::Win32 { hwnd: 12 });
    parent.apply(&mut window).unwrap();

    // Handlers registered in the submenu keep their positions, keyed by the
    // submenu's own handle, and dispatch through the parent's table.
    assert!(window.menu_command(90, 0));
    assert!(!window.menu_command(90, 1));
    assert!(window.menu_command(90, 2));
    assert!(window.menu_command(80, 0));
    assert_eq!(*log.borrow(), vec![10, 11, 1]);
}

#[test]
fn nested_submenus_merge_all_tables() {
    let log = Rc::new(RefCell::new(Vec::new()));

    let mut inner = Menu::new_popup(101);
    inner.push(MenuItem::new("Deep", None, recorder(30, &log))).unwrap();

    let mut middle = Menu::new_popup(102);
    middle.push(MenuItem::new("Mid", None, recorder(20, &log))).unwrap();
    middle.push(MenuItem::submenu("Inner", inner)).unwrap();

    let mut top = Menu::new(103);
    top.push(MenuItem::submenu("Middle", middle)).unwrap();

    let mut window = Window::new(RawWindow::Win32 { hwnd: 13 });
    top.apply(&mut window).unwrap();

    assert!(window.menu_command(101, 0));
    assert!(window.menu_command(102, 0));
    assert_eq!(*log.borrow(), vec![30, 20]);
}

#[test]
fn os_error_reports_its_code() {
    assert_eq!(Error::Os { code: 5 }.os_code(), Some(5));
    assert_eq!(Error::MenuExists.os_code(), None);
    assert_eq!(Error::UnexpectedWindowType.os_code(), None);
}

#[test]
fn error_values_are_distinguishable() {
    assert_ne!(Error::MenuExists, Error::UnexpectedWindowType);
    assert_ne!(Error::Os { code: 1 }, Error::Os { code: 2 });
    assert_eq!(Error::Os { code: 3 }, Error::Os { code: 3 });
}

#[test]
fn not_proper_window_describes_itself() {
    assert_eq!(NotProperWindow.message(), "the given window is not a proper window");
}

#[test]
fn item_state_converts_to_native_values() {
    assert_eq!(MenuItemState::On.to_raw(), 1);
    assert_eq!(MenuItemState::Mixed.to_raw(), -1);
    assert_eq!(MenuItemState::Off.to_raw(), 0);
}

#[test]
fn item_state_converts_from_native_values() {
    assert_eq!(MenuItemState::from_raw(1), Some(MenuItemState::On));
    assert_eq!(MenuItemState::from_raw(-1), Some(MenuItemState::Mixed));
    assert_eq!(MenuItemState::from_raw(0), Some(MenuItemState::Off));
    assert_eq!(MenuItemState::from_raw(7), None);
    assert_eq!(MenuItemState::from_raw(-2), None);
}
