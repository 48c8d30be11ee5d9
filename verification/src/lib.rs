//! Core model of a native menu-bar library: menu construction, window
//! attachment, and the per-window command-dispatch table.
//!
//! A menu owns an opaque native handle and a table mapping
//! `(menu handle, item position)` keys to registered item handlers.  Applying
//! the menu to a window transfers both to the window, after which
//! menu-command notifications delivered to the window invoke the handler
//! registered for the reported position.  The platform-facing glue (the actual
//! system calls and the message-loop trampoline) lives outside this crate and
//! feeds plain handle values and events into the functions defined here.

pub mod dispatch;
pub mod error;
pub mod handler;
pub mod menu;
pub mod window;

pub use dispatch::DispatchMap;
pub use dispatch::EntryModel;
pub use dispatch::ItemKey;
pub use error::Error;
pub use error::NotProperWindow;
pub use handler::Empty;
pub use handler::MenuItemHandler;
pub use handler::MenuItemState;
pub use menu::Hotkey;
pub use menu::ItemDesc;
pub use menu::Menu;
pub use menu::MenuItem;
pub use window::MessageOutcome;
pub use window::RawWindow;
pub use window::Window;
pub use window::WindowMessage;
