//! Light: the state and rules of a small tabbed web browser.
//!
//! Tabs, bookmarks, settings, keyboard shortcuts, address-bar input and the
//! HTML of the browser chrome are modelled here with their contracts; the
//! window, the webviews and the files on disk are driven by the program that
//! uses this library.

pub mod text;
pub mod bookmarks;
pub mod tab;
pub mod url;
pub mod keys;
pub mod settings;
pub mod bookmarks_page;
pub mod chrome;
pub mod navbar;
pub mod settings_page;
pub mod ipc;
pub mod browser;
pub mod page_script;
pub mod screen;
