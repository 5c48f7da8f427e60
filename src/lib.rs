//! Window and tray controller of a small desktop shell.
//!
//! The host windowing environment reports events (a close request, a tray
//! menu selection, a click on the tray icon); the controller decides the
//! commands to issue back (show, hide, focus, position, exit) and keeps a
//! model of the windows' visibility.
pub mod shell;
pub mod text;
pub mod tray;
pub mod window;
