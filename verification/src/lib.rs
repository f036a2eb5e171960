//! Keeps a computer awake. The library holds the decisions of the three
//! platform front ends, each verified: the Windows tray icon (window
//! messages, the tray menu, reading and writing the lid-close action with
//! `powercfg`), the macOS menu-bar item (power assertions, `pmset`, the menu)
//! and the Linux command-line run (`systemd-inhibit` locks, the display, the
//! question about the lid), together with the text handling they share.
pub mod linux;
pub mod macos;
pub mod text;
pub mod windows;
