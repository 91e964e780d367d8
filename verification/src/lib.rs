//! Verified core of a native webview launcher.
//!
//! A launcher receives the address to show as raw bytes from a foreign caller,
//! opens one window with a web view on that address, and pumps the window's
//! events until the user asks to close it. Opening windows and pumping events
//! is the windowing toolkit's business; what the launcher itself decides is
//! small, and it is all here:
//!
//! * [`address`] turns the caller's bytes into the text handed to the web view;
//! * [`lifecycle`] decides, event by event, whether the loop keeps waiting or
//!   exits.
//!
//! Every function is total: none panics, and none needs more of its caller
//! than the types say.

pub mod address;
pub mod lifecycle;
