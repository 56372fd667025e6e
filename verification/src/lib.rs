//! Terminal client for TickTick: the verified core.
//!
//! The state of the terminal interface and its transitions (`app`, `ui`), the
//! OAuth PKCE rules (`oauth`), the TickTick API rules (`ticktick`) and the URL
//! and HTTP reply rules they share (`web`) live here.
//! Network I/O, the terminal and the HTTP callback server live in `app/`.

pub mod app;
pub mod oauth;
pub mod ui;
pub mod web;
pub mod ticktick;
