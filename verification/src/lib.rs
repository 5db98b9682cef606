//! Window control for a desktop application shell: always-on-top, opacity,
//! click-through, size reset and window info.
//!
//! The window itself belongs to the window manager and is reached through
//! the host application. This library holds what the commands decide: which
//! native calls a command makes and in what order, what it does with their
//! answers, which alpha channel an opacity becomes, and which extended style
//! bits a command sets or clears. Every function comes with a contract that
//! says what it returns, and with a proof that it does.
//!
//! - [`commands`]: the five commands.
//! - [`protocol`]: calls, answers and steps, which commands and host exchange.
//! - [`opacity`]: from a requested opacity to an alpha channel.
//! - [`style`]: the extended window style bits.
//! - [`info`]: what a window reports of itself, and its JSON form.
//! - [`json`]: what is taken on trust of the `serde_json` crate.
//! - [`laws`]: what holds of the commands whatever the window manager does.

pub mod commands;
pub mod info;
pub mod json;
pub mod laws;
pub mod opacity;
pub mod protocol;
pub mod style;
