//! Verified core of a Wayland key-press display: the message format spoken
//! between the unprivileged client and its root helper, the helper's request
//! rules, credential handling, and the state machine that decides what the
//! overlay shows and when it is redrawn.

pub mod text;
pub mod wire;
pub mod helper;
pub mod root_utils;
pub mod cairo_utils;
pub mod wsk;
pub mod libinput_stuff;
pub mod wayland_utils;
