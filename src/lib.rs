//! A safety layer between application callbacks and a host plugin runtime
//! that only knows untyped function pointers and opaque context tokens.
//!
//! Callback records are handed to the host through a [`registry::Registry`]:
//! leaking a record yields a token the host keeps as its opaque context,
//! dispatching borrows the record for one event, and releasing reclaims it
//! exactly once. Application code supplies its callbacks as payload types
//! that implement one trait per event category.
//!
//! Every call into the host is made through a function value passed by the
//! caller (`host_hook_timer`, `host_unhook`, ...), so that the host's entry
//! points stay outside this crate; the adapters the host calls back are plain
//! functions from the token and the event's values to the host's status code.

pub mod bar;
pub mod buffer;
pub mod completion;
pub mod config;
pub mod config_options;
pub mod hooks;
pub mod infolist;
pub mod plugin;
pub mod registry;
pub mod status;
pub mod strings;
pub mod weechat;
