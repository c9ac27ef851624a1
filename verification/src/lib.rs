//! A windowing core: the per-window lifecycle, event bridging and
//! cross-thread command protocol behind a native window, stated and
//! verified as a pure state machine over plain values.
//!
//! The operating-system calls themselves (window creation, message
//! retrieval, menu and cursor manipulation) live in an unverified shell
//! around this crate; every decision the shell must act on is computed
//! here, under contract.

pub mod codec;
pub mod dispatch;
pub mod error;
pub mod event;
pub mod lifecycle;
pub mod monitor;
pub mod probe;
pub mod userdata;
pub mod util;
pub mod window;
