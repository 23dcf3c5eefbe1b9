//! Core of a local relay: a command-line initiator binds an ephemeral TCP
//! listener, asks an external launcher to start a companion peer, and then
//! serves the peer's connections. Each connection opens with a one-byte type
//! tag (control, input or output) and continues with length-prefixed UTF-8
//! frames and raw byte copies. This crate holds the verified protocol logic:
//! the frame codec, the connection dispatcher, the control-session state
//! machine, the relay-path classification, and the launcher argument
//! encoding. The unverified shell around it performs the actual socket,
//! file and process work.

pub mod control;
pub mod decimal;
pub mod dispatch;
pub mod error;
pub mod frame;
pub mod launch;
pub mod relay;
