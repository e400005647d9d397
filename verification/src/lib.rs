//! A client library for the syslog protocol: it formats log records in the
//! legacy (RFC 3164 style) or structured (RFC 5424 style) wire format and
//! hands each finished line to a transport chosen at construction time.
#![allow(non_camel_case_types)]

mod clock;
pub mod digits;
pub mod facility;
pub mod line;
pub mod priority;
pub mod severity;
pub mod syslog;
pub mod transport;

pub use facility::Facility;
pub use severity::Severity;
pub use syslog::Syslog;
pub use transport::MemTransport;
pub use transport::SendError;
pub use transport::Transport;
