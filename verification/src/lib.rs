//! Drive a QEMU virtual machine over its QMP socket and its serial console.
pub mod console;
pub mod console_laws;
pub mod error;
pub mod exchange;
pub mod exchange_laws;
pub mod json;
pub mod message_laws;
pub mod qmp;
pub mod round_trip_laws;
pub mod serial;
pub mod serial_laws;
pub mod server;
pub mod stream_laws;
pub mod text;

pub use console::{SerialReadRequest, SerialWriteRequest};
pub use server::{QMPSocket, QmpRequest};
