//! Client-side handle for label printers reached through a byte transport.
//!
//! A [`PTouchPrinter`] owns a transport, any [`PTouchInterface`], and offers
//! `write` and `flush` on it, either handing each write on at once or
//! collecting writes until the next flush. Opening a connection is left to
//! the caller; [`from_addr`] builds the handle from what that gave.

pub mod address;
pub mod error;
pub mod interface;
pub mod printer;
pub mod tcp;

pub use address::{IpAddress, SocketAddress};
pub use error::Error;
pub use interface::{Call, CallLog, PTouchInterface};
pub use printer::{from_addr, PTouchPrinter, PrinterView};
