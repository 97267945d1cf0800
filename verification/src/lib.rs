//! The connection logic of a user-space TCP/IP stack driven through lwIP.
//!
//! lwIP itself is called from outside this crate. Every function here is given
//! what lwIP answered and says what is to be called next, what is handed to the
//! reader and what is reported to the caller.

pub mod addr;
pub mod calls;
pub mod connect;
pub mod error;
pub mod laws;
pub mod pbuf;
pub mod read_item;
pub mod stack;
pub mod sync;
pub mod tcp_args;
pub mod tcp_listener;
pub mod tcp_read;
pub mod tcp_stream;
pub mod tcp_write;
pub mod udp;
