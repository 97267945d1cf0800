//! What the operations do, told by what goes into them and what comes out: each law
//! speaks of calls and their results, and of nothing in between.

pub mod buffers;
pub mod channels;
pub mod connecting;
pub mod datagrams;
pub mod inputs;
pub mod listening;
pub mod packets;
pub mod reading;
pub mod texts;
pub mod writing;
