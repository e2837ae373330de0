//! MQTT-SN messages, client and gateway state machines, and the time and
//! configuration helpers that go with them.
use vstd::prelude::*;

pub mod buffer;
pub mod calendar;
pub mod client;
pub mod client_machine;
pub mod con_ack;
pub mod cookie;
pub mod duration;
pub mod gateway;
pub mod guards;
pub mod log_config;
pub mod macro_input;
pub mod message_db;
pub mod msg_type;
pub mod packets;
pub mod state;
pub mod text;
pub mod time_error;
pub mod topics;
pub mod transfer;

verus! {

} // verus!
