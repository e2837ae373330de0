//! The states of an MQTT-SN client as both ends of a connection track it.
use vstd::prelude::*;

verus! {

/// The state of an MQTT-SN client.
#[allow(non_camel_case_types)]
#[derive(Clone, Copy, Debug, PartialEq, Eq, Structural, Hash)]
pub enum StateEnum {
    ACTIVE,
    DISCONNECTED,
    ASLEEP,
    AWAKE,
    LOST,
}

} // verus!
