//! The field checks of CONNACK messages.
use vstd::prelude::*;
use crate::packets::ConAck;

verus! {

/// Why a CONNACK is not accepted.
#[derive(Clone, Copy, Debug, PartialEq, Eq, Structural)]
pub enum ConnAckError {
    /// The gateway refused the connection with this return code.
    ConnAckRejection(u8),
    /// The return code is not one MQTT-SN defines.
    ConnAckUnknownCode(u8),
    /// The message is not a CONNACK.
    ConnAckWrongMessageType(u8),
}

impl ConAck {
    /// Every length byte is accepted.
    pub fn constraint_len(_val: &u8) -> (r: bool)
        ensures
            r,
    {
        true
    }

    /// Checks a CONNACK code: codes 0 to 3 are reported as rejections and every other code
    /// as unknown, so no code is accepted.
    pub fn constraint_msg_type(val: &u8) -> (r: Result<(), ConnAckError>)
        ensures
            *val <= 3 ==> r == Err::<(), ConnAckError>(ConnAckError::ConnAckRejection(*val)),
            *val > 3 ==> r == Err::<(), ConnAckError>(ConnAckError::ConnAckUnknownCode(*val)),
    {
        if *val <= 3 {
            Err(ConnAckError::ConnAckRejection(*val))
        } else {
            Err(ConnAckError::ConnAckUnknownCode(*val))
        }
    }

    /// Every return code byte is accepted.
    pub fn constraint_return_code(_val: &u8) -> (r: bool)
        ensures
            r,
    {
        true
    }
}

} // verus!
