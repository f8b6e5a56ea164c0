//! Acknowledgement messages.

use vstd::prelude::*;

verus! {

/// Why a message could not be made.
#[derive(Clone, Copy, Debug, PartialEq, Eq, Structural)]
pub enum MessageError {
    /// More than three bytes of group function value were given.
    TooManyControlBytes,
}

/// What an acknowledgement says.
#[derive(Clone, Copy, Debug, PartialEq, Eq, Structural)]
pub enum AckKind {
    /// Positive acknowledgement.
    Positive,
    /// Negative acknowledgement.
    Negative,
    /// Access denied.
    AccessDenied,
    /// Cannot respond.
    CannotRespond,
    /// Don't care/take no action.
    NoAction,
}

/// An acknowledgement of a request.
#[derive(Clone, Copy, Debug)]
pub struct Ack<'a> {
    pub kind: AckKind,
    pub control_byte: u8,
    pub group_function_value: &'a [u8],
    pub address_acknowledged: u8,
    pub pgn_of_request: u32,
}

/// The control byte of a positive acknowledgement that carries `len` bytes
/// of group function value, where it can carry that many.
pub open spec fn positive_control_byte(len: nat) -> Option<u8> {
    if len == 0 {
        Some(0u8)
    } else if len == 1 {
        Some(128u8)
    } else if len == 2 {
        Some(144u8)
    } else if len == 3 {
        Some(160u8)
    } else {
        None
    }
}

impl<'a> Ack<'a> {
    /// A positive acknowledgement to the node at `address_acknowledged` of
    /// its request for the parameter group `pgn_of_request`. It carries at
    /// most three bytes of group function value.
    pub fn new_positive(
        address_acknowledged: u8,
        pgn_of_request: u32,
        group_function_value: &'a [u8],
    ) -> (result: Result<Self, MessageError>)
        ensures
            match result {
                Ok(ack) => {
                    &&& ack.kind == AckKind::Positive
                    &&& positive_control_byte(group_function_value@.len()) == Some(
                        ack.control_byte,
                    )
                    &&& ack.group_function_value@ == group_function_value@
                    &&& ack.address_acknowledged == address_acknowledged
                    &&& ack.pgn_of_request == pgn_of_request
                },
                Err(error) => {
                    &&& error == MessageError::TooManyControlBytes
                    &&& group_function_value@.len() > 3
                },
            },
    {
        let control_byte: u8 = match group_function_value.len() {
            0 => 0,
            1 => 128,
            2 => 144,
            3 => 160,
            _ => {
                return Err(MessageError::TooManyControlBytes);
            },
        };

        Ok(
            Self {
                kind: AckKind::Positive,
                control_byte,
                group_function_value,
                address_acknowledged,
                pgn_of_request,
            },
        )
    }
}

} // verus!
