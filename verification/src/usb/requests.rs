//! The standard requests of a setup packet.

use vstd::prelude::*;

verus! {

/// The standard request codes a setup packet can carry.
#[derive(Clone, Copy, Debug, PartialEq, Eq, Structural)]
pub enum Request {
    GetStatus,
    ClearFeature,
    SetFeature,
    SetAddress,
    GetDescriptor,
    SetDescriptor,
    GetConfiguration,
    SetConfiguration,
    GetInterface,
    SetInterface,
    SynchFrame,
    Unknown,
}

impl Request {
    /// The request that a code stands for; codes 2, 4 and everything above 12
    /// are not assigned.
    pub open spec fn of_code(value: u8) -> Request {
        if value == 0 {
            Request::GetStatus
        } else if value == 1 {
            Request::ClearFeature
        } else if value == 3 {
            Request::SetFeature
        } else if value == 5 {
            Request::SetAddress
        } else if value == 6 {
            Request::GetDescriptor
        } else if value == 7 {
            Request::SetDescriptor
        } else if value == 8 {
            Request::GetConfiguration
        } else if value == 9 {
            Request::SetConfiguration
        } else if value == 10 {
            Request::GetInterface
        } else if value == 11 {
            Request::SetInterface
        } else if value == 12 {
            Request::SynchFrame
        } else {
            Request::Unknown
        }
    }

    /// Decodes the request byte of a setup packet.
    pub fn from_u8(value: u8) -> (request: Request)
        ensures
            request == Request::of_code(value),
    {
        match value {
            0 => Request::GetStatus,
            1 => Request::ClearFeature,
            3 => Request::SetFeature,
            5 => Request::SetAddress,
            6 => Request::GetDescriptor,
            7 => Request::SetDescriptor,
            8 => Request::GetConfiguration,
            9 => Request::SetConfiguration,
            10 => Request::GetInterface,
            11 => Request::SetInterface,
            12 => Request::SynchFrame,
            _ => Request::Unknown,
        }
    }
}

} // verus!
