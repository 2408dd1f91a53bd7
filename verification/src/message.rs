use vstd::prelude::*;
use crate::error::Error;

verus! {

/// The closed set of request/response kinds the protocol defines.  Each kind
/// is bound to a fixed integer wire identifier, its ordinal; the registry
/// below maps in both directions.
#[derive(Copy, Clone, Debug, PartialEq, Eq, Structural)]
pub enum MessageType {
    RunCommand,
    GetWorkspaces,
    Subscribe,
    GetOutputs,
    GetTree,
    GetMarks,
    GetBarConfig,
    GetVersion,
    GetBindingModes,
    GetConfig,
    SendTick,
    I3Sync,
}

/// The ordinal wired for each message kind.
pub open spec fn ordinal_of(t: MessageType) -> u32 {
    match t {
        MessageType::RunCommand => 0,
        MessageType::GetWorkspaces => 1,
        MessageType::Subscribe => 2,
        MessageType::GetOutputs => 3,
        MessageType::GetTree => 4,
        MessageType::GetMarks => 5,
        MessageType::GetBarConfig => 6,
        MessageType::GetVersion => 7,
        MessageType::GetBindingModes => 8,
        MessageType::GetConfig => 9,
        MessageType::SendTick => 10,
        MessageType::I3Sync => 11,
    }
}

/// The message kind wired for each ordinal; `None` outside the defined range.
pub open spec fn kind_of_ordinal(n: u32) -> Option<MessageType> {
    if n == 0 {
        Some(MessageType::RunCommand)
    } else if n == 1 {
        Some(MessageType::GetWorkspaces)
    } else if n == 2 {
        Some(MessageType::Subscribe)
    } else if n == 3 {
        Some(MessageType::GetOutputs)
    } else if n == 4 {
        Some(MessageType::GetTree)
    } else if n == 5 {
        Some(MessageType::GetMarks)
    } else if n == 6 {
        Some(MessageType::GetBarConfig)
    } else if n == 7 {
        Some(MessageType::GetVersion)
    } else if n == 8 {
        Some(MessageType::GetBindingModes)
    } else if n == 9 {
        Some(MessageType::GetConfig)
    } else if n == 10 {
        Some(MessageType::SendTick)
    } else if n == 11 {
        Some(MessageType::I3Sync)
    } else {
        None
    }
}

impl MessageType {
    /// The ordinal this kind is sent with on the wire.
    pub fn to_u32(self) -> (n: u32)
        ensures
            n == ordinal_of(self),
    {
        match self {
            MessageType::RunCommand => 0,
            MessageType::GetWorkspaces => 1,
            MessageType::Subscribe => 2,
            MessageType::GetOutputs => 3,
            MessageType::GetTree => 4,
            MessageType::GetMarks => 5,
            MessageType::GetBarConfig => 6,
            MessageType::GetVersion => 7,
            MessageType::GetBindingModes => 8,
            MessageType::GetConfig => 9,
            MessageType::SendTick => 10,
            MessageType::I3Sync => 11,
        }
    }

    /// Resolves a received ordinal to its message kind; every ordinal outside
    /// the defined range is rejected with `UnknownType`.
    pub fn from_u32(msg_type: u32) -> (r: Result<MessageType, Error>)
        ensures
            msg_type <= 11 ==> (r matches Ok(t) && kind_of_ordinal(msg_type) == Some(t)),
            msg_type > 11 ==> (r matches Err(e) && e is UnknownType),
    {
        match msg_type {
            0 => Ok(MessageType::RunCommand),
            1 => Ok(MessageType::GetWorkspaces),
            2 => Ok(MessageType::Subscribe),
            3 => Ok(MessageType::GetOutputs),
            4 => Ok(MessageType::GetTree),
            5 => Ok(MessageType::GetMarks),
            6 => Ok(MessageType::GetBarConfig),
            7 => Ok(MessageType::GetVersion),
            8 => Ok(MessageType::GetBindingModes),
            9 => Ok(MessageType::GetConfig),
            10 => Ok(MessageType::SendTick),
            11 => Ok(MessageType::I3Sync),
            _ => Err(Error::UnknownType),
        }
    }
}

/// The registry is a bijection between the twelve kinds and the ordinals
/// `0..=11`: every kind's ordinal resolves back to the same kind, every valid
/// ordinal's kind is wired back to the same ordinal, and no kind's ordinal
/// leaves the valid range.
pub proof fn lemma_registry_bijective(t: MessageType, n: u32)
    ensures
        ordinal_of(t) <= 11,
        kind_of_ordinal(ordinal_of(t)) == Some(t),
        n <= 11 ==> (kind_of_ordinal(n) matches Some(u) && ordinal_of(u) == n),
{
}

} // verus!
