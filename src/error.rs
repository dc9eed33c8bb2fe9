use vstd::prelude::*;
use vstd::string::*;

verus! {

/// Enumerates the possible errors you can get.
#[derive(Debug, Clone, Copy, PartialEq, Eq, Structural)]
pub enum MotdErrorCode {
    /// The local datagram socket could not be bound to an ephemeral port.
    CantBind,
    /// The ping could not be sent to the target server.
    CantSendTo,
    /// No reply could be received from the target server.
    CantReceive,
    /// The target server did not answer in time.
    Timeout,
    /// The reply is shorter than its fixed header or its declared server id string.
    Truncated,
    /// Minecraft requires at least 4 fields: edition, motd, protocol_version, version_name.
    ServerIdStringTooSmall,
    /// The protocol_version field is present but is not a valid i16.
    CantParseProtocolVersion,
    /// The player_count field is present but is not a valid i32.
    CantParsePlayerCount,
    /// The max_player_count field is present but is not a valid i32.
    CantParsePlayerMaxCount,
    /// The gamemode_numeric field is present but is not a valid u8.
    CantParseGameModeNum,
    /// The port_v4 field is present but is not a valid u16.
    CantParsePort4,
    /// The port_v6 field is present but is not a valid u16.
    CantParsePort6,
}

/// Custom error type.
#[derive(Debug)]
pub struct MotdError {
    /// Error code.
    pub code: MotdErrorCode,
    /// More detailed info about an error.
    pub message: String,
}

impl MotdError {
    /// An error of the given kind, with the standard message for that kind.
    pub fn new(code: MotdErrorCode) -> (r: MotdError)
        ensures
            r.code == code,
    {
        let message = match code {
            MotdErrorCode::CantBind => "Couldn't bind to 0.0.0.0:0",
            MotdErrorCode::CantSendTo => "Couldn't send the ping to the target server",
            MotdErrorCode::CantReceive => "Couldn't receive a reply from the target server",
            MotdErrorCode::Timeout => "The target server didn't reply in time",
            MotdErrorCode::Truncated => "Reply is shorter than the unconnected pong layout requires",
            MotdErrorCode::ServerIdStringTooSmall => "Server id string has less than 4 required fields",
            MotdErrorCode::CantParseProtocolVersion => "Couldn't parse protocol_version field from server id string",
            MotdErrorCode::CantParsePlayerCount => "Couldn't parse player_count field from server id string",
            MotdErrorCode::CantParsePlayerMaxCount => "Couldn't parse max_player_count field from server id string",
            MotdErrorCode::CantParseGameModeNum => "Couldn't parse gamemode_numeric field from server id string",
            MotdErrorCode::CantParsePort4 => "Couldn't parse port_v4 field from server id string",
            MotdErrorCode::CantParsePort6 => "Couldn't parse port_v6 field from server id string",
        };
        MotdError { code, message: String::from_str(message) }
    }
}

} // verus!
