//! # MCPE MOTD
//!
//! Queries a Minecraft Bedrock server with a RakNet unconnected ping and decodes
//! the unconnected pong that it sends back: the fixed header, then the
//! semicolon-delimited server id string with its per-field fallback rules.
//!
//! The library holds the wire format and the decoding; sending the datagram and
//! waiting for the reply is left to the caller, who hands the received bytes in.

pub mod error;
pub mod packet;
pub mod status;

pub use error::{MotdError, MotdErrorCode};
pub use packet::{
    decode_unconnected_pong, fetch_server_id_string, unconnected_ping, UnconnectedPong, MAGIC,
    PING_LEN, PONG_HEADER_LEN,
};
pub use status::{parse_server_id_string, split_server_id_string, ServerIdStringParsed, DEFAULT_PORT};
