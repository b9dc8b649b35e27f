//! Errors of the packet layer that sits on the protocol crate.
use vstd::prelude::*;
use vstd::string::*;

use crate::text::{push_decimal, push_signed_decimal, spec_decimal, spec_signed_decimal};

verus! {

/// Why a packet could not be read, decoded or encoded.
#[derive(Debug, Clone)]
pub enum ProtocolError {
    /// Reading from the connection failed; the text describes the I/O error.
    Io(String),
    /// A frame is larger than the caller allows.
    PacketTooLarge { size: usize, max_size: usize },
    /// The connection closed before a full packet arrived.
    UnexpectedEof,
    /// A handshake asks for a state that has no packet form.
    InvalidNextState(i32),
    /// A packet's bytes do not decode; the text says why.
    Decode(String),
    /// A packet could not be encoded; the text says why.
    Encode(String),
    /// A disconnect reason is not valid text JSON.
    InvalidTextJson(String),
}

/// The message of `e`, as the error is displayed.
pub open spec fn spec_protocol_error_message(e: ProtocolError) -> Seq<char> {
    match e {
        ProtocolError::Io(text) => text@,
        ProtocolError::PacketTooLarge { size, max_size } => "packet is too large: "@
            + spec_decimal(size as nat) + " bytes > "@ + spec_decimal(max_size as nat)
            + " bytes"@,
        ProtocolError::UnexpectedEof => "connection closed before a full packet arrived"@,
        ProtocolError::InvalidNextState(state) => "invalid next state: "@ + spec_signed_decimal(
            state as int,
        ),
        ProtocolError::Decode(text) => "failed to decode packet: "@ + text@,
        ProtocolError::Encode(text) => "failed to encode packet: "@ + text@,
        ProtocolError::InvalidTextJson(text) => "invalid text json: "@ + text@,
    }
}

impl ProtocolError {
    /// A decode error that carries the text of `error`.
    pub fn decode(error: &str) -> (e: Self)
        ensures
            e matches ProtocolError::Decode(text) && text@ == error@,
    {
        ProtocolError::Decode(String::from_str(error))
    }

    /// An encode error that carries the text of `error`.
    pub fn encode(error: &str) -> (e: Self)
        ensures
            e matches ProtocolError::Encode(text) && text@ == error@,
    {
        ProtocolError::Encode(String::from_str(error))
    }

    /// The error's message.
    pub fn message(&self) -> (m: String)
        ensures
            m@ == spec_protocol_error_message(*self),
    {
        let mut m = String::new();
        match self {
            ProtocolError::Io(text) => {
                m.append(text.as_str());
            },
            ProtocolError::PacketTooLarge { size, max_size } => {
                m.append("packet is too large: ");
                push_decimal(&mut m, *size as u64);
                m.append(" bytes > ");
                push_decimal(&mut m, *max_size as u64);
                m.append(" bytes");
            },
            ProtocolError::UnexpectedEof => {
                m.append("connection closed before a full packet arrived");
            },
            ProtocolError::InvalidNextState(state) => {
                m.append("invalid next state: ");
                push_signed_decimal(&mut m, *state as i64);
            },
            ProtocolError::Decode(text) => {
                m.append("failed to decode packet: ");
                m.append(text.as_str());
            },
            ProtocolError::Encode(text) => {
                m.append("failed to encode packet: ");
                m.append(text.as_str());
            },
            ProtocolError::InvalidTextJson(text) => {
                m.append("invalid text json: ");
                m.append(text.as_str());
            },
        }
        assert(m@ =~= spec_protocol_error_message(*self));
        m
    }
}

} // verus!
