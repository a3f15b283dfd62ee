//! The framed protocol spoken with the remote proxy.
//!
//! A message is a big-endian `u16` code from a closed set. The hello frame that
//! opens every reverse-connection is a big-endian `u16` version followed by the
//! fixed-width authentication token.
use vstd::prelude::*;
use vstd::utf8::{decode_utf8, encode_utf8, valid_utf8};

verus! {

/// Width in bytes of the authentication token carried by the hello frame.
pub const AUTH_TOKEN_LENGTH: usize = 80;

/// Protocol version written in every hello frame.
pub const PROTOCOL_VERSION: u16 = 1;

/// Width in bytes of a message frame.
pub const MESSAGE_LEN: usize = 2;

/// Width in bytes of a hello frame: the version and the token.
pub const HELLO_LEN: usize = 82;

/// The closed set of messages exchanged after the hello frame.
#[derive(Debug, Clone, Copy, PartialEq, Eq, Structural)]
pub enum ProxyConnectionMessage {
    AuthOk,
    AuthFailed,
    Ping,
    Pong,
    DataHome,
    DataVscode,
    DataSsh,
}

/// Why a frame could not be decoded.
#[derive(Debug, Clone, Copy, PartialEq, Eq, Structural)]
pub enum FrameError {
    /// The frame does not have the width its kind requires.
    Truncated,
    /// The code is not one of the closed set of messages.
    UnknownFrame(u16),
    /// The token of a hello frame is not valid UTF-8.
    BadFrame,
}

/// A decoded hello frame.
#[derive(Debug)]
pub struct ProxyConnectionHello {
    pub version: u16,
    pub connection_token: String,
}

/// The wire code of each message.
pub open spec fn spec_code(m: ProxyConnectionMessage) -> u16 {
    match m {
        ProxyConnectionMessage::AuthOk => 0x1111,
        ProxyConnectionMessage::AuthFailed => 0x2222,
        ProxyConnectionMessage::Ping => 0x3333,
        ProxyConnectionMessage::Pong => 0x4444,
        ProxyConnectionMessage::DataHome => 0x5555,
        ProxyConnectionMessage::DataVscode => 0x5556,
        ProxyConnectionMessage::DataSsh => 0x5557,
    }
}

/// The message whose wire code is `c`, if there is one.
pub open spec fn spec_message_of(c: u16) -> Option<ProxyConnectionMessage> {
    if c == 0x1111 {
        Some(ProxyConnectionMessage::AuthOk)
    } else if c == 0x2222 {
        Some(ProxyConnectionMessage::AuthFailed)
    } else if c == 0x3333 {
        Some(ProxyConnectionMessage::Ping)
    } else if c == 0x4444 {
        Some(ProxyConnectionMessage::Pong)
    } else if c == 0x5555 {
        Some(ProxyConnectionMessage::DataHome)
    } else if c == 0x5556 {
        Some(ProxyConnectionMessage::DataVscode)
    } else if c == 0x5557 {
        Some(ProxyConnectionMessage::DataSsh)
    } else {
        None
    }
}

/// Whether a message activates a pending connection.
pub open spec fn is_activation(m: ProxyConnectionMessage) -> bool {
    m == ProxyConnectionMessage::DataHome || m == ProxyConnectionMessage::DataVscode
        || m == ProxyConnectionMessage::DataSsh
}

/// The two big-endian bytes of `v`.
pub open spec fn be_bytes(v: u16) -> Seq<u8> {
    seq![(v / 256) as u8, (v % 256) as u8]
}

/// The `u16` whose big-endian bytes open `b`.
pub open spec fn be_u16(b: Seq<u8>) -> u16
    recommends
        b.len() >= 2,
{
    (b[0] as int * 256 + b[1] as int) as u16
}

/// The frame that carries message `m`.
pub open spec fn spec_encode_message(m: ProxyConnectionMessage) -> Seq<u8> {
    be_bytes(spec_code(m))
}

/// What decoding a message frame gives.
pub open spec fn spec_decode_message(b: Seq<u8>) -> Result<ProxyConnectionMessage, FrameError> {
    if b.len() != MESSAGE_LEN {
        Err(FrameError::Truncated)
    } else {
        match spec_message_of(be_u16(b)) {
            Some(m) => Ok(m),
            None => Err(FrameError::UnknownFrame(be_u16(b))),
        }
    }
}

/// The hello frame that carries `token`.
pub open spec fn spec_encode_hello(token: Seq<char>) -> Seq<u8> {
    be_bytes(PROTOCOL_VERSION) + encode_utf8(token)
}

/// What decoding a hello frame gives: the version and the token's characters.
pub open spec fn spec_decode_hello(b: Seq<u8>) -> Result<(u16, Seq<char>), FrameError> {
    if b.len() != HELLO_LEN {
        Err(FrameError::Truncated)
    } else if !valid_utf8(b.subrange(2, HELLO_LEN as int)) {
        Err(FrameError::BadFrame)
    } else {
        Ok((be_u16(b), decode_utf8(b.subrange(2, HELLO_LEN as int))))
    }
}

impl ProxyConnectionMessage {
    /// The wire code of this message.
    pub fn code(&self) -> (r: u16)
        ensures
            r == spec_code(*self),
    {
        match self {
            ProxyConnectionMessage::AuthOk => 0x1111,
            ProxyConnectionMessage::AuthFailed => 0x2222,
            ProxyConnectionMessage::Ping => 0x3333,
            ProxyConnectionMessage::Pong => 0x4444,
            ProxyConnectionMessage::DataHome => 0x5555,
            ProxyConnectionMessage::DataVscode => 0x5556,
            ProxyConnectionMessage::DataSsh => 0x5557,
        }
    }

    /// The message whose wire code is `c`; any other code is a protocol violation.
    pub fn from_code(c: u16) -> (r: Result<ProxyConnectionMessage, FrameError>)
        ensures
            r == (match spec_message_of(c) {
                Some(m) => Ok(m),
                None => Err(FrameError::UnknownFrame(c)),
            }),
    {
        if c == 0x1111 {
            Ok(ProxyConnectionMessage::AuthOk)
        } else if c == 0x2222 {
            Ok(ProxyConnectionMessage::AuthFailed)
        } else if c == 0x3333 {
            Ok(ProxyConnectionMessage::Ping)
        } else if c == 0x4444 {
            Ok(ProxyConnectionMessage::Pong)
        } else if c == 0x5555 {
            Ok(ProxyConnectionMessage::DataHome)
        } else if c == 0x5556 {
            Ok(ProxyConnectionMessage::DataVscode)
        } else if c == 0x5557 {
            Ok(ProxyConnectionMessage::DataSsh)
        } else {
            Err(FrameError::UnknownFrame(c))
        }
    }

    /// Whether this message activates a pending connection.
    pub fn is_data(&self) -> (r: bool)
        ensures
            r == is_activation(*self),
    {
        match self {
            ProxyConnectionMessage::DataHome => true,
            ProxyConnectionMessage::DataVscode => true,
            ProxyConnectionMessage::DataSsh => true,
            _ => false,
        }
    }
}

/// Appends the big-endian bytes of `v` to `out`.
fn push_be_u16(out: &mut Vec<u8>, v: u16)
    ensures
        final(out)@ == old(out)@ + be_bytes(v),
{
    out.push((v / 256) as u8);
    out.push((v % 256) as u8);
    assert(final(out)@ =~= old(out)@ + be_bytes(v));
}

/// Reads the big-endian `u16` at the start of `b`.
fn read_be_u16(b: &[u8]) -> (r: u16)
    requires
        b@.len() >= 2,
    ensures
        r == be_u16(b@),
{
    let hi = b[0] as u16;
    let lo = b[1] as u16;
    hi * 256 + lo
}

/// The frame that carries `message`.
pub fn encode_message(message: ProxyConnectionMessage) -> (r: Vec<u8>)
    ensures
        r@ == spec_encode_message(message),
{
    let mut out: Vec<u8> = Vec::new();
    push_be_u16(&mut out, message.code());
    assert(out@ =~= spec_encode_message(message));
    out
}

/// Decodes a message frame: exactly two bytes holding a code of the closed set.
pub fn decode_message(frame: &[u8]) -> (r: Result<ProxyConnectionMessage, FrameError>)
    ensures
        r == spec_decode_message(frame@),
{
    if frame.len() != MESSAGE_LEN {
        return Err(FrameError::Truncated);
    }
    let code = read_be_u16(frame);
    ProxyConnectionMessage::from_code(code)
}

/// Relies on std::str::from_utf8: it accepts exactly the valid UTF-8 byte
/// strings, and decodes them.
#[verifier::external_body]
fn utf8_text(b: &[u8]) -> (r: Option<String>)
    ensures
        r.is_some() == valid_utf8(b@),
        r matches Some(s) ==> s@ == decode_utf8(b@),
{
    match std::str::from_utf8(b) {
        Ok(s) => Some(s.to_string()),
        Err(_) => None,
    }
}

/// The hello frame that opens a reverse-connection: the protocol version, then
/// the token's bytes, with no length prefix.
pub fn encode_hello(connection_token: &str) -> (r: Vec<u8>)
    ensures
        r@ == spec_encode_hello(connection_token@),
{
    let mut out: Vec<u8> = Vec::new();
    push_be_u16(&mut out, PROTOCOL_VERSION);
    out.extend_from_slice(connection_token.as_bytes());
    assert(out@ =~= spec_encode_hello(connection_token@));
    out
}

/// Decodes a hello frame: exactly the version and the token, whose bytes must
/// be valid UTF-8.
pub fn decode_hello(frame: &[u8]) -> (r: Result<ProxyConnectionHello, FrameError>)
    ensures
        match spec_decode_hello(frame@) {
            Ok((v, t)) => r matches Ok(h) && h.version == v && h.connection_token@ == t,
            Err(e) => r matches Err(e2) && e2 == e,
        },
{
    if frame.len() != HELLO_LEN {
        return Err(FrameError::Truncated);
    }
    let version = read_be_u16(frame);
    let token_bytes = vstd::slice::slice_subrange(frame, 2, HELLO_LEN);
    assert(token_bytes@ =~= frame@.subrange(2, HELLO_LEN as int));
    match utf8_text(token_bytes) {
        Some(connection_token) => Ok(ProxyConnectionHello { version, connection_token }),
        None => Err(FrameError::BadFrame),
    }
}

/// Every message survives a write followed by a read.
pub proof fn lemma_message_round_trip(m: ProxyConnectionMessage)
    ensures
        spec_decode_message(spec_encode_message(m)) == Ok::<ProxyConnectionMessage, FrameError>(m),
{
}

/// A hello frame written with a token of the fixed width reads back as the
/// protocol version and that same token.
pub proof fn lemma_hello_round_trip(token: Seq<char>)
    requires
        encode_utf8(token).len() == AUTH_TOKEN_LENGTH,
    ensures
        spec_decode_hello(spec_encode_hello(token)) == Ok::<(u16, Seq<char>), FrameError>(
            (PROTOCOL_VERSION, token),
        ),
{
    let b = spec_encode_hello(token);
    assert(b.subrange(2, HELLO_LEN as int) =~= encode_utf8(token));
    vstd::utf8::encode_utf8_valid_utf8(token);
    vstd::utf8::encode_utf8_decode_utf8(token);
}

/// A two-byte frame whose code is outside the closed set is rejected as an
/// unknown frame, and no message is read from it.
pub proof fn lemma_unknown_code_rejected(b: Seq<u8>)
    requires
        b.len() == MESSAGE_LEN,
        spec_message_of(be_u16(b)).is_none(),
    ensures
        spec_decode_message(b) == Err::<ProxyConnectionMessage, FrameError>(
            FrameError::UnknownFrame(be_u16(b)),
        ),
{
}

/// The closed set is exactly the codes of the seven messages: a code is
/// accepted if and only if some message carries it.
pub proof fn lemma_message_codes_closed(c: u16)
    ensures
        spec_message_of(c).is_some() <==> exists|m: ProxyConnectionMessage| spec_code(m) == c,
        spec_message_of(c) matches Some(m) ==> spec_code(m) == c,
{
    if spec_message_of(c).is_some() {
        assert(spec_code(spec_message_of(c).unwrap()) == c);
    }
}

} // verus!
