//! Messages of the controller's streaming endpoints and their address.

use vstd::prelude::*;
use base64::Engine;
use crate::parse::leading_char;
use crate::text::{push_char};

verus! {

/// How a stream was closed.
#[derive(Debug, Clone, PartialEq, Eq)]
pub struct CloseFrame {
    pub code: u16,
    pub reason: String,
}

/// One message of a stream, its text already decoded.
#[derive(Debug, Clone, PartialEq, Eq)]
pub enum WebSocketMessage<T> {
    Text(T),
    Binary(Vec<u8>),
    Ping(Vec<u8>),
    Pong(Vec<u8>),
    Close(Option<CloseFrame>),
    /// A raw frame, which carries nothing for the client.
    Empty,
}

/// `suffix` without its leading slashes.
pub open spec fn without_leading_slashes(suffix: Seq<char>) -> Seq<char> {
    suffix.skip(leading_char(suffix, '/') as int)
}

/// Appends `suffix` without its leading slashes.
pub fn push_path(r: &mut String, suffix: &str)
    ensures
        final(r)@ == old(r)@ + without_leading_slashes(suffix@),
{
    crate::parse::push_skipping_leading(r, suffix, '/');
}

/// The stream address of a controller path, which is always on the local
/// socket: `ws://localhost/` and the path without leading slashes.
pub fn get_websocket_url(suffix: &str) -> (r: String)
    ensures
        r@ == "ws://localhost/"@ + without_leading_slashes(suffix@),
{
    let mut r = String::new();
    r.append("ws://localhost/");
    push_path(&mut r, suffix);
    r
}

/// The character of a 6-bit value in the standard base64 alphabet
/// (`A`-`Z`, `a`-`z`, `0`-`9`, `+`, `/`).
pub open spec fn b64_char(v: int) -> char {
    if v < 26 {
        ('A' as int + v) as char
    } else if v < 52 {
        ('a' as int + v - 26) as char
    } else if v < 62 {
        ('0' as int + v - 52) as char
    } else if v == 62 {
        '+'
    } else {
        '/'
    }
}

/// The standard base64 encoding of `bytes` (RFC 4648): every group of
/// three bytes, read as 24 bits, gives four characters of six bits each; a
/// last group of one or two bytes gives two or three characters, filled
/// with zero bits, and `=` up to four.
pub open spec fn base64_standard(bytes: Seq<u8>) -> Seq<char>
    decreases bytes.len(),
{
    if bytes.len() == 0 {
        Seq::empty()
    } else if bytes.len() == 1 {
        let x = bytes[0] as int;
        seq![b64_char(x / 4), b64_char((x % 4) * 16), '=', '=']
    } else if bytes.len() == 2 {
        let x = bytes[0] as int;
        let y = bytes[1] as int;
        seq![b64_char(x / 4), b64_char((x % 4) * 16 + y / 16), b64_char((y % 16) * 4), '=']
    } else {
        let x = bytes[0] as int;
        let y = bytes[1] as int;
        let z = bytes[2] as int;
        seq![b64_char(x / 4), b64_char((x % 4) * 16 + y / 16), b64_char((y % 16) * 4 + z / 64), b64_char(z % 64)]
            + base64_standard(bytes.skip(3))
    }
}

/// `base64::engine::general_purpose::STANDARD.encode`: the padded standard
/// encoding (see `base64_standard`), four characters for every started
/// group of three bytes. The
/// crate panics when that length overflows `usize`, which `requires`
/// leaves out.
#[verifier::external_body]
fn base64_encode(bytes: &[u8]) -> (r: String)
    requires
        bytes@.len() <= usize::MAX / 4,
    ensures
        r@ == base64_standard(bytes@),
        r@.len() == 4 * ((bytes@.len() + 2) / 3),
{
    base64::engine::general_purpose::STANDARD.encode(bytes)
}

/// `rand::random`: sixteen bytes from the thread's random generator;
/// nothing is known of their values.
#[verifier::external_body]
fn random_key_bytes() -> (r: [u8; 16]) {
    rand::random::<[u8; 16]>()
}

/// A fresh `Sec-WebSocket-Key`: sixteen random bytes in standard base64,
/// 24 characters.
pub fn generate_websocket_key() -> (r: String)
    ensures
        exists|key: Seq<u8>| key.len() == 16 && r@ == base64_standard(key),
        r@.len() == 24,
{
    let key = random_key_bytes();
    let r = base64_encode(&key);
    assert(key@.len() == 16);
    r
}

} // verus!
