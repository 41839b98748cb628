//! How the client reaches the controller: the socket it is built for and
//! the request paths, with names percent-encoded.

use vstd::prelude::*;
use crate::ipc::websocket::{push_path, without_leading_slashes};
use crate::parse::decimal;
use crate::text::{push_char};

verus! {

/// The id of a stream subscription.
#[derive(Debug, Clone, Copy, PartialEq, Eq, Hash, Structural)]
pub struct WebSocketId(pub u32);

/// Where the controller listens.
#[derive(Debug, Clone, PartialEq, Eq)]
pub enum Protocol {
    /// A Unix domain socket path.
    UDS(String),
    /// A TCP address `host:port`, parsed when connecting.
    TCP(String),
}

/// Why a client could not be built.
#[derive(Debug, Clone, PartialEq, Eq)]
pub enum BuildError {
    /// Neither a socket path nor an address was given.
    NoBackend,
    /// The address given does not read as a socket address.
    InvalidAddress,
}

/// Collects where the controller listens before a client is built.
#[derive(Debug)]
pub struct BackendBuilder {
    unix_path: Option<String>,
    tcp_addr: Option<String>,
}

impl Default for BackendBuilder {
    fn default() -> (r: Self)
        ensures
            r.unix_path() is None,
            r.tcp_addr() is None,
    {
        BackendBuilder { unix_path: None, tcp_addr: None }
    }
}

impl BackendBuilder {
    /// The socket path set so far.
    pub closed spec fn unix_path(&self) -> Option<Seq<char>> {
        match self.unix_path {
            Some(s) => Some(s@),
            None => None,
        }
    }

    /// The TCP address set so far.
    pub closed spec fn tcp_addr(&self) -> Option<Seq<char>> {
        match self.tcp_addr {
            Some(s) => Some(s@),
            None => None,
        }
    }

    /// Sets the Unix domain socket path (such as `/tmp/mihomo.sock`).
    pub fn set_unix_socket(self, socket_path: &str) -> (r: Self)
        ensures
            r.unix_path() == Some(socket_path@),
            r.tcp_addr() == self.tcp_addr(),
    {
        let mut s = self;
        let mut p = String::new();
        p.append(socket_path);
        s.unix_path = Some(p);
        s
    }

    /// Sets the TCP address (such as `127.0.0.1:8080`).
    pub fn set_tcp_addr(self, addr: &str) -> (r: Self)
        ensures
            r.tcp_addr() == Some(addr@),
            r.unix_path() == self.unix_path(),
    {
        let mut s = self;
        let mut a = String::new();
        a.append(addr);
        s.tcp_addr = Some(a);
        s
    }

    /// The socket the client is built for: the Unix socket when one is
    /// set (it wins over an address), else the TCP address, else an error.
    pub fn protocol(self) -> (r: Result<Protocol, BuildError>)
        ensures
            match self.unix_path() {
                Some(p) => r matches Ok(Protocol::UDS(q)) && q@ == p,
                None => match self.tcp_addr() {
                    Some(a) => r matches Ok(Protocol::TCP(b)) && b@ == a,
                    None => r == Err::<Protocol, BuildError>(BuildError::NoBackend),
                },
            },
    {
        match (self.unix_path, self.tcp_addr) {
            (Some(path), _) => Ok(Protocol::UDS(path)),
            (None, Some(addr)) => Ok(Protocol::TCP(addr)),
            (None, None) => Err(BuildError::NoBackend),
        }
    }
    /// Builds the socket the client uses, as `protocol` does, but refuses
    /// an address that does not read as a socket address (an IP address
    /// and a port such as `127.0.0.1:9090`); `tcp_addr_parses` says whether
    /// the address set reads as one (the caller asks `std::net`, which
    /// this library does not use). The Unix socket still wins.
    pub fn build(self, tcp_addr_parses: bool) -> (r: Result<Protocol, BuildError>)
        ensures
            match self.unix_path() {
                Some(p) => r matches Ok(Protocol::UDS(q)) && q@ == p,
                None => match self.tcp_addr() {
                    Some(a) => if tcp_addr_parses {
                        r matches Ok(Protocol::TCP(b)) && b@ == a
                    } else {
                        r == Err::<Protocol, BuildError>(BuildError::InvalidAddress)
                    },
                    None => r == Err::<Protocol, BuildError>(BuildError::NoBackend),
                },
            },
    {
        match (self.unix_path, self.tcp_addr) {
            (Some(path), _) => Ok(Protocol::UDS(path)),
            (None, Some(addr)) => if tcp_addr_parses {
                Ok(Protocol::TCP(addr))
            } else {
                Err(BuildError::InvalidAddress)
            },
            (None, None) => Err(BuildError::NoBackend),
        }
    }
}

/// The HTTP address of a controller path: on a TCP socket
/// `http://host:port/path`, on a Unix socket `http://localhost/path`, the
/// path without its leading slashes.
pub open spec fn http_url_text(tcp: Option<(Seq<char>, u16)>, suffix: Seq<char>) -> Seq<char> {
    match tcp {
        Some((host, port)) => "http://"@ + host + ":"@ + decimal(port as nat) + "/"@ + without_leading_slashes(
            suffix,
        ),
        None => "http://localhost/"@ + without_leading_slashes(suffix),
    }
}

/// The HTTP address of a controller path (see `http_url_text`); `tcp` is
/// the host and port of a TCP socket, `None` for a Unix socket.
pub fn get_http_url(tcp: Option<(&str, u16)>, suffix: &str) -> (r: String)
    ensures
        r@ == http_url_text(
            match tcp {
                Some((h, p)) => Some((h@, p)),
                None => None,
            },
            suffix@,
        ),
{
    let mut r = String::new();
    match tcp {
        Some((host, port)) => {
            r.append("http://");
            r.append(host);
            r.append(":");
            let ps = crate::parse::decimal_string(port as u64);
            r.append(ps.as_str());
            r.append("/");
        },
        None => {
            r.append("http://localhost/");
        },
    }
    push_path(&mut r, suffix);
    r
}

/// Whether `urlencoding` leaves `c` as it is: ASCII letters and digits
/// and `-`, `.`, `_`, `~`.
pub open spec fn unreserved(c: char) -> bool {
    ('a' <= c <= 'z') || ('A' <= c <= 'Z') || ('0' <= c <= '9') || c == '-' || c == '.' || c == '_' || c == '~'
}

/// The UTF-8 bytes of `c`.
pub open spec fn utf8_bytes(c: char) -> Seq<u8> {
    let v = c as int;
    if v < 0x80 {
        seq![v as u8]
    } else if v < 0x800 {
        seq![(0xC0 + v / 64) as u8, (0x80 + v % 64) as u8]
    } else if v < 0x10000 {
        seq![(0xE0 + v / 4096) as u8, (0x80 + (v / 64) % 64) as u8, (0x80 + v % 64) as u8]
    } else {
        seq![
            (0xF0 + v / 262144) as u8,
            (0x80 + (v / 4096) % 64) as u8,
            (0x80 + (v / 64) % 64) as u8,
            (0x80 + v % 64) as u8,
        ]
    }
}

/// An upper-case hex digit.
pub open spec fn hex_upper(d: int) -> char {
    if d < 10 { ('0' as int + d) as char } else { ('A' as int + d - 10) as char }
}

/// `%XY` for a byte.
pub open spec fn escaped_byte(b: u8) -> Seq<char> {
    seq!['%', hex_upper(b as int / 16), hex_upper(b as int % 16)]
}

/// `%XY` for each byte.
pub open spec fn escaped_bytes(bs: Seq<u8>) -> Seq<char>
    decreases bs.len(),
{
    if bs.len() == 0 { Seq::empty() } else { escaped_bytes(bs.drop_last()) + escaped_byte(bs.last()) }
}

/// What `urlencoding::encode` makes of a text: every unreserved character
/// kept, every byte of the others' UTF-8 encoding written `%XY`.
pub open spec fn percent_encoded(s: Seq<char>) -> Seq<char>
    decreases s.len(),
{
    if s.len() == 0 {
        Seq::empty()
    } else {
        percent_encoded(s.drop_last()) + if unreserved(s.last()) {
            seq![s.last()]
        } else {
            escaped_bytes(utf8_bytes(s.last()))
        }
    }
}

/// `urlencoding::encode`: every byte of the UTF-8 text percent-encoded
/// with upper-case hex, except ASCII letters, digits and `-`, `.`, `_`,
/// `~`, which are kept.
#[verifier::external_body]
fn url_encode(s: &str) -> (r: String)
    ensures
        r@ == percent_encoded(s@),
{
    urlencoding::encode(s).into_owned()
}

/// The path of a group: `/group/` and the percent-encoded name.
pub fn group_path(group_name: &str) -> (r: String)
    ensures
        r@ == "/group/"@ + percent_encoded(group_name@),
{
    let mut r = String::new();
    r.append("/group/");
    let e = url_encode(group_name);
    r.append(e.as_str());
    r
}

/// The path of a proxy or group: `/proxies/` and the percent-encoded
/// name.
pub fn proxies_path(name: &str) -> (r: String)
    ensures
        r@ == "/proxies/"@ + percent_encoded(name@),
{
    let mut r = String::new();
    r.append("/proxies/");
    let e = url_encode(name);
    r.append(e.as_str());
    r
}

/// The path of one connection: `/connections/` and its id.
pub fn connection_path(connection_id: &str) -> (r: String)
    ensures
        r@ == "/connections/"@ + connection_id@,
{
    let mut r = String::new();
    r.append("/connections/");
    r.append(connection_id);
    r
}


/// The request methods of the controller's API.
#[derive(Debug, Clone, Copy, PartialEq, Eq, Structural)]
pub enum HttpMethod {
    Get,
    Put,
    Delete,
}

/// The request that makes a group stop using the member it is pinned to
/// (for automatic groups such as URLTest ones): `DELETE` on the group's
/// proxy path, which clears its fixed selection.
pub fn unfixed_proxy_request(group_name: &str) -> (r: (HttpMethod, String))
    ensures
        r.0 == HttpMethod::Delete,
        r.1@ == "/proxies/"@ + percent_encoded(group_name@),
{
    (HttpMethod::Delete, proxies_path(group_name))
}

/// The failure of that request: the controller's own message when its
/// answer reads as an error report (`Ok`), else `unfixed group [<name>]
/// failed: ` and why the answer did not read (`Err`).
pub fn unfixed_proxy_error(group_name: &str, answer: Result<String, String>) -> (r: String)
    ensures
        r@ == match answer {
            Ok(m) => m@,
            Err(why) => "unfixed group ["@ + group_name@ + "] failed: "@ + why@,
        },
{
    match answer {
        Ok(m) => m,
        Err(why) => {
            let mut r = String::from_str("unfixed group [");
            r.append(group_name);
            r.append("] failed: ");
            r.append(why.as_str());
            r
        },
    }
}

/// What the message bar says once a group's pin is cleared, or why not.
pub fn clear_selection_message(group_name: &str, outcome: Result<(), String>) -> (r: String)
    ensures
        r@ == match outcome {
            Ok(_) => "cleared selection: "@ + group_name@,
            Err(e) => "Clear selection error: "@ + e@,
        },
{
    match outcome {
        Ok(_) => {
            let mut r = String::from_str("cleared selection: ");
            r.append(group_name);
            r
        },
        Err(e) => {
            let mut r = String::from_str("Clear selection error: ");
            r.append(e.as_str());
            r
        },
    }
}

} // verus!
