//! The helper's RPC channel, as far as it is the client's own: where the
//! socket is, how a message is framed (a big-endian `u32` length, then the
//! JSON body), and the errors a call reports.

use vstd::prelude::*;

verus! {

/// Where the helper listens when `CLARD_SOCKET` does not say otherwise.
pub open spec fn default_socket() -> Seq<char> {
    "/run/clard/helper.sock"@
}

/// The socket path: the value of `CLARD_SOCKET` when it is set and not
/// empty, else the default.
pub open spec fn socket_path_text(env: Option<Seq<char>>) -> Seq<char> {
    match env {
        Some(p) => if p.len() > 0 { p } else { default_socket() },
        None => default_socket(),
    }
}

/// The socket path, from the value of `CLARD_SOCKET` (`None` when it is
/// unset or not Unicode).
pub fn socket_path(env: Option<String>) -> (r: String)
    ensures
        r@ == socket_path_text(match env {
            Some(p) => Some(p@),
            None => None,
        }),
{
    match env {
        Some(p) => {
            if p.unicode_len() > 0 {
                p
            } else {
                String::from_str("/run/clard/helper.sock")
            }
        },
        None => String::from_str("/run/clard/helper.sock"),
    }
}

/// The four big-endian bytes of `n` (below 2^32).
pub open spec fn be_bytes(n: nat) -> Seq<u8> {
    seq![
        (n / 16777216 % 256) as u8,
        (n / 65536 % 256) as u8,
        (n / 256 % 256) as u8,
        (n % 256) as u8,
    ]
}

/// The value of four big-endian bytes.
pub open spec fn be_value(b: Seq<u8>) -> nat {
    (b[0] as nat) * 16777216 + (b[1] as nat) * 65536 + (b[2] as nat) * 256 + (b[3] as nat)
}

/// A framed message: the body's length cut to 32 bits, big-endian, then
/// the body.
pub fn encode_frame(body: &[u8]) -> (r: Vec<u8>)
    ensures
        r@ == be_bytes(body@.len() % 4294967296) + body@,
{
    let len64: u64 = body.len() as u64;
    let n: u64 = len64 % 4294967296;
    let mut r: Vec<u8> = Vec::new();
    r.push((n / 16777216 % 256) as u8);
    r.push((n / 65536 % 256) as u8);
    r.push((n / 256 % 256) as u8);
    r.push((n % 256) as u8);
    let ghost head = r@;
    let mut i: usize = 0;
    while i < body.len()
        invariant
            i <= body@.len(),
            head.len() == 4,
            r@ == head + body@.take(i as int),
        decreases body@.len() - i,
    {
        r.push(body[i]);
        i = i + 1;
        assert(body@.take(i as int) =~= body@.take(i - 1).push(body@[i - 1]));
    }
    assert(body@.take(body@.len() as int) =~= body@);
    assert(head =~= be_bytes(body@.len() % 4294967296));
    r
}

/// The body length a frame header announces.
pub fn frame_length(header: [u8; 4]) -> (r: u32)
    ensures
        r == be_value(header@),
{
    (header[0] as u32) * 16777216 + (header[1] as u32) * 65536 + (header[2] as u32) * 256 + (header[3] as u32)
}

/// A length survives framing: the header of a body shorter than 4 GiB
/// announces its length.
pub proof fn lemma_frame_length_round_trip(n: nat)
    requires
        n < 4294967296,
    ensures
        be_value(be_bytes(n)) == n,
{
    assert(be_value(be_bytes(n)) == n) by (nonlinear_arith)
        requires
            n < 4294967296,
    {
    }
}

/// Why a call to the helper failed.
#[derive(Debug, Clone, PartialEq, Eq)]
pub enum RpcError {
    /// The socket could not be reached.
    Connect(String),
    /// The request could not be encoded.
    Encode(String),
    /// The answer could not be decoded.
    Decode(String),
    /// Reading or writing the socket failed.
    Io(String),
    /// The helper answered with an error, or with an unexpected answer.
    Helper(String),
}

/// The message an error is reported with.
pub open spec fn rpc_error_text(e: RpcError) -> Seq<char> {
    match e {
        RpcError::Connect(m) => "无法连接后台服务: "@ + m@ + "（systemctl status clard-helper 或 i 安装）"@,
        RpcError::Encode(m) => "请求序列化失败: "@ + m@,
        RpcError::Decode(m) => "响应解析失败: "@ + m@,
        RpcError::Io(m) => "IO 错误: "@ + m@,
        RpcError::Helper(m) => "helper 返回错误: "@ + m@,
    }
}

impl RpcError {
    /// The message this error is reported with.
    pub fn message(&self) -> (r: String)
        ensures
            r@ == rpc_error_text(*self),
    {
        match self {
            RpcError::Connect(m) => {
                let mut r = String::from_str("无法连接后台服务: ");
                r.append(m.as_str());
                r.append("（systemctl status clard-helper 或 i 安装）");
                r
            },
            RpcError::Encode(m) => {
                let mut r = String::from_str("请求序列化失败: ");
                r.append(m.as_str());
                r
            },
            RpcError::Decode(m) => {
                let mut r = String::from_str("响应解析失败: ");
                r.append(m.as_str());
                r
            },
            RpcError::Io(m) => {
                let mut r = String::from_str("IO 错误: ");
                r.append(m.as_str());
                r
            },
            RpcError::Helper(m) => {
                let mut r = String::from_str("helper 返回错误: ");
                r.append(m.as_str());
                r
            },
        }
    }
}

} // verus!
