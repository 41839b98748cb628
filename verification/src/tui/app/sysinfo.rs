//! System panel of the Home page. The texts come straight from system
//! files (`/etc/os-release`, `/proc/cpuinfo`, `/proc/meminfo`,
//! `/proc/net/route`, the DRM card vendor files); these functions parse
//! them, so each takes the file's text and returns the value.

use vstd::prelude::*;
use crate::parse::{
    all_digits, decimal, decimal_string, digit_of, digit_value, digits_value, find_map, lemma_find_map_step, line_ranges, lines_of,
    parse_radix, parse_unsigned, starts_with_at, strip_prefix, trim, trim_char_range, trim_matches,
    trim_prefix_start, trim_range, word_ranges, words_of,
};
use crate::text::{str_eq, string_of_range, to_chars};

verus! {

/// Data of the System panel.
#[derive(Debug, Clone, PartialEq, Eq)]
pub struct SysInfo {
    /// PRETTY_NAME of os-release ("Unknown OS" when it cannot be read).
    pub os: String,
    /// First line of the kernel release file.
    pub kernel: String,
    /// First `model name` of cpuinfo.
    pub cpu: String,
    /// GPU name from the DRM card vendor ids (empty without a GPU).
    pub gpu: String,
    /// Total memory in KiB.
    pub mem_total_kib: u64,
    /// Available memory in KiB.
    pub mem_available_kib: u64,
    /// Default gateway `(interface, ip)` of the main table, if any.
    pub gateway: Option<(String, String)>,
}

/// What one os-release line gives for the prefix `KEY=`: its value
/// without surrounding double quotes.
pub open spec fn os_release_line(prefix: Seq<char>) -> spec_fn(Seq<char>) -> Option<Seq<char>> {
    |l: Seq<char>| match strip_prefix(trim(l), prefix) {
        Some(v) => Some(trim_matches(v, '"')),
        None => None,
    }
}

/// The value of `key` in an os-release text: the first line that starts
/// (after trimming) with `key=`, without quotes.
pub open spec fn os_release_spec(text: Seq<char>, key: Seq<char>) -> Option<Seq<char>> {
    find_map(lines_of(text), os_release_line(key.push('=')))
}

/// `KEY="value"` (or `KEY=value`) of an os-release text.
pub fn os_release_value(text: &str, key: &str) -> (r: Option<String>)
    ensures
        r matches Some(s) ==> os_release_spec(text@, key@) == Some(s@),
        r is None ==> os_release_spec(text@, key@) is None,
{
    let v = to_chars(text);
    let mut p = to_chars(key);
    p.push('=');
    let ghost f = os_release_line(p@);
    let lines = line_ranges(&v);
    let ghost ls = lines_of(v@);
    let mut i: usize = 0;
    assert(ls.skip(0) =~= ls);
    while i < lines.len()
        invariant
            i <= lines@.len(),
            lines@.len() == ls.len(),
            ls == lines_of(v@),
            f == os_release_line(p@),
            v@ == text@,
            p@ == key@.push('='),
            forall|k: int| 0 <= k < lines@.len() ==> (#[trigger] lines@[k]).0 <= lines@[k].1 <= v@.len(),
            forall|k: int| 0 <= k < lines@.len() ==> v@.subrange(lines@[k].0 as int, lines@[k].1 as int) == #[trigger] ls[k],
            find_map(ls.skip(i as int), f) == find_map(ls, f),
        decreases lines@.len() - i,
    {
        proof {
            lemma_find_map_step(ls, i as int, f);
        }
        let (lo, hi) = lines[i];
        let (a, b) = trim_range(&v, lo, hi);
        if starts_with_at(&v, a, b, &p) {
            let (c, d) = trim_char_range(&v, a + p.len(), b, '"');
            proof {
                let t = v@.subrange(a as int, b as int);
                assert(t.skip(p@.len() as int) =~= v@.subrange(a + p@.len(), b as int));
                assert(ls[i as int] == v@.subrange(lo as int, hi as int));
                assert(f(ls[i as int]) == Some(v@.subrange(c as int, d as int)));
                assert(find_map(ls.skip(i as int), f) == Some(v@.subrange(c as int, d as int)));
                assert(find_map(ls, f) == Some(v@.subrange(c as int, d as int)));
                assert(ls == lines_of(text@));
                assert(f == os_release_line(key@.push('=')));
            }
            return Some(string_of_range(&v, c, d));
        }
        i = i + 1;
    }
    proof {
        assert(ls.skip(i as int) =~= Seq::<Seq<char>>::empty());
    }
    None
}

/// What one cpuinfo line gives: the trimmed value after `model name` and
/// a colon, when it is not empty.
pub open spec fn cpu_model_line() -> spec_fn(Seq<char>) -> Option<Seq<char>> {
    |l: Seq<char>| match strip_prefix(trim(l), "model name"@) {
        Some(v) => match strip_prefix(trim(v), ":"@) {
            Some(w) => if trim(w).len() > 0 { Some(trim(w)) } else { None },
            None => None,
        },
        None => None,
    }
}

/// The first non-empty `model name` value of a cpuinfo text.
pub fn cpu_model(text: &str) -> (r: Option<String>)
    ensures
        r matches Some(s) ==> find_map(lines_of(text@), cpu_model_line()) == Some(s@),
        r is None ==> find_map(lines_of(text@), cpu_model_line()) is None,
{
    let v = to_chars(text);
    let p = to_chars("model name");
    let colon = to_chars(":");
    proof {
        reveal_strlit("model name");
        reveal_strlit(":");
    }
    let ghost f = cpu_model_line();
    let lines = line_ranges(&v);
    let ghost ls = lines_of(v@);
    let mut i: usize = 0;
    assert(ls.skip(0) =~= ls);
    while i < lines.len()
        invariant
            i <= lines@.len(),
            lines@.len() == ls.len(),
            ls == lines_of(v@),
            f == cpu_model_line(),
            v@ == text@,
            p@ == "model name"@,
            colon@ == ":"@,
            colon@.len() == 1,
            forall|k: int| 0 <= k < lines@.len() ==> (#[trigger] lines@[k]).0 <= lines@[k].1 <= v@.len(),
            forall|k: int| 0 <= k < lines@.len() ==> v@.subrange(lines@[k].0 as int, lines@[k].1 as int) == #[trigger] ls[k],
            find_map(ls.skip(i as int), f) == find_map(ls, f),
        decreases lines@.len() - i,
    {
        proof {
            lemma_find_map_step(ls, i as int, f);
        }
        let (lo, hi) = lines[i];
        let (a, b) = trim_range(&v, lo, hi);
        if starts_with_at(&v, a, b, &p) {
            proof {
                let t = v@.subrange(a as int, b as int);
                assert(t.skip(p@.len() as int) =~= v@.subrange(a + p@.len(), b as int));
            }
            let (c, d) = trim_range(&v, a + p.len(), b);
            if starts_with_at(&v, c, d, &colon) {
                proof {
                    let t = v@.subrange(c as int, d as int);
                    assert(t.skip(1) =~= v@.subrange(c + 1, d as int));
                }
                let (e, g) = trim_range(&v, c + 1, d);
                if g > e {
                    proof {
                        assert(ls[i as int] == v@.subrange(lo as int, hi as int));
                        assert(f(ls[i as int]) == Some(v@.subrange(e as int, g as int)));
                    }
                    return Some(string_of_range(&v, e, g));
                }
            }
        }
        i = i + 1;
    }
    proof {
        assert(ls.skip(i as int) =~= Seq::<Seq<char>>::empty());
    }
    None
}

/// What one meminfo line gives for the prefix `Key:`: its first word as a
/// number.
pub open spec fn meminfo_line(prefix: Seq<char>) -> spec_fn(Seq<char>) -> Option<nat> {
    |l: Seq<char>| match strip_prefix(trim(l), prefix) {
        Some(rest) => if words_of(rest).len() > 0 {
            parse_unsigned(words_of(rest)[0], 10, u64::MAX as nat)
        } else {
            None
        },
        None => None,
    }
}

/// The number of `Key:  N kB` in a meminfo text.
pub fn meminfo_kib(text: &str, key: &str) -> (r: Option<u64>)
    ensures
        r matches Some(x) ==> find_map(lines_of(text@), meminfo_line(key@.push(':'))) == Some(x as nat),
        r is None ==> find_map(lines_of(text@), meminfo_line(key@.push(':'))) is None,
{
    let v = to_chars(text);
    let mut p = to_chars(key);
    p.push(':');
    let ghost f = meminfo_line(p@);
    let lines = line_ranges(&v);
    let ghost ls = lines_of(v@);
    let mut i: usize = 0;
    assert(ls.skip(0) =~= ls);
    while i < lines.len()
        invariant
            i <= lines@.len(),
            lines@.len() == ls.len(),
            ls == lines_of(v@),
            f == meminfo_line(p@),
            v@ == text@,
            p@ == key@.push(':'),
            forall|k: int| 0 <= k < lines@.len() ==> (#[trigger] lines@[k]).0 <= lines@[k].1 <= v@.len(),
            forall|k: int| 0 <= k < lines@.len() ==> v@.subrange(lines@[k].0 as int, lines@[k].1 as int) == #[trigger] ls[k],
            find_map(ls.skip(i as int), f) == find_map(ls, f),
        decreases lines@.len() - i,
    {
        proof {
            lemma_find_map_step(ls, i as int, f);
        }
        let (lo, hi) = lines[i];
        let (a, b) = trim_range(&v, lo, hi);
        if starts_with_at(&v, a, b, &p) {
            proof {
                let t = v@.subrange(a as int, b as int);
                assert(t.skip(p@.len() as int) =~= v@.subrange(a + p@.len(), b as int));
            }
            let words = word_ranges(&v, a + p.len(), b);
            if words.len() > 0 {
                let (c, d) = words[0];
                match parse_radix(&v, c, d, 10, u64::MAX) {
                    Some(x) => {
                        proof {
                            assert(ls[i as int] == v@.subrange(lo as int, hi as int));
                            assert(f(ls[i as int]) == Some(x as nat));
                        }
                        return Some(x);
                    },
                    None => {},
                }
            }
        }
        i = i + 1;
    }
    proof {
        assert(ls.skip(i as int) =~= Seq::<Seq<char>>::empty());
    }
    None
}

/// The value of two hexadecimal digits as a byte; none unless both are
/// hexadecimal digits.
pub open spec fn hex_byte(a: char, b: char) -> Option<nat> {
    match (digit_value(a, 16), digit_value(b, 16)) {
        (Some(x), Some(y)) => Some(x * 16 + y),
        _ => None,
    }
}

/// The dotted IPv4 text of a little-endian 8-digit hexadecimal address
/// such as `FE4F020A` (gives `10.2.79.254`): exactly eight ASCII
/// characters, each pair a byte.
pub open spec fn hex_le_ipv4(h: Seq<char>) -> Option<Seq<char>> {
    if h.len() == 8 && (forall|i: int| 0 <= i < 8 ==> (h[i] as u32) < 0x80) {
        match (hex_byte(h[0], h[1]), hex_byte(h[2], h[3]), hex_byte(h[4], h[5]), hex_byte(h[6], h[7])) {
            (Some(o0), Some(o1), Some(o2), Some(o3)) => Some(
                decimal(o3) + "."@ + decimal(o2) + "."@ + decimal(o1) + "."@ + decimal(o0),
            ),
            _ => None,
        }
    } else {
        None
    }
}

/// The hexadecimal digit of `d` (below 16), in upper case when `upper`.
pub open spec fn hex_digit(d: nat, upper: bool) -> char {
    if d < 10 {
        ('0' as int + d) as char
    } else if upper {
        ('A' as int + d - 10) as char
    } else {
        ('a' as int + d - 10) as char
    }
}

/// The two hexadecimal digits of a byte, as `{:02X}` (or `{:02x}`)
/// writes them.
pub open spec fn hex2(b: u8, upper: bool) -> Seq<char> {
    seq![hex_digit(b as nat / 16, upper), hex_digit(b as nat % 16, upper)]
}

proof fn lemma_hex_byte(b: u8, upper: bool)
    ensures
        hex_byte(hex2(b, upper)[0], hex2(b, upper)[1]) == Some(b as nat),
        (hex2(b, upper)[0] as u32) < 0x80,
        (hex2(b, upper)[1] as u32) < 0x80,
{
    let h = hex2(b, upper);
    assert(digit_value(h[0], 16) == Some(b as nat / 16));
    assert(digit_value(h[1], 16) == Some(b as nat % 16));
}

/// Four bytes written as eight hexadecimal digits, the last byte first
/// (as the kernel's route table writes an address), read back as the
/// dotted address of the bytes in order; in upper or lower case alike.
pub proof fn lemma_hex_le_ipv4_round_trip(a: u8, b: u8, c: u8, d: u8, upper: bool)
    ensures
        hex_le_ipv4(hex2(d, upper) + hex2(c, upper) + hex2(b, upper) + hex2(a, upper)) == Some(
            decimal(a as nat) + "."@ + decimal(b as nat) + "."@ + decimal(c as nat) + "."@ + decimal(d as nat),
        ),
{
    let h = hex2(d, upper) + hex2(c, upper) + hex2(b, upper) + hex2(a, upper);
    lemma_hex_byte(a, upper);
    lemma_hex_byte(b, upper);
    lemma_hex_byte(c, upper);
    lemma_hex_byte(d, upper);
    assert(h[0] == hex2(d, upper)[0] && h[1] == hex2(d, upper)[1]);
    assert(h[2] == hex2(c, upper)[0] && h[3] == hex2(c, upper)[1]);
    assert(h[4] == hex2(b, upper)[0] && h[5] == hex2(b, upper)[1]);
    assert(h[6] == hex2(a, upper)[0] && h[7] == hex2(a, upper)[1]);
    assert(forall|i: int| 0 <= i < 8 ==> (h[i] as u32) < 0x80);
}

/// Text that is not exactly eight characters long is no address.
pub proof fn lemma_hex_le_ipv4_needs_eight(h: Seq<char>)
    requires
        h.len() != 8,
    ensures
        hex_le_ipv4(h) is None,
{
}

fn hex_pair(v: &Vec<char>, i: usize) -> (r: Option<u64>)
    requires
        i <= 6,
        v@.len() == 8,
    ensures
        r matches Some(x) ==> hex_byte(v@[i as int], v@[i + 1]) == Some(x as nat),
        r is None ==> hex_byte(v@[i as int], v@[i + 1]) is None,
{
    let hi = match digit_of(v[i], 16) {
        Some(d) => d,
        None => {
            return None;
        },
    };
    let lo = match digit_of(v[i + 1], 16) {
        Some(d) => d,
        None => {
            return None;
        },
    };
    Some((hi as u64) * 16 + lo as u64)
}

/// Converts a little-endian hexadecimal IPv4 address to dotted form.
pub fn hex_le_to_ipv4(hex: &str) -> (r: Option<String>)
    ensures
        r matches Some(s) ==> hex_le_ipv4(hex@) == Some(s@),
        r is None ==> hex_le_ipv4(hex@) is None,
{
    let v = to_chars(hex);
    if v.len() != 8 {
        return None;
    }
    let mut i: usize = 0;
    while i < 8
        invariant
            v@.len() == 8,
            v@ == hex@,
            i <= 8,
            forall|j: int| 0 <= j < i ==> (v@[j] as u32) < 0x80,
        decreases 8 - i,
    {
        if (v[i] as u32) >= 0x80 {
            proof {
                assert(hex@ == v@);
                assert((hex@[i as int] as u32) >= 0x80);
            }
            return None;
        }
        i = i + 1;
    }
    let o0 = match hex_pair(&v, 0) { Some(x) => x, None => { return None; } };
    let o1 = match hex_pair(&v, 2) { Some(x) => x, None => { return None; } };
    let o2 = match hex_pair(&v, 4) { Some(x) => x, None => { return None; } };
    let o3 = match hex_pair(&v, 6) { Some(x) => x, None => { return None; } };
    let mut s = decimal_string(o3);
    s.append(".");
    s.append(decimal_string(o2).as_str());
    s.append(".");
    s.append(decimal_string(o1).as_str());
    s.append(".");
    s.append(decimal_string(o0).as_str());
    Some(s)
}

/// What one route line gives: `(iface, gateway)` when its destination is
/// `00000000`, its gateway is not, and the gateway converts.
pub open spec fn route_line() -> spec_fn(Seq<char>) -> Option<(Seq<char>, Seq<char>)> {
    |l: Seq<char>| {
        let w = words_of(l);
        if w.len() < 3 || w[1] != "00000000"@ || w[2] == "00000000"@ {
            None
        } else {
            match hex_le_ipv4(w[2]) {
                Some(ip) => Some((w[0], ip)),
                None => None,
            }
        }
    }
}

/// The default route `(iface, ip)` of a route table text (the first line
/// is a header).
pub open spec fn default_route_spec(text: Seq<char>) -> Option<(Seq<char>, Seq<char>)> {
    let ls = lines_of(text);
    find_map(if ls.len() == 0 { ls } else { ls.drop_first() }, route_line())
}

/// Default route of a `/proc/net/route` text: the interface and the
/// dotted gateway of the first line whose destination is 0.0.0.0 and whose
/// gateway is not.
pub fn default_route(text: &str) -> (r: Option<(String, String)>)
    ensures
        r matches Some(p) ==> default_route_spec(text@) == Some((p.0@, p.1@)),
        r is None ==> default_route_spec(text@) is None,
{
    let v = to_chars(text);
    let zeros = "00000000";
    proof {
        reveal_strlit("00000000");
    }
    let ghost f = route_line();
    let lines = line_ranges(&v);
    let ghost ls = lines_of(v@);
    let ghost body = if ls.len() == 0 { ls } else { ls.drop_first() };
    if lines.len() == 0 {
        return None;
    }
    let mut i: usize = 1;
    assert(ls.skip(1) =~= body);
    while i < lines.len()
        invariant
            1 <= i <= lines@.len(),
            lines@.len() == ls.len(),
            ls == lines_of(v@),
            ls.len() > 0,
            body == ls.drop_first(),
            f == route_line(),
            v@ == text@,
            zeros@ == "00000000"@,
            forall|k: int| 0 <= k < lines@.len() ==> (#[trigger] lines@[k]).0 <= lines@[k].1 <= v@.len(),
            forall|k: int| 0 <= k < lines@.len() ==> v@.subrange(lines@[k].0 as int, lines@[k].1 as int) == #[trigger] ls[k],
            find_map(ls.skip(i as int), f) == find_map(body, f),
        decreases lines@.len() - i,
    {
        proof {
            lemma_find_map_step(ls, i as int, f);
        }
        let (lo, hi) = lines[i];
        let words = word_ranges(&v, lo, hi);
        if words.len() >= 3 {
            let iface = string_of_range(&v, words[0].0, words[0].1);
            let dest = string_of_range(&v, words[1].0, words[1].1);
            let gw = string_of_range(&v, words[2].0, words[2].1);
            if str_eq(dest.as_str(), zeros) && !str_eq(gw.as_str(), zeros) {
                match hex_le_to_ipv4(gw.as_str()) {
                    Some(ip) => {
                        proof {
                            assert(ls[i as int] == v@.subrange(lo as int, hi as int));
                            assert(f(ls[i as int]) == Some((iface@, ip@)));
                        }
                        return Some((iface, ip));
                    },
                    None => {},
                }
            }
        }
        i = i + 1;
    }
    proof {
        assert(ls.skip(i as int) =~= Seq::<Seq<char>>::empty());
    }
    None
}

/// The GPU vendor of a PCI vendor id: the trimmed text without any `0x`
/// prefixes, read as a hexadecimal `u32`.
pub open spec fn gpu_vendor_spec(vendor_hex: Seq<char>) -> Option<Seq<char>> {
    match parse_unsigned(crate::parse::trim_start_prefix(trim(vendor_hex), "0x"@), 16, u32::MAX as nat) {
        Some(v) => vendor_name(v),
        None => None,
    }
}

/// Names of the known PCI GPU vendors.
pub open spec fn vendor_name(id: nat) -> Option<Seq<char>> {
    if id == 0x10de { Some("NVIDIA"@) }
    else if id == 0x1002 { Some("AMD"@) }
    else if id == 0x8086 { Some("Intel"@) }
    else if id == 0x1a03 { Some("ASPEED"@) }
    else if id == 0x102b { Some("Matrox"@) }
    else if id == 0x15ad { Some("VMware"@) }
    else if id == 0x1234 { Some("QEMU"@) }
    else if id == 0x1af4 { Some("VirtIO"@) }
    else { None }
}

/// The GPU vendor name of a PCI vendor id such as `0x10de`; `None` for an
/// unknown vendor or an unreadable id.
pub fn gpu_vendor(vendor_hex: &str) -> (r: Option<String>)
    ensures
        r matches Some(s) ==> gpu_vendor_spec(vendor_hex@) == Some(s@),
        r is None ==> gpu_vendor_spec(vendor_hex@) is None,
{
    let v = to_chars(vendor_hex);
    let (a, b) = trim_range(&v, 0, v.len());
    assert(v@.subrange(0, v@.len() as int) =~= v@);
    let p = to_chars("0x");
    proof {
        reveal_strlit("0x");
    }
    let c = trim_prefix_start(&v, a, b, &p);
    let id = match parse_radix(&v, c, b, 16, 0xffff_ffff) {
        Some(x) => x,
        None => {
            return None;
        },
    };
    let name = if id == 0x10de { "NVIDIA" }
        else if id == 0x1002 { "AMD" }
        else if id == 0x8086 { "Intel" }
        else if id == 0x1a03 { "ASPEED" }
        else if id == 0x102b { "Matrox" }
        else if id == 0x15ad { "VMware" }
        else if id == 0x1234 { "QEMU" }
        else if id == 0x1af4 { "VirtIO" }
        else {
            return None;
        };
    Some(String::from_str(name))
}


/// The first line of a text, trimmed, when it is not empty.
pub open spec fn first_line_spec(text: Seq<char>) -> Option<Seq<char>> {
    let ls = lines_of(text);
    if ls.len() > 0 && trim(ls[0]).len() > 0 { Some(trim(ls[0])) } else { None }
}

/// The first line of a text (such as the kernel release file), trimmed,
/// when it is not empty.
pub fn first_line(text: &str) -> (r: Option<String>)
    ensures
        r matches Some(s) ==> first_line_spec(text@) == Some(s@),
        r is None ==> first_line_spec(text@) is None,
{
    let v = to_chars(text);
    let lines = line_ranges(&v);
    if lines.len() == 0 {
        return None;
    }
    let (lo, hi) = lines[0];
    let (a, b) = trim_range(&v, lo, hi);
    if b > a { Some(string_of_range(&v, a, b)) } else { None }
}

/// The GPU label of one DRM card from its vendor and device id files:
/// no label when the vendor id is empty (the next card is tried), the
/// vendor name (plus ` 0x` and the device id without `0x` prefixes when
/// there is one) for a known vendor, else an empty name (the search ends
/// and the panel shows `-`).
pub open spec fn gpu_label_spec(vendor_raw: Seq<char>, device_raw: Seq<char>) -> Option<Seq<char>> {
    let vendor = trim(vendor_raw);
    let device = trim(device_raw);
    if vendor.len() == 0 {
        None
    } else {
        match gpu_vendor_spec(vendor) {
            Some(name) => if device.len() == 0 {
                Some(name)
            } else {
                Some(name + " 0x"@ + crate::parse::trim_start_prefix(device, "0x"@))
            },
            None => Some(Seq::empty()),
        }
    }
}

/// The label of one DRM card (see [`gpu_label_spec`]).
pub fn gpu_label(vendor_raw: &str, device_raw: &str) -> (r: Option<String>)
    ensures
        r matches Some(s) ==> gpu_label_spec(vendor_raw@, device_raw@) == Some(s@),
        r is None ==> gpu_label_spec(vendor_raw@, device_raw@) is None,
{
    let v = to_chars(vendor_raw);
    let (a, b) = trim_range(&v, 0, v.len());
    assert(v@.subrange(0, v@.len() as int) =~= v@);
    if a == b {
        return None;
    }
    let vendor = string_of_range(&v, a, b);
    let d = to_chars(device_raw);
    let (c, e) = trim_range(&d, 0, d.len());
    assert(d@.subrange(0, d@.len() as int) =~= d@);
    match gpu_vendor(vendor.as_str()) {
        Some(name) => {
            if c == e {
                Some(name)
            } else {
                let p = to_chars("0x");
                proof {
                    reveal_strlit("0x");
                }
                let f = trim_prefix_start(&d, c, e, &p);
                let mut s = name;
                s.append(" 0x");
                s.append(string_of_range(&d, f, e).as_str());
                Some(s)
            }
        },
        None => Some(String::new()),
    }
}

/// Whether a DRM entry name is a card (`card` followed by text holding
/// an ASCII digit).
pub open spec fn is_card_name_spec(name: Seq<char>) -> bool {
    &&& strip_prefix(name, "card"@) is Some
    &&& exists|i: int| 0 <= i < name.len() && '0' <= #[trigger] name[i] && name[i] <= '9'
}

/// Whether a DRM entry name is a card.
pub fn is_card_name(name: &str) -> (r: bool)
    ensures
        r == is_card_name_spec(name@),
{
    let v = to_chars(name);
    let p = to_chars("card");
    proof {
        reveal_strlit("card");
    }
    assert(v@.subrange(0, v@.len() as int) =~= v@);
    if !starts_with_at(&v, 0, v.len(), &p) {
        return false;
    }
    let mut i: usize = 0;
    while i < v.len()
        invariant
            i <= v@.len(),
            v@ == name@,
            p@ == "card"@,
            strip_prefix(v@, p@) is Some,
            forall|j: int| 0 <= j < i ==> !('0' <= v@[j] && v@[j] <= '9'),
        decreases v@.len() - i,
    {
        if '0' <= v[i] && v[i] <= '9' {
            assert('0' <= name@[i as int] && name@[i as int] <= '9');
            return true;
        }
        i = i + 1;
    }
    false
}

impl SysInfo {
    /// Builds the panel data from the texts of the system files (`None`
    /// for a file that could not be read) and an already computed GPU
    /// label: os is PRETTY_NAME or "Unknown OS", kernel the first line of
    /// the release file or empty, cpu the first model name or empty, the
    /// memory values from MemTotal and MemAvailable or 0, the gateway from
    /// the route table.
    pub fn from_texts(
        os_release: Option<&str>,
        kernel_release: Option<&str>,
        cpuinfo: Option<&str>,
        meminfo: Option<&str>,
        route: Option<&str>,
        gpu: String,
    ) -> (r: Self)
        ensures
            r.os@ == (match os_release {
                Some(t) => match os_release_spec(t@, "PRETTY_NAME"@) {
                    Some(s) => s,
                    None => "Unknown OS"@,
                },
                None => "Unknown OS"@,
            }),
            r.kernel@ == (match kernel_release {
                Some(t) => match first_line_spec(t@) {
                    Some(s) => s,
                    None => Seq::empty(),
                },
                None => Seq::empty(),
            }),
            r.cpu@ == (match cpuinfo {
                Some(t) => match find_map(lines_of(t@), cpu_model_line()) {
                    Some(s) => s,
                    None => Seq::empty(),
                },
                None => Seq::empty(),
            }),
            r.gpu == gpu,
            r.mem_total_kib == (match meminfo {
                Some(t) => match find_map(lines_of(t@), meminfo_line("MemTotal:"@)) {
                    Some(x) => x,
                    None => 0,
                },
                None => 0,
            }),
            r.mem_available_kib == (match meminfo {
                Some(t) => match find_map(lines_of(t@), meminfo_line("MemAvailable:"@)) {
                    Some(x) => x,
                    None => 0,
                },
                None => 0,
            }),
            match r.gateway {
                Some(g) => route matches Some(t) && default_route_spec(t@) == Some((g.0@, g.1@)),
                None => route is None || default_route_spec(route.unwrap()@) is None,
            },
    {
        proof {
            reveal_strlit("PRETTY_NAME");
            reveal_strlit("MemTotal");
            reveal_strlit("MemAvailable");
            reveal_strlit("MemTotal:");
            reveal_strlit("MemAvailable:");
            reveal_strlit("Unknown OS");
        }
        let os = match os_release {
            Some(t) => match os_release_value(t, "PRETTY_NAME") {
                Some(s) => s,
                None => String::from_str("Unknown OS"),
            },
            None => String::from_str("Unknown OS"),
        };
        let kernel = match kernel_release {
            Some(t) => match first_line(t) {
                Some(s) => s,
                None => String::new(),
            },
            None => String::new(),
        };
        let cpu = match cpuinfo {
            Some(t) => match cpu_model(t) {
                Some(s) => s,
                None => String::new(),
            },
            None => String::new(),
        };
        let (mem_total_kib, mem_available_kib) = match meminfo {
            Some(t) => {
                proof {
                    assert("MemTotal"@.push(':') =~= "MemTotal:"@);
                    assert("MemAvailable"@.push(':') =~= "MemAvailable:"@);
                }
                let total = match meminfo_kib(t, "MemTotal") {
                    Some(x) => x,
                    None => 0,
                };
                let avail = match meminfo_kib(t, "MemAvailable") {
                    Some(x) => x,
                    None => 0,
                };
                (total, avail)
            },
            None => (0, 0),
        };
        let gateway = match route {
            Some(t) => default_route(t),
            None => None,
        };
        SysInfo { os, kernel, cpu, gpu, mem_total_kib, mem_available_kib, gateway }
    }
}

} // verus!
