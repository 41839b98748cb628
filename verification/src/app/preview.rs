//! The preview page: versions, the system, the exit addresses and the
//! recent traffic.

use vstd::prelude::*;
use crate::app::checker::IPInfo;
use crate::ipc::models::{BackendVersion, Connections, Traffic};
use crate::parse::{find_map, lemma_find_map_step, line_ranges, lines_of, starts_with_at, strip_prefix, trim, trim_char_range, trim_matches, trim_range};
use crate::text::{string_of_range, to_chars};

verus! {

/// Where the client runs.
#[derive(Debug, Clone)]
pub struct SystemInfo {
    pub distribution: String,
    pub kernel_version: String,
    pub verge_version: String,
}

/// What an os-release line gives for the prefix `KEY=`: the rest of the
/// line without surrounding double quotes.
pub open spec fn prefixed_value(prefix: Seq<char>) -> spec_fn(Seq<char>) -> Option<Seq<char>> {
    |l: Seq<char>| match strip_prefix(l, prefix) {
        Some(v) => Some(trim_matches(v, '"')),
        None => None,
    }
}

/// The distribution named by an os-release text: its `PRETTY_NAME`, else
/// its `NAME`, else `Unknown` (also when there is no text).
pub open spec fn distribution_text(content: Option<Seq<char>>) -> Seq<char> {
    match content {
        None => "Unknown"@,
        Some(t) => match find_map(lines_of(t), prefixed_value("PRETTY_NAME="@)) {
            Some(v) => v,
            None => match find_map(lines_of(t), prefixed_value("NAME="@)) {
                Some(v) => v,
                None => "Unknown"@,
            },
        },
    }
}

fn first_prefixed(v: &Vec<char>, lines: &Vec<(usize, usize)>, p: &Vec<char>) -> (r: Option<String>)
    requires
        lines@.len() == lines_of(v@).len(),
        forall|k: int| 0 <= k < lines@.len() ==> (#[trigger] lines@[k]).0 <= lines@[k].1 <= v@.len(),
        forall|k: int|
            0 <= k < lines@.len() ==> v@.subrange(lines@[k].0 as int, lines@[k].1 as int) == #[trigger] lines_of(v@)[k],
    ensures
        match r {
            Some(s) => find_map(lines_of(v@), prefixed_value(p@)) == Some(s@),
            None => find_map(lines_of(v@), prefixed_value(p@)) is None,
        },
{
    let ghost f = prefixed_value(p@);
    let ghost ls = lines_of(v@);
    let mut i: usize = 0;
    assert(ls.skip(0) =~= ls);
    while i < lines.len()
        invariant
            i <= lines@.len(),
            lines@.len() == ls.len(),
            ls == lines_of(v@),
            f == prefixed_value(p@),
            forall|k: int| 0 <= k < lines@.len() ==> (#[trigger] lines@[k]).0 <= lines@[k].1 <= v@.len(),
            forall|k: int| 0 <= k < lines@.len() ==> v@.subrange(lines@[k].0 as int, lines@[k].1 as int) == #[trigger] ls[k],
            find_map(ls.skip(i as int), f) == find_map(ls, f),
        decreases lines@.len() - i,
    {
        proof {
            lemma_find_map_step(ls, i as int, f);
        }
        let (lo, hi) = lines[i];
        if starts_with_at(v, lo, hi, p) {
            let (c, d) = trim_char_range(v, lo + p.len(), hi, '"');
            proof {
                let t = v@.subrange(lo as int, hi as int);
                assert(t.skip(p@.len() as int) =~= v@.subrange(lo + p@.len(), hi as int));
                assert(ls[i as int] == v@.subrange(lo as int, hi as int));
                assert(f(ls[i as int]) == Some(v@.subrange(c as int, d as int)));
            }
            return Some(string_of_range(v, c, d));
        }
        i = i + 1;
    }
    proof {
        assert(ls.skip(i as int) =~= Seq::<Seq<char>>::empty());
    }
    None
}

/// The distribution named by the os-release text (see
/// `distribution_text`); `None` when the file could not be read.
pub fn detect_distribution(content: Option<&str>) -> (r: String)
    ensures
        r@ == distribution_text(match content {
            Some(t) => Some(t@),
            None => None,
        }),
{
    match content {
        None => {
            let mut r = String::new();
            r.append("Unknown");
            r
        },
        Some(t) => {
            let v = to_chars(t);
            let lines = line_ranges(&v);
            let pretty: Vec<char> = to_chars("PRETTY_NAME=");
            match first_prefixed(&v, &lines, &pretty) {
                Some(s) => s,
                None => {
                    let name = to_chars("NAME=");
                    match first_prefixed(&v, &lines, &name) {
                        Some(s) => s,
                        None => {
                            let mut r = String::new();
                            r.append("Unknown");
                            r
                        },
                    }
                },
            }
        },
    }
}

/// The kernel release printed by `uname -r`, trimmed; `Unknown` when the
/// command failed.
pub fn detect_kernel_version(output: Option<&str>) -> (r: String)
    ensures
        r@ == match output {
            Some(t) => trim(t@),
            None => "Unknown"@,
        },
{
    match output {
        None => {
            let mut r = String::new();
            r.append("Unknown");
            r
        },
        Some(t) => {
            let v = to_chars(t);
            let (a, b) = trim_range(&v, 0, v.len());
            assert(v@.subrange(0, v@.len() as int) =~= v@);
            string_of_range(&v, a, b)
        },
    }
}

/// The system facts from the os-release text and the `uname -r` output
/// (each `None` when it could not be had) and the client's version.
pub fn detect_system_info(os_release: Option<&str>, uname: Option<&str>, version: &str) -> (r: SystemInfo)
    ensures
        r.distribution@ == distribution_text(match os_release {
            Some(t) => Some(t@),
            None => None,
        }),
        r.kernel_version@ == match uname {
            Some(t) => trim(t@),
            None => "Unknown"@,
        },
        r.verge_version@ == version@,
{
    let mut verge_version = String::new();
    verge_version.append(version);
    SystemInfo {
        distribution: detect_distribution(os_release),
        kernel_version: detect_kernel_version(uname),
        verge_version,
    }
}

/// The last 60 of `h` followed by `t`.
pub open spec fn recent_traffic(h: Seq<Traffic>, t: Traffic) -> Seq<Traffic> {
    let p = h.push(t);
    if p.len() > 60 { p.drop_first() } else { p }
}

/// The preview page.
#[derive(Debug)]
pub struct PreviewState {
    pub version: Option<BackendVersion>,
    pub system_info: SystemInfo,
    pub direct_ip: Option<IPInfo>,
    pub proxy_ip: Option<IPInfo>,
    pub connections: Option<Connections>,
    pub traffic_history: Vec<Traffic>,
    pub current_traffic: Option<Traffic>,
}

impl PreviewState {
    /// A page that knows only the system it runs on.
    pub fn new(system_info: SystemInfo) -> (r: Self)
        ensures
            r.version is None,
            r.system_info == system_info,
            r.direct_ip is None,
            r.proxy_ip is None,
            r.connections is None,
            r.traffic_history@.len() == 0,
            r.current_traffic is None,
    {
        PreviewState {
            version: None,
            system_info,
            direct_ip: None,
            proxy_ip: None,
            connections: None,
            traffic_history: Vec::new(),
            current_traffic: None,
        }
    }

    /// Records the controller's version.
    pub fn update_version(&mut self, version: BackendVersion)
        ensures
            final(self).version == Some(version),
            final(self).traffic_history == old(self).traffic_history,
            final(self).current_traffic == old(self).current_traffic,
            final(self).system_info == old(self).system_info,
            final(self).direct_ip == old(self).direct_ip,
            final(self).proxy_ip == old(self).proxy_ip,
            final(self).connections == old(self).connections,
    {
        self.version = Some(version);
    }

    /// Records the latest connections report.
    pub fn update_connections(&mut self, connections: Connections)
        ensures
            final(self).connections == Some(connections),
            final(self).version == old(self).version,
            final(self).traffic_history == old(self).traffic_history,
            final(self).system_info == old(self).system_info,
            final(self).direct_ip == old(self).direct_ip,
            final(self).proxy_ip == old(self).proxy_ip,
            final(self).current_traffic == old(self).current_traffic,
    {
        self.connections = Some(connections);
    }

    /// Records the exit addresses, direct and through the proxy.
    pub fn update_ip_info(&mut self, direct_ip: Option<IPInfo>, proxy_ip: Option<IPInfo>)
        ensures
            final(self).direct_ip == direct_ip,
            final(self).proxy_ip == proxy_ip,
            final(self).version == old(self).version,
            final(self).traffic_history == old(self).traffic_history,
            final(self).system_info == old(self).system_info,
            final(self).connections == old(self).connections,
            final(self).current_traffic == old(self).current_traffic,
    {
        self.direct_ip = direct_ip;
        self.proxy_ip = proxy_ip;
    }

    /// Records a traffic sample: it becomes the current one and ends the
    /// history, which keeps the last 60 samples.
    pub fn update_traffic(&mut self, traffic: Traffic)
        ensures
            final(self).current_traffic == Some(traffic),
            final(self).traffic_history@ == recent_traffic(old(self).traffic_history@, traffic),
            final(self).version == old(self).version,
            final(self).system_info == old(self).system_info,
            final(self).direct_ip == old(self).direct_ip,
            final(self).proxy_ip == old(self).proxy_ip,
            final(self).connections == old(self).connections,
    {
        self.current_traffic = Some(traffic);
        let ghost h0 = self.traffic_history@;
        self.traffic_history.push(traffic);
        if self.traffic_history.len() > 60 {
            self.traffic_history.remove(0);
        }
        assert(self.traffic_history@ =~= recent_traffic(h0, traffic));
    }
}

/// The traffic history never holds more than 60 samples, and the newest
/// sample is always its last.
pub proof fn lemma_recent_traffic_bounded(h: Seq<Traffic>, t: Traffic)
    requires
        h.len() <= 60,
    ensures
        recent_traffic(h, t).len() <= 60,
        recent_traffic(h, t).last() == t,
        recent_traffic(h, t).len() == if h.len() < 60 { h.len() + 1 } else { 60 },
{
}

} // verus!
