//! Results of the network analysis: the exit addresses and whether
//! streaming services are reachable through the proxy.

use vstd::prelude::*;
use crate::text::{
    boundary_index, byte_offset, byte_offset_at, char_index_of, contains_seq, find_str,
    first_occurrence, is_boundary, lemma_byte_offset_bound, lemma_byte_offset_end, str_contains,
    string_of_range, to_chars, utf8_byte_len,
};

verus! {

/// An exit address and the country it is located in.
#[derive(Debug, Clone)]
pub struct IPInfo {
    pub ip: String,
    pub region: String,
}

/// Whether a streaming service can be used.
#[derive(Debug, Clone, PartialEq, Eq)]
pub enum UnlockStatus {
    Testing,
    /// Available, with the region it reports (`US`, `Yes`, ...).
    Unlocked(String),
    OriginalsOnly,
    /// Not available, with the reason.
    Blocked(String),
    Error(String),
}

/// The exit addresses and the status of each checked service.
#[derive(Debug, Clone)]
pub struct AnalysisResult {
    pub direct_ip: Option<IPInfo>,
    pub proxy_ip: Option<IPInfo>,
    pub youtube_status: UnlockStatus,
    pub netflix_status: UnlockStatus,
    pub spotify_status: UnlockStatus,
    pub bilibili_status: UnlockStatus,
}

/// No address known yet and every service still being tested.
pub open spec fn pending_analysis(r: AnalysisResult) -> bool {
    &&& r.direct_ip.is_none()
    &&& r.proxy_ip.is_none()
    &&& r.youtube_status is Testing
    &&& r.netflix_status is Testing
    &&& r.spotify_status is Testing
    &&& r.bilibili_status is Testing
}

impl Default for AnalysisResult {
    fn default() -> (r: Self)
        ensures
            pending_analysis(r),
    {
        AnalysisResult {
            direct_ip: None,
            proxy_ip: None,
            youtube_status: UnlockStatus::Testing,
            netflix_status: UnlockStatus::Testing,
            spotify_status: UnlockStatus::Testing,
            bilibili_status: UnlockStatus::Testing,
        }
    }
}

/// `r` is `Unlocked` with the region `t`.
pub open spec fn unlocked_with(r: UnlockStatus, t: Seq<char>) -> bool {
    r matches UnlockStatus::Unlocked(m) && m@ == t
}

/// `r` is `Blocked` with the reason `t`.
pub open spec fn blocked_with(r: UnlockStatus, t: Seq<char>) -> bool {
    r matches UnlockStatus::Blocked(m) && m@ == t
}

/// `r` is `Error` with the message `t`.
pub open spec fn error_with(r: UnlockStatus, t: Seq<char>) -> bool {
    r matches UnlockStatus::Error(m) && m@ == t
}

/// The verdict on Netflix once the page of an original title has answered
/// with `status`: blocked on 403, otherwise still open (the page of a
/// licensed title decides).
pub fn netflix_original_verdict(status: u16) -> (r: Option<UnlockStatus>)
    ensures
        status == 403 ==> (r matches Some(v) && blocked_with(v, "403 Forbidden"@)),
        status != 403 ==> r is None,
{
    if status == 403 {
        Some(UnlockStatus::Blocked(String::from_str("403 Forbidden")))
    } else {
        None
    }
}

/// The verdict on Netflix from the answer to the page of a licensed title:
/// `None` when that request failed, else its status code and status line
/// (`404 Not Found`). A missing title means only originals are offered.
pub fn netflix_title_verdict(answer: Option<(u16, &str)>) -> (r: UnlockStatus)
    ensures
        match answer {
            None => r is OriginalsOnly,
            Some((404, _)) => r is OriginalsOnly,
            Some((200, _)) => unlocked_with(r, "Yes"@),
            Some((_, line)) => error_with(r, "Status "@ + line@),
        },
{
    match answer {
        None => UnlockStatus::OriginalsOnly,
        Some((code, line)) => {
            if code == 404 {
                UnlockStatus::OriginalsOnly
            } else if code == 200 {
                UnlockStatus::Unlocked(String::from_str("Yes"))
            } else {
                let mut m = String::from_str("Status ");
                m.append(line);
                UnlockStatus::Error(m)
            }
        },
    }
}

/// The notice YouTube shows where Premium is not offered.
pub open spec fn youtube_refusal() -> Seq<char> {
    "Premium is not available in your country"@
}

/// The text that precedes the region code in a YouTube page.
pub open spec fn youtube_region_marker() -> Seq<char> {
    "\"GL\":\""@
}

/// The byte offset at which the two-byte region code after the marker at
/// character index `i` ends.
pub open spec fn region_end(body: Seq<char>, i: int) -> int {
    (byte_offset(body, i + 6) + 2) as int
}

/// The page can be judged: it carries the refusal, or the two bytes after
/// the first region marker are whole characters of it.
pub open spec fn youtube_page_readable(body: Seq<char>) -> bool {
    contains_seq(body, youtube_refusal()) || forall|i: int|
        first_occurrence(body, youtube_region_marker(), i) ==> is_boundary(body, region_end(body, i))
}

/// The YouTube verdict from its Premium page: blocked where the refusal
/// shows, else unlocked with the two-byte region code that follows the
/// first region marker, else blocked with an unknown region.
pub fn youtube_status(body: &str) -> (r: UnlockStatus)
    requires
        youtube_page_readable(body@),
    ensures
        contains_seq(body@, youtube_refusal()) ==> blocked_with(r, "Premium Not Available"@),
        !contains_seq(body@, youtube_refusal()) && !contains_seq(body@, youtube_region_marker())
            ==> blocked_with(r, "Unknown Region"@),
        forall|i: int|
            !contains_seq(body@, youtube_refusal()) && first_occurrence(body@, youtube_region_marker(), i)
                ==> unlocked_with(r, body@.subrange(i + 6, char_index_of(body@, region_end(body@, i)))),
{
    proof {
        assert(youtube_refusal() == "Premium is not available in your country"@);
        assert(youtube_region_marker() == "\"GL\":\""@);
    }
    if str_contains(body, "Premium is not available in your country") {
        return UnlockStatus::Blocked(String::from_str("Premium Not Available"));
    }
    match find_str(body, "\"GL\":\"") {
        None => UnlockStatus::Blocked(String::from_str("Unknown Region")),
        Some(i) => {
            proof {
                reveal_strlit("\"GL\":\"");
            }
            let v = to_chars(body);
            let total = utf8_byte_len(body);
            let start = i + 6;
            proof {
                lemma_byte_offset_bound(v@, start as int);
            }
            let b = byte_offset_at(&v, start);
            proof {
                lemma_byte_offset_end(v@);
                assert(is_boundary(v@, region_end(v@, i as int)));
                let k = choose|k: int| 0 <= k <= v@.len() && byte_offset(v@, k) == b + 2;
                lemma_byte_offset_bound(v@, k);
            }
            match boundary_index(&v, b + 2) {
                Some(k) => {
                    proof {
                        crate::text::lemma_char_index_of(v@, b + 2, k as int);
                        if k < start {
                            crate::text::lemma_byte_offset_strict(v@, k as int, start as int);
                        }
                    }
                    let region = string_of_range(&v, start, k);
                    proof {
                        assert forall|j: int|
                            !contains_seq(body@, youtube_refusal()) && first_occurrence(body@, youtube_region_marker(), j)
                                implies unlocked_with(UnlockStatus::Unlocked(region), body@.subrange(j + 6, char_index_of(body@, region_end(body@, j)))) by {
                            if j < i {
                                assert(!crate::text::occurs_at(body@, youtube_region_marker(), j));
                            } else if i < j {
                                assert(!crate::text::occurs_at(body@, youtube_region_marker(), i as int));
                            }
                        }
                    }
                    UnlockStatus::Unlocked(region)
                },
                None => {
                    proof {
                        assert(false);
                    }
                    UnlockStatus::Blocked(String::from_str("Unknown Region"))
                },
            }
        },
    }
}

/// Whether a YouTube page can be judged by [`youtube_status`].
pub fn youtube_page_is_readable(body: &str) -> (r: bool)
    ensures
        r == youtube_page_readable(body@),
{
    proof {
        assert(youtube_refusal() == "Premium is not available in your country"@);
        assert(youtube_region_marker() == "\"GL\":\""@);
    }
    if str_contains(body, "Premium is not available in your country") {
        return true;
    }
    match find_str(body, "\"GL\":\"") {
        None => true,
        Some(i) => {
            proof {
                reveal_strlit("\"GL\":\"");
            }
            let v = to_chars(body);
            let total = utf8_byte_len(body);
            let start = i + 6;
            proof {
                lemma_byte_offset_bound(v@, start as int);
                lemma_byte_offset_end(v@);
            }
            let b = byte_offset_at(&v, start);
            if total < 2 || b > total - 2 {
                proof {
                    assert forall|k: int| 0 <= k <= v@.len() implies byte_offset(v@, k) != b + 2 by {
                        lemma_byte_offset_bound(v@, k);
                    }
                    assert(!is_boundary(v@, region_end(v@, i as int)));
                }
                return false;
            }
            let found = boundary_index(&v, b + 2);
            proof {
                assert forall|j: int| first_occurrence(body@, youtube_region_marker(), j) implies j == i by {
                    if j < i {
                        assert(!crate::text::occurs_at(body@, youtube_region_marker(), j));
                    } else if i < j {
                        assert(!crate::text::occurs_at(body@, youtube_region_marker(), i as int));
                    }
                }
                if found is Some {
                    assert(is_boundary(v@, b + 2));
                }
            }
            found.is_some()
        },
    }
}

/// The notice Spotify shows where it is not offered.
pub open spec fn spotify_refusal() -> Seq<char> {
    "Spotify is currently not available in your country"@
}

/// The Spotify verdict from its start page.
pub fn spotify_status(body: &str) -> (r: UnlockStatus)
    ensures
        contains_seq(body@, spotify_refusal()) ==> blocked_with(r, "Not Available"@),
        !contains_seq(body@, spotify_refusal()) ==> unlocked_with(r, "Yes"@),
{
    if str_contains(body, "Spotify is currently not available in your country") {
        UnlockStatus::Blocked(String::from_str("Not Available"))
    } else {
        UnlockStatus::Unlocked(String::from_str("Yes"))
    }
}

/// The answer of the Bilibili play API when playback is allowed.
pub open spec fn bilibili_success() -> Seq<char> {
    "\"code\":0"@
}

/// The Bilibili verdict from its play API's answer.
pub fn bilibili_status(body: &str) -> (r: UnlockStatus)
    ensures
        contains_seq(body@, bilibili_success()) ==> unlocked_with(r, "Mainland"@),
        !contains_seq(body@, bilibili_success()) ==> blocked_with(r, "Restricted"@),
{
    if str_contains(body, "\"code\":0") {
        UnlockStatus::Unlocked(String::from_str("Mainland"))
    } else {
        UnlockStatus::Blocked(String::from_str("Restricted"))
    }
}

} // verus!
