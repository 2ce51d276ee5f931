//! Tolerant parser for the optional per-user monitor-layout description: an
//! XML-like file listing monitor (or logical-monitor) entries with position,
//! size and scale children. The content is ASCII-lowercased, every
//! `<monitor>`/`<logicalmonitor>` element is scanned, and each field falls
//! back to a default when its tag is missing or does not hold a usable
//! number (x 0, y 0, width 1920, height 1080, scale 1). A width, height or
//! scale that parses negative is treated like a missing field. A malformed
//! or empty file simply yields no entries.

use vstd::prelude::*;
use vstd::string::StringSliceAdditionalSpecFns;
use crate::bytes::{
    ascii_lower, copy_range, find_from, lemma_find_some, lower_seq, match_at, matches_at,
    parse_i32, spec_find, spec_parse_i32, spec_trim, trim_copy,
};
use crate::geometry::Monitor;

verus! {

/// The byte that opens any tag.
pub open spec fn lt_mark() -> Seq<u8> {
    "<".spec_bytes()
}

/// Opening of a monitor element.
pub open spec fn monitor_open() -> Seq<u8> {
    "<monitor".spec_bytes()
}

/// Closing tag of a monitor element.
pub open spec fn monitor_close() -> Seq<u8> {
    "</monitor>".spec_bytes()
}

/// Opening of a logical-monitor element.
pub open spec fn logical_open() -> Seq<u8> {
    "<logicalmonitor".spec_bytes()
}

/// Closing tag of a logical-monitor element.
pub open spec fn logical_close() -> Seq<u8> {
    "</logicalmonitor>".spec_bytes()
}

/// The value of the first `open`...`close` pair in the snippet, trimmed and
/// read as a 32-bit decimal number.
pub open spec fn spec_extract(snippet: Seq<u8>, open: Seq<u8>, close: Seq<u8>) -> Option<int> {
    match spec_find(snippet, open, 0) {
        None => None,
        Some(p) => {
            let a = p + open.len();
            match spec_find(snippet, close, a) {
                None => None,
                Some(b) => spec_parse_i32(spec_trim(snippet.subrange(a, b))),
            }
        },
    }
}

/// A coordinate field: the extracted value, or the default when absent.
pub open spec fn coord_or(v: Option<int>, default: int) -> int {
    match v {
        Some(x) => x,
        None => default,
    }
}

/// A size or scale field: the first of the two extracted values that is
/// present and non-negative, or the default.
pub open spec fn size_or(a: Option<int>, b: Option<int>, default: int) -> int {
    if a is Some && a->0 >= 0 {
        a->0
    } else if b is Some && b->0 >= 0 {
        b->0
    } else {
        default
    }
}

/// The monitor entry described by one element snippet.
pub open spec fn spec_monitor_of(snippet: Seq<u8>) -> Monitor {
    Monitor {
        x: coord_or(spec_extract(snippet, "<x>".spec_bytes(), "</x>".spec_bytes()), 0) as i64,
        y: coord_or(spec_extract(snippet, "<y>".spec_bytes(), "</y>".spec_bytes()), 0) as i64,
        width: size_or(
            spec_extract(snippet, "<width>".spec_bytes(), "</width>".spec_bytes()),
            spec_extract(snippet, "<modewidth>".spec_bytes(), "</modewidth>".spec_bytes()),
            1920,
        ) as i64,
        height: size_or(
            spec_extract(snippet, "<height>".spec_bytes(), "</height>".spec_bytes()),
            spec_extract(snippet, "<modeheight>".spec_bytes(), "</modeheight>".spec_bytes()),
            1080,
        ) as i64,
        scale: size_or(
            spec_extract(snippet, "<scale>".spec_bytes(), "</scale>".spec_bytes()),
            None,
            1,
        ) as i64,
    }
}

/// Where the scan resumes after an element that ends at `e` was taken at
/// `p`: at the element's closing tag, always strictly forward.
pub open spec fn next_scan_idx(p: int, e: int) -> int {
    if e > p {
        e
    } else {
        p + 1
    }
}

/// The tag opener is one byte long.
proof fn lemma_lt_mark_len()
    ensures
        lt_mark().len() == 1,
{
    reveal_strlit("<");
    assert(vstd::utf8::is_ascii_chars("<"@));
    vstd::utf8::is_ascii_chars_encode_utf8("<"@);
}

/// All monitor entries found scanning the (lowercased) content from `idx`:
/// at each tag opener, a monitor or logical-monitor element with a closing
/// tag yields one entry and the scan resumes at the closing tag; anything
/// else moves the scan forward one byte.
pub open spec fn spec_scan(s: Seq<u8>, idx: int) -> Seq<Monitor>
    decreases s.len() - idx,
    via spec_scan_dec
{
    match spec_find(s, lt_mark(), idx) {
        None => Seq::empty(),
        Some(p) => {
            if match_at(s, monitor_open(), p) {
                match spec_find(s, monitor_close(), p) {
                    Some(e) => seq![spec_monitor_of(s.subrange(p, e))] + spec_scan(
                        s,
                        next_scan_idx(p, e),
                    ),
                    None => spec_scan(s, p + 1),
                }
            } else if match_at(s, logical_open(), p) {
                match spec_find(s, logical_close(), p) {
                    Some(e) => seq![spec_monitor_of(s.subrange(p, e))] + spec_scan(
                        s,
                        next_scan_idx(p, e),
                    ),
                    None => spec_scan(s, p + 1),
                }
            } else {
                spec_scan(s, p + 1)
            }
        },
    }
}

#[via_fn]
proof fn spec_scan_dec(s: Seq<u8>, idx: int) {
    lemma_lt_mark_len();
    match spec_find(s, lt_mark(), idx) {
        None => {},
        Some(p) => {
            lemma_find_some(s, lt_mark(), idx, p);
            if match_at(s, monitor_open(), p) {
                match spec_find(s, monitor_close(), p) {
                    Some(e) => {
                        lemma_find_some(s, monitor_close(), p, e);
                    },
                    None => {},
                }
            } else if match_at(s, logical_open(), p) {
                match spec_find(s, logical_close(), p) {
                    Some(e) => {
                        lemma_find_some(s, logical_close(), p, e);
                    },
                    None => {},
                }
            }
        },
    }
}

/// The monitor entries described by a layout file's raw content.
pub open spec fn spec_parse_monitors(content: Seq<u8>) -> Seq<Monitor> {
    spec_scan(lower_seq(content), 0)
}

/// Extract one numeric field of an element snippet.
fn extract_field(snippet: &[u8], open: &[u8], close: &[u8]) -> (r: Option<i32>)
    ensures
        match r {
            Some(v) => spec_extract(snippet@, open@, close@) == Some(v as int),
            None => spec_extract(snippet@, open@, close@) is None,
        },
{
    match find_from(snippet, 0, open) {
        None => None,
        Some(p) => {
            let total = snippet.len();
            proof {
                lemma_find_some(snippet@, open@, 0, p as int);
                assert(p + open@.len() <= total);
            }
            let a: usize = p + open.len();
            match find_from(snippet, a, close) {
                None => None,
                Some(b) => {
                    proof {
                        lemma_find_some(snippet@, close@, a as int, b as int);
                    }
                    let inner = copy_range(snippet, a, b);
                    let trimmed = trim_copy(inner.as_slice());
                    parse_i32(trimmed.as_slice())
                },
            }
        },
    }
}

/// A size or scale field: first usable of the two extractions, else default.
fn pick_size(a: Option<i32>, b: Option<i32>, default: i32) -> (r: i32)
    ensures
        r as int == size_or(
            match a {
                Some(v) => Some(v as int),
                None => None,
            },
            match b {
                Some(v) => Some(v as int),
                None => None,
            },
            default as int,
        ),
{
    match a {
        Some(v) if v >= 0 => v,
        _ => match b {
            Some(w) if w >= 0 => w,
            _ => default,
        },
    }
}

/// The monitor entry described by one element snippet.
fn monitor_of(snippet: &[u8]) -> (m: Monitor)
    ensures
        m == spec_monitor_of(snippet@),
        m.wf(),
{
    let x = match extract_field(snippet, "<x>".as_bytes(), "</x>".as_bytes()) {
        Some(v) => v,
        None => 0,
    };
    let y = match extract_field(snippet, "<y>".as_bytes(), "</y>".as_bytes()) {
        Some(v) => v,
        None => 0,
    };
    let width = pick_size(
        extract_field(snippet, "<width>".as_bytes(), "</width>".as_bytes()),
        extract_field(snippet, "<modewidth>".as_bytes(), "</modewidth>".as_bytes()),
        1920,
    );
    let height = pick_size(
        extract_field(snippet, "<height>".as_bytes(), "</height>".as_bytes()),
        extract_field(snippet, "<modeheight>".as_bytes(), "</modeheight>".as_bytes()),
        1080,
    );
    let scale = match extract_field(snippet, "<scale>".as_bytes(), "</scale>".as_bytes()) {
        Some(v) if v >= 0 => v,
        _ => 1,
    };
    Monitor {
        x: x as i64,
        y: y as i64,
        width: width as i64,
        height: height as i64,
        scale: scale as i64,
    }
}

/// Parse a layout file's content into its monitor entries. Every returned
/// entry is well formed; a content with no recognizable entries yields an
/// empty list.
#[verifier::loop_isolation(false)]
pub fn parse_monitors(content: &[u8]) -> (mons: Vec<Monitor>)
    ensures
        mons@ == spec_parse_monitors(content@),
        forall|i: int| 0 <= i < mons@.len() ==> #[trigger] mons@[i].wf(),
{
    let lowered: Vec<u8> = ascii_lower(content);
    let s: &[u8] = lowered.as_slice();
    let mut mons: Vec<Monitor> = Vec::new();
    let mut idx: usize = 0;
    loop
        invariant
            s@ == lower_seq(content@),
            idx <= s@.len(),
            spec_parse_monitors(content@) == mons@ + spec_scan(s@, idx as int),
            forall|i: int| 0 <= i < mons@.len() ==> #[trigger] mons@[i].wf(),
        decreases s@.len() - idx,
    {
        let found = find_from(s, idx, "<".as_bytes());
        match found {
            None => {
                proof {
                    assert(spec_parse_monitors(content@) =~= mons@);
                }
                return mons;
            },
            Some(p) => {
                proof {
                    lemma_find_some(s@, lt_mark(), idx as int, p as int);
                    lemma_lt_mark_len();
                }
                if matches_at(s, p, "<monitor".as_bytes()) {
                    match find_from(s, p, "</monitor>".as_bytes()) {
                        Some(e) => {
                            proof {
                                lemma_find_some(s@, monitor_close(), p as int, e as int);
                            }
                            let snip = copy_range(s, p, e);
                            let m = monitor_of(snip.as_slice());
                            mons.push(m);
                            idx = if e > p {
                                e
                            } else {
                                p + 1
                            };
                        },
                        None => {
                            idx = p + 1;
                        },
                    }
                } else if matches_at(s, p, "<logicalmonitor".as_bytes()) {
                    match find_from(s, p, "</logicalmonitor>".as_bytes()) {
                        Some(e) => {
                            proof {
                                lemma_find_some(s@, logical_close(), p as int, e as int);
                            }
                            let snip = copy_range(s, p, e);
                            let m = monitor_of(snip.as_slice());
                            mons.push(m);
                            idx = if e > p {
                                e
                            } else {
                                p + 1
                            };
                        },
                        None => {
                            idx = p + 1;
                        },
                    }
                } else {
                    idx = p + 1;
                }
            },
        }
    }
}

} // verus!
