//! The pure part of the JSON log-line formatter: turning an event's source
//! file and line into the `location` field.
//!
//! Rendering the whole log line (timestamp, level, structured fields) walks
//! the log framework's types and happens outside the library; it calls
//! [`format_location`] for the one field with logic of its own.

use vstd::prelude::*;
use vstd::string::{StrSliceExecFns, StringExecFns};

use crate::text::{dec_digits, str_eq, u32_to_dec};

verus! {

/// Marker type for the JSON log-line event formatter the process installs.
#[derive(Debug, Clone, Copy)]
pub struct JsonFormatter;

/// The path fragment that starts a source-relative location.
pub open spec fn src_marker() -> Seq<char> {
    "src/"@
}

/// The position of the first occurrence of the source marker in `f` at or
/// after position `i`, if any.
pub open spec fn find_src_from(f: Seq<char>, i: int) -> Option<int>
    decreases f.len() - i,
{
    if i < 0 || i + 4 > f.len() {
        None
    } else if f.subrange(i, i + 4) == src_marker() {
        Some(i)
    } else {
        find_src_from(f, i + 1)
    }
}

/// The `location` field of a log line for an event recorded at `f:line`:
/// the path from its first `src/` component on when there is one, else the
/// whole path, followed by a colon and the decimal line number; empty when
/// the file is unknown.
pub open spec fn location_text(f: Seq<char>, line: nat) -> Seq<char> {
    match find_src_from(f, 0) {
        Some(i) => f.subrange(i, f.len() as int) + ":"@ + dec_digits(line),
        None => if f.len() > 0 {
            f + ":"@ + dec_digits(line)
        } else {
            Seq::<char>::empty()
        },
    }
}

proof fn lemma_find_src_step(f: Seq<char>, i: int)
    requires
        0 <= i,
        i + 4 <= f.len(),
        f.subrange(i, i + 4) != src_marker(),
    ensures
        find_src_from(f, i) == find_src_from(f, i + 1),
{
}

/// The position of the first occurrence of the source marker in `f`.
pub fn find_src(f: &str) -> (r: Option<usize>)
    ensures
        match r {
            Some(i) => find_src_from(f@, 0) == Some(i as int) && i + 4 <= f@.len(),
            None => find_src_from(f@, 0) is None,
        },
{
    let len = f.unicode_len();
    if len < 4 {
        return None;
    }
    let mut i: usize = 0;
    while i <= len - 4
        invariant
            len == f@.len(),
            4 <= len,
            i <= len - 3,
            find_src_from(f@, 0) == find_src_from(f@, i as int),
        decreases len - i,
    {
        let w = f.substring_char(i, i + 4);
        if str_eq(w, "src/") {
            return Some(i);
        }
        proof {
            lemma_find_src_step(f@, i as int);
        }
        i += 1;
    }
    None
}

/// Render the `location` field for an event recorded at `file:line`.
pub fn format_location(file: &str, line: u32) -> (r: String)
    ensures
        r@ == location_text(file@, line as nat),
{
    let flen = file.unicode_len();
    match find_src(file) {
        Some(i) => {
            let mut s = String::from_str(file.substring_char(i, flen));
            s.append(":");
            let num = u32_to_dec(line);
            s.append(num.as_str());
            s
        },
        None => {
            if flen == 0 {
                String::new()
            } else {
                let mut s = String::from_str(file);
                s.append(":");
                let num = u32_to_dec(line);
                s.append(num.as_str());
                s
            }
        },
    }
}

} // verus!
