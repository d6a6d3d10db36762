//! The log file: how it is named, how an entry reads, and which of its lines
//! count as recent.

use crate::listing::text_views;
use crate::text::followed_by;
use vstd::prelude::*;
use vstd::string::StringExecFns;

verus! {

/// The name of the log file of the day `date`.
pub fn log_file_name(date: &str) -> (r: String)
    ensures
        r@ == "app-"@ + date@ + ".log"@,
{
    let mut r = followed_by("app-", date);
    r.append(".log");
    r
}

/// `text` behind `tag` in square brackets, as a log entry has its level and
/// its time.
pub fn tagged(tag: &str, text: &str) -> (r: String)
    ensures
        r@ == "["@ + tag@ + "] "@ + text@,
{
    let mut r = followed_by("[", tag);
    r.append("] ");
    r.append(text);
    r
}

/// Where the last `lines` of `count` lines start.
pub open spec fn recent_start(count: int, lines: int) -> int {
    if count > lines {
        count - lines
    } else {
        0
    }
}

/// The last `lines` lines of `all_lines`, or all of them where there are
/// fewer.
pub fn last_lines(all_lines: &Vec<String>, lines: usize) -> (r: Vec<String>)
    ensures
        text_views(r@) == text_views(all_lines@).subrange(
            recent_start(all_lines.len() as int, lines as int),
            all_lines.len() as int,
        ),
{
    let start: usize = if all_lines.len() > lines {
        all_lines.len() - lines
    } else {
        0
    };
    let mut out: Vec<String> = Vec::new();
    let mut i: usize = start;
    while i < all_lines.len()
        invariant
            start <= i <= all_lines.len(),
            out.len() == i - start,
            forall|j: int| 0 <= j < out.len() ==> out@[j]@ == all_lines@[start + j]@,
        decreases all_lines.len() - i,
    {
        out.push(all_lines[i].clone());
        i += 1;
    }
    assert(text_views(out@) =~= text_views(all_lines@).subrange(
        start as int,
        all_lines.len() as int,
    ));
    out
}

} // verus!
