//! Finding the image ids that a post's page names.
//!
//! A page of the service carries the ids of a post's images as one list,
//! `pic_ids=<id>,<id>,...&`. The list is found with a regular expression and
//! then divided at its commas.

use crate::text::{chars_of, pieces, split, text_of, views_of};
use vstd::prelude::*;

verus! {

/// The regular expression whose first group captures the list of image ids.
pub const PIC_ID_PATTERN: &'static str = "pic_ids=([^&]+)&";

/// The sign that stands between two ids of the list.
pub const PIC_ID_SEPARATOR: char = ',';

/// What the `regex` crate captures as group `group` in the leftmost match of
/// the regular expression `pattern` in `text`. It is `None` where `pattern` is no
/// regular expression that the crate compiles, where nothing in `text` matches
/// it, and where the match leaves that group out.
pub uninterp spec fn regex_capture(pattern: Seq<char>, text: Seq<char>, group: nat) -> Option<
    Seq<char>,
>;

/// Compiles `pattern` with `regex::Regex::new`, searches `text` with
/// `Regex::captures` and reads the group with `Captures::get` and
/// `Match::as_str`. The result is what `regex_capture` names: the captured text,
/// or `None` where the pattern does not compile, nothing matches or the group
/// took no part in the match.
#[verifier::external_body]
fn capture(pattern: &str, text: &str, group: usize) -> (found: Option<String>)
    ensures
        match found {
            Some(captured) => regex_capture(pattern@, text@, group as nat) == Some(captured@),
            None => regex_capture(pattern@, text@, group as nat) is None,
        },
{
    match regex::Regex::new(pattern) {
        Ok(re) => match re.captures(text) {
            Some(groups) => match groups.get(group) {
                Some(m) => Some(m.as_str().to_owned()),
                None => None,
            },
            None => None,
        },
        Err(_) => None,
    }
}

/// The ids that a captured list holds: the pieces between its commas, in order
/// and with repetitions. Without a list there are no ids.
pub open spec fn pic_ids_of(list: Option<Seq<char>>) -> Seq<Seq<char>> {
    match list {
        Some(l) => pieces(l, PIC_ID_SEPARATOR),
        None => Seq::empty(),
    }
}

/// Divides a captured list into its ids.
pub fn split_pic_ids(list: Option<&str>) -> (ids: Vec<String>)
    ensures
        views_of(ids@) == pic_ids_of(text_of(list)),
{
    match list {
        Some(l) => {
            let text = chars_of(l);
            split(text.as_slice(), PIC_ID_SEPARATOR)
        },
        None => {
            let ids: Vec<String> = Vec::new();
            assert(views_of(ids@) =~= Seq::empty());
            ids
        },
    }
}

/// The image ids that the page `html` names: the ids of the list that
/// `PIC_ID_PATTERN` captures first, and none where it captures nothing.
pub fn find_pic_ids(html: &str) -> (ids: Vec<String>)
    ensures
        views_of(ids@) == pic_ids_of(regex_capture(PIC_ID_PATTERN@, html@, 1)),
{
    match capture(PIC_ID_PATTERN, html, 1) {
        Some(list) => split_pic_ids(Some(list.as_str())),
        None => split_pic_ids(None),
    }
}

} // verus!
