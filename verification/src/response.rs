//! The envelope that the visitor API wraps its answers in, and the payloads of
//! the two handshake calls.

use crate::errors::Error;
use crate::text::{chars_of, leading_len, string_of, trailing_start, without_leading, without_trailing};
use vstd::prelude::*;

verus! {

/// The return code with which the service reports success.
pub const SUCCESS: i64 = 20_000_000;

/// What stands before the JSON text in a response body.
pub const JSONP_PREFIX: &'static str = "window.cb && cb(";

/// What stands after the JSON text in a response body.
pub const JSONP_SUFFIX: &'static str = ");";

/// An answer of the visitor API: a message, a return code and the payload.
#[derive(Debug, Clone, PartialEq, Eq)]
pub struct Api<T> {
    pub msg: String,
    pub retcode: i64,
    pub data: T,
}

/// The payload of the token call.
#[derive(Debug, Clone, PartialEq, Eq)]
pub struct GenVisitor {
    pub new_tid: bool,
    pub tid: String,
}

/// The payload of the cookie call.
#[derive(Debug, Clone, PartialEq, Eq)]
pub struct Visitor {
    pub sub: String,
    pub subp: String,
}

impl<T> Api<T> {
    /// What the answer amounts to: its payload where the return code is
    /// `SUCCESS`, else the service's message as an `Error::Api`.
    pub open spec fn outcome(self) -> Result<T, Error> {
        if self.retcode == SUCCESS {
            Ok(self.data)
        } else {
            Err(Error::Api(self.msg))
        }
    }

    /// Opens the envelope: the payload of a successful answer, the message of
    /// any other.
    pub fn result(self) -> (res: Result<T, Error>)
        ensures
            res == self.outcome(),
    {
        if self.retcode != SUCCESS {
            Err(Error::Api(self.msg))
        } else {
            Ok(self.data)
        }
    }
}

/// The text that a response body carries between its JSONP wrapper: the body
/// without its leading `JSONP_PREFIX`es, and that without its trailing
/// `JSONP_SUFFIX`es. A body that lacks either is left as it is at that end.
pub open spec fn jsonp_payload(body: Seq<char>) -> Seq<char> {
    without_trailing(without_leading(body, JSONP_PREFIX@), JSONP_SUFFIX@)
}

/// Only what is there is taken off: a body that does not begin with
/// `JSONP_PREFIX` loses nothing at its start, one that does not then end with
/// `JSONP_SUFFIX` loses nothing at its end, and one that has neither is its own
/// payload.
pub proof fn lemma_bare_body_is_kept(body: Seq<char>)
    ensures
        !JSONP_PREFIX@.is_prefix_of(body) ==> jsonp_payload(body) == without_trailing(
            body,
            JSONP_SUFFIX@,
        ),
        !JSONP_SUFFIX@.is_suffix_of(without_leading(body, JSONP_PREFIX@)) ==> jsonp_payload(body)
            == without_leading(body, JSONP_PREFIX@),
        !JSONP_PREFIX@.is_prefix_of(body) && !JSONP_SUFFIX@.is_suffix_of(body) ==> jsonp_payload(
            body,
        ) == body,
{
}

/// A text in its wrapper is found again: the payload of `JSONP_PREFIX`, `json`
/// and `JSONP_SUFFIX` in a row is `json`, for every `json` that does not itself
/// begin with the prefix or end with the suffix, as no JSON text does.
pub proof fn lemma_wrapped_text_is_found(json: Seq<char>)
    requires
        !JSONP_PREFIX@.is_prefix_of(json),
        !JSONP_SUFFIX@.is_suffix_of(json),
    ensures
        jsonp_payload(JSONP_PREFIX@ + json + JSONP_SUFFIX@) == json,
{
    reveal_strlit("window.cb && cb(");
    reveal_strlit(");");
    let prefix = JSONP_PREFIX@;
    let suffix = JSONP_SUFFIX@;
    let body = prefix + json + suffix;
    let inner = json + suffix;
    assert(body.subrange(0, prefix.len() as int) =~= prefix);
    assert(body.skip(prefix.len() as int) =~= inner);
    if prefix.is_prefix_of(inner) {
        let head = inner.subrange(0, prefix.len() as int);
        if json.len() >= prefix.len() {
            assert(head =~= json.subrange(0, prefix.len() as int));
        } else {
            assert(head[json.len() as int] == suffix[0]);
        }
    }
    assert(without_leading(inner, prefix) == inner);
    assert(without_leading(body, prefix) == inner);
    assert(inner.subrange(inner.len() - suffix.len(), inner.len() as int) =~= suffix);
    assert(inner.take(inner.len() - suffix.len()) =~= json);
    assert(without_trailing(json, suffix) == json);
}

/// Takes the JSONP wrapper off a response body.
pub fn strip_jsonp(body: &str) -> (json: String)
    ensures
        json@ == jsonp_payload(body@),
{
    let text = chars_of(body);
    let prefix = chars_of(JSONP_PREFIX);
    let suffix = chars_of(JSONP_SUFFIX);
    let from = leading_len(text.as_slice(), prefix.as_slice());
    let to = trailing_start(text.as_slice(), from, suffix.as_slice());
    string_of(text.as_slice(), from, to)
}

} // verus!
