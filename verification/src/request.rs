//! The HTTP exchanges that the library asks the transport to perform.
//!
//! The library does no I/O. It describes each exchange as a `Request`: a method,
//! a URL and parameters, which are the form fields of a `Post` and the query of a
//! `Get`. The transport sends it, keeps the cookies of the answer, and hands
//! back what it received.

use vstd::prelude::*;

verus! {

/// The user agent that every request is sent under.
pub const USER_AGENT: &'static str =
    "Mozilla/5.0 (Windows NT 10.0; Win64; x64) AppleWebKit/537.36 (KHTML, like Gecko) Chrome/79.0.3945.117 Safari/537.36";

/// Where a visitor token is asked for.
pub const TOKEN_URL: &'static str = "https://passport.weibo.com/visitor/genvisitor";

/// Where a visitor token is exchanged for session cookies.
pub const COOKIE_URL: &'static str = "https://passport.weibo.com/visitor/visitor";

/// What an image's URL begins with, before the image's id.
pub const IMAGE_URL_PREFIX: &'static str = "https://wx4.sinaimg.cn/large/";

/// What an image's URL ends with, after the image's id. It is a hint only: the
/// service may answer with another format.
pub const IMAGE_URL_SUFFIX: &'static str = ".jpg";

/// How the transport of a session is to be set up, before anything is sent.
#[derive(Debug, Clone, PartialEq, Eq)]
pub struct Settings {
    /// The user agent to send with every request.
    pub user_agent: String,
    /// Whether cookies that an answer sets are kept and sent with later requests.
    pub cookie_store: bool,
}

/// The HTTP method of a request.
#[derive(Debug, Clone, Copy, PartialEq, Eq, Structural)]
pub enum Method {
    Get,
    Post,
}

/// One exchange for the transport to perform.
#[derive(Debug, Clone, PartialEq, Eq)]
pub struct Request {
    pub method: Method,
    pub url: String,
    /// Names and values, in the order in which they are sent.
    pub params: Vec<(String, String)>,
}

/// What a `Request` says, as plain text.
pub struct RequestView {
    pub method: Method,
    pub url: Seq<char>,
    pub params: Seq<(Seq<char>, Seq<char>)>,
}

/// The names and values that the pairs of `v` hold, in order.
pub open spec fn pairs_of(v: Seq<(String, String)>) -> Seq<(Seq<char>, Seq<char>)> {
    Seq::new(v.len(), |i: int| (v[i].0@, v[i].1@))
}

impl View for Request {
    type V = RequestView;

    open spec fn view(&self) -> RequestView {
        RequestView { method: self.method, url: self.url@, params: pairs_of(self.params@) }
    }
}

/// The request that asks for a visitor token: a form with the one field `cb`.
pub open spec fn token_request_view() -> RequestView {
    RequestView { method: Method::Post, url: TOKEN_URL@, params: seq![("cb"@, "cb"@)] }
}

/// The query that exchanges the token `tid` for cookies. `rand` is sent as
/// `_rand`: the decimal text of a random number in [0, 1).
pub open spec fn cookie_query(tid: Seq<char>, rand: Seq<char>) -> Seq<(Seq<char>, Seq<char>)> {
    seq![
        ("a"@, "incarnate"@),
        ("t"@, tid),
        ("w"@, "2"@),
        ("c"@, "095"@),
        ("gc"@, ""@),
        ("cb"@, "cb"@),
        ("from"@, "weibo"@),
        ("_rand"@, rand),
    ]
}

/// The request that exchanges the token `tid` for cookies.
pub open spec fn cookie_request_view(tid: Seq<char>, rand: Seq<char>) -> RequestView {
    RequestView { method: Method::Get, url: COOKIE_URL@, params: cookie_query(tid, rand) }
}

/// The request that fetches the page at `url`.
pub open spec fn page_request_view(url: Seq<char>) -> RequestView {
    RequestView { method: Method::Get, url: url, params: Seq::empty() }
}

/// The URL under which the service offers the image `pic_id` in large size.
pub open spec fn image_url_view(pic_id: Seq<char>) -> Seq<char> {
    IMAGE_URL_PREFIX@ + pic_id + IMAGE_URL_SUFFIX@
}

/// The request that fetches the image `pic_id`.
pub open spec fn image_request_view(pic_id: Seq<char>) -> RequestView {
    RequestView { method: Method::Get, url: image_url_view(pic_id), params: Seq::empty() }
}

/// One name and value, each as a string of its own.
fn pair(name: &str, value: &str) -> (p: (String, String))
    ensures
        p.0@ == name@,
        p.1@ == value@,
{
    (name.to_owned(), value.to_owned())
}

/// The request that asks for a visitor token.
pub fn token_request() -> (req: Request)
    ensures
        req@ == token_request_view(),
{
    let mut params: Vec<(String, String)> = Vec::new();
    params.push(pair("cb", "cb"));
    let req = Request { method: Method::Post, url: TOKEN_URL.to_owned(), params };
    assert(req@.params =~= token_request_view().params);
    req
}

/// The request that exchanges the token `tid` for cookies, with `rand` as its
/// `_rand` parameter.
pub fn cookie_request(tid: &str, rand: &str) -> (req: Request)
    ensures
        req@ == cookie_request_view(tid@, rand@),
{
    let mut params: Vec<(String, String)> = Vec::new();
    params.push(pair("a", "incarnate"));
    params.push(pair("t", tid));
    params.push(pair("w", "2"));
    params.push(pair("c", "095"));
    params.push(pair("gc", ""));
    params.push(pair("cb", "cb"));
    params.push(pair("from", "weibo"));
    params.push(pair("_rand", rand));
    let req = Request { method: Method::Get, url: COOKIE_URL.to_owned(), params };
    assert(req@.params =~= cookie_query(tid@, rand@));
    req
}

/// The request that fetches the page at `url`.
pub fn page_request(url: &str) -> (req: Request)
    ensures
        req@ == page_request_view(url@),
{
    let req = Request { method: Method::Get, url: url.to_owned(), params: Vec::new() };
    assert(req@.params =~= Seq::empty());
    req
}

/// The URL under which the service offers the image `pic_id` in large size.
pub fn image_url(pic_id: &str) -> (url: String)
    ensures
        url@ == image_url_view(pic_id@),
{
    let mut url = IMAGE_URL_PREFIX.to_owned();
    url.append(pic_id);
    url.append(IMAGE_URL_SUFFIX);
    url
}

/// The request that fetches the image `pic_id`.
pub fn image_request(pic_id: &str) -> (req: Request)
    ensures
        req@ == image_request_view(pic_id@),
{
    let req = Request { method: Method::Get, url: image_url(pic_id), params: Vec::new() };
    assert(req@.params =~= Seq::empty());
    req
}

} // verus!
