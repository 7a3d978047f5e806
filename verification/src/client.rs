//! The anonymous session: its two-step handshake and what it reads out of the
//! service's answers.
//!
//! A `Client` performs no I/O. For each step it says which `Request` to send, and
//! it is told what came back. The transport that sends the requests is set up as
//! `Client::settings` says: it keeps cookies from one exchange to the next, since
//! the cookies that the second handshake step sets are what makes the session an
//! authenticated one.

use crate::errors::Error;
use crate::image::{extension_of, image_extension};
use crate::locator::{find_pic_ids, pic_ids_of, regex_capture, PIC_ID_PATTERN};
use crate::request::{
    cookie_request, cookie_request_view, token_request, token_request_view, Request, Settings,
    USER_AGENT,
};
use crate::response::{Api, GenVisitor, Visitor, SUCCESS};
use crate::text::{text_of, views_of};
use bytes::Bytes;
use reqwest::Error as TransportError;
use serde_json::Error as JsonError;
use vstd::prelude::*;

verus! {

/// `bytes::Bytes`, a buffer of received bytes, carried through unopened.
#[verifier::external_type_specification]
#[verifier::external_body]
pub struct ExBytes(Bytes);

/// How far a session's handshake has come.
#[derive(Debug, Clone, Copy, PartialEq, Eq, Structural)]
pub enum Stage {
    /// No handshake has succeeded, and none is under way.
    Fresh,
    /// The token request is out.
    AwaitingToken,
    /// The token has come, and the cookie request is out.
    AwaitingCookies,
    /// The service has confirmed the session's cookies.
    Authenticated,
}

/// What the JSON decoder made of a response body: an envelope, or its error.
pub type Parsed<T> = Result<Api<T>, JsonError>;

/// What a session is told.
#[derive(Debug)]
pub enum Event {
    /// The caller wants the handshake to start, or to start over.
    Begin,
    /// The token request was answered, and the answer decoded to `token`. `rand`
    /// is the decimal text of a random number in [0, 1), to be sent with the next
    /// request.
    Token { token: Parsed<GenVisitor>, rand: String },
    /// The cookie request was answered, and the answer decoded to `ack`.
    Cookies { ack: Parsed<Visitor> },
    /// The request that was out could not be sent, or its answer not be read.
    Lost(TransportError),
}

/// What a session asks for in answer to an event.
#[derive(Debug)]
pub enum Action {
    /// Send this request, and report what comes back.
    Send(Request),
    /// The handshake is complete.
    Done,
    /// The handshake is abandoned for this reason.
    Fail(Error),
    /// The event is not one that the session waits for; nothing has changed.
    Unexpected,
}

/// An anonymous session with the service.
#[derive(Debug)]
pub struct Client {
    stage: Stage,
}

/// What a decoded body amounts to: the error of the decoder where it failed,
/// else the outcome of the envelope it produced.
pub open spec fn decoded<T>(parsed: Parsed<T>) -> Result<T, Error> {
    match parsed {
        Ok(api) => api.outcome(),
        Err(e) => Err(Error::Json(e)),
    }
}

/// The visitor token that a decoded answer to the token request holds.
pub open spec fn tid_of(token: Parsed<GenVisitor>) -> Result<String, Error> {
    match decoded(token) {
        Ok(payload) => Ok(payload.tid),
        Err(e) => Err(e),
    }
}

/// Whether a session at `stage` has a request out.
pub open spec fn awaits_reply(stage: Stage) -> bool {
    stage == Stage::AwaitingToken || stage == Stage::AwaitingCookies
}

/// The stage that follows `stage` on `event`. `Begin` starts the handshake from
/// any stage. An answer moves the handshake on if it is the one awaited and
/// holds a payload. An awaited answer that holds none ends the handshake, and so
/// does the loss of the request that is out. Anything else changes nothing.
pub open spec fn next_stage(stage: Stage, event: Event) -> Stage {
    match event {
        Event::Begin => Stage::AwaitingToken,
        Event::Token { token, rand } => if stage != Stage::AwaitingToken {
            stage
        } else if decoded(token) is Ok {
            Stage::AwaitingCookies
        } else {
            Stage::Fresh
        },
        Event::Cookies { ack } => if stage != Stage::AwaitingCookies {
            stage
        } else if decoded(ack) is Ok {
            Stage::Authenticated
        } else {
            Stage::Fresh
        },
        Event::Lost(e) => if awaits_reply(stage) {
            Stage::Fresh
        } else {
            stage
        },
    }
}

/// Whether `action` is the answer that a session at `stage` owes to `event`.
pub open spec fn answers(stage: Stage, event: Event, action: Action) -> bool {
    match event {
        Event::Begin => action matches Action::Send(req) && req@ == token_request_view(),
        Event::Token { token, rand } => if stage != Stage::AwaitingToken {
            action is Unexpected
        } else {
            match tid_of(token) {
                Ok(tid) => action matches Action::Send(req) && req@ == cookie_request_view(
                    tid@,
                    rand@,
                ),
                Err(e) => action == Action::Fail(e),
            }
        },
        Event::Cookies { ack } => if stage != Stage::AwaitingCookies {
            action is Unexpected
        } else {
            match decoded(ack) {
                Ok(_) => action is Done,
                Err(e) => action == Action::Fail(e),
            }
        },
        Event::Lost(e) => if awaits_reply(stage) {
            action == Action::Fail(Error::Network(e))
        } else {
            action is Unexpected
        },
    }
}

/// The stage that a whole handshake ends in: `Begin`, then the two answers.
pub open spec fn handshake(
    stage: Stage,
    token: Parsed<GenVisitor>,
    rand: String,
    ack: Parsed<Visitor>,
) -> Stage {
    let asked = next_stage(stage, Event::Begin);
    let exchanged = next_stage(asked, Event::Token { token, rand });
    next_stage(exchanged, Event::Cookies { ack })
}

impl View for Client {
    type V = Stage;

    closed spec fn view(&self) -> Stage {
        self.stage
    }
}

impl Client {
    /// A session that has not authenticated yet.
    pub fn new() -> (client: Client)
        ensures
            client@ == Stage::Fresh,
    {
        Client { stage: Stage::Fresh }
    }

    /// How the transport that serves this session is to be set up: it sends
    /// `USER_AGENT` and keeps cookies.
    pub fn settings(&self) -> (settings: Settings)
        ensures
            settings.user_agent@ == USER_AGENT@,
            settings.cookie_store,
    {
        Settings { user_agent: USER_AGENT.to_owned(), cookie_store: true }
    }

    /// How far the handshake has come.
    pub fn stage(&self) -> (stage: Stage)
        ensures
            stage == self@,
    {
        self.stage
    }

    /// Whether the last handshake ran to its end.
    pub fn is_authenticated(&self) -> (yes: bool)
        ensures
            yes == (self@ == Stage::Authenticated),
    {
        match self.stage {
            Stage::Authenticated => true,
            _ => false,
        }
    }

    /// Reads what the JSON decoder made of a response body: the payload of a
    /// successful answer, else the decoder's error or the service's message.
    pub fn parse_api_body<T>(parsed: Parsed<T>) -> (res: Result<T, Error>)
        ensures
            res == decoded(parsed),
    {
        match parsed {
            Ok(api) => api.result(),
            Err(e) => Err(Error::from(e)),
        }
    }

    /// The visitor token that the first handshake step brought.
    pub fn get_tid(&self, token: Parsed<GenVisitor>) -> (res: Result<String, Error>)
        ensures
            res == tid_of(token),
    {
        match Self::parse_api_body(token) {
            Ok(payload) => Ok(payload.tid),
            Err(e) => Err(e),
        }
    }

    /// Whether the second handshake step was confirmed. The payload itself is
    /// of no use: the step's effect is the cookies that the transport now holds.
    pub fn get_cookies(&self, ack: Parsed<Visitor>) -> (res: Result<(), Error>)
        ensures
            decoded(ack) is Ok ==> res is Ok,
            decoded(ack) matches Err(e) ==> res == Err::<(), Error>(e),
    {
        match Self::parse_api_body(ack) {
            Ok(_) => Ok(()),
            Err(e) => Err(e),
        }
    }

    /// Moves the handshake on by one event and says what to do next.
    ///
    /// `Begin` asks for the token request to be sent. The token's answer asks
    /// for the cookie request, which carries the token. The cookie answer
    /// completes the handshake. An answer without a payload, or a request that
    /// was lost, abandons the handshake with the error that says why, and the
    /// session is `Fresh` again: nothing is tried twice.
    pub fn authenticate(&mut self, event: Event) -> (action: Action)
        ensures
            final(self)@ == next_stage(old(self)@, event),
            answers(old(self)@, event, action),
    {
        match event {
            Event::Begin => {
                self.stage = Stage::AwaitingToken;
                Action::Send(token_request())
            },
            Event::Token { token, rand } => {
                match self.stage {
                    Stage::AwaitingToken => match self.get_tid(token) {
                        Ok(tid) => {
                            self.stage = Stage::AwaitingCookies;
                            Action::Send(cookie_request(tid.as_str(), rand.as_str()))
                        },
                        Err(e) => {
                            self.stage = Stage::Fresh;
                            Action::Fail(e)
                        },
                    },
                    _ => Action::Unexpected,
                }
            },
            Event::Cookies { ack } => {
                match self.stage {
                    Stage::AwaitingCookies => match self.get_cookies(ack) {
                        Ok(()) => {
                            self.stage = Stage::Authenticated;
                            Action::Done
                        },
                        Err(e) => {
                            self.stage = Stage::Fresh;
                            Action::Fail(e)
                        },
                    },
                    _ => Action::Unexpected,
                }
            },
            Event::Lost(e) => {
                match self.stage {
                    Stage::AwaitingToken | Stage::AwaitingCookies => {
                        self.stage = Stage::Fresh;
                        Action::Fail(Error::from(e))
                    },
                    _ => Action::Unexpected,
                }
            },
        }
    }

    /// The image ids that the page `html` names, in the order and as often as
    /// the page lists them; none where it lists none.
    pub fn get_pic_ids(&self, html: &str) -> (ids: Vec<String>)
        ensures
            views_of(ids@) == pic_ids_of(regex_capture(PIC_ID_PATTERN@, html@, 1)),
    {
        find_pic_ids(html)
    }

    /// The image that came as `body` under `content_type`, with the extension of
    /// the file to keep it in.
    pub fn get_pic(&self, content_type: Option<&str>, body: Bytes) -> (res: Result<
        (Bytes, String),
        Error,
    >)
        ensures
            match extension_of(text_of(content_type)) {
                Some(e) => res matches Ok(pic) && pic.0 == body && pic.1@ == e,
                None => res matches Err(Error::UnrecognizedFormat(t)) && Some(t@) == text_of(
                    content_type,
                ),
            },
    {
        match image_extension(content_type) {
            Ok(ext) => Ok((body, ext)),
            Err(e) => Err(e),
        }
    }
}

/// A handshake whose two answers report success ends `Authenticated`, whatever
/// stage it starts from: so does a second handshake, started on a session that
/// has authenticated before.
pub proof fn lemma_handshake_succeeds(
    stage: Stage,
    token: Api<GenVisitor>,
    rand: String,
    ack: Api<Visitor>,
    token2: Api<GenVisitor>,
    rand2: String,
    ack2: Api<Visitor>,
)
    requires
        token.retcode == SUCCESS,
        ack.retcode == SUCCESS,
        token2.retcode == SUCCESS,
        ack2.retcode == SUCCESS,
    ensures
        handshake(stage, Ok(token), rand, Ok(ack)) == Stage::Authenticated,
        handshake(handshake(stage, Ok(token), rand, Ok(ack)), Ok(token2), rand2, Ok(ack2))
            == Stage::Authenticated,
{
}

/// A handshake ends `Fresh` where either answer could not be decoded or reports
/// another return code than success.
pub proof fn lemma_handshake_fails(
    stage: Stage,
    token: Parsed<GenVisitor>,
    rand: String,
    ack: Parsed<Visitor>,
)
    requires
        decoded(token) is Err || decoded(ack) is Err,
    ensures
        handshake(stage, token, rand, ack) == Stage::Fresh,
{
}

} // verus!
