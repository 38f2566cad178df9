//! Subscribing to Spacedust, microcosm's notifications firehose: what to
//! subscribe to, the subscribe URL, the link events it delivers, and what a
//! subscriber does with each frame.

use vstd::prelude::*;
use crate::repo::prefixed;

verus! {

/// The public microcosm Spacedust instance.
pub const DEFAULT_ENDPOINT: &'static str = "wss://spacedust.microcosm.blue/subscribe";

/// The default Spacedust endpoint, as an owned string.
pub fn default_endpoint() -> (s: String)
    ensures
        s@ == DEFAULT_ENDPOINT@,
{
    String::from_str(DEFAULT_ENDPOINT)
}

/// How to connect and what to subscribe to.
#[derive(Debug, Clone)]
pub struct SpacedustConfig {
    /// The `wss://.../subscribe` endpoint.
    pub endpoint: String,
    /// The DID listened for: becomes `wantedSubjectDids`.
    pub account: String,
    /// Optional `wantedSources` narrowing; empty for all sources.
    pub wanted_sources: Vec<String>,
    /// Bypass Spacedust's delay buffer.
    pub instant: bool,
}

/// One link event: a record (`source_record`) whose field (`source`) links to
/// a watched `subject`.
#[derive(Debug, Clone)]
pub struct LinkEvent {
    /// `create` or `delete`.
    pub operation: String,
    /// `<collection NSID>:<dotted record path>`.
    pub source: String,
    /// AT-URI of the referring record.
    pub source_record: String,
    /// The referring record's rev.
    pub source_rev: String,
    /// The link target.
    pub subject: String,
}

/// Errors from connecting to or reading from Spacedust; transport and decode
/// errors arrive as text.
#[derive(Debug)]
pub enum SpacedustError {
    Url(String),
    Connect(String),
    Ws(String),
    Decode(String),
}

/// The text a [`SpacedustError`] reads as.
pub open spec fn spacedust_error_text(e: SpacedustError) -> Seq<char> {
    match e {
        SpacedustError::Url(m) => "invalid endpoint URL: "@ + m@,
        SpacedustError::Connect(m) => "websocket connect failed: "@ + m@,
        SpacedustError::Ws(m) => "websocket error: "@ + m@,
        SpacedustError::Decode(m) => "failed to decode event: "@ + m@,
    }
}

impl SpacedustError {
    /// The message this error reads as.
    pub fn message(&self) -> (r: String)
        ensures
            r@ == spacedust_error_text(*self),
    {
        match self {
            SpacedustError::Url(m) => prefixed("invalid endpoint URL: ", m.as_str()),
            SpacedustError::Connect(m) => prefixed("websocket connect failed: ", m.as_str()),
            SpacedustError::Ws(m) => prefixed("websocket error: ", m.as_str()),
            SpacedustError::Decode(m) => prefixed("failed to decode event: ", m.as_str()),
        }
    }
}

/// What the `url` crate makes of an endpoint with query pairs appended: the
/// serialized URL, or the parse error's text.
pub uninterp spec fn url_with_params(endpoint: Seq<char>, pairs: Seq<(Seq<char>, Seq<char>)>) -> Result<Seq<char>, Seq<char>>;

/// The views of a list of query pairs.
pub open spec fn pairs_view(v: Seq<(String, String)>) -> Seq<(Seq<char>, Seq<char>)> {
    v.map_values(|p: (String, String)| (p.0@, p.1@))
}

/// `url::Url::parse_with_params`: parse `endpoint` and append `pairs`
/// (form-urlencoded) to its query, as [`url_with_params`] names the result.
#[verifier::external_body]
fn parse_with_params(endpoint: &str, pairs: &Vec<(String, String)>) -> (r: Result<String, String>)
    ensures
        match url_with_params(endpoint@, pairs_view(pairs@)) {
            Ok(u) => r matches Ok(s) && s@ == u,
            Err(e) => r matches Err(s) && s@ == e,
        },
{
    match url::Url::parse_with_params(endpoint, pairs.iter()) {
        Ok(u) => Ok(String::from(u)),
        Err(e) => Err(e.to_string()),
    }
}

/// The query a subscription sends: the account as `wantedSubjectDids`, each
/// wanted source, and `instant=true` when the delay buffer is bypassed.
pub open spec fn subscribe_pairs(account: Seq<char>, sources: Seq<Seq<char>>, instant: bool) -> Seq<(Seq<char>, Seq<char>)> {
    let base = seq![("wantedSubjectDids"@, account)] + sources.map_values(|s: Seq<char>| ("wantedSources"@, s));
    if instant {
        base.push(("instant"@, "true"@))
    } else {
        base
    }
}

/// The views of a list of strings.
pub open spec fn strings_view(v: Seq<String>) -> Seq<Seq<char>> {
    v.map_values(|s: String| s@)
}

impl SpacedustConfig {
    /// A config for one account against the default public instance.
    pub fn for_account(account: &str) -> (c: Self)
        ensures
            c.endpoint@ == DEFAULT_ENDPOINT@,
            c.account@ == account@,
            c.wanted_sources@.len() == 0,
            !c.instant,
    {
        SpacedustConfig { endpoint: default_endpoint(), account: account.to_owned(), wanted_sources: Vec::new(), instant: false }
    }

    /// The query pairs the subscription sends.
    pub fn subscribe_query(&self) -> (q: Vec<(String, String)>)
        ensures
            pairs_view(q@) == subscribe_pairs(self.account@, strings_view(self.wanted_sources@), self.instant),
    {
        let mut q: Vec<(String, String)> = Vec::new();
        q.push((String::from_str("wantedSubjectDids"), self.account.clone()));
        let mut i: usize = 0;
        while i < self.wanted_sources.len()
            invariant
                i <= self.wanted_sources.len(),
                pairs_view(q@) == seq![("wantedSubjectDids"@, self.account@)]
                    + strings_view(self.wanted_sources@).take(i as int).map_values(|s: Seq<char>| ("wantedSources"@, s)),
            decreases self.wanted_sources.len() - i,
        {
            let ghost before = pairs_view(q@);
            q.push((String::from_str("wantedSources"), self.wanted_sources[i].clone()));
            proof {
                let src = strings_view(self.wanted_sources@);
                assert(src.take(i + 1) =~= src.take(i as int).push(src[i as int]));
                assert(pairs_view(q@) =~= before.push(("wantedSources"@, src[i as int])));
                assert(src.take(i + 1).map_values(|s: Seq<char>| ("wantedSources"@, s))
                    =~= src.take(i as int).map_values(|s: Seq<char>| ("wantedSources"@, s)).push(("wantedSources"@, src[i as int])));
            }
            i = i + 1;
        }
        assert(strings_view(self.wanted_sources@).take(self.wanted_sources.len() as int) =~= strings_view(self.wanted_sources@));
        if self.instant {
            let ghost before = pairs_view(q@);
            q.push((String::from_str("instant"), String::from_str("true")));
            assert(pairs_view(q@) =~= before.push(("instant"@, "true"@)));
        }
        q
    }

    /// The full subscribe URL: the endpoint with the subscription's query
    /// (values form-encoded, so a DID's colons are percent-escaped).
    pub fn subscribe_url(&self) -> (r: Result<String, SpacedustError>)
        ensures
            match url_with_params(self.endpoint@, subscribe_pairs(self.account@, strings_view(self.wanted_sources@), self.instant)) {
                Ok(u) => r matches Ok(s) && s@ == u,
                Err(e) => r matches Err(SpacedustError::Url(m)) && m@ == e,
            },
    {
        let q = self.subscribe_query();
        match parse_with_params(self.endpoint.as_str(), &q) {
            Ok(u) => Ok(u),
            Err(e) => Err(SpacedustError::Url(e)),
        }
    }
}

/// A frame read off the subscription socket, as far as a subscriber cares.
#[derive(Debug)]
pub enum Frame {
    /// A decoded event envelope of the given kind, with its link.
    Event(String, LinkEvent),
    /// A ping with its payload.
    Ping(Vec<u8>),
    /// The peer closed the connection.
    Close,
    /// Anything else.
    Other,
}

/// What a subscriber does with a frame.
#[derive(Debug)]
pub enum FrameAction {
    /// Hand this link event to the caller.
    Yield(LinkEvent),
    /// Answer with a pong carrying this payload, then keep reading.
    Pong(Vec<u8>),
    /// The stream has ended.
    End,
    /// Keep reading.
    Skip,
}

/// The subscriber's decision for one frame: link events are handed on, other
/// event kinds skipped, pings answered, and a close ends the stream.
pub fn on_frame(frame: Frame) -> (a: FrameAction)
    ensures
        match frame {
            Frame::Event(kind, link) => if kind@ == "link"@ {
                a == FrameAction::Yield(link)
            } else {
                a == FrameAction::Skip
            },
            Frame::Ping(p) => a == FrameAction::Pong(p),
            Frame::Close => a == FrameAction::End,
            Frame::Other => a == FrameAction::Skip,
        },
{
    match frame {
        Frame::Event(kind, link) => {
            if crate::text::str_eq(kind.as_str(), "link") {
                FrameAction::Yield(link)
            } else {
                FrameAction::Skip
            }
        },
        Frame::Ping(p) => FrameAction::Pong(p),
        Frame::Close => FrameAction::End,
        Frame::Other => FrameAction::Skip,
    }
}

} // verus!
