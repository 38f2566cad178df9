//! Configuration shapes the services bootstrap from: the account a profile
//! logs in as, the `[service]` / `[service.oauth]` buckets of the OAuth web
//! flow, and their path and URL resolution.

use vstd::prelude::*;
use crate::text::{chars_of, sub_string};

verus! {

/// The account identity a profile carries: a DID or handle, and its PDS.
#[derive(Debug, Clone)]
pub struct Login {
    pub did: Option<String>,
    pub handle: Option<String>,
    pub pds: Option<String>,
}

impl Default for Login {
    fn default() -> (l: Self)
        ensures
            l.did is None,
            l.handle is None,
            l.pds is None,
    {
        Login { did: None, handle: None, pds: None }
    }
}

impl Login {
    /// A login can be resolved when it names an account (DID or handle) and a
    /// PDS.
    pub fn is_resolvable(&self) -> (b: bool)
        ensures
            b == ((self.did is Some || self.handle is Some) && self.pds is Some),
    {
        (self.did.is_some() || self.handle.is_some()) && self.pds.is_some()
    }

    /// The account the login names: its DID, else its handle.
    pub fn account(&self) -> (r: Option<&str>)
        ensures
            self.did is Some ==> (r matches Some(a) && a@ == self.did->0@),
            self.did is None && self.handle is Some ==> (r matches Some(a) && a@ == self.handle->0@),
            self.did is None && self.handle is None ==> r is None,
    {
        match &self.did {
            Some(d) => Some(d.as_str()),
            None => match &self.handle {
                Some(h) => Some(h.as_str()),
                None => None,
            },
        }
    }
}

/// `[service.oauth]`: the OAuth client knobs.
#[derive(Debug, Clone)]
pub struct OAuthConfig {
    /// Scopes to request; `atproto` is always required.
    pub scopes: Vec<String>,
    /// Client-auth keyset files, ordered (`[0]` is the active signer); empty
    /// for a public (loopback) client.
    pub keyset_paths: Vec<String>,
    /// Human display name.
    pub client_name: Option<String>,
    /// Path joined to `public_url` for the logo.
    pub logo_path: Option<String>,
    /// Path joined to `public_url` for the terms of service.
    pub tos_path: Option<String>,
    /// Path joined to `public_url` for the privacy policy.
    pub privacy_path: Option<String>,
}

/// The views of a list of strings.
pub open spec fn strs_view(v: Seq<String>) -> Seq<Seq<char>> {
    v.map_values(|s: String| s@)
}

impl Default for OAuthConfig {
    fn default() -> (c: Self)
        ensures
            strs_view(c.scopes@) == seq!["atproto"@],
            strs_view(c.keyset_paths@) == seq!["current"@],
            c.client_name is None,
            c.logo_path is None,
            c.tos_path is None,
            c.privacy_path is None,
    {
        let c = OAuthConfig {
            scopes: vec![String::from_str("atproto")],
            keyset_paths: vec![String::from_str("current")],
            client_name: None,
            logo_path: None,
            tos_path: None,
            privacy_path: None,
        };
        assert(strs_view(c.scopes@) =~= seq!["atproto"@]);
        assert(strs_view(c.keyset_paths@) =~= seq!["current"@]);
        c
    }
}

impl OAuthConfig {
    /// A confidential client (a keyset is configured) rather than a public one.
    pub fn is_confidential(&self) -> (b: bool)
        ensures
            b == (self.keyset_paths.len() > 0),
    {
        self.keyset_paths.len() > 0
    }
}

/// `[service]`: how a running service instance behaves.
#[derive(Debug, Clone)]
pub struct ServiceConfig {
    /// Local listen address (e.g. `127.0.0.1:3000`), as written.
    pub bind: Option<String>,
    /// Public HTTPS origin, the root every derived OAuth URL hangs off.
    pub public_url: Option<String>,
    /// Cookie signing keys, ordered (`[0]` is active).
    pub cookie_paths: Vec<String>,
    /// OAuth client knobs.
    pub oauth: OAuthConfig,
}

impl Default for ServiceConfig {
    fn default() -> (c: Self)
        ensures
            c.bind is None,
            c.public_url is None,
            strs_view(c.cookie_paths@) == seq!["current"@],
            strs_view(c.oauth.scopes@) == seq!["atproto"@],
            strs_view(c.oauth.keyset_paths@) == seq!["current"@],
            c.oauth.client_name is None,
            c.oauth.logo_path is None,
            c.oauth.tos_path is None,
            c.oauth.privacy_path is None,
    {
        let c = ServiceConfig {
            bind: None,
            public_url: None,
            cookie_paths: vec![String::from_str("current")],
            oauth: OAuthConfig::default(),
        };
        assert(strs_view(c.cookie_paths@) =~= seq!["current"@]);
        c
    }
}

/// `s` without its trailing `c`s.
pub open spec fn trim_end_char(s: Seq<char>, c: char) -> Seq<char>
    decreases s.len(),
{
    if s.len() > 0 && s.last() == c {
        trim_end_char(s.drop_last(), c)
    } else {
        s
    }
}

/// `s` without its leading `c`s.
pub open spec fn trim_start_char(s: Seq<char>, c: char) -> Seq<char>
    decreases s.len(),
{
    if s.len() > 0 && s[0] == c {
        trim_start_char(s.drop_first(), c)
    } else {
        s
    }
}

/// A base origin and a path joined with exactly one `/` between them.
pub open spec fn joined_url(base: Seq<char>, path: Seq<char>) -> Seq<char> {
    trim_end_char(base, '/') + seq!['/'] + trim_start_char(path, '/')
}

/// Join a base origin and a path with exactly one `/` between them.
pub fn join_url(base: &str, path: &str) -> (r: String)
    ensures
        r@ == joined_url(base@, path@),
{
    let b = chars_of(base);
    let p = chars_of(path);
    let mut end = b.len();
    assert(base@.take(end as int) =~= base@);
    while end > 0 && b[end - 1] == '/'
        invariant
            end <= b.len(),
            b@ == base@,
            trim_end_char(base@, '/') == trim_end_char(base@.take(end as int), '/'),
        decreases end,
    {
        assert(base@.take(end as int).drop_last() =~= base@.take(end - 1));
        end = end - 1;
    }
    let mut start: usize = 0;
    assert(path@.skip(0) =~= path@);
    while start < p.len() && p[start] == '/'
        invariant
            start <= p.len(),
            p@ == path@,
            trim_start_char(path@, '/') == trim_start_char(path@.skip(start as int), '/'),
        decreases p.len() - start,
    {
        assert(path@.skip(start as int).drop_first() =~= path@.skip(start + 1));
        start = start + 1;
    }
    let mut r = sub_string(&b, 0, end);
    r.append("/");
    let tail = sub_string(&p, start, p.len());
    r.append(tail.as_str());
    proof {
        assert(base@.take(end as int) =~= b@.subrange(0, end as int));
        assert(path@.skip(start as int) =~= p@.subrange(start as int, p.len() as int));
        reveal_strlit("/");
        assert("/"@ =~= seq!['/']);
    }
    r
}

impl ServiceConfig {
    /// The public homepage URL: `public_url` as written.
    pub fn client_uri(&self) -> (r: Option<String>)
        ensures
            r is Some <==> self.public_url is Some,
            r matches Some(u) ==> u@ == self.public_url->0@,
    {
        match &self.public_url {
            Some(u) => Some(u.clone()),
            None => None,
        }
    }

    /// `public_url` joined with `path`, when both are present.
    fn join_public(&self, path: &Option<String>) -> (r: Option<String>)
        ensures
            r is Some <==> (self.public_url is Some && path is Some),
            r matches Some(u) ==> u@ == joined_url(self.public_url->0@, path->0@),
    {
        match (&self.public_url, path) {
            (Some(base), Some(p)) => Some(join_url(base.as_str(), p.as_str())),
            _ => None,
        }
    }

    /// The logo URI: `public_url` joined with `oauth.logo_path`.
    pub fn logo_uri(&self) -> (r: Option<String>)
        ensures
            r is Some <==> (self.public_url is Some && self.oauth.logo_path is Some),
            r matches Some(u) ==> u@ == joined_url(self.public_url->0@, self.oauth.logo_path->0@),
    {
        self.join_public(&self.oauth.logo_path)
    }

    /// The terms-of-service URI: `public_url` joined with `oauth.tos_path`.
    pub fn tos_uri(&self) -> (r: Option<String>)
        ensures
            r is Some <==> (self.public_url is Some && self.oauth.tos_path is Some),
            r matches Some(u) ==> u@ == joined_url(self.public_url->0@, self.oauth.tos_path->0@),
    {
        self.join_public(&self.oauth.tos_path)
    }

    /// The privacy-policy URI: `public_url` joined with `oauth.privacy_path`.
    pub fn privacy_uri(&self) -> (r: Option<String>)
        ensures
            r is Some <==> (self.public_url is Some && self.oauth.privacy_path is Some),
            r matches Some(u) ==> u@ == joined_url(self.public_url->0@, self.oauth.privacy_path->0@),
    {
        self.join_public(&self.oauth.privacy_path)
    }
}

// ---------------------------------------------------------------------------
// Key-file resolution.

/// Whether std's `Path::extension` finds an extension in a path.
pub uninterp spec fn path_has_extension(p: Seq<char>) -> bool;

/// std's `Path::extension(..).is_some()` on `p`, as [`path_has_extension`]
/// names it.
#[verifier::external_body]
fn has_extension(p: &str) -> (b: bool)
    ensures
        b == path_has_extension(p@),
{
    std::path::Path::new(p).extension().is_some()
}

/// Whether a path is absolute: on Unix, where absolute means having a root,
/// whether it starts with `/`.
pub open spec fn path_is_absolute(p: Seq<char>) -> bool {
    p.len() > 0 && p[0] == '/'
}

/// Whether `p` is absolute (see [`path_is_absolute`]), as std's
/// `Path::is_absolute` decides on Unix.
fn is_absolute(p: &str) -> (b: bool)
    ensures
        b == path_is_absolute(p@),
{
    let v = chars_of(p);
    v.len() > 0 && v[0] == '/'
}

/// What std's `Path::join` (on Unix) makes of `base` and `p`: an absolute `p`
/// replaces `base`; otherwise `p` follows `base`, after a `/` when `base` is
/// non-empty and does not already end in one.
pub open spec fn path_joined(base: Seq<char>, p: Seq<char>) -> Seq<char> {
    if path_is_absolute(p) {
        p
    } else if base.len() > 0 && base.last() != '/' {
        base + seq!['/'] + p
    } else {
        base + p
    }
}

/// `base` joined with `p` as std's `Path::join` joins them on Unix.
pub(crate) fn path_join(base: &str, p: &str) -> (r: String)
    ensures
        r@ == path_joined(base@, p@),
{
    if is_absolute(p) {
        return String::from_str(p);
    }
    let v = chars_of(base);
    let mut r = String::from_str(base);
    if v.len() > 0 && v[v.len() - 1] != '/' {
        r.append("/");
        proof { reveal_strlit("/"); }
    }
    r.append(p);
    r
}

/// A key name with its default extension: verbatim when it has one, else
/// with `.<ext>` appended.
pub open spec fn named_with_ext(n: Seq<char>, ext: Seq<char>) -> Seq<char> {
    if path_has_extension(n) {
        n
    } else {
        n + seq!['.'] + ext
    }
}

/// The file a key name resolves to under `dir`: absolute names verbatim,
/// others joined under `dir`.
pub open spec fn key_file(dir: Seq<char>, n: Seq<char>, ext: Seq<char>) -> Seq<char> {
    let named = named_with_ext(n, ext);
    if path_is_absolute(named) {
        named
    } else {
        path_joined(dir, named)
    }
}

/// Resolve ordered key names to files under `dir`: a bare name with no
/// extension gets `.<ext>` appended; absolute names are used verbatim.
pub fn resolve_key_files(dir: &str, names: &[String], ext: &str) -> (r: Vec<String>)
    ensures
        r.len() == names.len(),
        forall|i: int| 0 <= i < names.len() ==> #[trigger] r@[i]@ == key_file(dir@, names@[i]@, ext@),
{
    let mut r: Vec<String> = Vec::new();
    let mut i: usize = 0;
    while i < names.len()
        invariant
            i <= names.len(),
            r.len() == i,
            forall|j: int| 0 <= j < i ==> #[trigger] r@[j]@ == key_file(dir@, names@[j]@, ext@),
        decreases names.len() - i,
    {
        let n = &names[i];
        let named = if has_extension(n.as_str()) {
            n.clone()
        } else {
            let mut s = n.clone();
            s.append(".");
            s.append(ext);
            proof {
                reveal_strlit(".");
                assert("."@ =~= seq!['.']);
            }
            s
        };
        let file = if is_absolute(named.as_str()) {
            named
        } else {
            path_join(dir, named.as_str())
        };
        r.push(file);
        i = i + 1;
    }
    r
}

// ---------------------------------------------------------------------------
// Authenticated sessions.

/// Why an authenticated client for the active profile could not be made.
#[derive(Debug)]
pub enum AuthError {
    /// Reading config or resolving the active profile failed.
    Config(String),
    /// The active profile has no `pds` to point the session at.
    NoPds,
    /// Opening the session store failed.
    Store(String),
    /// Resuming the session failed.
    Resume(String),
    /// No resumable session is stored for the profile: log in first.
    LoginRequired { profile: String },
    /// The profile's PDS is not a valid URI.
    Uri(String),
}

/// The text an [`AuthError`] reads as.
pub open spec fn auth_error_text(e: AuthError) -> Seq<char> {
    match e {
        AuthError::Config(m) => "config/active profile: "@ + m@,
        AuthError::NoPds => "active profile has no `pds`"@,
        AuthError::Store(m) => "opening session store: "@ + m@,
        AuthError::Resume(m) => "session resume failed: "@ + m@,
        AuthError::LoginRequired { profile } => "no resumable session for profile `"@ + profile@
            + "`; run `tassle auth login` first"@,
        AuthError::Uri(m) => "invalid PDS URI: "@ + m@,
    }
}

impl AuthError {
    /// The message this error reads as.
    pub fn message(&self) -> (r: String)
        ensures
            r@ == auth_error_text(*self),
    {
        match self {
            AuthError::Config(m) => crate::repo::prefixed("config/active profile: ", m.as_str()),
            AuthError::NoPds => String::from_str("active profile has no `pds`"),
            AuthError::Store(m) => crate::repo::prefixed("opening session store: ", m.as_str()),
            AuthError::Resume(m) => crate::repo::prefixed("session resume failed: ", m.as_str()),
            AuthError::LoginRequired { profile } => {
                let mut r = crate::repo::prefixed("no resumable session for profile `", profile.as_str());
                r.append("`; run `tassle auth login` first");
                r
            },
            AuthError::Uri(m) => crate::repo::prefixed("invalid PDS URI: ", m.as_str()),
        }
    }
}

/// What a login leaves for the profile fragment: the identity, not the
/// session tokens (those are in the session store).
#[derive(Debug, Clone)]
pub struct LoginOutcome {
    /// The profile the login was performed under.
    pub profile_name: String,
    /// The session store the session was kept in.
    pub store_path: String,
    pub did: String,
    pub handle: String,
    pub pds: Option<String>,
}

} // verus!
