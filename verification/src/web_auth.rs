//! The OAuth login service's own rules: the login page (with its
//! `return_to` escaped into an attribute), whether the client is confidential
//! or loopback and the URLs each derives, and the first-run lifecycle of the
//! key files.

use vstd::prelude::*;
use crate::config::{joined_url, trim_end_char, ServiceConfig};
use crate::text::{
    chars_of, decimal, digit_char, is_digit, last_index_of, rfind_char, starts_with_seq, sub_chars, sub_string, u64_text,
};

verus! {

// ---------------------------------------------------------------------------
// The login page.

/// Query parameters of the login page: an optional local `return_to`.
#[derive(Debug, Default)]
pub struct LoginQuery {
    pub return_to: Option<String>,
}

impl LoginQuery {
    /// Where to return after login: the query's `return_to`, else `/`.
    pub fn return_to(&self) -> (r: &str)
        ensures
            self.return_to matches Some(t) ==> r@ == t@,
            self.return_to is None ==> r@ == "/"@,
    {
        match &self.return_to {
            Some(t) => t.as_str(),
            None => "/",
        }
    }
}

/// What one char becomes inside a double-quoted attribute: `&`, `<`, `>` and
/// `"` become their entities; every other char stays.
pub open spec fn attr_char(c: char) -> Seq<char> {
    if c == '&' {
        seq!['&', 'a', 'm', 'p', ';']
    } else if c == '<' {
        seq!['&', 'l', 't', ';']
    } else if c == '>' {
        seq!['&', 'g', 't', ';']
    } else if c == '"' {
        seq!['&', 'q', 'u', 'o', 't', ';']
    } else {
        seq![c]
    }
}

/// `s` escaped for a double-quoted attribute, char by char.
pub open spec fn attr_escaped(s: Seq<char>) -> Seq<char>
    decreases s.len(),
{
    if s.len() == 0 {
        Seq::empty()
    } else {
        attr_escaped(s.drop_last()) + attr_char(s.last())
    }
}

/// `html_escape::encode_double_quoted_attribute`: escapes exactly `&`, `<`,
/// `>` and `"` to `&amp;`, `&lt;`, `&gt;`, `&quot;`, keeping every other char,
/// as its documentation lists.
#[verifier::external_body]
fn escape_attribute(s: &str) -> (r: String)
    ensures
        r@ == attr_escaped(s@),
{
    html_escape::encode_double_quoted_attribute(s).into_owned()
}

/// The login page up to the `return_to` attribute value.
pub const LOGIN_PAGE_HEAD: &'static str = "<!doctype html>\n<html lang=\"en\">\n<head>\n  <meta charset=\"utf-8\">\n  <meta name=\"viewport\" content=\"width=device-width, initial-scale=1\">\n  <title>Sign in with AT Protocol</title>\n</head>\n<body>\n  <main>\n    <h1>Sign in with AT Protocol</h1>\n    <p>Enter your handle, DID, or PDS URL. You will authenticate on your own\n    server (PDS).</p>\n    <form method=\"get\" action=\"/oauth/start\">\n      <p>\n        <label for=\"identifier\">Handle, DID, or PDS URL</label><br>\n        <input id=\"identifier\" name=\"identifier\" autocomplete=\"username\"\n          placeholder=\"alice.bsky.social\" required>\n      </p>\n      <input type=\"hidden\" name=\"return_to\" value=\"";

/// The login page after the `return_to` attribute value.
pub const LOGIN_PAGE_TAIL: &'static str = "\">\n      <button type=\"submit\">Sign in</button>\n    </form>\n  </main>\n</body>\n</html>";

/// Render the login page, with `return_to` escaped into the hidden input's
/// double-quoted attribute.
pub fn render(return_to: &str) -> (r: String)
    ensures
        r@ == LOGIN_PAGE_HEAD@ + attr_escaped(return_to@) + LOGIN_PAGE_TAIL@,
{
    let mut page = String::from_str(LOGIN_PAGE_HEAD);
    let escaped = escape_attribute(return_to);
    page.append(escaped.as_str());
    page.append(LOGIN_PAGE_TAIL);
    page
}

/// An escaped attribute value holds no double quote, so `return_to` cannot
/// close the attribute it is rendered into.
pub proof fn law_escaped_attribute_has_no_quote(s: Seq<char>)
    ensures
        forall|i: int| 0 <= i < attr_escaped(s).len() ==> attr_escaped(s)[i] != '"',
    decreases s.len(),
{
    if s.len() > 0 {
        law_escaped_attribute_has_no_quote(s.drop_last());
        let prev = attr_escaped(s.drop_last());
        let tail = attr_char(s.last());
        assert forall|i: int| 0 <= i < (prev + tail).len() implies (prev + tail)[i] != '"' by {
            if i >= prev.len() {
                assert((prev + tail)[i] == tail[i - prev.len()]);
            }
        }
    }
}

// ---------------------------------------------------------------------------
// Client metadata.

/// Where the callback route is mounted.
pub const CALLBACK_PATH: &'static str = "/oauth/callback";

/// The path the client metadata is served at; the confidential client id is
/// the public URL followed by it.
pub const METADATA_PATH: &'static str = "/oauth-client-metadata.json";

/// The loopback port when no bind address is configured.
pub const DEFAULT_LOOPBACK_PORT: u16 = 3000;

/// What kind of OAuth client a service is, with the URLs it derives.
#[derive(Debug)]
pub enum ClientPlan {
    /// A confidential client with hosted metadata: its client id (the metadata
    /// URL), its callback, and its display name and branding links when named.
    Confidential {
        client_id: String,
        redirect_uri: String,
        client_name: Option<String>,
        logo_uri: Option<String>,
        tos_uri: Option<String>,
        privacy_uri: Option<String>,
    },
    /// A loopback (public) client, called back on both loopback addresses at
    /// this port.
    Loopback { redirect_uris: Vec<String> },
}

/// Whether a service is a confidential client: a keyset is configured and
/// the public URL is `https://`.
pub open spec fn is_confidential_service(s: ServiceConfig) -> bool {
    s.oauth.keyset_paths@.len() > 0 && s.public_url is Some && starts_with_seq(s.public_url->0@, "https://"@)
}

/// The port of a bind address written `host:port`: the digits after its last
/// `:`, when they form a port number.
pub open spec fn bind_port(bind: Seq<char>) -> Option<u16> {
    match last_index_of(bind, ':') {
        Some(i) => {
            let digits = bind.skip(i + 1);
            if digits.len() > 0 && digits.len() <= 5 && (forall|k: int| 0 <= k < digits.len() ==> is_digit(#[trigger] digits[k]))
                && crate::text::digits_value(digits) <= u16::MAX {
                Some(crate::text::digits_value(digits) as u16)
            } else {
                None
            }
        },
        None => None,
    }
}

/// The loopback port: the bind address's, else the default.
pub open spec fn loopback_port(s: ServiceConfig) -> u16 {
    match s.bind {
        Some(b) => match bind_port(b@) {
            Some(p) => p,
            None => DEFAULT_LOOPBACK_PORT,
        },
        None => DEFAULT_LOOPBACK_PORT,
    }
}

/// The port of a bind address written `host:port`.
pub fn port_of(bind: &str) -> (r: Option<u16>)
    ensures
        r == bind_port(bind@),
{
    let v = chars_of(bind);
    let i = match rfind_char(&v, ':') {
        Some(i) => i,
        None => {
            return None;
        },
    };
    let n = v.len() - (i + 1);
    if n == 0 || n > 5 {
        proof { assert(bind@.skip(i + 1).len() == n); }
        return None;
    }
    let mut acc: u64 = 0;
    let mut k: usize = i + 1;
    while k < v.len()
        invariant
            i + 1 <= k <= v.len(),
            v@ == bind@,
            last_index_of(bind@, ':') == Some(i as int),
            v.len() - (i + 1) <= 5,
            forall|j: int| i + 1 <= j < k ==> is_digit(#[trigger] v@[j]),
            acc == crate::text::digits_value(v@.subrange(i + 1, k as int)),
            acc < 100000,
            k - (i + 1) <= 5,
            acc < (if k - (i + 1) == 0 { 1 } else if k - (i + 1) == 1 { 10 } else if k - (i + 1) == 2 { 100 }
                else if k - (i + 1) == 3 { 1000 } else if k - (i + 1) == 4 { 10000 } else { 100000int }),
        decreases v.len() - k,
    {
        let c = v[k];
        if !(c >= '0' && c <= '9') {
            proof {
                let digits = bind@.skip(i + 1);
                assert(digits[k - (i + 1)] == c);
            }
            return None;
        }
        proof {
            assert(v@.subrange(i + 1, k + 1) =~= v@.subrange(i + 1, k as int).push(c));
            assert(v@.subrange(i + 1, k + 1).drop_last() =~= v@.subrange(i + 1, k as int));
        }
        acc = acc * 10 + ((c as u32) - ('0' as u32)) as u64;
        k = k + 1;
    }
    proof {
        assert(bind@.skip(i + 1) =~= v@.subrange(i + 1, v.len() as int));
    }
    if acc > 65535 {
        return None;
    }
    Some(acc as u16)
}

/// The URL a confidential client hangs off: the public URL without trailing
/// slashes.
pub open spec fn confidential_base(s: ServiceConfig) -> Seq<char> {
    trim_end_char(s.public_url->0@, '/')
}

/// The two loopback callbacks at `port`.
pub open spec fn loopback_redirects(port: u16) -> Seq<Seq<char>> {
    seq![
        "http://127.0.0.1:"@ + decimal(port as nat) + CALLBACK_PATH@,
        "http://[::1]:"@ + decimal(port as nat) + CALLBACK_PATH@,
    ]
}

/// `base` followed by `path`.
fn concat(base: &str, path: &str) -> (r: String)
    ensures
        r@ == base@ + path@,
{
    let mut s = String::from_str(base);
    s.append(path);
    s
}

/// `s` without its trailing `/`s.
fn trim_trailing_slashes(s: &str) -> (r: String)
    ensures
        r@ == trim_end_char(s@, '/'),
{
    let v = chars_of(s);
    let mut end = v.len();
    assert(s@.take(end as int) =~= s@);
    while end > 0 && v[end - 1] == '/'
        invariant
            end <= v.len(),
            v@ == s@,
            trim_end_char(s@, '/') == trim_end_char(s@.take(end as int), '/'),
        decreases end,
    {
        assert(s@.take(end as int).drop_last() =~= s@.take(end - 1));
        end = end - 1;
    }
    assert(s@.take(end as int) =~= v@.subrange(0, end as int));
    sub_string(&v, 0, end)
}

/// Decide the client kind of a service and derive its URLs: confidential
/// (keyset configured, `https://` public URL) with the client id at the
/// metadata path and the callback under the public URL, else loopback on
/// `127.0.0.1` and `[::1]` at the bind port (3000 by default).
pub fn client_plan(service: &ServiceConfig) -> (p: ClientPlan)
    ensures
        is_confidential_service(*service) ==> (p matches ClientPlan::Confidential { client_id, redirect_uri, client_name, logo_uri, tos_uri, privacy_uri } && {
            &&& client_id@ == confidential_base(*service) + METADATA_PATH@
            &&& redirect_uri@ == confidential_base(*service) + CALLBACK_PATH@
            &&& client_name == service.oauth.client_name
            &&& (client_name is Some && service.oauth.logo_path is Some ==> (logo_uri matches Some(u) && u@ == joined_url(service.public_url->0@, service.oauth.logo_path->0@)))
            &&& (client_name is None || service.oauth.logo_path is None ==> logo_uri is None)
            &&& (client_name is Some && service.oauth.tos_path is Some ==> (tos_uri matches Some(u) && u@ == joined_url(service.public_url->0@, service.oauth.tos_path->0@)))
            &&& (client_name is None || service.oauth.tos_path is None ==> tos_uri is None)
            &&& (client_name is Some && service.oauth.privacy_path is Some ==> (privacy_uri matches Some(u) && u@ == joined_url(service.public_url->0@, service.oauth.privacy_path->0@)))
            &&& (client_name is None || service.oauth.privacy_path is None ==> privacy_uri is None)
        }),
        !is_confidential_service(*service) ==> (p matches ClientPlan::Loopback { redirect_uris }
            && redirect_uris@.map_values(|u: String| u@) == loopback_redirects(loopback_port(*service))),
{
    let https = match &service.public_url {
        Some(u) => {
            let v = chars_of(u.as_str());
            let pre = chars_of("https://");
            proof { reveal_strlit("https://"); }
            crate::text::occurs_at_exec(&v, &pre, 0)
        },
        None => false,
    };
    if service.oauth.is_confidential() && https {
        let base = match &service.public_url {
            Some(u) => trim_trailing_slashes(u.as_str()),
            None => {
                proof { assert(false); }
                String::new()
            },
        };
        let client_id = concat(base.as_str(), METADATA_PATH);
        let redirect_uri = concat(base.as_str(), CALLBACK_PATH);
        let named = service.oauth.client_name.is_some();
        let client_name = match &service.oauth.client_name {
            Some(n) => Some(n.clone()),
            None => None,
        };
        let logo_uri = if named { service.logo_uri() } else { None };
        let tos_uri = if named { service.tos_uri() } else { None };
        let privacy_uri = if named { service.privacy_uri() } else { None };
        ClientPlan::Confidential { client_id, redirect_uri, client_name, logo_uri, tos_uri, privacy_uri }
    } else {
        let port = match &service.bind {
            Some(b) => match port_of(b.as_str()) {
                Some(p) => p,
                None => DEFAULT_LOOPBACK_PORT,
            },
            None => DEFAULT_LOOPBACK_PORT,
        };
        let digits = u64_text(port as u64);
        let mut first = concat("http://127.0.0.1:", digits.as_str());
        first.append(CALLBACK_PATH);
        let mut second = concat("http://[::1]:", digits.as_str());
        second.append(CALLBACK_PATH);
        let redirect_uris = vec![first, second];
        assert(redirect_uris@.map_values(|u: String| u@) =~= loopback_redirects(port));
        ClientPlan::Loopback { redirect_uris }
    }
}

// ---------------------------------------------------------------------------
// Key files.

/// The file stem std's `Path::file_stem` finds in a path, when it finds one.
pub uninterp spec fn path_file_stem(p: Seq<char>) -> Option<Seq<char>>;

/// std's `Path::file_stem` as text, as [`path_file_stem`] names it.
#[verifier::external_body]
fn file_stem(p: &str) -> (r: Option<String>)
    ensures
        r is Some <==> path_file_stem(p@) is Some,
        r matches Some(s) ==> s@ == path_file_stem(p@)->0,
{
    std::path::Path::new(p).file_stem().and_then(|s| s.to_str()).map(|s| s.to_owned())
}

/// The `kid` of a generated key: its file's stem, else `tass-key`.
pub fn kid_for(path: &str) -> (r: String)
    ensures
        path_file_stem(path@) matches Some(s) ==> r@ == s,
        path_file_stem(path@) is None ==> r@ == "tass-key"@,
{
    match file_stem(path) {
        Some(s) => s,
        None => String::from_str("tass-key"),
    }
}

/// The length of a cookie signing key, in bytes.
pub const KEY_LEN: usize = 64;

/// The outcome of reading a key file.
#[derive(Debug)]
pub enum FileRead {
    /// The file's bytes.
    Bytes(Vec<u8>),
    /// There is no such file (with the error's text).
    NotFound(String),
    /// Reading failed otherwise, with the error's text.
    Failed(String),
}

/// What to do with a read cookie-key file.
#[derive(Debug)]
pub enum CookieKeyStep {
    /// Use these bytes as the key.
    Use(Vec<u8>),
    /// First run: generate a fresh key and write it.
    Generate,
    /// Refuse, with this message.
    Refuse(String),
}

/// What to do with the read of the cookie key at `path`: a file of exactly
/// `KEY_LEN` bytes is the key; a missing file is generated; any other length
/// or read error is refused.
pub fn cookie_key_step(path: &str, read: FileRead) -> (s: CookieKeyStep)
    ensures
        match read {
            FileRead::Bytes(b) => if b@.len() == KEY_LEN {
                s == CookieKeyStep::Use(b)
            } else {
                s matches CookieKeyStep::Refuse(m) && m@ == "cookie key "@ + path@ + " is "@
                    + decimal(b@.len()) + " bytes; expected 64"@
            },
            FileRead::NotFound(_) => s == CookieKeyStep::Generate,
            FileRead::Failed(e) => s matches CookieKeyStep::Refuse(m) && m@ == "read cookie key "@ + path@ + ": "@ + e@,
        },
{
    match read {
        FileRead::Bytes(b) => {
            if b.len() == KEY_LEN {
                CookieKeyStep::Use(b)
            } else {
                let mut m = concat("cookie key ", path);
                m.append(" is ");
                let n = u64_text(b.len() as u64);
                m.append(n.as_str());
                m.append(" bytes; expected 64");
                CookieKeyStep::Refuse(m)
            }
        },
        FileRead::NotFound(_) => CookieKeyStep::Generate,
        FileRead::Failed(e) => {
            let mut m = concat("read cookie key ", path);
            m.append(": ");
            m.append(e.as_str());
            CookieKeyStep::Refuse(m)
        },
    }
}

/// What to do with one read keyset file.
#[derive(Debug)]
pub enum KeysetStep {
    /// Parse these bytes as a keyset.
    Parse(Vec<u8>),
    /// First run of the active signer: generate a key with this `kid`.
    Generate(String),
    /// Refuse, with this message.
    Refuse(String),
}

/// What to do with the read of keyset file `path`, as [`keyset_step`]
/// decides it.
pub open spec fn keyset_step_of(s: KeysetStep, path: Seq<char>, active: bool, read: FileRead) -> bool {
    match read {
        FileRead::Bytes(b) => s == KeysetStep::Parse(b),
        FileRead::NotFound(e) => if active {
            s matches KeysetStep::Generate(k) && (path_file_stem(path) matches Some(st) ==> k@ == st)
                && (path_file_stem(path) is None ==> k@ == "tass-key"@)
        } else {
            s matches KeysetStep::Refuse(m) && m@ == "read keyset "@ + path + ": "@ + e@
        },
        FileRead::Failed(e) => s matches KeysetStep::Refuse(m) && m@ == "read keyset "@ + path + ": "@ + e@,
    }
}

/// Whether the read of a keyset file is refused: a read error, or a missing
/// file that is not the active signer.
pub open spec fn keyset_refused(active: bool, read: FileRead) -> bool {
    read is Failed || (read is NotFound && !active)
}

/// What to do with the read of keyset file `path` (`active` when it is the
/// signer): read bytes are parsed; a missing active signer is generated on
/// first run; a missing validator or any read error is refused.
pub fn keyset_step(path: &str, active: bool, read: FileRead) -> (s: KeysetStep)
    ensures
        keyset_step_of(s, path@, active, read),
{
    match read {
        FileRead::Bytes(b) => KeysetStep::Parse(b),
        FileRead::NotFound(e) => {
            if active {
                KeysetStep::Generate(kid_for(path))
            } else {
                let mut m = concat("read keyset ", path);
                m.append(": ");
                m.append(e.as_str());
                KeysetStep::Refuse(m)
            }
        },
        FileRead::Failed(e) => {
            let mut m = concat("read keyset ", path);
            m.append(": ");
            m.append(e.as_str());
            KeysetStep::Refuse(m)
        },
    }
}

/// The message of an empty list of keyset files.
pub const NO_KEYSET_FILES: &'static str = "keyset_paths resolved empty (is_confidential but no files)";

/// Check the ordered keyset files before any is read: an empty list is
/// refused.
pub fn keyset_files_check(files: &Vec<String>) -> (r: Result<(), String>)
    ensures
        r is Ok <==> files.len() > 0,
        r matches Err(m) ==> m@ == NO_KEYSET_FILES@,
{
    if files.len() == 0 {
        Err(String::from_str(NO_KEYSET_FILES))
    } else {
        Ok(())
    }
}

/// What to do with the read of file `i` of the ordered keyset files: the
/// step [`keyset_step`] takes, the file being the active signer when it is
/// the first file or named as it. The files are loaded one after another in
/// this order, so the keys merge with the signer's first.
pub fn keyset_file_step(files: &Vec<String>, i: usize, read: FileRead) -> (s: KeysetStep)
    requires
        i < files.len(),
    ensures
        keyset_step_of(s, files@[i as int]@, files@[i as int]@ == files@[0]@, read),
{
    let active = crate::text::str_eq(files[i].as_str(), files[0].as_str());
    keyset_step(files[i].as_str(), active, read)
}

} // verus!
