//! The Tailscale config fragment a service composes into its own
//! `[service.<variant>]` bucket: whether to run it, how to authenticate, and
//! where its state, socket and binaries live.

use vstd::prelude::*;
use crate::config::{path_join, path_joined};

verus! {

/// Default Tailscale hostname.
pub const DEFAULT_HOSTNAME: &'static str = "tass-web";

/// Default directory for Tailscale state files.
pub const DEFAULT_STATE_DIR: &'static str = "/var/lib/tailscale";

/// Default directory for Tailscale runtime sockets.
pub const DEFAULT_SOCKET_DIR: &'static str = "/var/run/tailscale";

/// Default directory holding the bundled `tailscale` and `tailscaled`.
pub const DEFAULT_BIN_DIR: &'static str = "./bin";

/// Tailscale config fragment. Paths are held as the text they were written
/// as.
#[derive(Debug, Clone)]
pub struct TailscaleConfig {
    /// Whether Tailscale should be started at all.
    pub enabled: bool,
    /// The auth key; without one the daemon starts but `tailscale up` is
    /// skipped.
    pub auth_key: Option<String>,
    /// Hostname to advertise on the tailnet.
    pub hostname: String,
    /// The `tailscaled` state file.
    pub state_path: String,
    /// The `tailscaled` control socket.
    pub socket_path: String,
    /// Directory holding the bundled binaries.
    pub bin_dir: String,
    /// Extra arguments for `tailscale up`, as one shell-quoted string.
    pub extra_args: Option<String>,
}

impl Default for TailscaleConfig {
    fn default() -> (c: Self)
        ensures
            c.enabled,
            c.auth_key is None,
            c.hostname@ == DEFAULT_HOSTNAME@,
            c.state_path@ == path_joined(DEFAULT_STATE_DIR@, "tailscaled.state"@),
            c.socket_path@ == path_joined(DEFAULT_SOCKET_DIR@, "tailscaled.sock"@),
            c.bin_dir@ == DEFAULT_BIN_DIR@,
            c.extra_args is None,
    {
        TailscaleConfig {
            enabled: true,
            auth_key: None,
            hostname: String::from_str(DEFAULT_HOSTNAME),
            state_path: path_join(DEFAULT_STATE_DIR, "tailscaled.state"),
            socket_path: path_join(DEFAULT_SOCKET_DIR, "tailscaled.sock"),
            bin_dir: String::from_str(DEFAULT_BIN_DIR),
            extra_args: None,
        }
    }
}

/// What `shell_words::split` makes of a text: its words, or `None` when the
/// quoting is unbalanced.
pub uninterp spec fn shell_split(s: Seq<char>) -> Option<Seq<Seq<char>>>;

/// The views of a list of strings.
pub open spec fn words_view(v: Seq<String>) -> Seq<Seq<char>> {
    v.map_values(|s: String| s@)
}

/// `shell_words::split`: the words of `s` split as a POSIX shell would, as
/// [`shell_split`] names them; `None` where it reports a parse error.
#[verifier::external_body]
fn split_words(s: &str) -> (r: Option<Vec<String>>)
    ensures
        r is Some <==> shell_split(s@) is Some,
        r matches Some(v) ==> words_view(v@) == shell_split(s@)->0,
{
    match shell_words::split(s) {
        Ok(v) => Some(v),
        Err(_) => None,
    }
}

impl TailscaleConfig {
    /// Path to the `tailscaled` binary.
    pub fn tailscaled_path(&self) -> (r: String)
        ensures
            r@ == path_joined(self.bin_dir@, "tailscaled"@),
    {
        path_join(self.bin_dir.as_str(), "tailscaled")
    }

    /// Path to the `tailscale` CLI binary.
    pub fn tailscale_path(&self) -> (r: String)
        ensures
            r@ == path_joined(self.bin_dir@, "tailscale"@),
    {
        path_join(self.bin_dir.as_str(), "tailscale")
    }

    /// Extra arguments for `tailscale up`, split as a shell would; none when
    /// unset or when the quoting does not parse.
    pub fn extra_args(&self) -> (r: Vec<String>)
        ensures
            words_view(r@) == match self.extra_args {
                Some(s) => match shell_split(s@) {
                    Some(w) => w,
                    None => Seq::empty(),
                },
                None => Seq::empty(),
            },
    {
        match &self.extra_args {
            Some(s) => match split_words(s.as_str()) {
                Some(v) => v,
                None => {
                    let v: Vec<String> = Vec::new();
                    assert(words_view(v@) =~= Seq::empty());
                    v
                },
            },
            None => {
                let v: Vec<String> = Vec::new();
                assert(words_view(v@) =~= Seq::empty());
                v
            },
        }
    }

    /// The control socket path.
    pub fn socket(&self) -> (r: &str)
        ensures
            r@ == self.socket_path@,
    {
        self.socket_path.as_str()
    }

    /// The daemon state file.
    pub fn state_file(&self) -> (r: &str)
        ensures
            r@ == self.state_path@,
    {
        self.state_path.as_str()
    }
}

} // verus!
