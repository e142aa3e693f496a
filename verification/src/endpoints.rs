//! Route construction for the remote control API: the base URL assembled
//! from host, port and path configuration, and the per-ghost endpoint URLs.
//! The transport itself lives outside the library; only the text of each
//! request's address is built and specified here.

use vstd::prelude::*;
use crate::text::{join2, str_eq};
use vstd::string::StrSliceExecFns;
use vstd::string::StringExecFns;

verus! {

/// The API path, normalized to start with a slash.
pub open spec fn normalized_path(path: Seq<char>) -> Seq<char> {
    if path.len() > 0 && path[0] == '/' {
        path
    } else {
        "/"@ + path
    }
}

/// Host, optional port and normalized path joined: `host:port/path`, or
/// `host/path` when the port text is empty.
pub open spec fn host_port_path(host: Seq<char>, port: Seq<char>, path: Seq<char>) -> Seq<char> {
    if port.len() > 0 {
        host + ":"@ + port + normalized_path(path)
    } else {
        host + normalized_path(path)
    }
}

/// `base` with a scheme: unchanged when it already starts with `http`,
/// otherwise prefixed with the default plain scheme.
pub open spec fn with_scheme(base: Seq<char>) -> Seq<char> {
    if base.len() >= 4 && base.subrange(0, 4) == "http"@ {
        base
    } else {
        "http://"@ + base
    }
}

/// Base URL of the remote control API for a host, port and path
/// configuration.
pub open spec fn base_url_spec(host: Seq<char>, port: Seq<char>, path: Seq<char>) -> Seq<char> {
    with_scheme(host_port_path(host, port, path))
}

/// Assembles the base URL from the configured host, port and API path: the
/// path is normalized to start with a slash, an empty port is left out, and
/// the scheme defaults to plain `http://` when none is given.
pub fn assemble_base_url(host: &str, port: &str, api_path: &str) -> (r: String)
    ensures
        r@ == base_url_spec(host@, port@, api_path@),
{
    let mut base = host.to_owned();
    if port.unicode_len() > 0 {
        base.append(":");
        base.append(port);
    }
    if api_path.unicode_len() > 0 && api_path.get_char(0) == '/' {
        base.append(api_path);
    } else {
        base.append("/");
        base.append(api_path);
    }
    proof {
        assert(base@ =~= host_port_path(host@, port@, api_path@));
    }
    let n = base.as_str().unicode_len();
    if n >= 4 {
        let prefix = base.as_str().substring_char(0, 4);
        if str_eq(prefix, "http") {
            return base;
        }
    }
    join2("http://", base.as_str())
}

/// Address of the roster listing.
pub fn ghosts_url(base: &str) -> (r: String)
    ensures
        r@ == base@ + "/ghosts"@,
{
    join2(base, "/ghosts")
}

/// Address of one ghost's task listing.
pub fn tasks_url(base: &str, ghost_id: &str) -> (r: String)
    ensures
        r@ == base@ + "/ghosts/"@ + ghost_id@ + "/tasks"@,
{
    let mut s = base.to_owned();
    s.append("/ghosts/");
    s.append(ghost_id);
    s.append("/tasks");
    s
}

/// Address for submitting one task to one ghost.
pub fn task_post_url(base: &str, ghost_id: &str) -> (r: String)
    ensures
        r@ == base@ + "/ghosts/"@ + ghost_id@ + "/task"@,
{
    let mut s = base.to_owned();
    s.append("/ghosts/");
    s.append(ghost_id);
    s.append("/task");
    s
}

/// Address for pushing one ghost's configuration.
pub fn config_url(base: &str, ghost_id: &str) -> (r: String)
    ensures
        r@ == base@ + "/ghosts/"@ + ghost_id@,
{
    let mut s = base.to_owned();
    s.append("/ghosts/");
    s.append(ghost_id);
    s
}

/// Address for the kill request of one ghost.
pub fn kill_url(base: &str, ghost_id: &str) -> (r: String)
    ensures
        r@ == base@ + "/ghosts/"@ + ghost_id@ + "/kill"@,
{
    let mut s = base.to_owned();
    s.append("/ghosts/");
    s.append(ghost_id);
    s.append("/kill");
    s
}

} // verus!
