//! The request pipeline around the file-serving delegate: resolving the
//! effective filesystem root from the mode and the Host header, collapsing
//! every lookup failure into one client-facing 400 reply, and decorating
//! every outgoing response with the marker header.

use crate::host::subdomain;
use crate::host::subdomain_spec;
use crate::mode::ServeMode;
use vstd::prelude::*;

verus! {

/// A request-scoped failure, surfaced to the client as HTTP 400.
#[derive(Clone, Copy, Debug, PartialEq, Eq, Structural)]
pub enum RequestError {
    /// SUBDOMAIN mode, but the Host header carries no subdomain.
    NoSubdomain,
    /// The file-serving delegate failed: not found, traversal rejected, or
    /// an I/O error — deliberately not told apart.
    LookupFailed,
}

impl RequestError {
    /// The HTTP status every request failure maps to.
    pub fn status(&self) -> (s: u16)
        ensures
            s == 400,
    {
        400
    }

    /// The fixed client-facing body for this failure.
    pub open spec fn message_spec(&self) -> Seq<char> {
        match self {
            RequestError::NoSubdomain => "Oops 2!"@,
            RequestError::LookupFailed => "Oops!"@,
        }
    }

    /// The fixed client-facing body for this failure.
    pub fn message(&self) -> (r: String)
        ensures
            r@ == self.message_spec(),
    {
        match self {
            RequestError::NoSubdomain => String::from_str("Oops 2!"),
            RequestError::LookupFailed => String::from_str("Oops!"),
        }
    }
}

/// The filesystem root a request is served from: the configured root in
/// PATH mode; the configured root extended by the leaf subdomain in
/// SUBDOMAIN mode; nothing when SUBDOMAIN mode finds no subdomain.
pub open spec fn effective_root(mode: &ServeMode, host: Seq<char>) -> Option<Seq<char>> {
    match mode {
        ServeMode::Path(dir) => Some(dir@),
        ServeMode::Subdomain(dir) => match subdomain_spec(host) {
            Some(label) => Some(dir@ + "/"@ + label),
            None => None,
        },
    }
}

/// Resolves the root to serve from, failing exactly when SUBDOMAIN mode is
/// given a host without a subdomain.
pub fn resolve_root(mode: &ServeMode, host: &str) -> (r: Result<String, RequestError>)
    ensures
        match r {
            Ok(dir) => effective_root(mode, host@) == Some(dir@),
            Err(e) => effective_root(mode, host@) is None && e == RequestError::NoSubdomain,
        },
{
    match mode {
        ServeMode::Path(dir) => Ok(dir.clone()),
        ServeMode::Subdomain(dir) => match subdomain(host) {
            Some(label) => {
                let mut out = dir.clone();
                out.append("/");
                out.append(label);
                Ok(out)
            },
            None => Err(RequestError::NoSubdomain),
        },
    }
}

/// In PATH mode the effective root is the configured root for every host.
pub proof fn lemma_path_mode_ignores_host(dir: String, host: Seq<char>)
    ensures
        effective_root(&ServeMode::Path(dir), host) == Some(dir@),
{
}

/// In SUBDOMAIN mode a host with leaf subdomain `label` is served from
/// `root/label`, and a host without one is refused.
pub proof fn lemma_subdomain_mode_root(dir: String, host: Seq<char>)
    ensures
        subdomain_spec(host) matches Some(label) ==> effective_root(
            &ServeMode::Subdomain(dir),
            host,
        ) == Some(dir@ + "/"@ + label),
        subdomain_spec(host) is None ==> effective_root(&ServeMode::Subdomain(dir), host)
            is None,
{
}

/// Root resolution has no state to invalidate: any two results that meet
/// `resolve_root`'s contract for one mode and host are equal, so repeating
/// a request against an unchanged filesystem yields an identical reply.
pub proof fn lemma_resolution_idempotent(
    mode: &ServeMode,
    host: Seq<char>,
    first: Option<Seq<char>>,
    second: Option<Seq<char>>,
)
    requires
        first == effective_root(mode, host),
        second == effective_root(mode, host),
    ensures
        first == second,
{
}

/// The collapsed failure reply: status 400 and the fixed message, whatever
/// the failure was.
pub fn failure_reply(e: &RequestError) -> (r: (u16, String))
    ensures
        r.0 == 400,
        r.1@ == e.message_spec(),
{
    (e.status(), e.message())
}

/// The fixed marker header appended to every response.
pub fn marker_header() -> (r: (String, String))
    ensures
        r.0@ == "x-braindead"@,
        r.1@ == "never gonna give you up"@,
{
    (String::from_str("x-braindead"), String::from_str("never gonna give you up"))
}

/// Appends the fixed marker header, never overwriting: every response that
/// passes through carries `x-braindead: never gonna give you up`.
pub fn apply_marker(headers: &mut Vec<(String, String)>)
    ensures
        final(headers)@.len() == old(headers)@.len() + 1,
        forall|i: int| 0 <= i < old(headers)@.len() ==> final(headers)@[i] == old(headers)@[i],
        final(headers)@.last().0@ == "x-braindead"@,
        final(headers)@.last().1@ == "never gonna give you up"@,
        exists|i: int|
            0 <= i < final(headers)@.len() && final(headers)@[i].0@ == "x-braindead"@
                && final(headers)@[i].1@ == "never gonna give you up"@,
{
    let marker = marker_header();
    headers.push(marker);
}

} // verus!
