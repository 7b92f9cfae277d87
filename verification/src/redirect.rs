//! The plaintext-to-TLS redirect: every request on the plaintext listener
//! is answered with a permanent redirect to the HTTPS equivalent — scheme
//! swapped, the plaintext port textually replaced by the TLS port inside
//! the Host header, path and query preserved (`/` when absent). A host
//! that no longer parses as an authority after the substitution is
//! rejected with 400.

use crate::text::decimal;
use crate::text::lemma_decimal_nonempty;
use crate::text::replace_all;
use crate::text::replaced;
use crate::text::u16_to_decimal;
use vstd::prelude::*;

verus! {

/// Whether `s` is a well-formed URI authority, as the HTTP stack's parser
/// decides it — a function of `s` alone.
pub uninterp spec fn is_authority(s: Seq<char>) -> bool;

/// Relies on `http::uri::Authority`'s `FromStr` impl (re-exported by
/// axum), which parses from the string's bytes alone: the call decides
/// whether `s` is a well-formed authority.
#[verifier::external_body]
fn parses_as_authority(s: &str) -> (r: bool)
    ensures
        r == is_authority(s@),
{
    s.parse::<axum::http::uri::Authority>().is_ok()
}

/// A redirect that could not be built, surfaced to the client as HTTP 400.
#[derive(Clone, Copy, Debug, PartialEq, Eq, Structural)]
pub enum RedirectError {
    /// The Host header no longer parses as an authority after the port
    /// substitution.
    InvalidAuthority,
}

/// The authority of the redirect target: the Host header with every
/// occurrence of the plaintext port replaced by the TLS port.
pub open spec fn rewritten_authority(host: Seq<char>, http_port: nat, tls_port: nat) -> Seq<
    char,
> {
    replaced(host, decimal(http_port), decimal(tls_port))
}

/// The full redirect target for a rewritten authority and an optional
/// original path-and-query.
pub open spec fn target_spec(authority: Seq<char>, path_query: Option<Seq<char>>) -> Seq<char> {
    "https://"@ + authority + (match path_query {
        Some(pq) => pq,
        None => "/"@,
    })
}

/// Builds the HTTPS redirect target, succeeding exactly when the rewritten
/// Host header still parses as an authority.
pub fn https_target(
    host: &str,
    path_query: Option<&str>,
    http_port: u16,
    tls_port: u16,
) -> (r: Result<String, RedirectError>)
    ensures
        ({
            let authority = rewritten_authority(host@, http_port as nat, tls_port as nat);
            let pq = match path_query {
                Some(p) => Some(p@),
                None => None,
            };
            match r {
                Ok(t) => is_authority(authority) && t@ == target_spec(authority, pq),
                Err(e) => !is_authority(authority) && e == RedirectError::InvalidAuthority,
            }
        }),
{
    proof {
        lemma_decimal_nonempty(http_port as nat);
    }
    let from = u16_to_decimal(http_port);
    let to = u16_to_decimal(tls_port);
    let authority = replace_all(host, from.as_str(), to.as_str());
    if parses_as_authority(authority.as_str()) {
        let mut target = String::from_str("https://");
        target.append(authority.as_str());
        match path_query {
            Some(p) => target.append(p),
            None => target.append("/"),
        }
        Ok(target)
    } else {
        Err(RedirectError::InvalidAuthority)
    }
}

/// The wire-level answer of the redirect listener: 301 with the rewritten
/// target, or a bare 400 when the rewritten host is malformed.
pub fn redirect_reply(
    host: &str,
    path_query: Option<&str>,
    http_port: u16,
    tls_port: u16,
) -> (r: Result<(u16, String), u16>)
    ensures
        ({
            let authority = rewritten_authority(host@, http_port as nat, tls_port as nat);
            let pq = match path_query {
                Some(p) => Some(p@),
                None => None,
            };
            match r {
                Ok(reply) => is_authority(authority) && reply.0 == 301 && reply.1@
                    == target_spec(authority, pq),
                Err(status) => !is_authority(authority) && status == 400,
            }
        }),
{
    match https_target(host, path_query, http_port, tls_port) {
        Ok(target) => Ok((301, target)),
        Err(_) => Err(400),
    }
}

} // verus!
