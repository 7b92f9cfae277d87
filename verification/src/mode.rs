//! Serving-mode resolution and listener planning.
//!
//! A `ServeMode` binds the configured root directory to one of two
//! topologies: PATH mode serves every request from that root, SUBDOMAIN
//! mode serves each request from a per-tenant directory under it. It is
//! built once at startup and never mutated afterwards. A `ListenConfig`
//! fixes the plaintext port and, when TLS is configured, the TLS port.

use vstd::prelude::*;

verus! {

/// The mode selector given at startup.
#[derive(Clone, Copy, Debug, PartialEq, Eq, Structural)]
pub enum Mode {
    Path,
    Subdomain,
}

/// A startup failure: the process must not begin serving.
#[derive(Clone, Copy, Debug, PartialEq, Eq, Structural)]
pub enum ConfigError {
    /// The resolved serving directory does not exist or is not a directory.
    MissingDirectory,
}

impl ConfigError {
    /// The fatal startup message.
    pub fn message(&self) -> (r: String)
        ensures
            r@ == "unable to find directory"@,
    {
        String::from_str("unable to find directory")
    }
}

/// The serving topology, bound to its root directory. Immutable after
/// construction: every request handler reads it, none writes it.
#[derive(Clone, Debug)]
pub enum ServeMode {
    /// Every request is served from the one root, whatever the Host header.
    Path(String),
    /// Requests are served from `root/<label>`, the label taken from the
    /// Host header's leaf subdomain.
    Subdomain(String),
}

impl ServeMode {
    /// The configured root directory.
    pub open spec fn root_spec(&self) -> Seq<char> {
        match self {
            ServeMode::Path(dir) => dir@,
            ServeMode::Subdomain(dir) => dir@,
        }
    }

    /// Builds the mode after the directory check, failing exactly when the
    /// resolved directory is not a directory.
    pub fn new(dir: String, dir_exists: bool, mode: Mode) -> (r: Result<ServeMode, ConfigError>)
        ensures
            r == if dir_exists {
                Ok::<ServeMode, ConfigError>(
                    match mode {
                        Mode::Path => ServeMode::Path(dir),
                        Mode::Subdomain => ServeMode::Subdomain(dir),
                    },
                )
            } else {
                Err::<ServeMode, ConfigError>(ConfigError::MissingDirectory)
            },
    {
        if !dir_exists {
            Err(ConfigError::MissingDirectory)
        } else {
            match mode {
                Mode::Path => Ok(ServeMode::Path(dir)),
                Mode::Subdomain => Ok(ServeMode::Subdomain(dir)),
            }
        }
    }

    /// The configured root directory.
    pub fn root(&self) -> (r: &String)
        ensures
            r@ == self.root_spec(),
    {
        match self {
            ServeMode::Path(dir) => dir,
            ServeMode::Subdomain(dir) => dir,
        }
    }

    /// The startup log line naming the directory and the mode.
    pub fn describe(&self) -> (r: String)
        ensures
            (match self {
                ServeMode::Path(dir) => r@ == "serving directory \""@ + dir@
                    + "\" in mode PATH"@,
                ServeMode::Subdomain(dir) => r@ == "serving directory \""@ + dir@
                    + "\" in mode SUBDOMAIN"@,
            }),
    {
        let mut out = String::from_str("serving directory \"");
        out.append(self.root().as_str());
        match self {
            ServeMode::Path(_) => out.append("\" in mode PATH"),
            ServeMode::Subdomain(_) => out.append("\" in mode SUBDOMAIN"),
        }
        out
    }
}

/// The directory to serve: the one requested, or the current working
/// directory when none was.
pub fn effective_dir(requested: Option<String>, cwd: String) -> (r: String)
    ensures
        r@ == (match requested {
            Some(dir) => dir@,
            None => cwd@,
        }),
{
    match requested {
        Some(dir) => dir,
        None => cwd,
    }
}

/// The two listener ports: with TLS the plaintext port 80 only redirects
/// and the content is served on the TLS port; without TLS the content is
/// served in plaintext on the configured port.
pub struct ListenConfig {
    pub http: u16,
    pub https: Option<u16>,
}

/// Plans the listeners from the configured port and whether a TLS
/// credential was given.
pub fn plan_listeners(port: u16, tls: bool) -> (r: ListenConfig)
    ensures
        tls ==> r.http == 80 && r.https == Some(port),
        !tls ==> r.http == port && r.https is None,
{
    if tls {
        ListenConfig { http: 80, https: Some(port) }
    } else {
        ListenConfig { http: port, https: None }
    }
}

} // verus!
