//! Address arithmetic for the remote publishing registry: the SSH and
//! rsync target strings and the announced URL. The commands themselves are
//! run outside this crate; here only the strings they are given are
//! computed, each pinned exactly.

use vstd::prelude::*;

verus! {

/// A handle on the remote registry: the SSH user and host, and the
/// directory uploads land in.
pub struct Registry {
    user: String,
    host: String,
    root_dir: String,
    pub debug: bool,
}

impl Registry {
    /// The SSH user.
    pub closed spec fn user_spec(&self) -> Seq<char> {
        self.user@
    }

    /// The SSH host.
    pub closed spec fn host_spec(&self) -> Seq<char> {
        self.host@
    }

    /// The remote upload directory.
    pub closed spec fn root_spec(&self) -> Seq<char> {
        self.root_dir@
    }

    /// Whether debug output is on.
    pub closed spec fn debug_spec(&self) -> bool {
        self.debug
    }

    /// A registry handle, with debug output off.
    pub fn new(user: &str, host: &str, root_dir: &str) -> (r: Self)
        ensures
            r.user_spec() == user@,
            r.host_spec() == host@,
            r.root_spec() == root_dir@,
            !r.debug_spec(),
    {
        Registry {
            user: String::from_str(user),
            host: String::from_str(host),
            root_dir: String::from_str(root_dir),
            debug: false,
        }
    }

    /// The `user@host` string that the remote commands log into.
    pub fn ssh_target(&self) -> (r: String)
        ensures
            r@ == self.user_spec() + "@"@ + self.host_spec(),
    {
        let mut out = self.user.clone();
        out.append("@");
        out.append(self.host.as_str());
        out
    }

    /// The rsync destination `user@host:root/name` of a published site.
    pub fn remote_target(&self, name: &str) -> (r: String)
        ensures
            r@ == self.user_spec() + "@"@ + self.host_spec() + ":"@ + self.root_spec() + "/"@
                + name@,
    {
        let mut out = self.ssh_target();
        out.append(":");
        out.append(self.root_dir.as_str());
        out.append("/");
        out.append(name);
        out
    }

    /// The URL announced once a site is published.
    pub fn published_url(&self, name: &str) -> (r: String)
        ensures
            r@ == "http://"@ + name@ + "."@ + self.host_spec(),
    {
        let mut out = String::from_str("http://");
        out.append(name);
        out.append(".");
        out.append(self.host.as_str());
        out
    }

    /// The remote command that removes a published site and its
    /// certificate.
    pub fn delete_command(&self, name: &str) -> (r: String)
        ensures
            r@ == "rm -rf "@ + self.root_spec() + "/"@ + name@
                + "; certbot -n delete --cert-name "@ + name@ + "."@ + self.host_spec(),
    {
        let mut out = String::from_str("rm -rf ");
        out.append(self.root_dir.as_str());
        out.append("/");
        out.append(name);
        out.append("; certbot -n delete --cert-name ");
        out.append(name);
        out.append(".");
        out.append(self.host.as_str());
        out
    }

    /// The remote command that lists published sites.
    pub fn list_command(&self) -> (r: String)
        ensures
            r@ == "ls "@ + self.root_spec(),
    {
        let mut out = String::from_str("ls ");
        out.append(self.root_dir.as_str());
        out
    }
}

/// The rsync spelling of a source directory: the path with a trailing
/// slash, so the directory's contents are synced rather than the
/// directory itself.
pub fn rsync_source(dir: &str) -> (r: String)
    ensures
        r@ == dir@ + "/"@,
{
    let mut out = String::from_str(dir);
    out.append("/");
    out
}

} // verus!
