use zoubida::host::subdomain;
use zoubida::mode::ConfigError;
use zoubida::mode::Mode;
use zoubida::mode::ServeMode;
use zoubida::mode::effective_dir;
use zoubida::mode::plan_listeners;
use zoubida::redirect::RedirectError;
use zoubida::redirect::https_target;
use zoubida::redirect::redirect_reply;
use zoubida::respond::RequestError;
use zoubida::respond::apply_marker;
use zoubida::respond::failure_reply;
use zoubida::respond::resolve_root;
use zoubida::text::replace_all;
use zoubida::text::u16_to_decimal;

#[test]
fn test_subdomains() {
    assert_eq!(Some("leiko"), subdomain("leiko.braindead.fr"));
    assert_eq!(Some("foo.bar"), subdomain("foo.bar.braindead.fr"));
    assert_eq!(Some("foo.bar-baz"), subdomain("foo.bar-baz.braindead.fr"));
    assert_eq!(None, subdomain("braindead.fr"));
}

#[test]
fn subdomain_edge_cases() {
    assert_eq!(None, subdomain(""));
    assert_eq!(None, subdomain("localhost"));
    assert_eq!(Some("127.0"), subdomain("127.0.0.1"));
    assert_eq!(Some("a.b.c"), subdomain("a.b.c.d.e"));
    assert_eq!(Some(""), subdomain(".b.c"));
    assert_eq!(Some("a"), subdomain("a.b."));
}

#[test]
fn subdomain_is_pure() {
    let first = subdomain("foo.bar.braindead.fr");
    let second = subdomain("foo.bar.braindead.fr");
    assert_eq!(first, second);
}

#[test]
fn path_mode_ignores_host() {
    let mode = ServeMode::new("/srv/www".to_string(), true, Mode::Path).unwrap();
    let a = resolve_root(&mode, "a.example.com").unwrap();
    let b = resolve_root(&mode, "totally.different.host.example").unwrap();
    let c = resolve_root(&mode, "not even a host").unwrap();
    assert_eq!(a, "/srv/www");
    assert_eq!(b, "/srv/www");
    assert_eq!(c, "/srv/www");
}

#[test]
fn subdomain_mode_resolves_tenant_root() {
    let mode = ServeMode::new("/srv/www".to_string(), true, Mode::Subdomain).unwrap();
    assert_eq!(resolve_root(&mode, "a.example.com"), Ok("/srv/www/a".to_string()));
    assert_eq!(
        resolve_root(&mode, "foo.bar.example.com"),
        Ok("/srv/www/foo.bar".to_string())
    );
}

#[test]
fn subdomain_mode_refuses_bare_parent_domain() {
    let mode = ServeMode::new("/srv/www".to_string(), true, Mode::Subdomain).unwrap();
    let err = resolve_root(&mode, "example.com").unwrap_err();
    assert_eq!(err, RequestError::NoSubdomain);
    let (status, body) = failure_reply(&err);
    assert_eq!(status, 400);
    assert_eq!(body, "Oops 2!");
}

#[test]
fn lookup_failure_collapses_to_400() {
    let (status, body) = failure_reply(&RequestError::LookupFailed);
    assert_eq!(status, 400);
    assert_eq!(body, "Oops!");
}

#[test]
fn missing_directory_is_fatal() {
    let r = ServeMode::new("/nowhere".to_string(), false, Mode::Path);
    assert_eq!(r.unwrap_err(), ConfigError::MissingDirectory);
    assert_eq!(ConfigError::MissingDirectory.message(), "unable to find directory");
}

#[test]
fn directory_defaults_to_cwd() {
    assert_eq!(
        effective_dir(Some("/given".to_string()), "/cwd".to_string()),
        "/given"
    );
    assert_eq!(effective_dir(None, "/cwd".to_string()), "/cwd");
}

#[test]
fn listener_planning() {
    let plain = plan_listeners(4242, false);
    assert_eq!(plain.http, 4242);
    assert_eq!(plain.https, None);
    let tls = plan_listeners(443, true);
    assert_eq!(tls.http, 80);
    assert_eq!(tls.https, Some(443));
}

#[test]
fn redirect_rewrites_to_https() {
    let reply = redirect_reply("site.example.com:80", Some("/foo?x=1"), 80, 443).unwrap();
    assert_eq!(reply.0, 301);
    assert_eq!(reply.1, "https://site.example.com:443/foo?x=1");
}

#[test]
fn redirect_defaults_path_to_slash() {
    let target = https_target("example.com:80", None, 80, 443).unwrap();
    assert_eq!(target, "https://example.com:443/");
}

#[test]
fn redirect_refuses_malformed_authority() {
    assert_eq!(
        https_target("bad host:80", Some("/"), 80, 443),
        Err(RedirectError::InvalidAuthority)
    );
    assert_eq!(redirect_reply("bad host:80", Some("/"), 80, 443), Err(400));
}

#[test]
fn redirect_is_idempotent() {
    let first = redirect_reply("site.example.com:80", Some("/a?b=c"), 80, 443);
    let second = redirect_reply("site.example.com:80", Some("/a?b=c"), 80, 443);
    assert_eq!(first, second);
}

#[test]
fn port_rendering_matches_std() {
    for n in [0u16, 7, 10, 80, 443, 4242, 65535] {
        assert_eq!(u16_to_decimal(n), n.to_string());
    }
}

#[test]
fn replacement_matches_std() {
    let cases = [
        ("site.example.com:80", "80", "443"),
        ("80.80.80.80", "80", "443"),
        ("no-port.example.com", "80", "443"),
        ("port8080.example.com:8080", "8080", "443"),
        ("overlap aaa", "aa", "b"),
        ("", "80", "443"),
    ];
    for (s, pat, rep) in cases {
        assert_eq!(replace_all(s, pat, rep), s.replace(pat, rep));
    }
}

#[test]
fn marker_header_always_appended() {
    let mut empty: Vec<(String, String)> = Vec::new();
    apply_marker(&mut empty);
    assert_eq!(empty.len(), 1);
    assert_eq!(empty[0].0, "x-braindead");
    assert_eq!(empty[0].1, "never gonna give you up");

    let mut full = vec![("content-type".to_string(), "text/html".to_string())];
    apply_marker(&mut full);
    assert_eq!(full.len(), 2);
    assert_eq!(full[0].0, "content-type");
    assert_eq!(full[1].0, "x-braindead");
    assert_eq!(full[1].1, "never gonna give you up");

    apply_marker(&mut full);
    assert_eq!(full.len(), 3);
    assert_eq!(full[2].0, "x-braindead");
}

#[test]
fn serve_mode_describes_itself() {
    let path = ServeMode::new("/srv".to_string(), true, Mode::Path).unwrap();
    assert_eq!(path.describe(), "serving directory \"/srv\" in mode PATH");
    let sub = ServeMode::new("/srv".to_string(), true, Mode::Subdomain).unwrap();
    assert_eq!(sub.describe(), "serving directory \"/srv\" in mode SUBDOMAIN");
    assert_eq!(sub.root().as_str(), "/srv");
}

#[test]
fn resolution_is_idempotent() {
    let mode = ServeMode::new("/srv".to_string(), true, Mode::Subdomain).unwrap();
    let first = resolve_root(&mode, "a.example.com");
    let second = resolve_root(&mode, "a.example.com");
    assert_eq!(first, second);
}
