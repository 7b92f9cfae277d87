use zoubida::registry::Registry;
use zoubida::registry::rsync_source;

#[test]
fn new_registry_starts_quiet() {
    let mut registry = Registry::new("deploy", "braindead.fr", "/var/www");
    assert!(!registry.debug);
    registry.debug = true;
    assert!(registry.debug);
}

#[test]
fn ssh_and_rsync_targets() {
    let registry = Registry::new("deploy", "braindead.fr", "/var/www");
    assert_eq!(registry.ssh_target(), "deploy@braindead.fr");
    assert_eq!(
        registry.remote_target("leiko"),
        "deploy@braindead.fr:/var/www/leiko"
    );
    assert_eq!(rsync_source("/home/me/site"), "/home/me/site/");
}

#[test]
fn published_url_names_the_site() {
    let registry = Registry::new("deploy", "braindead.fr", "/var/www");
    assert_eq!(registry.published_url("leiko"), "http://leiko.braindead.fr");
}

#[test]
fn remote_commands() {
    let registry = Registry::new("deploy", "braindead.fr", "/var/www");
    assert_eq!(
        registry.delete_command("leiko"),
        "rm -rf /var/www/leiko; certbot -n delete --cert-name leiko.braindead.fr"
    );
    assert_eq!(registry.list_command(), "ls /var/www");
}
