use mdcat::resources::{AccessError, Resource};
use mdcat::settings::{Environment, ResourceAccess};

#[test]
fn a_url_is_a_remote_resource() {
    let resource = Resource::from_reference("/base", "HTTP://Example.com");
    assert_eq!(resource, Resource::Remote(String::from("http://example.com/")));
}

#[test]
fn an_absolute_path_is_a_local_file() {
    let resource = Resource::from_reference("/base", "/etc/hosts");
    assert_eq!(resource, Resource::LocalFile(String::from("/etc/hosts")));
}

#[test]
fn a_relative_path_is_joined_to_the_base_directory() {
    let resource = Resource::from_reference("/base/dir", "images/cat.png");
    assert_eq!(resource, Resource::LocalFile(String::from("/base/dir/images/cat.png")));
}

#[test]
fn local_file_takes_the_word_of_the_caller() {
    assert_eq!(
        Resource::local_file("/abs", true, String::from("/base/abs")),
        Resource::LocalFile(String::from("/abs"))
    );
    assert_eq!(
        Resource::local_file("rel", false, String::from("/base/rel")),
        Resource::LocalFile(String::from("/base/rel"))
    );
    assert_eq!(
        Resource::local_file("rel", true, String::from("/base/rel")),
        Resource::LocalFile(String::from("rel"))
    );
}

#[test]
fn a_remote_resource_is_its_own_url() {
    let resource = Resource::Remote(String::from("https://example.com/a"));
    assert_eq!(resource.clone().to_url(), "https://example.com/a");
    assert_eq!(resource.try_to_url(), Some(String::from("https://example.com/a")));
}

#[test]
fn a_local_file_has_a_file_url() {
    let resource = Resource::LocalFile(String::from("/home/reader/my notes.md"));
    assert_eq!(resource.clone().to_url(), "file:///home/reader/my%20notes.md");
    assert_eq!(resource.try_to_url(), Some(String::from("file:///home/reader/my%20notes.md")));
}

#[test]
fn a_path_that_is_no_url_has_none() {
    let resource = Resource::LocalFile(String::from("//[/x"));
    assert_eq!(resource.try_to_url(), None);
}

#[test]
fn resources_show_what_they_hold() {
    assert_eq!(Resource::Remote(String::from("https://example.com/")).as_str(), Some("https://example.com/"));
    assert_eq!(Resource::LocalFile(String::from("/tmp/a")).as_str(), Some("/tmp/a"));
}

#[test]
fn only_local_files_are_read() {
    assert_eq!(Resource::LocalFile(String::from("/tmp/a")).readable_path(), Ok("/tmp/a"));
    assert_eq!(
        Resource::Remote(String::from("https://example.com/")).readable_path(),
        Err(AccessError::RemoteNotAllowed)
    );
}

#[test]
fn references_are_read_against_the_base_url() {
    let environment = Environment {
        hostname: String::from("localhost"),
        base_url: String::from("https://example.net/a/b.html"),
    };
    assert_eq!(
        environment.resolve_reference("c.png"),
        Some(String::from("https://example.net/a/c.png"))
    );
    assert_eq!(
        environment.resolve_reference("http://eve.com/b"),
        Some(String::from("http://eve.com/b"))
    );
    assert_eq!(environment.resolve_reference("http://[::1"), None);
}

#[test]
fn a_base_that_is_no_url_resolves_nothing() {
    let environment = Environment {
        hostname: String::from("localhost"),
        base_url: String::from("not a url"),
    };
    assert_eq!(environment.resolve_reference("c.png"), None);
}

#[test]
fn remote_resources_need_permission() {
    assert!(ResourceAccess::LocalOnly.permits(true));
    assert!(!ResourceAccess::LocalOnly.permits(false));
    assert!(ResourceAccess::RemoteAllowed.permits(true));
    assert!(ResourceAccess::RemoteAllowed.permits(false));
}
