use shlonk::http::{get_url, index, not_found, read_url, status_code};
use shlonk::mapping::{Redirection, Url};
use shlonk::registry::{Registry, RegistryError};

fn post(registry: &mut Registry, name: &str, token: &str, target: &str, permanent: bool) -> u16 {
    status_code(registry.insert(
        name.to_string(),
        Url::new(target.to_string(), permanent),
        Some(token),
    ))
}

fn put(registry: &mut Registry, name: &str, token: &str, target: &str, permanent: bool) -> u16 {
    status_code(registry.update(name, Url::new(target.to_string(), permanent), Some(token)))
}

fn delete(registry: &mut Registry, name: &str, token: &str) -> u16 {
    status_code(registry.delete(name, Some(token)))
}

#[test]
fn scenario_add_modify_delete() {
    let mut registry = Registry::new(8080, Some("abc".to_string()));

    assert_eq!(post(&mut registry, "foo", "abc", "https://x.test", false), 200);
    assert_eq!(
        get_url("foo", &registry),
        Some(Redirection { status: 302, location: "https://x.test".to_string() })
    );

    assert_eq!(post(&mut registry, "foo", "abc", "https://x.test", false), 409);

    assert_eq!(put(&mut registry, "foo", "abc", "https://y.test", true), 200);
    assert_eq!(
        get_url("foo", &registry),
        Some(Redirection { status: 301, location: "https://y.test".to_string() })
    );

    assert_eq!(delete(&mut registry, "foo", "wrong"), 401);
    assert_eq!(
        get_url("foo", &registry),
        Some(Redirection { status: 301, location: "https://y.test".to_string() })
    );

    assert_eq!(delete(&mut registry, "foo", "abc"), 200);
    assert_eq!(get_url("foo", &registry), None);
}

#[test]
fn front_page_text() {
    assert_eq!(
        index(),
        "Welcome to Shlonk, a simple, fast, URL shortener.\n\
         There is nothing to see here, please go to /<name> to get redirected to the URL you want.\n\
         If you are the owner of this Shlonk instance, edit the YAML file to add new URLs.\n"
    );
}

#[test]
fn not_found_text() {
    assert_eq!(not_found(), "Sorry, this URL was not found.");
}

#[test]
fn get_url_of_unknown_name_is_nothing() {
    let registry = Registry::new(8080, None);
    assert_eq!(get_url("nothing", &registry), None);
}

#[test]
fn read_url_needs_no_credential() {
    let mut registry = Registry::new(8080, Some("abc".to_string()));
    assert_eq!(post(&mut registry, "foo", "abc", "https://x.test", true), 200);
    assert_eq!(read_url("foo", None, &registry), Ok("https://x.test".to_string()));
    assert_eq!(read_url("foo", Some("wrong"), &registry), Ok("https://x.test".to_string()));
    assert_eq!(read_url("foo", Some("abc"), &registry), Ok("https://x.test".to_string()));
    assert_eq!(read_url("bar", Some("abc"), &registry), Err(RegistryError::NotFound));
}

#[test]
fn status_codes() {
    assert_eq!(status_code(Ok(())), 200);
    assert_eq!(status_code(Err(RegistryError::Unauthorized)), 401);
    assert_eq!(status_code(Err(RegistryError::NotFound)), 404);
    assert_eq!(status_code(Err(RegistryError::Conflict)), 409);
    assert_eq!(status_code(Err(RegistryError::Internal)), 500);
}
