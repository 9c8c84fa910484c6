//! Layered configuration and PEM key normalization.

use tagent::config::{
    insert_line_breaks_pub_key, public_key_from_pem, TagentConfig, TagentConfigOverride,
};
use tagent::representations::ErrorKind;

#[test]
fn config_defaults_should_load_first() {
    let defaults = TagentConfig::new(String::from("/home/tester"));
    let merged = TagentConfig::from_sources_with_overrides(
        TagentConfig::new(String::from("/home/tester")),
        TagentConfigOverride::empty(),
        TagentConfigOverride::empty(),
    );
    assert_eq!(merged, defaults);
    assert_eq!(merged.address.as_str(), "127.0.0.1");
    assert_eq!(merged.port, 8080);
    assert_eq!(merged.public_key, None);
    assert_eq!(
        merged.public_key_url.as_str(),
        "https://admin.tapis.io/v3/tenants/admin"
    );
}

#[test]
fn config_should_read_file_if_it_exists() {
    let mut file = TagentConfigOverride::empty();
    file.root_directory = Some(String::from("foo"));
    file.port = Some(12);
    let merged = TagentConfig::from_sources_with_overrides(
        TagentConfig::new(String::from("/home/tester")),
        file,
        TagentConfigOverride::empty(),
    );
    assert_eq!(merged.root_directory.as_str(), "foo");
    assert_eq!(merged.port, 12);
    assert_eq!(merged.address.as_str(), "127.0.0.1");
}

#[test]
fn config_should_read_environment_variables() {
    let mut env = TagentConfigOverride::empty();
    env.root_directory = Some(String::from("bar"));
    env.port = Some(15);
    let merged = TagentConfig::from_sources_with_overrides(
        TagentConfig::new(String::from("/home/tester")),
        TagentConfigOverride::empty(),
        env,
    );
    assert_eq!(merged.root_directory.as_str(), "bar");
    assert_eq!(merged.port, 15);
}

#[test]
fn environment_wins_over_file() {
    let mut file = TagentConfigOverride::empty();
    file.root_directory = Some(String::from("from-file"));
    file.address = Some(String::from("0.0.0.0"));
    let mut env = TagentConfigOverride::empty();
    env.root_directory = Some(String::from("from-env"));
    let merged = TagentConfig::from_sources_with_overrides(
        TagentConfig::new(String::from("/home/tester")),
        file,
        env,
    );
    assert_eq!(merged.root_directory.as_str(), "from-env");
    assert_eq!(merged.address.as_str(), "0.0.0.0");
}

#[test]
fn line_breaks_are_inserted_at_64_characters() {
    let body: String = std::iter::repeat('A').take(70).collect();
    let input = format!("-----BEGIN PUBLIC KEY-----{}-----END PUBLIC KEY-----", body);
    let out = insert_line_breaks_pub_key(&input).unwrap();
    let expected = format!(
        "-----BEGIN PUBLIC KEY-----\n{}\n{}\n-----END PUBLIC KEY-----",
        "A".repeat(64),
        "A".repeat(6)
    );
    assert_eq!(out, expected);
}

#[test]
fn existing_newlines_are_rewritten() {
    let body: String = std::iter::repeat('B').take(64).collect();
    let input = format!(
        "-----BEGIN PUBLIC KEY-----\n{}\n{}\n-----END PUBLIC KEY-----\n",
        &body[..10],
        &body[10..]
    );
    let out = insert_line_breaks_pub_key(&input).unwrap();
    let expected = format!("-----BEGIN PUBLIC KEY-----\n{}\n-----END PUBLIC KEY-----", body);
    assert_eq!(out, expected);
}

#[test]
fn text_without_delimiters_is_rejected() {
    let e = insert_line_breaks_pub_key("no delimiters here").unwrap_err();
    assert_eq!(e.kind, ErrorKind::InputInvalid);
    let e = insert_line_breaks_pub_key("-----ONLY ONE BLOCK-----").unwrap_err();
    assert_eq!(e.kind, ErrorKind::InputInvalid);
}

#[test]
fn get_public_key_from_default_if_provided() {
    let pem = "-----BEGIN PUBLIC KEY-----\nMIIBIjANBgkqhkiG9w0BAQEFAAOCAQ8AMIIBCgKCAQEAneCSAKpfuRxX7DpuBBoYEhIayF6yGppgR3I6jO1cvN0+6gc36wHo3O93bnfNl2cYSmbpp9dtd1T2Uv1t5DCGe+s2bd/VwfO6IgMu2GuHHkQcTqTJb0axIJftqo5lfopSOvyeN5oEo/ti7fw0hCdzArQhcTtkaU4m5spL7+5XUOnFiwPZB+unxGVVQ5rmI9TVW74iNZ4ESlzRTp2VT0sZ6QIIOBZA2kLx+fgg3YQuZpZ4rz6oJ8zyWEik+v14Rm6AUBI1XTyVXDr2KJZpXJ5cVCW/xIua4Z97woKZJ1qk7rL/PrN2iT7/6bM35rVFU3kTvZKfXRPTE8ZWTiWGWAFu+QIDAQAB\n-----END PUBLIC KEY-----";
    let key = public_key_from_pem(pem).unwrap();
    let components = key.to_components();
    assert_eq!(components.n[0], 157);
    assert_eq!(components.e, vec![1, 0, 1]);
}

#[test]
fn version_is_stamped_on_errors() {
    assert_eq!(tagent::tagent_version().as_str(), "0.1.0");
    let err = tagent::representations::TagentError::new_with_version(String::from("boom"));
    assert_eq!(err.version.as_str(), "0.1.0");
    let rsp = err.error_rsp();
    assert_eq!(rsp.status.as_str(), "error");
    assert_eq!(rsp.result.as_str(), "none");
    assert_eq!(rsp.message.as_str(), "boom");
    assert_eq!(rsp.version.as_str(), "0.1.0");
}
