//! Building transport-ready requests from descriptors, and the parameter
//! bundle convenience.

use vstd::prelude::Seq;
use wrapi::parameters::Parameters;
use wrapi::request::{Decode, Request};
use wrapi::wire::Method;

struct Ack;

impl Decode for Ack {
    // Ghost item of the trait; never run.
    fn decode_spec(_: Seq<u8>) -> Option<Ack> {
        unreachable!()
    }

    fn decode(_bytes: &[u8]) -> Result<Ack, String> {
        Ok(Ack)
    }
}

/// A descriptor exercising every optional attribute.
struct Loaded;

impl Request<Ack> for Loaded {
    // Ghost items of the trait; never run.
    fn endpoint_spec(&self) -> Seq<char> {
        unreachable!()
    }

    fn method_spec(&self) -> Method {
        unreachable!()
    }

    fn json_spec(&self) -> Seq<u8> {
        unreachable!()
    }

    fn endpoint(&self) -> String {
        String::from("things/7")
    }

    fn method(&self) -> Method {
        Method::Put
    }

    fn headers(&self) -> Option<Vec<(String, String)>> {
        Some(vec![(String::from("x-trace"), String::from("abc"))])
    }

    fn query(&self) -> Option<Vec<(String, String)>> {
        Some(vec![
            (String::from("page"), String::from("2")),
            (String::from("sort"), String::from("asc")),
        ])
    }

    fn form(&self) -> Option<Vec<(String, String)>> {
        Some(vec![(String::from("field"), String::from("value"))])
    }

    fn bearer(&self) -> Option<String> {
        Some(String::from("token-123"))
    }

    fn basic_auth(&self) -> Option<(String, Option<String>)> {
        Some((String::from("user"), Some(String::from("pass"))))
    }

    fn to_json(&self) -> Vec<u8> {
        b"{}".to_vec()
    }

    fn body(&self) -> Option<Vec<u8>> {
        Some(self.to_json())
    }
}

/// A bodiless fetch: the default body (the descriptor's own encoding) is
/// overridden to be absent.
struct Fetch;

impl Request<Ack> for Fetch {
    // Ghost items of the trait; never run.
    fn endpoint_spec(&self) -> Seq<char> {
        unreachable!()
    }

    fn method_spec(&self) -> Method {
        unreachable!()
    }

    fn json_spec(&self) -> Seq<u8> {
        unreachable!()
    }

    fn endpoint(&self) -> String {
        String::from("things")
    }

    fn method(&self) -> Method {
        Method::Get
    }

    fn headers(&self) -> Option<Vec<(String, String)>> {
        None
    }

    fn query(&self) -> Option<Vec<(String, String)>> {
        None
    }

    fn form(&self) -> Option<Vec<(String, String)>> {
        None
    }

    fn bearer(&self) -> Option<String> {
        None
    }

    fn basic_auth(&self) -> Option<(String, Option<String>)> {
        None
    }

    fn to_json(&self) -> Vec<u8> {
        b"{}".to_vec()
    }

    fn body(&self) -> Option<Vec<u8>> {
        None
    }
}

#[test]
fn build_applies_every_present_attribute() {
    let built = Loaded.build("https://api.example.com");
    assert_eq!(built.method, Method::Put);
    assert_eq!(built.url, "https://api.example.com/things/7");
    assert_eq!(
        built.headers,
        Some(vec![(String::from("x-trace"), String::from("abc"))])
    );
    assert_eq!(
        built.query,
        Some(vec![
            (String::from("page"), String::from("2")),
            (String::from("sort"), String::from("asc")),
        ])
    );
    assert_eq!(
        built.form,
        Some(vec![(String::from("field"), String::from("value"))])
    );
    assert_eq!(built.bearer, Some(String::from("token-123")));
    assert_eq!(
        built.basic_auth,
        Some((String::from("user"), Some(String::from("pass"))))
    );
    assert_eq!(built.body, Some(b"{}".to_vec()));
}

#[test]
fn bodiless_descriptor_builds_no_payload() {
    let built = Fetch.build("https://api.example.com");
    assert_eq!(built.method, Method::Get);
    assert_eq!(built.body, None);
    assert_eq!(built.headers, None);
    assert_eq!(built.query, None);
    assert_eq!(built.form, None);
    assert_eq!(built.bearer, None);
    assert_eq!(built.basic_auth, None);
}

#[test]
fn url_is_base_and_endpoint_joined_with_one_separator() {
    let built = Fetch.build("http://localhost:8080");
    assert_eq!(built.url, "http://localhost:8080/things");
}

#[test]
fn parameters_start_absent_and_keep_what_is_set() {
    let p = Parameters::new();
    assert!(p.headers.is_none());
    assert!(p.query.is_none());
    assert!(p.form.is_none());

    let p = p
        .headers(vec![(String::from("h"), String::from("1"))])
        .query(vec![(String::from("q"), String::from("2"))])
        .form(vec![(String::from("f"), String::from("3"))]);
    assert_eq!(p.headers, Some(vec![(String::from("h"), String::from("1"))]));
    assert_eq!(p.query, Some(vec![(String::from("q"), String::from("2"))]));
    assert_eq!(p.form, Some(vec![(String::from("f"), String::from("3"))]));
}
