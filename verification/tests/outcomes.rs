//! Classification of responses: success range, failure range, transport
//! failures, and the decimal rendering the form fields use.

use shodan::numeral::{decimal_string, u32_string};
use shodan::outcome::{classify, complete};
use shodan::ShodanError;

#[test]
fn status_200_is_success_with_exact_body() {
    let r = classify(200, String::from("{\"ip\":\"8.8.8.8\"}"));
    match r {
        Ok(body) => assert_eq!(body, "{\"ip\":\"8.8.8.8\"}"),
        Err(_) => panic!("a success status must classify as success"),
    }
}

#[test]
fn status_299_is_success_and_300_is_not() {
    match classify(299, String::from("edge")) {
        Ok(body) => assert_eq!(body, "edge"),
        Err(_) => panic!("status 299 is still in the success range"),
    }
    match classify(300, String::from("edge")) {
        Ok(_) => panic!("status 300 is outside the success range"),
        Err(ShodanError::Api(body)) => assert_eq!(body, "edge"),
        Err(ShodanError::Transport(_)) => panic!("a completed exchange is never a transport failure"),
    }
}

#[test]
fn status_199_is_failure() {
    match classify(199, String::from("early")) {
        Err(ShodanError::Api(body)) => assert_eq!(body, "early"),
        _ => panic!("status 199 is outside the success range"),
    }
}

#[test]
fn status_404_is_failure_with_exact_body() {
    let r = classify(404, String::from("{\"error\":\"no information\"}"));
    match r {
        Err(ShodanError::Api(body)) => assert_eq!(body, "{\"error\":\"no information\"}"),
        _ => panic!("a failure status must classify as an Api failure"),
    }
}

#[test]
fn completed_exchange_keeps_body_exactly() {
    match complete(Ok((201, String::from("created")))) {
        Ok(body) => assert_eq!(body, "created"),
        Err(_) => panic!("status 201 is in the success range"),
    }
    match complete(Ok((500, String::from("oops")))) {
        Err(ShodanError::Api(body)) => assert_eq!(body, "oops"),
        _ => panic!("status 500 is outside the success range"),
    }
}

#[test]
fn transport_failure_surfaces_as_transport_error() {
    match complete(Err(String::from("connection refused"))) {
        Err(ShodanError::Transport(message)) => assert_eq!(message, "connection refused"),
        _ => panic!("a transport failure must surface as a Transport error"),
    }
}

#[test]
fn decimal_rendering_exact_values() {
    assert_eq!(decimal_string(0), "0");
    assert_eq!(decimal_string(7), "7");
    assert_eq!(decimal_string(10), "10");
    assert_eq!(decimal_string(443), "443");
    assert_eq!(decimal_string(65535), "65535");
    assert_eq!(decimal_string(2147483647), "2147483647");
    assert_eq!(decimal_string(-1), "-1");
    assert_eq!(decimal_string(-2147483648), "-2147483648");
    assert_eq!(u32_string(4294967295), "4294967295");
}
