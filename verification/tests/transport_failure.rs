//! The transport-failure path end to end: a connection that cannot be made
//! must surface as an explicit Transport error, never abort the process.

use shodan::ShodanClient;
use shodan::ShodanError;

#[test]
fn connection_failure_surfaces_as_transport_error() {
    let client = ShodanClient::with_base_url("KEY", "http://127.0.0.1:1");
    let r = client.protocols();
    match r {
        Err(ShodanError::Transport(_)) => {}
        _ => panic!("a failed connection must surface as a Transport error"),
    }
}

#[test]
fn scan_connection_failure_surfaces_as_transport_error() {
    let client = ShodanClient::with_base_url("KEY", "http://127.0.0.1:1");
    let r = client.scan("1.2.3.4");
    match r {
        Err(ShodanError::Transport(_)) => {}
        _ => panic!("a failed POST connection must surface as a Transport error"),
    }
}
