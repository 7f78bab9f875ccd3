//! The exact request each endpoint method builds: URL, method, form fields.

use shodan::request::HttpMethod;
use shodan::ShodanClient;

#[test]
fn host_info_request_url() {
    let client = ShodanClient::new("KEY");
    let r = client.host_info_request("8.8.8.8");
    assert_eq!(r.url, "https://api.shodan.io/shodan/host/8.8.8.8?key=KEY");
    assert_eq!(r.method, HttpMethod::Get);
    assert!(r.params.is_empty());
}

#[test]
fn search_request_url() {
    let client = ShodanClient::new("KEY");
    let r = client.search_request("apache");
    assert_eq!(r.url, "https://api.shodan.io/shodan/host/search?key=KEY&query=apache");
    assert_eq!(r.method, HttpMethod::Get);
    assert!(r.params.is_empty());
}

#[test]
fn search_with_facets_request_url() {
    let client = ShodanClient::new("KEY");
    let r = client.search_with_facets_request("apache", "country");
    assert_eq!(
        r.url,
        "https://api.shodan.io/shodan/host/search?key=KEY&query=apache&facets=country"
    );
    assert_eq!(r.method, HttpMethod::Get);
    assert!(r.params.is_empty());
}

#[test]
fn honeyscore_request_url() {
    let client = ShodanClient::new("KEY");
    let r = client.honeyscore_request("8.8.8.8");
    assert_eq!(r.url, "https://api.shodan.io/labs/honeyscore/8.8.8.8?key=KEY");
    assert_eq!(r.method, HttpMethod::Get);
    assert!(r.params.is_empty());
}

#[test]
fn protocols_request_url() {
    let client = ShodanClient::new("KEY");
    let r = client.protocols_request();
    assert_eq!(r.url, "https://api.shodan.io/shodan/protocols?key=KEY");
    assert_eq!(r.method, HttpMethod::Get);
    assert!(r.params.is_empty());
}

#[test]
fn scan_request_form() {
    let client = ShodanClient::new("KEY");
    let r = client.scan_request("1.2.3.4,5.6.7.8");
    assert_eq!(r.url, "https://api.shodan.io/shodan/scan?key=KEY");
    assert_eq!(r.method, HttpMethod::Post);
    assert_eq!(r.params.len(), 1);
    assert_eq!(r.params[0].0, "ip");
    assert_eq!(r.params[0].1, "1.2.3.4,5.6.7.8");
}

#[test]
fn scan_status_request_url() {
    let client = ShodanClient::new("KEY");
    let r = client.scan_status_request("SCAN-ID");
    assert_eq!(r.url, "https://api.shodan.io/shodan/scan/SCAN-ID?key=KEY");
    assert_eq!(r.method, HttpMethod::Get);
    assert!(r.params.is_empty());
}

#[test]
fn query_for_scan_request_matches_search() {
    let client = ShodanClient::new("KEY");
    let derived = client.query_for_scan_request("SCAN-ID");
    let direct = client.search_request("scan:SCAN-ID");
    assert_eq!(derived.url, direct.url);
    assert_eq!(derived.method, direct.method);
    assert!(derived.params.is_empty());
    assert!(direct.params.is_empty());
}

#[test]
fn internet_request_form() {
    let client = ShodanClient::new("KEY");
    let r = client.internet_request(443, "tcp");
    assert_eq!(r.url, "https://api.shodan.io/shodan/scan/internet?key=KEY");
    assert_eq!(r.method, HttpMethod::Post);
    assert_eq!(r.params.len(), 2);
    assert_eq!(r.params[0].0, "port");
    assert_eq!(r.params[0].1, "443");
    assert_eq!(r.params[1].0, "protocol");
    assert_eq!(r.params[1].1, "tcp");
}

#[test]
fn internet_request_negative_port() {
    let client = ShodanClient::new("KEY");
    let r = client.internet_request(-1, "udp");
    assert_eq!(r.params[0].1, "-1");
    assert_eq!(r.params[1].1, "udp");
}

#[test]
fn scan_dns_request_url() {
    let client = ShodanClient::new("KEY");
    let r = client.scan_dns_request("example.com");
    assert_eq!(r.url, "https://api.shodan.io/dns/domain/example.com?key=KEY");
    assert_eq!(r.method, HttpMethod::Get);
    assert!(r.params.is_empty());
}

#[test]
fn resolve_dns_request_url() {
    let client = ShodanClient::new("KEY");
    let r = client.resolve_dns_request("example.com,example.org");
    assert_eq!(
        r.url,
        "https://api.shodan.io/dns/resolve?hostnames=example.com,example.org&key=KEY"
    );
    assert_eq!(r.method, HttpMethod::Get);
    assert!(r.params.is_empty());
}

#[test]
fn reverse_dns_request_url() {
    let client = ShodanClient::new("KEY");
    let r = client.reverse_dns_request("8.8.8.8,1.1.1.1");
    assert_eq!(r.url, "https://api.shodan.io/dns/reverse?ips=8.8.8.8,1.1.1.1&key=KEY");
    assert_eq!(r.method, HttpMethod::Get);
    assert!(r.params.is_empty());
}

#[test]
fn with_base_url_overrides_endpoint() {
    let client = ShodanClient::with_base_url("KEY", "http://127.0.0.1:8080");
    let r = client.host_info_request("8.8.8.8");
    assert_eq!(r.url, "http://127.0.0.1:8080/shodan/host/8.8.8.8?key=KEY");
}

#[test]
fn empty_key_and_empty_argument_are_accepted_verbatim() {
    let client = ShodanClient::new("");
    let r = client.host_info_request("1.2.3.4");
    assert_eq!(r.url, "https://api.shodan.io/shodan/host/1.2.3.4?key=");
    let s = client.search_request("");
    assert_eq!(s.url, "https://api.shodan.io/shodan/host/search?key=&query=");
}
