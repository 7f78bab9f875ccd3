//! The request descriptor that every endpoint method builds, and the exact
//! URL each endpoint addresses.
//!
//! A GET request carries every parameter, the API key included, in the URL's
//! query string; a POST request carries the API key in the query string and
//! the other parameters as form fields.

use vstd::prelude::*;

verus! {

/// The HTTP method of one request.
#[derive(Clone, Copy, Debug, PartialEq, Eq, Structural)]
pub enum HttpMethod {
    Get,
    Post,
}

/// One request, fully formed: the method, the complete URL, and the form
/// fields (empty for GET requests) in the order they are sent.
#[derive(Debug)]
pub struct Request {
    pub method: HttpMethod,
    pub url: String,
    pub params: Vec<(String, String)>,
}

/// URL of the host-information endpoint.
pub open spec fn host_info_url(base: Seq<char>, key: Seq<char>, ip: Seq<char>) -> Seq<char> {
    base + "/shodan/host/"@ + ip + "?key="@ + key
}

/// URL of the search endpoint, without facets.
pub open spec fn search_url(base: Seq<char>, key: Seq<char>, query: Seq<char>) -> Seq<char> {
    base + "/shodan/host/search?key="@ + key + "&query="@ + query
}

/// URL of the search endpoint, with facets.
pub open spec fn search_with_facets_url(
    base: Seq<char>,
    key: Seq<char>,
    query: Seq<char>,
    facets: Seq<char>,
) -> Seq<char> {
    search_url(base, key, query) + "&facets="@ + facets
}

/// URL of the honeyscore endpoint.
pub open spec fn honeyscore_url(base: Seq<char>, key: Seq<char>, ip: Seq<char>) -> Seq<char> {
    base + "/labs/honeyscore/"@ + ip + "?key="@ + key
}

/// URL of the protocol-list endpoint.
pub open spec fn protocols_url(base: Seq<char>, key: Seq<char>) -> Seq<char> {
    base + "/shodan/protocols?key="@ + key
}

/// URL of the scan-submission endpoint; the addresses travel as a form field.
pub open spec fn scan_url(base: Seq<char>, key: Seq<char>) -> Seq<char> {
    base + "/shodan/scan?key="@ + key
}

/// URL of the scan-status endpoint.
pub open spec fn scan_status_url(base: Seq<char>, key: Seq<char>, id: Seq<char>) -> Seq<char> {
    base + "/shodan/scan/"@ + id + "?key="@ + key
}

/// The search query that asks for the results of one scan.
pub open spec fn scan_query(id: Seq<char>) -> Seq<char> {
    "scan:"@ + id
}

/// URL of the scan-derived search: exactly a search for `scan_query(id)`.
pub open spec fn query_for_scan_url(base: Seq<char>, key: Seq<char>, id: Seq<char>) -> Seq<char> {
    search_url(base, key, scan_query(id))
}

/// URL of the internet-wide scan endpoint; port and protocol travel as form
/// fields.
pub open spec fn internet_url(base: Seq<char>, key: Seq<char>) -> Seq<char> {
    base + "/shodan/scan/internet?key="@ + key
}

/// URL of the DNS domain-information endpoint.
pub open spec fn scan_dns_url(base: Seq<char>, key: Seq<char>, domain: Seq<char>) -> Seq<char> {
    base + "/dns/domain/"@ + domain + "?key="@ + key
}

/// URL of the DNS resolution endpoint.
pub open spec fn resolve_dns_url(
    base: Seq<char>,
    key: Seq<char>,
    hostnames: Seq<char>,
) -> Seq<char> {
    base + "/dns/resolve?hostnames="@ + hostnames + "&key="@ + key
}

/// URL of the reverse-DNS endpoint.
pub open spec fn reverse_dns_url(base: Seq<char>, key: Seq<char>, ips: Seq<char>) -> Seq<char> {
    base + "/dns/reverse?ips="@ + ips + "&key="@ + key
}

} // verus!
