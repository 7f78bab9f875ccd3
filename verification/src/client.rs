//! The API client: a fixed base endpoint, an API key, and one method per
//! endpoint of the service.
//!
//! Every endpoint method is a pure formatter around two dispatch primitives:
//! it builds its request descriptor, hands it to `execute`, and returns the
//! classified outcome unchanged. The builders carry exact contracts, so what
//! each method puts on the wire is pinned down; what comes back depends on
//! the network, and of it the methods promise `exchange_outcome` alone.

use vstd::prelude::*;
use vstd::string::StringExecFns;

use crate::numeral::{dec_str, decimal_string};
use crate::outcome::{complete, completes, exchange_outcome, ShodanError};
use crate::request::{
    honeyscore_url, host_info_url, internet_url, protocols_url, query_for_scan_url,
    resolve_dns_url, reverse_dns_url, scan_dns_url, scan_query, scan_status_url, scan_url,
    search_url, search_with_facets_url, HttpMethod, Request,
};
use crate::transport::{http_get, http_post};

verus! {

/// The base endpoint that `new` configures.
pub open spec fn default_base_url() -> Seq<char> {
    "https://api.shodan.io"@
}

/// A client of the Shodan REST API: the base endpoint it addresses and the
/// API key it attaches to every request. Both are set at construction and
/// never change.
pub struct ShodanClient {
    api_key: String,
    base_url: String,
}

impl ShodanClient {
    /// The API key this client attaches to every request.
    pub closed spec fn key(&self) -> Seq<char> {
        self.api_key@
    }

    /// The base endpoint this client addresses.
    pub closed spec fn base(&self) -> Seq<char> {
        self.base_url@
    }

    /// Creates a client for the public API endpoint. The key is stored
    /// verbatim; nothing is validated — a malformed key simply has the
    /// remote service reject the calls.
    pub fn new(api_key: &str) -> (client: ShodanClient)
        ensures
            client.key() == api_key@,
            client.base() == default_base_url(),
    {
        ShodanClient {
            api_key: String::from_str(api_key),
            base_url: String::from_str("https://api.shodan.io"),
        }
    }

    /// Creates a client that addresses another base endpoint, as a test
    /// harness does with a local server standing in for the service.
    pub fn with_base_url(api_key: &str, base_url: &str) -> (client: ShodanClient)
        ensures
            client.key() == api_key@,
            client.base() == base_url@,
    {
        ShodanClient {
            api_key: String::from_str(api_key),
            base_url: String::from_str(base_url),
        }
    }

    /// GET dispatch: one exchange, then classification.
    fn get(&self, url: String) -> (r: Result<String, ShodanError>)
        ensures
            exchange_outcome(r),
    {
        let outcome = http_get(url.as_str());
        let r = complete(outcome);
        proof {
            assert(exchange_outcome(r)) by {
                assert(completes(outcome, r));
            }
        }
        r
    }

    /// POST dispatch: one exchange with a form body, then classification.
    fn post(&self, url: String, params: Vec<(String, String)>) -> (r: Result<
        String,
        ShodanError,
    >)
        ensures
            exchange_outcome(r),
    {
        let outcome = http_post(url.as_str(), &params);
        let r = complete(outcome);
        proof {
            assert(exchange_outcome(r)) by {
                assert(completes(outcome, r));
            }
        }
        r
    }

    /// Performs one built request through the matching dispatch primitive.
    fn execute(&self, request: Request) -> (r: Result<String, ShodanError>)
        ensures
            exchange_outcome(r),
    {
        match request.method {
            HttpMethod::Get => self.get(request.url),
            HttpMethod::Post => self.post(request.url, request.params),
        }
    }

    /// The request that `host_info` performs.
    pub fn host_info_request(&self, ip_address: &str) -> (r: Request)
        ensures
            r.method == HttpMethod::Get,
            r.url@ == host_info_url(self.base(), self.key(), ip_address@),
            r.params@.len() == 0,
    {
        let url = self.base_url.clone().concat("/shodan/host/").concat(ip_address).concat(
            "?key=",
        ).concat(self.api_key.as_str());
        Request { method: HttpMethod::Get, url, params: Vec::new() }
    }

    /// Method for `/shodan/host/{ip}`: all information of one host.
    pub fn host_info(&self, ip_address: &str) -> (r: Result<String, ShodanError>)
        ensures
            exchange_outcome(r),
    {
        let request = self.host_info_request(ip_address);
        self.execute(request)
    }

    /// The request that `search` performs.
    pub fn search_request(&self, query: &str) -> (r: Request)
        ensures
            r.method == HttpMethod::Get,
            r.url@ == search_url(self.base(), self.key(), query@),
            r.params@.len() == 0,
    {
        let url = self.base_url.clone().concat("/shodan/host/search?key=").concat(
            self.api_key.as_str(),
        ).concat("&query=").concat(query);
        Request { method: HttpMethod::Get, url, params: Vec::new() }
    }

    /// Method for `/shodan/host/search`, no facets.
    pub fn search(&self, query: &str) -> (r: Result<String, ShodanError>)
        ensures
            exchange_outcome(r),
    {
        let request = self.search_request(query);
        self.execute(request)
    }

    /// The request that `search_with_facets` performs.
    pub fn search_with_facets_request(&self, query: &str, facets: &str) -> (r: Request)
        ensures
            r.method == HttpMethod::Get,
            r.url@ == search_with_facets_url(self.base(), self.key(), query@, facets@),
            r.params@.len() == 0,
    {
        let url = self.base_url.clone().concat("/shodan/host/search?key=").concat(
            self.api_key.as_str(),
        ).concat("&query=").concat(query).concat("&facets=").concat(facets);
        Request { method: HttpMethod::Get, url, params: Vec::new() }
    }

    /// Method for `/shodan/host/search`, with facets.
    pub fn search_with_facets(&self, query: &str, facets: &str) -> (r: Result<
        String,
        ShodanError,
    >)
        ensures
            exchange_outcome(r),
    {
        let request = self.search_with_facets_request(query, facets);
        self.execute(request)
    }

    /// The request that `honeyscore` performs.
    pub fn honeyscore_request(&self, ip_address: &str) -> (r: Request)
        ensures
            r.method == HttpMethod::Get,
            r.url@ == honeyscore_url(self.base(), self.key(), ip_address@),
            r.params@.len() == 0,
    {
        let url = self.base_url.clone().concat("/labs/honeyscore/").concat(ip_address).concat(
            "?key=",
        ).concat(self.api_key.as_str());
        Request { method: HttpMethod::Get, url, params: Vec::new() }
    }

    /// Method for `/labs/honeyscore/{ip}`: how likely a host is a honeypot.
    pub fn honeyscore(&self, ip_address: &str) -> (r: Result<String, ShodanError>)
        ensures
            exchange_outcome(r),
    {
        let request = self.honeyscore_request(ip_address);
        self.execute(request)
    }

    /// The request that `protocols` performs.
    pub fn protocols_request(&self) -> (r: Request)
        ensures
            r.method == HttpMethod::Get,
            r.url@ == protocols_url(self.base(), self.key()),
            r.params@.len() == 0,
    {
        let url = self.base_url.clone().concat("/shodan/protocols?key=").concat(
            self.api_key.as_str(),
        );
        Request { method: HttpMethod::Get, url, params: Vec::new() }
    }

    /// Method for `/shodan/protocols`: the protocols scans can use.
    pub fn protocols(&self) -> (r: Result<String, ShodanError>)
        ensures
            exchange_outcome(r),
    {
        let request = self.protocols_request();
        self.execute(request)
    }

    /// The request that `scan` performs: the addresses travel as the form
    /// field `ip`, verbatim.
    pub fn scan_request(&self, ip_addresses: &str) -> (r: Request)
        ensures
            r.method == HttpMethod::Post,
            r.url@ == scan_url(self.base(), self.key()),
            r.params@.len() == 1,
            r.params@[0].0@ == "ip"@,
            r.params@[0].1@ == ip_addresses@,
    {
        let url = self.base_url.clone().concat("/shodan/scan?key=").concat(self.api_key.as_str());
        let mut params: Vec<(String, String)> = Vec::new();
        params.push((String::from_str("ip"), String::from_str(ip_addresses)));
        Request { method: HttpMethod::Post, url, params }
    }

    /// Method for `/shodan/scan`: submits a scan of the given addresses,
    /// comma-joined in one string.
    pub fn scan(&self, ip_addresses: &str) -> (r: Result<String, ShodanError>)
        ensures
            exchange_outcome(r),
    {
        let request = self.scan_request(ip_addresses);
        self.execute(request)
    }

    /// The request that `scan_status` performs.
    pub fn scan_status_request(&self, id: &str) -> (r: Request)
        ensures
            r.method == HttpMethod::Get,
            r.url@ == scan_status_url(self.base(), self.key(), id@),
            r.params@.len() == 0,
    {
        let url = self.base_url.clone().concat("/shodan/scan/").concat(id).concat("?key=").concat(
            self.api_key.as_str(),
        );
        Request { method: HttpMethod::Get, url, params: Vec::new() }
    }

    /// Method for `/shodan/scan/{id}`: the status of one submitted scan.
    pub fn scan_status(&self, id: &str) -> (r: Result<String, ShodanError>)
        ensures
            exchange_outcome(r),
    {
        let request = self.scan_status_request(id);
        self.execute(request)
    }

    /// The request that `query_for_scan` performs: exactly the request of
    /// `search` on the query `scan:{id}`.
    pub fn query_for_scan_request(&self, id: &str) -> (r: Request)
        ensures
            r.method == HttpMethod::Get,
            r.url@ == query_for_scan_url(self.base(), self.key(), id@),
            r.params@.len() == 0,
    {
        let query = String::from_str("scan:").concat(id);
        proof {
            assert(query@ == scan_query(id@));
        }
        self.search_request(query.as_str())
    }

    /// Method for the results of one scan: delegates to `search` with the
    /// query `scan:{id}`.
    pub fn query_for_scan(&self, id: &str) -> (r: Result<String, ShodanError>)
        ensures
            exchange_outcome(r),
    {
        let query = String::from_str("scan:").concat(id);
        self.search(query.as_str())
    }

    /// The request that `internet` performs: the port, rendered in decimal,
    /// travels as the form field `port`, the protocol name as `protocol`.
    pub fn internet_request(&self, port: i32, protocol: &str) -> (r: Request)
        ensures
            r.method == HttpMethod::Post,
            r.url@ == internet_url(self.base(), self.key()),
            r.params@.len() == 2,
            r.params@[0].0@ == "port"@,
            r.params@[0].1@ == dec_str(port as int),
            r.params@[1].0@ == "protocol"@,
            r.params@[1].1@ == protocol@,
    {
        let url = self.base_url.clone().concat("/shodan/scan/internet?key=").concat(
            self.api_key.as_str(),
        );
        let mut params: Vec<(String, String)> = Vec::new();
        params.push((String::from_str("port"), decimal_string(port)));
        params.push((String::from_str("protocol"), String::from_str(protocol)));
        Request { method: HttpMethod::Post, url, params }
    }

    /// Method for `/shodan/scan/internet`: submits an internet-wide scan of
    /// one port under one protocol.
    pub fn internet(&self, port: i32, protocol: &str) -> (r: Result<String, ShodanError>)
        ensures
            exchange_outcome(r),
    {
        let request = self.internet_request(port, protocol);
        self.execute(request)
    }

    /// The request that `scan_dns` performs.
    pub fn scan_dns_request(&self, domain: &str) -> (r: Request)
        ensures
            r.method == HttpMethod::Get,
            r.url@ == scan_dns_url(self.base(), self.key(), domain@),
            r.params@.len() == 0,
    {
        let url = self.base_url.clone().concat("/dns/domain/").concat(domain).concat(
            "?key=",
        ).concat(self.api_key.as_str());
        Request { method: HttpMethod::Get, url, params: Vec::new() }
    }

    /// Method for `/dns/domain/{domain}`: the DNS information of one domain.
    pub fn scan_dns(&self, domain: &str) -> (r: Result<String, ShodanError>)
        ensures
            exchange_outcome(r),
    {
        let request = self.scan_dns_request(domain);
        self.execute(request)
    }

    /// The request that `resolve_dns` performs.
    pub fn resolve_dns_request(&self, hostnames: &str) -> (r: Request)
        ensures
            r.method == HttpMethod::Get,
            r.url@ == resolve_dns_url(self.base(), self.key(), hostnames@),
            r.params@.len() == 0,
    {
        let url = self.base_url.clone().concat("/dns/resolve?hostnames=").concat(hostnames).concat(
            "&key=",
        ).concat(self.api_key.as_str());
        Request { method: HttpMethod::Get, url, params: Vec::new() }
    }

    /// Method for `/dns/resolve`: resolves comma-joined hostnames.
    pub fn resolve_dns(&self, hostnames: &str) -> (r: Result<String, ShodanError>)
        ensures
            exchange_outcome(r),
    {
        let request = self.resolve_dns_request(hostnames);
        self.execute(request)
    }

    /// The request that `reverse_dns` performs.
    pub fn reverse_dns_request(&self, ips: &str) -> (r: Request)
        ensures
            r.method == HttpMethod::Get,
            r.url@ == reverse_dns_url(self.base(), self.key(), ips@),
            r.params@.len() == 0,
    {
        let url = self.base_url.clone().concat("/dns/reverse?ips=").concat(ips).concat(
            "&key=",
        ).concat(self.api_key.as_str());
        Request { method: HttpMethod::Get, url, params: Vec::new() }
    }

    /// Method for `/dns/reverse`: the hostnames of comma-joined addresses.
    pub fn reverse_dns(&self, ips: &str) -> (r: Result<String, ShodanError>)
        ensures
            exchange_outcome(r),
    {
        let request = self.reverse_dns_request(ips);
        self.execute(request)
    }
}

} // verus!
