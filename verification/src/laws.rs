//! Properties of the built URLs, stated and proved once: every endpoint's URL
//! carries its fixed path segment, the API key under the `key` parameter, and
//! each caller-supplied argument verbatim; and the scan-derived search is
//! exactly a search.

use vstd::prelude::*;

use crate::request::{
    honeyscore_url, host_info_url, internet_url, protocols_url, query_for_scan_url,
    resolve_dns_url, reverse_dns_url, scan_dns_url, scan_query, scan_status_url, scan_url,
    search_url, search_with_facets_url,
};

verus! {

/// `part` stands somewhere in `whole`, contiguously and unchanged.
pub open spec fn occurs_in(part: Seq<char>, whole: Seq<char>) -> bool {
    exists|i: int|
        0 <= i && i + part.len() <= whole.len() && #[trigger] whole.subrange(
            i,
            i + part.len() as int,
        ) == part
}

/// Whatever stands between a prefix and a suffix occurs in the whole.
pub proof fn lemma_occurs_in_concat(pre: Seq<char>, part: Seq<char>, post: Seq<char>)
    ensures
        occurs_in(part, pre + part + post),
{
    let whole = pre + part + post;
    let i = pre.len() as int;
    assert(whole.subrange(i, i + part.len() as int) =~= part);
}

/// Whatever a sequence ends with occurs in it.
pub proof fn lemma_tail_occurs(pre: Seq<char>, tail: Seq<char>)
    ensures
        occurs_in(tail, pre + tail),
{
    lemma_occurs_in_concat(pre, tail, Seq::<char>::empty());
    assert(pre + tail + Seq::<char>::empty() =~= pre + tail);
}

/// In a URL of the shape `base` + `seg` + `arg` + `?key=` + `key`, the fixed
/// segment, the argument, and the key under the `key` parameter each occur.
pub proof fn lemma_path_url_parts(base: Seq<char>, seg: Seq<char>, arg: Seq<char>, key: Seq<char>)
    ensures
        occurs_in(seg, base + seg + arg + "?key="@ + key),
        occurs_in(arg, base + seg + arg + "?key="@ + key),
        occurs_in("?key="@ + key, base + seg + arg + "?key="@ + key),
{
    let url = base + seg + arg + "?key="@ + key;
    assert(url =~= base + seg + (arg + "?key="@ + key));
    lemma_occurs_in_concat(base, seg, arg + "?key="@ + key);
    assert(url =~= (base + seg) + arg + ("?key="@ + key));
    lemma_occurs_in_concat(base + seg, arg, "?key="@ + key);
    assert(url =~= (base + seg + arg) + ("?key="@ + key));
    lemma_tail_occurs(base + seg + arg, "?key="@ + key);
}

/// The host-information URL carries its path segment, the address, and the
/// key under the `key` parameter.
pub proof fn lemma_host_info_url_parts(base: Seq<char>, key: Seq<char>, ip: Seq<char>)
    ensures
        occurs_in("/shodan/host/"@, host_info_url(base, key, ip)),
        occurs_in(ip, host_info_url(base, key, ip)),
        occurs_in("?key="@ + key, host_info_url(base, key, ip)),
{
    lemma_path_url_parts(base, "/shodan/host/"@, ip, key);
}

/// The search URL carries its path segment with the key under the `key`
/// parameter, and the query verbatim under the `query` parameter.
pub proof fn lemma_search_url_parts(base: Seq<char>, key: Seq<char>, query: Seq<char>)
    ensures
        occurs_in("/shodan/host/search?key="@ + key, search_url(base, key, query)),
        occurs_in("&query="@ + query, search_url(base, key, query)),
        occurs_in(query, search_url(base, key, query)),
{
    let url = search_url(base, key, query);
    assert(url =~= base + ("/shodan/host/search?key="@ + key) + ("&query="@ + query));
    lemma_occurs_in_concat(base, "/shodan/host/search?key="@ + key, "&query="@ + query);
    assert(url =~= (base + "/shodan/host/search?key="@ + key) + ("&query="@ + query));
    lemma_tail_occurs(base + "/shodan/host/search?key="@ + key, "&query="@ + query);
    assert(url =~= (base + "/shodan/host/search?key="@ + key + "&query="@) + query);
    lemma_tail_occurs(base + "/shodan/host/search?key="@ + key + "&query="@, query);
}

/// The faceted search URL carries its path segment with the key under the
/// `key` parameter, and the query and the facets verbatim under their
/// parameters.
pub proof fn lemma_search_with_facets_url_parts(
    base: Seq<char>,
    key: Seq<char>,
    query: Seq<char>,
    facets: Seq<char>,
)
    ensures
        occurs_in(
            "/shodan/host/search?key="@ + key,
            search_with_facets_url(base, key, query, facets),
        ),
        occurs_in("&query="@ + query, search_with_facets_url(base, key, query, facets)),
        occurs_in(query, search_with_facets_url(base, key, query, facets)),
        occurs_in("&facets="@ + facets, search_with_facets_url(base, key, query, facets)),
        occurs_in(facets, search_with_facets_url(base, key, query, facets)),
{
    let url = search_with_facets_url(base, key, query, facets);
    assert(url =~= base + ("/shodan/host/search?key="@ + key) + (
    "&query="@ + query + "&facets="@ + facets));
    lemma_occurs_in_concat(
        base,
        "/shodan/host/search?key="@ + key,
        "&query="@ + query + "&facets="@ + facets,
    );
    assert(url =~= (base + "/shodan/host/search?key="@ + key) + ("&query="@ + query) + (
    "&facets="@ + facets));
    lemma_occurs_in_concat(
        base + "/shodan/host/search?key="@ + key,
        "&query="@ + query,
        "&facets="@ + facets,
    );
    assert(url =~= (base + "/shodan/host/search?key="@ + key + "&query="@) + query + (
    "&facets="@ + facets));
    lemma_occurs_in_concat(
        base + "/shodan/host/search?key="@ + key + "&query="@,
        query,
        "&facets="@ + facets,
    );
    assert(url =~= (search_url(base, key, query)) + ("&facets="@ + facets));
    lemma_tail_occurs(search_url(base, key, query), "&facets="@ + facets);
    assert(url =~= (search_url(base, key, query) + "&facets="@) + facets);
    lemma_tail_occurs(search_url(base, key, query) + "&facets="@, facets);
}

/// The honeyscore URL carries its path segment, the address, and the key
/// under the `key` parameter.
pub proof fn lemma_honeyscore_url_parts(base: Seq<char>, key: Seq<char>, ip: Seq<char>)
    ensures
        occurs_in("/labs/honeyscore/"@, honeyscore_url(base, key, ip)),
        occurs_in(ip, honeyscore_url(base, key, ip)),
        occurs_in("?key="@ + key, honeyscore_url(base, key, ip)),
{
    lemma_path_url_parts(base, "/labs/honeyscore/"@, ip, key);
}

/// The protocol-list URL carries its path segment with the key under the
/// `key` parameter.
pub proof fn lemma_protocols_url_parts(base: Seq<char>, key: Seq<char>)
    ensures
        occurs_in("/shodan/protocols?key="@ + key, protocols_url(base, key)),
{
    let url = protocols_url(base, key);
    assert(url =~= base + ("/shodan/protocols?key="@ + key));
    lemma_tail_occurs(base, "/shodan/protocols?key="@ + key);
}

/// The scan-submission URL carries its path segment with the key under the
/// `key` parameter; the addresses travel in the form body, not the URL.
pub proof fn lemma_scan_url_parts(base: Seq<char>, key: Seq<char>)
    ensures
        occurs_in("/shodan/scan?key="@ + key, scan_url(base, key)),
{
    let url = scan_url(base, key);
    assert(url =~= base + ("/shodan/scan?key="@ + key));
    lemma_tail_occurs(base, "/shodan/scan?key="@ + key);
}

/// The scan-status URL carries its path segment, the scan id, and the key
/// under the `key` parameter.
pub proof fn lemma_scan_status_url_parts(base: Seq<char>, key: Seq<char>, id: Seq<char>)
    ensures
        occurs_in("/shodan/scan/"@, scan_status_url(base, key, id)),
        occurs_in(id, scan_status_url(base, key, id)),
        occurs_in("?key="@ + key, scan_status_url(base, key, id)),
{
    lemma_path_url_parts(base, "/shodan/scan/"@, id, key);
}

/// A scan-derived search addresses exactly the URL that `search` addresses
/// for the query `scan:{id}`; both are GET requests with no form fields, so
/// the two calls issue the same request and share every outcome.
pub proof fn lemma_query_for_scan_matches_search(base: Seq<char>, key: Seq<char>, id: Seq<char>)
    ensures
        query_for_scan_url(base, key, id) == search_url(base, key, scan_query(id)),
{
}

/// The internet-wide scan URL carries its path segment with the key under
/// the `key` parameter; port and protocol travel in the form body.
pub proof fn lemma_internet_url_parts(base: Seq<char>, key: Seq<char>)
    ensures
        occurs_in("/shodan/scan/internet?key="@ + key, internet_url(base, key)),
{
    let url = internet_url(base, key);
    assert(url =~= base + ("/shodan/scan/internet?key="@ + key));
    lemma_tail_occurs(base, "/shodan/scan/internet?key="@ + key);
}

/// The DNS domain-information URL carries its path segment, the domain, and
/// the key under the `key` parameter.
pub proof fn lemma_scan_dns_url_parts(base: Seq<char>, key: Seq<char>, domain: Seq<char>)
    ensures
        occurs_in("/dns/domain/"@, scan_dns_url(base, key, domain)),
        occurs_in(domain, scan_dns_url(base, key, domain)),
        occurs_in("?key="@ + key, scan_dns_url(base, key, domain)),
{
    lemma_path_url_parts(base, "/dns/domain/"@, domain, key);
}

/// The DNS resolution URL carries its path segment, the hostnames verbatim
/// under the `hostnames` parameter, and the key under the `key` parameter.
pub proof fn lemma_resolve_dns_url_parts(base: Seq<char>, key: Seq<char>, hostnames: Seq<char>)
    ensures
        occurs_in("/dns/resolve?hostnames="@ + hostnames, resolve_dns_url(base, key, hostnames)),
        occurs_in(hostnames, resolve_dns_url(base, key, hostnames)),
        occurs_in("&key="@ + key, resolve_dns_url(base, key, hostnames)),
{
    let url = resolve_dns_url(base, key, hostnames);
    assert(url =~= base + ("/dns/resolve?hostnames="@ + hostnames) + ("&key="@ + key));
    lemma_occurs_in_concat(base, "/dns/resolve?hostnames="@ + hostnames, "&key="@ + key);
    assert(url =~= (base + "/dns/resolve?hostnames="@) + hostnames + ("&key="@ + key));
    lemma_occurs_in_concat(base + "/dns/resolve?hostnames="@, hostnames, "&key="@ + key);
    assert(url =~= (base + "/dns/resolve?hostnames="@ + hostnames) + ("&key="@ + key));
    lemma_tail_occurs(base + "/dns/resolve?hostnames="@ + hostnames, "&key="@ + key);
}

/// The reverse-DNS URL carries its path segment, the addresses verbatim
/// under the `ips` parameter, and the key under the `key` parameter.
pub proof fn lemma_reverse_dns_url_parts(base: Seq<char>, key: Seq<char>, ips: Seq<char>)
    ensures
        occurs_in("/dns/reverse?ips="@ + ips, reverse_dns_url(base, key, ips)),
        occurs_in(ips, reverse_dns_url(base, key, ips)),
        occurs_in("&key="@ + key, reverse_dns_url(base, key, ips)),
{
    let url = reverse_dns_url(base, key, ips);
    assert(url =~= base + ("/dns/reverse?ips="@ + ips) + ("&key="@ + key));
    lemma_occurs_in_concat(base, "/dns/reverse?ips="@ + ips, "&key="@ + key);
    assert(url =~= (base + "/dns/reverse?ips="@) + ips + ("&key="@ + key));
    lemma_occurs_in_concat(base + "/dns/reverse?ips="@, ips, "&key="@ + key);
    assert(url =~= (base + "/dns/reverse?ips="@ + ips) + ("&key="@ + key));
    lemma_tail_occurs(base + "/dns/reverse?ips="@ + ips, "&key="@ + key);
}

} // verus!
