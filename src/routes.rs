use vstd::prelude::*;
use vstd::string::StringExecFns;

use crate::fact_sheet::{texts, RouteObject};

verus! {

/// A route can be smoke-tested without synthesised parameters or bodies:
/// it is a GET and its path holds no parameter.
pub open spec fn is_probe_eligible(r: RouteObject) -> bool {
    r.method@ == "GET"@ && !r.is_route_dynamic
}

/// The routes of `s` that can be smoke-tested, in their original order.
pub open spec fn probe_targets(s: Seq<RouteObject>) -> Seq<RouteObject>
    decreases s.len(),
{
    if s.len() == 0 {
        s
    } else {
        let earlier = probe_targets(s.drop_last());
        if is_probe_eligible(s.last()) {
            earlier.push(s.last())
        } else {
            earlier
        }
    }
}

/// Whether `route` can be smoke-tested.
pub fn route_is_probe_eligible(route: &RouteObject) -> (r: bool)
    ensures
        r == is_probe_eligible(*route),
{
    let get = String::from_str("GET");
    route.method == get && !route.is_route_dynamic
}

/// Keeps the GET routes without path parameters, in their original order.
pub fn filter_probe_routes(routes: Vec<RouteObject>) -> (r: Vec<RouteObject>)
    ensures
        r@ == probe_targets(routes@),
{
    let ghost orig = routes@;
    let mut rest = routes;
    let mut kept: Vec<RouteObject> = Vec::new();
    let n: usize = rest.len();
    let mut i: usize = 0;
    while i < n
        invariant
            n == orig.len(),
            i <= n,
            rest@ == orig.subrange(i as int, n as int),
            kept@ == probe_targets(orig.subrange(0, i as int)),
        decreases n - i,
    {
        let route = rest.remove(0);
        assert(route == orig[i as int]);
        assert(orig.subrange(0, i + 1).drop_last() =~= orig.subrange(0, i as int));
        assert(orig.subrange(0, i + 1).last() == orig[i as int]);
        assert(rest@ =~= orig.subrange(i + 1, n as int));
        if route_is_probe_eligible(&route) {
            kept.push(route);
        }
        i = i + 1;
    }
    assert(orig.subrange(0, n as int) =~= orig);
    kept
}

/// Filtering an already filtered route list changes nothing.
pub proof fn lemma_probe_filter_idempotent(routes: Seq<RouteObject>)
    ensures
        probe_targets(probe_targets(routes)) == probe_targets(routes),
    decreases routes.len(),
{
    if routes.len() > 0 {
        lemma_probe_filter_idempotent(routes.drop_last());
        let inner = probe_targets(routes.drop_last());
        if is_probe_eligible(routes.last()) {
            let pushed = inner.push(routes.last());
            assert(pushed.drop_last() =~= inner);
        }
    }
}

} // verus!

verus! {

/// What a liveness probe of a URL observed.
#[derive(Debug, Clone, Copy, PartialEq, Eq, Structural)]
pub enum ProbeOutcome {
    /// The server answered with this HTTP status.
    Status(u16),
    /// No answer: the connection failed or timed out.
    TransportError,
}

/// A probe answered with a status other than 200. A transport error is no
/// such answer.
pub open spec fn probe_failed(o: ProbeOutcome) -> bool {
    match o {
        ProbeOutcome::Status(code) => code != 200,
        ProbeOutcome::TransportError => false,
    }
}

/// Whether a probe answered with a status other than 200.
pub fn probe_has_failed(o: ProbeOutcome) -> (r: bool)
    ensures
        r == probe_failed(o),
{
    match o {
        ProbeOutcome::Status(code) => code != 200,
        ProbeOutcome::TransportError => false,
    }
}

/// The probe of one external URL.
#[derive(Debug, Clone, PartialEq)]
pub struct UrlProbe {
    pub url: String,
    pub outcome: ProbeOutcome,
}

/// Some probe of `url` answered with a status other than 200.
pub open spec fn is_excluded(probes: Seq<UrlProbe>, url: Seq<char>) -> bool {
    exists|j: int| 0 <= j < probes.len() && probes[j].url@ == url && probe_failed(probes[j].outcome)
}

/// The URLs of `urls` that no probe excluded, in their original order.
pub open spec fn live_urls(urls: Seq<Seq<char>>, probes: Seq<UrlProbe>) -> Seq<Seq<char>>
    decreases urls.len(),
{
    if urls.len() == 0 {
        urls
    } else {
        let earlier = live_urls(urls.drop_last(), probes);
        if is_excluded(probes, urls.last()) {
            earlier
        } else {
            earlier.push(urls.last())
        }
    }
}

/// Whether some probe of `url` answered with a status other than 200.
pub fn url_is_excluded(probes: &Vec<UrlProbe>, url: &String) -> (r: bool)
    ensures
        r == is_excluded(probes@, url@),
{
    let mut j: usize = 0;
    while j < probes.len()
        invariant
            j <= probes@.len(),
            forall|k: int|
                0 <= k < j ==> !(probes@[k].url@ == url@ && probe_failed(probes@[k].outcome)),
        decreases probes@.len() - j,
    {
        if probes[j].url == *url && probe_has_failed(probes[j].outcome) {
            return true;
        }
        j = j + 1;
    }
    false
}

/// Every URL whose probes all succeeded or failed in transport only, in
/// order; a URL that some probe answered with a status other than 200 goes.
pub fn live_url_list(urls: &Vec<String>, probes: &Vec<UrlProbe>) -> (r: Vec<String>)
    ensures
        texts(r@) == live_urls(texts(urls@), probes@),
{
    let ghost all = texts(urls@);
    let mut kept: Vec<String> = Vec::new();
    let mut i: usize = 0;
    while i < urls.len()
        invariant
            i <= urls@.len(),
            all == texts(urls@),
            texts(kept@) == live_urls(all.subrange(0, i as int), probes@),
        decreases urls@.len() - i,
    {
        assert(all.subrange(0, i + 1).drop_last() =~= all.subrange(0, i as int));
        assert(all.subrange(0, i + 1).last() == urls@[i as int]@);
        if !url_is_excluded(probes, &urls[i]) {
            let url = urls[i].clone();
            assert(texts(kept@.push(url)) =~= texts(kept@).push(url@));
            kept.push(url);
        }
        i = i + 1;
    }
    assert(all.subrange(0, urls@.len() as int) =~= all);
    kept
}

} // verus!
