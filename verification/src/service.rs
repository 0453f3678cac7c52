//! The request-expansion side of the execution engine: materializing one URL
//! per sub-request from an operation descriptor, planning a whole batch up
//! front, and classifying each sub-request's outcome.

use vstd::prelude::*;
use vstd::string::*;
use crate::endpoints::{ApiDetails, Args, ArgsView, HttpMethod};
use crate::session::{spec_token_valid, Session};
use crate::text::{replace_all, spec_decimal, spec_replace, u32_to_decimal};

verus! {

/// Number of sub-requests a descriptor expands to: one per identifier, or a
/// single request otherwise.
pub open spec fn spec_number_of_commands(d: ApiDetails) -> nat {
    match d.args@ {
        ArgsView::NoArgs => 1,
        ArgsView::Strings(_) => 1,
        ArgsView::Ids(ids) => ids.len(),
    }
}

/// `s` after the substitutions in `pairs`, applied first to last.
pub open spec fn spec_apply_pairs(s: Seq<char>, pairs: Seq<(Seq<char>, Seq<char>)>) -> Seq<char>
    decreases pairs.len(),
{
    if pairs.len() == 0 {
        s
    } else {
        spec_apply_pairs(spec_replace(s, pairs[0].0, pairs[0].1), pairs.skip(1))
    }
}

/// Every placeholder name in a substitution list is non-empty.
pub open spec fn spec_pairs_wf(pairs: Seq<(Seq<char>, Seq<char>)>) -> bool {
    forall|i: int| 0 <= i < pairs.len() ==> (#[trigger] pairs[i]).0.len() > 0
}

/// Every placeholder name in a substitution payload is non-empty.
pub open spec fn spec_args_wf(a: ArgsView) -> bool {
    match a {
        ArgsView::Strings(pairs) => spec_pairs_wf(pairs),
        _ => true,
    }
}

/// The URL of the `k`-th sub-request: the address and the template, with the
/// `k`-th identifier or the fixed substitutions filled in.
pub open spec fn spec_url_at(address: Seq<char>, d: ApiDetails, k: int) -> Seq<char> {
    let base = address + d.endpoint.url@;
    match d.args@ {
        ArgsView::NoArgs => base,
        ArgsView::Strings(pairs) => spec_apply_pairs(base, pairs),
        ArgsView::Ids(ids) => spec_replace(base, "{id}"@, spec_decimal(ids[k] as nat)),
    }
}

/// Law: a descriptor without arguments yields exactly one sub-request whose
/// URL is the address followed by the template, unmodified.
pub proof fn lemma_no_args_single_url(address: Seq<char>, d: ApiDetails)
    requires
        d.args@ is NoArgs,
    ensures
        spec_number_of_commands(d) == 1,
        spec_url_at(address, d, 0) == address + d.endpoint.url@,
{
}

/// Law: an identifier-list descriptor yields one sub-request per identifier,
/// the `k`-th URL substituting the `k`-th identifier, in order.
pub proof fn lemma_ids_urls(address: Seq<char>, d: ApiDetails, k: int)
    requires
        d.args@ matches ArgsView::Ids(ids) && 0 <= k < ids.len(),
    ensures
        spec_number_of_commands(d) == d.args@->Ids_0.len(),
        spec_url_at(address, d, k) == spec_replace(
            address + d.endpoint.url@,
            "{id}"@,
            spec_decimal(d.args@->Ids_0[k] as nat),
        ),
{
}

/// Finite generator of the batch's URLs: one per call, in ascending index
/// order, then nothing.
pub struct UrlBuilder {
    pub address: String,
    pub api_details: ApiDetails,
    pub arg_index: usize,
}

impl UrlBuilder {
    /// A generator positioned at the first sub-request.
    pub fn new(address: String, api_details: ApiDetails) -> (r: UrlBuilder)
        ensures
            r.address == address,
            r.api_details == api_details,
            r.arg_index == 0,
    {
        UrlBuilder { address, api_details, arg_index: 0 }
    }

    /// How many sub-requests this descriptor expands to.
    pub fn number_of_commands(&self) -> (r: u32)
        requires
            spec_number_of_commands(self.api_details) <= u32::MAX,
        ensures
            r == spec_number_of_commands(self.api_details),
    {
        match &self.api_details.args {
            Args::NoArgs => 1,
            Args::Strings(_) => 1,
            Args::Ids(ids) => ids.len() as u32,
        }
    }

    /// The next URL of the batch, or `None` once the batch is exhausted.
    pub fn next(&mut self) -> (r: Option<String>)
        requires
            spec_args_wf(old(self).api_details.args@),
        ensures
            final(self).address == old(self).address,
            final(self).api_details == old(self).api_details,
            old(self).arg_index < spec_number_of_commands(old(self).api_details) ==> {
                &&& r matches Some(url) && url@ == spec_url_at(
                    old(self).address@,
                    old(self).api_details,
                    old(self).arg_index as int,
                )
                &&& final(self).arg_index == old(self).arg_index + 1
            },
            old(self).arg_index >= spec_number_of_commands(old(self).api_details) ==> r is None
                && final(self).arg_index == old(self).arg_index,
    {
        let ghost d = self.api_details;
        match &self.api_details.args {
            Args::NoArgs => {
                if self.arg_index == 0 {
                    self.arg_index = 1;
                    let mut url = self.address.clone();
                    url.append(self.api_details.endpoint.url);
                    Some(url)
                } else {
                    None
                }
            },
            Args::Strings(pairs) => {
                if self.arg_index == 0 {
                    self.arg_index = 1;
                    let mut url = self.address.clone();
                    url.append(self.api_details.endpoint.url);
                    let ghost base = url@;
                    let ghost pview = pairs.deep_view();
                    let mut i: usize = 0;
                    proof {
                        assert(pview.skip(0) =~= pview);
                    }
                    while i < pairs.len()
                        invariant
                            i <= pairs.len(),
                            pview == pairs.deep_view(),
                            spec_pairs_wf(pview),
                            spec_apply_pairs(url@, pview.skip(i as int)) == spec_apply_pairs(
                                base,
                                pview,
                            ),
                        decreases pairs.len() - i,
                    {
                        proof {
                            let rest = pview.skip(i as int);
                            assert(rest[0] == pview[i as int]);
                            assert(rest.skip(1) =~= pview.skip(i + 1));
                            assert(pairs.deep_view()[i as int] == (
                                pairs@[i as int].0@,
                                pairs@[i as int].1@,
                            ));
                            assert(pview[i as int].0.len() > 0);
                        }
                        url = replace_all(
                            url.as_str(),
                            pairs[i].0.as_str(),
                            pairs[i].1.as_str(),
                        );
                        i += 1;
                    }
                    proof {
                        assert(pview.skip(pview.len() as int) =~= Seq::<
                            (Seq<char>, Seq<char>),
                        >::empty());
                    }
                    Some(url)
                } else {
                    None
                }
            },
            Args::Ids(ids) => {
                if self.arg_index < ids.len() {
                    let mut url = self.address.clone();
                    url.append(self.api_details.endpoint.url);
                    let digits = u32_to_decimal(ids[self.arg_index]);
                    proof {
                        reveal_strlit("{id}");
                    }
                    let out = replace_all(url.as_str(), "{id}", digits.as_str());
                    self.arg_index = self.arg_index + 1;
                    Some(out)
                } else {
                    None
                }
            },
        }
    }
}

/// The accept header of a batch: JSON when asked for, XML otherwise.
pub open spec fn spec_accept(json: bool) -> Seq<char> {
    if json {
        "application/json"@
    } else {
        "application/xml"@
    }
}

/// The accept header value for a batch.
pub fn accept_type(json: bool) -> (r: String)
    ensures
        r@ == spec_accept(json),
{
    if json {
        "application/json".to_owned()
    } else {
        "application/xml".to_owned()
    }
}

/// One concrete sub-request, ready to dispatch.
#[derive(Debug)]
pub struct SubRequest {
    pub url: String,
    pub method: HttpMethod,
    pub accept: String,
}

/// Materializes the whole batch up front: one sub-request per index, in
/// ascending index order, each carrying the descriptor's method and the
/// batch's accept header.
pub fn plan_sub_requests(address: String, details: ApiDetails, json: bool) -> (r: Vec<SubRequest>)
    requires
        spec_args_wf(details.args@),
    ensures
        r@.len() == spec_number_of_commands(details),
        forall|k: int| 0 <= k < r@.len() ==> {
            &&& (#[trigger] r@[k]).url@ == spec_url_at(address@, details, k)
            &&& r@[k].method == details.endpoint.method
            &&& r@[k].accept@ == spec_accept(json)
        },
{
    let ghost d = details;
    let ghost a = address@;
    let method = details.endpoint.method;
    let total: usize = match &details.args {
        Args::Ids(ids) => ids.len(),
        _ => 1,
    };
    let accept = accept_type(json);
    let mut builder = UrlBuilder::new(address, details);
    let mut out: Vec<SubRequest> = Vec::new();
    let mut i: usize = 0;
    while i < total
        invariant
            i <= total,
            total == spec_number_of_commands(d),
            builder.arg_index == i,
            builder.api_details == d,
            builder.address@ == a,
            method == d.endpoint.method,
            accept@ == spec_accept(json),
            spec_args_wf(d.args@),
            out@.len() == i,
            forall|k: int| 0 <= k < i ==> {
                &&& (#[trigger] out@[k]).url@ == spec_url_at(a, d, k)
                &&& out@[k].method == d.endpoint.method
                &&& out@[k].accept@ == spec_accept(json)
            },
        decreases total - i,
    {
        match builder.next() {
            Some(url) => {
                out.push(SubRequest { url, method, accept: accept.clone() });
            },
            None => {
                proof {
                    assert(false);
                }
            },
        }
        i += 1;
    }
    out
}

/// Pre-flight decision of a batch: authenticate first exactly when the
/// session's token is missing or expired; otherwise dispatch right away.
pub fn needs_authentication(session: &Session, now: u64) -> (r: bool)
    ensures
        r == !spec_token_valid(*session, now),
{
    !session.token_is_valid(now)
}

/// Classifies one sub-request's outcome: a successful status yields the
/// body; any other status yields a failure message naming the status and the
/// request path.
pub fn classify_response(status: u16, path: &str, body: String) -> (r: Result<String, String>)
    ensures
        200 <= status < 300 ==> (r matches Ok(b) && b == body),
        !(200 <= status < 300) ==> (r matches Err(m) && m@ == spec_decimal(status as nat)
            + " for "@ + path@),
{
    if 200 <= status && status < 300 {
        Ok(body)
    } else {
        let mut message = u32_to_decimal(status as u32);
        message.append(" for ");
        message.append(path);
        Err(message)
    }
}

} // verus!
