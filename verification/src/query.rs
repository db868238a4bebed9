//! The query feed's request parameters.
//!
//! The feed is a server-side-processing table endpoint: a fetch sends a
//! fixed column layout plus the caller's paging, sorting and filter
//! choices.  `build_fetch_query` produces the exact parameter list; the
//! transport appends it to the list URL.

use vstd::prelude::*;
use vstd::string::*;

use crate::merge::field_pair;
use crate::merge::form_view;
use crate::merge::push_pair;
use crate::text::dec_spec;
use crate::text::dec_u32;

verus! {

/// Parameters for fetching one page of assistance requests.
#[derive(Debug, Clone, PartialEq, Eq)]
pub struct FetchRequestsParams {
    pub display_start: u32,
    pub display_length: u32,
    pub sort_col: u32,
    pub sort_dir: String,
    pub search: String,
    pub filter_by_status: String,
    pub filter_by_partner_conf: String,
    pub filter_by_req_assigned: String,
    pub filter_by_visit_assigned: String,
}

impl FetchRequestsParams {
    /// Parameters for fetching "Open" requests in ascending date order.
    pub fn new_open_asc() -> (r: Self)
        ensures
            r.display_start == 0,
            r.display_length == 100,
            r.sort_col == 3,
            r.sort_dir@ == "asc"@,
            r.search@ == Seq::<char>::empty(),
            r.filter_by_status@ == "Open"@,
            r.filter_by_partner_conf@ == Seq::<char>::empty(),
            r.filter_by_req_assigned@ == Seq::<char>::empty(),
            r.filter_by_visit_assigned@ == Seq::<char>::empty(),
    {
        FetchRequestsParams {
            display_start: 0,
            display_length: 100,
            sort_col: 3,
            sort_dir: String::from_str("asc"),
            search: String::new(),
            filter_by_status: String::from_str("Open"),
            filter_by_partner_conf: String::new(),
            filter_by_req_assigned: String::new(),
            filter_by_visit_assigned: String::new(),
        }
    }
}

/// The column layout the feed expects, echoed verbatim on every fetch.
pub open spec fn columns_spec() -> Seq<char> {
    "id,id,status,dateRequested,client.lastName,client.firstName,requestAssignedToMember,streetAddressLine1,client.homePhone,client.mobilePhone,pendingItems,id"@
}

/// The complete parameter list of one feed fetch, in the order the
/// remote's own table script sends it.  `cache` is the caller-supplied
/// cache-busting token (the transport derives it from the clock).
pub open spec fn spec_fetch_query(p: FetchRequestsParams, cache: Seq<char>) -> Seq<
    (Seq<char>, Seq<char>),
> {
    seq![
        ("sEcho"@, "1"@),
        ("iColumns"@, "12"@),
        ("sColumns"@, columns_spec()),
        ("iDisplayStart"@, dec_spec(p.display_start as nat)),
        ("iDisplayLength"@, dec_spec(p.display_length as nat)),
        ("mDataProp_0"@, "id"@),
        ("mDataProp_1"@, "id"@),
        ("mDataProp_2"@, "status"@),
        ("mDataProp_3"@, "dateRequested"@),
        ("mDataProp_4"@, "client.lastName"@),
        ("mDataProp_5"@, "client.firstName"@),
        ("mDataProp_6"@, "requestAssignedToMember"@),
        ("mDataProp_7"@, "streetAddressLine1"@),
        ("mDataProp_8"@, "client.homePhone"@),
        ("mDataProp_9"@, "client.mobilePhone"@),
        ("mDataProp_10"@, "id"@),
        ("mDataProp_11"@, "id"@),
        ("iSortCol_0"@, dec_spec(p.sort_col as nat)),
        ("sSortDir_0"@, p.sort_dir@),
        ("iSortingCols"@, "1"@),
        ("bSortable_0"@, "false"@),
        ("bSortable_1"@, "false"@),
        ("bSortable_2"@, "true"@),
        ("bSortable_3"@, "true"@),
        ("bSortable_4"@, "true"@),
        ("bSortable_5"@, "true"@),
        ("bSortable_6"@, "false"@),
        ("bSortable_7"@, "false"@),
        ("bSortable_8"@, "false"@),
        ("bSortable_9"@, "false"@),
        ("bSortable_10"@, "false"@),
        ("bSortable_11"@, "false"@),
        ("sSearch"@, p.search@),
        ("bRegex"@, "false"@),
        ("filterByStatus"@, p.filter_by_status@),
        ("filterByPartnerConf"@, p.filter_by_partner_conf@),
        ("filterByReqAssigned"@, p.filter_by_req_assigned@),
        ("filterByVisitAssigned"@, p.filter_by_visit_assigned@),
        ("_"@, cache),
    ]
}

fn push_lit(f: &mut Vec<(String, String)>, name: &str, value: &str)
    ensures
        form_view(final(f)@) == form_view(old(f)@) + field_pair(name@, value@),
{
    push_pair(f, name, String::from_str(value));
}

/// Builds the feed query's parameter list for one fetch.
#[verifier::rlimit(50)]
pub fn build_fetch_query(params: &FetchRequestsParams, cache_buster: &str) -> (r: Vec<
    (String, String),
>)
    ensures
        form_view(r@) == spec_fetch_query(*params, cache_buster@),
{
    let mut f: Vec<(String, String)> = Vec::new();
    push_lit(&mut f, "sEcho", "1");
    push_lit(&mut f, "iColumns", "12");
    push_lit(
        &mut f,
        "sColumns",
        "id,id,status,dateRequested,client.lastName,client.firstName,requestAssignedToMember,streetAddressLine1,client.homePhone,client.mobilePhone,pendingItems,id",
    );
    push_pair(&mut f, "iDisplayStart", dec_u32(params.display_start));
    push_pair(&mut f, "iDisplayLength", dec_u32(params.display_length));
    push_lit(&mut f, "mDataProp_0", "id");
    push_lit(&mut f, "mDataProp_1", "id");
    push_lit(&mut f, "mDataProp_2", "status");
    push_lit(&mut f, "mDataProp_3", "dateRequested");
    push_lit(&mut f, "mDataProp_4", "client.lastName");
    push_lit(&mut f, "mDataProp_5", "client.firstName");
    push_lit(&mut f, "mDataProp_6", "requestAssignedToMember");
    push_lit(&mut f, "mDataProp_7", "streetAddressLine1");
    push_lit(&mut f, "mDataProp_8", "client.homePhone");
    push_lit(&mut f, "mDataProp_9", "client.mobilePhone");
    push_lit(&mut f, "mDataProp_10", "id");
    push_lit(&mut f, "mDataProp_11", "id");
    push_pair(&mut f, "iSortCol_0", dec_u32(params.sort_col));
    push_pair(&mut f, "sSortDir_0", params.sort_dir.clone());
    push_lit(&mut f, "iSortingCols", "1");
    proof {
        assert(form_view(f@) =~= spec_fetch_query(*params, cache_buster@).subrange(0, 20));
    }
    push_lit(&mut f, "bSortable_0", "false");
    push_lit(&mut f, "bSortable_1", "false");
    push_lit(&mut f, "bSortable_2", "true");
    push_lit(&mut f, "bSortable_3", "true");
    push_lit(&mut f, "bSortable_4", "true");
    push_lit(&mut f, "bSortable_5", "true");
    push_lit(&mut f, "bSortable_6", "false");
    push_lit(&mut f, "bSortable_7", "false");
    push_lit(&mut f, "bSortable_8", "false");
    push_lit(&mut f, "bSortable_9", "false");
    push_lit(&mut f, "bSortable_10", "false");
    push_lit(&mut f, "bSortable_11", "false");
    push_pair(&mut f, "sSearch", params.search.clone());
    push_lit(&mut f, "bRegex", "false");
    push_pair(&mut f, "filterByStatus", params.filter_by_status.clone());
    push_pair(&mut f, "filterByPartnerConf", params.filter_by_partner_conf.clone());
    push_pair(&mut f, "filterByReqAssigned", params.filter_by_req_assigned.clone());
    push_pair(&mut f, "filterByVisitAssigned", params.filter_by_visit_assigned.clone());
    push_pair(&mut f, "_", String::from_str(cache_buster));
    proof {
        assert(form_view(f@) =~= spec_fetch_query(*params, cache_buster@));
    }
    f
}

} // verus!
