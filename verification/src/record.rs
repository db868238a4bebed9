//! The canonical remote entity: one household assistance case, reduced to
//! the fields this engine reads.
//!
//! The remote system owns the record; locally it lives only for one
//! fetch-merge-write cycle.  Numeric fields that the feed reports as
//! fractional values (mileage) are kept as their decimal text, since the
//! update form round-trips them as text.

use vstd::prelude::*;

use crate::batch::opt_str_view;
use crate::errors::ApiError;
use crate::json::JsonValue;
use crate::json::get_bool_field;
use crate::json::get_num_text_field;
use crate::json::get_opt_str_field;
use crate::json::get_opt_u32_field;
use crate::json::get_str_field;
use crate::json::get_u32_field;
use crate::json::get_u32_strict;
use crate::json::get_u64_field;
use crate::json::jbool;
use crate::json::jbool_ok;
use crate::json::jnum_text;
use crate::json::jnum_text_ok;
use crate::json::jopt_text;
use crate::json::jopt_text_ok;
use crate::json::jopt_u32;
use crate::json::jopt_u32_ok;
use crate::json::json_parse;
use crate::json::jstr;
use crate::json::jstr_ok;
use crate::json::ju32;
use crate::json::ju32_ok;
use crate::json::ju32_strict_ok;
use crate::json::ju64;
use crate::json::ju64_ok;
use crate::json::lookup;
use crate::json::parse_json;

verus! {

broadcast use vstd::std_specs::control_flow::group_control_flow_axioms;


/// The person served, as nested inside a record on the query feed.
#[derive(Debug, Clone, PartialEq, Eq)]
pub struct Client {
    pub id: u64,
    pub first_name: String,
    pub last_name: String,
    pub last_request_date: String,
}

/// One assistance case as the query feed reports it.
#[derive(Debug, Clone, PartialEq, Eq)]
pub struct Record {
    pub id: u64,
    pub date_created: String,
    pub status: String,
    pub denial_reason: Option<String>,
    pub date_requested: String,
    pub request_note: String,
    pub street_address_line1: String,
    pub street_address_line2: String,
    pub city: String,
    pub state_code: String,
    pub calculated_household_count: u32,
    pub home_visit_required: bool,
    pub other_visit: bool,
    pub elder_care_visit: bool,
    pub hospital_visit: bool,
    pub prison_visit: bool,
    pub telephone_visit: bool,
    pub church_pantry_visit: bool,
    pub home_visit_cnt: Option<u32>,
    pub visit_completed: bool,
    pub visit_mileage_hrs_in_svc: Option<String>,
    pub visit_scheduled_date: Option<String>,
    pub people_helped_override: Option<u32>,
    pub visit_notes: String,
    pub referred_to_agency: bool,
    pub referred_to_conference: bool,
    pub referral_note: String,
    pub client: Client,
}

/// The envelope around one page of the query feed.
#[derive(Debug, Clone, PartialEq, Eq)]
pub struct FetchRequestsResponse {
    pub s_echo: u32,
    pub i_total_records: u32,
    pub i_total_display_records: u32,
    pub aa_data: Vec<Record>,
}

/// Finds the first record on a fetched page with the given id; the
/// read-modify-write cycle re-reads current state through this lookup.
pub fn find_request(rows: &Vec<Record>, id: u64) -> (r: Option<usize>)
    ensures
        match r {
            Some(idx) => idx < rows@.len() && rows@[idx as int].id == id && (forall|k: int|
                0 <= k < idx ==> rows@[k].id != id),
            None => forall|k: int| 0 <= k < rows@.len() ==> rows@[k].id != id,
        },
{
    let mut i: usize = 0;
    while i < rows.len()
        invariant
            0 <= i <= rows@.len(),
            forall|k: int| 0 <= k < i ==> rows@[k].id != id,
        decreases rows@.len() - i,
    {
        if rows[i].id == id {
            return Some(i);
        }
        i += 1;
    }
    None
}

// ---------------------------------------------------------------------
// Decoding the query feed
// ---------------------------------------------------------------------

/// Whether a nested client value is acceptably typed: an object with
/// well-typed fields, or null/missing (which decodes to the default).
pub open spec fn client_ok(v: JsonValue) -> bool {
    match v {
        JsonValue::Obj(cf) => {
            &&& ju64_ok(cf@, "id"@)
            &&& jstr_ok(cf@, "firstName"@)
            &&& jstr_ok(cf@, "lastName"@)
            &&& jstr_ok(cf@, "lastRequestDate"@)
        },
        JsonValue::Null => true,
        _ => false,
    }
}

/// What the decoded client holds, for each acceptable shape.
pub open spec fn client_matches(v: JsonValue, c: Client) -> bool {
    match v {
        JsonValue::Obj(cf) => {
            &&& c.id == ju64(cf@, "id"@)
            &&& c.first_name@ == jstr(cf@, "firstName"@)
            &&& c.last_name@ == jstr(cf@, "lastName"@)
            &&& c.last_request_date@ == jstr(cf@, "lastRequestDate"@)
        },
        _ => c.id == 0 && c.first_name@ == Seq::<char>::empty() && c.last_name@
            == Seq::<char>::empty() && c.last_request_date@ == Seq::<char>::empty(),
    }
}

/// Whether a record value is acceptably typed: an object whose fields,
/// where present and non-null, carry the expected kinds.
pub open spec fn record_well_typed(v: JsonValue) -> bool {
    match v {
        JsonValue::Obj(fields) => {
            &&& ju64_ok(fields@, "id"@)
            &&& jstr_ok(fields@, "dateCreated"@)
            &&& jstr_ok(fields@, "status"@)
            &&& jopt_text_ok(fields@, "denialReason"@)
            &&& jstr_ok(fields@, "dateRequested"@)
            &&& jstr_ok(fields@, "requestNote"@)
            &&& jstr_ok(fields@, "streetAddressLine1"@)
            &&& jstr_ok(fields@, "streetAddressLine2"@)
            &&& jstr_ok(fields@, "city"@)
            &&& jstr_ok(fields@, "stateCode"@)
            &&& ju32_ok(fields@, "calculatedHouseholdCount"@)
            &&& jbool_ok(fields@, "homeVisitRequired"@)
            &&& jbool_ok(fields@, "otherVisit"@)
            &&& jbool_ok(fields@, "elderCareVisit"@)
            &&& jbool_ok(fields@, "hospitalVisit"@)
            &&& jbool_ok(fields@, "prisonVisit"@)
            &&& jbool_ok(fields@, "telephoneVisit"@)
            &&& jbool_ok(fields@, "churchPantryVisit"@)
            &&& jopt_u32_ok(fields@, "homeVisitCnt"@)
            &&& jbool_ok(fields@, "visitCompleted"@)
            &&& jnum_text_ok(fields@, "visitMileageHrsInSvc"@)
            &&& jopt_text_ok(fields@, "visitScheduledDate"@)
            &&& jopt_u32_ok(fields@, "peopleHelpedOverride"@)
            &&& jstr_ok(fields@, "visitNotes"@)
            &&& jbool_ok(fields@, "referredToAgency"@)
            &&& jbool_ok(fields@, "referredToConference"@)
            &&& jstr_ok(fields@, "referralNote"@)
            &&& client_ok(lookup(fields@, "client"@))
        },
        _ => false,
    }
}

/// What the decoded record holds, field for field, when its value is an
/// acceptably typed object.
pub open spec fn record_matches(v: JsonValue, r: Record) -> bool {
    match v {
        JsonValue::Obj(fields) => {
            &&& r.id == ju64(fields@, "id"@)
            &&& r.date_created@ == jstr(fields@, "dateCreated"@)
            &&& r.status@ == jstr(fields@, "status"@)
            &&& opt_str_view(r.denial_reason) == jopt_text(fields@, "denialReason"@)
            &&& r.date_requested@ == jstr(fields@, "dateRequested"@)
            &&& r.request_note@ == jstr(fields@, "requestNote"@)
            &&& r.street_address_line1@ == jstr(fields@, "streetAddressLine1"@)
            &&& r.street_address_line2@ == jstr(fields@, "streetAddressLine2"@)
            &&& r.city@ == jstr(fields@, "city"@)
            &&& r.state_code@ == jstr(fields@, "stateCode"@)
            &&& r.calculated_household_count == ju32(fields@, "calculatedHouseholdCount"@)
            &&& r.home_visit_required == jbool(fields@, "homeVisitRequired"@)
            &&& r.other_visit == jbool(fields@, "otherVisit"@)
            &&& r.elder_care_visit == jbool(fields@, "elderCareVisit"@)
            &&& r.hospital_visit == jbool(fields@, "hospitalVisit"@)
            &&& r.prison_visit == jbool(fields@, "prisonVisit"@)
            &&& r.telephone_visit == jbool(fields@, "telephoneVisit"@)
            &&& r.church_pantry_visit == jbool(fields@, "churchPantryVisit"@)
            &&& r.home_visit_cnt == jopt_u32(fields@, "homeVisitCnt"@)
            &&& r.visit_completed == jbool(fields@, "visitCompleted"@)
            &&& opt_str_view(r.visit_mileage_hrs_in_svc) == jnum_text(
                fields@,
                "visitMileageHrsInSvc"@,
            )
            &&& opt_str_view(r.visit_scheduled_date) == jopt_text(fields@, "visitScheduledDate"@)
            &&& r.people_helped_override == jopt_u32(fields@, "peopleHelpedOverride"@)
            &&& r.visit_notes@ == jstr(fields@, "visitNotes"@)
            &&& r.referred_to_agency == jbool(fields@, "referredToAgency"@)
            &&& r.referred_to_conference == jbool(fields@, "referredToConference"@)
            &&& r.referral_note@ == jstr(fields@, "referralNote"@)
            &&& client_matches(lookup(fields@, "client"@), r.client)
        },
        _ => false,
    }
}

fn default_client() -> (c: Client)
    ensures
        c.id == 0,
        c.first_name@ == Seq::<char>::empty(),
        c.last_name@ == Seq::<char>::empty(),
        c.last_request_date@ == Seq::<char>::empty(),
{
    Client {
        id: 0,
        first_name: String::new(),
        last_name: String::new(),
        last_request_date: String::new(),
    }
}

fn decode_client(cf: &Vec<(String, JsonValue)>) -> (r: Result<Client, ApiError>)
    ensures
        r is Ok <==> client_ok(JsonValue::Obj(*cf)),
        r matches Ok(c) ==> client_matches(JsonValue::Obj(*cf), c),
        r matches Err(e) ==> e == ApiError::Schema,
{
    let id = get_u64_field(cf, "id")?;
    let first_name = get_str_field(cf, "firstName")?;
    let last_name = get_str_field(cf, "lastName")?;
    let last_request_date = get_str_field(cf, "lastRequestDate")?;
    Ok(Client { id, first_name, last_name, last_request_date })
}

/// Decodes one record of the feed, leniently: a missing or null optional
/// field takes its documented default; a present field of the wrong kind
/// is a schema mismatch.
#[verifier::rlimit(50)]
pub fn decode_record(v: &JsonValue) -> (r: Result<Record, ApiError>)
    ensures
        r is Ok <==> record_well_typed(*v),
        r matches Ok(rec) ==> record_matches(*v, rec),
        r matches Err(e) ==> e == ApiError::Schema,
{
    let fields = match v {
        JsonValue::Obj(fields) => fields,
        _ => {
            return Err(ApiError::Schema);
        },
    };
    let id = get_u64_field(fields, "id")?;
    let date_created = get_str_field(fields, "dateCreated")?;
    let status = get_str_field(fields, "status")?;
    let denial_reason = get_opt_str_field(fields, "denialReason")?;
    let date_requested = get_str_field(fields, "dateRequested")?;
    let request_note = get_str_field(fields, "requestNote")?;
    let street_address_line1 = get_str_field(fields, "streetAddressLine1")?;
    let street_address_line2 = get_str_field(fields, "streetAddressLine2")?;
    let city = get_str_field(fields, "city")?;
    let state_code = get_str_field(fields, "stateCode")?;
    let calculated_household_count = get_u32_field(fields, "calculatedHouseholdCount")?;
    let home_visit_required = get_bool_field(fields, "homeVisitRequired")?;
    let other_visit = get_bool_field(fields, "otherVisit")?;
    let elder_care_visit = get_bool_field(fields, "elderCareVisit")?;
    let hospital_visit = get_bool_field(fields, "hospitalVisit")?;
    let prison_visit = get_bool_field(fields, "prisonVisit")?;
    let telephone_visit = get_bool_field(fields, "telephoneVisit")?;
    let church_pantry_visit = get_bool_field(fields, "churchPantryVisit")?;
    let home_visit_cnt = get_opt_u32_field(fields, "homeVisitCnt")?;
    let visit_completed = get_bool_field(fields, "visitCompleted")?;
    let visit_mileage_hrs_in_svc = get_num_text_field(fields, "visitMileageHrsInSvc")?;
    let visit_scheduled_date = get_opt_str_field(fields, "visitScheduledDate")?;
    let people_helped_override = get_opt_u32_field(fields, "peopleHelpedOverride")?;
    let visit_notes = get_str_field(fields, "visitNotes")?;
    let referred_to_agency = get_bool_field(fields, "referredToAgency")?;
    let referred_to_conference = get_bool_field(fields, "referredToConference")?;
    let referral_note = get_str_field(fields, "referralNote")?;
    let client = match crate::json::find_field(fields, "client") {
        Some(JsonValue::Obj(cf)) => decode_client(cf)?,
        Some(JsonValue::Null) => default_client(),
        Some(_) => {
            return Err(ApiError::Schema);
        },
        None => default_client(),
    };
    Ok(
        Record {
            id,
            date_created,
            status,
            denial_reason,
            date_requested,
            request_note,
            street_address_line1,
            street_address_line2,
            city,
            state_code,
            calculated_household_count,
            home_visit_required,
            other_visit,
            elder_care_visit,
            hospital_visit,
            prison_visit,
            telephone_visit,
            church_pantry_visit,
            home_visit_cnt,
            visit_completed,
            visit_mileage_hrs_in_svc,
            visit_scheduled_date,
            people_helped_override,
            visit_notes,
            referred_to_agency,
            referred_to_conference,
            referral_note,
            client,
        },
    )
}

/// Whether a feed response value is acceptably typed: an object with the
/// three required counters (no default there: missing or null is a schema
/// mismatch), and a record array whose every element is well typed.
pub open spec fn response_well_typed(v: JsonValue) -> bool {
    match v {
        JsonValue::Obj(fields) => {
            &&& ju32_strict_ok(fields@, "sEcho"@)
            &&& ju32_strict_ok(fields@, "iTotalRecords"@)
            &&& ju32_strict_ok(fields@, "iTotalDisplayRecords"@)
            &&& (lookup(fields@, "aaData"@) matches JsonValue::Arr(items) && (forall|k: int|
                0 <= k < items@.len() ==> record_well_typed(#[trigger] items@[k])))
        },
        _ => false,
    }
}

/// What the decoded response holds: the echoed counters, and one decoded
/// record per array element, in order.
pub open spec fn response_matches(v: JsonValue, resp: FetchRequestsResponse) -> bool {
    match v {
        JsonValue::Obj(fields) => {
            &&& resp.s_echo == ju32(fields@, "sEcho"@)
            &&& resp.i_total_records == ju32(fields@, "iTotalRecords"@)
            &&& resp.i_total_display_records == ju32(fields@, "iTotalDisplayRecords"@)
            &&& (lookup(fields@, "aaData"@) matches JsonValue::Arr(items) && resp.aa_data@.len()
                == items@.len() && (forall|k: int|
                0 <= k < items@.len() ==> record_matches(
                    #[trigger] items@[k],
                    resp.aa_data@[k],
                )))
        },
        _ => false,
    }
}

/// Decodes one page of the query feed.
#[verifier::loop_isolation(false)]
pub fn decode_response(v: &JsonValue) -> (r: Result<FetchRequestsResponse, ApiError>)
    ensures
        r is Ok <==> response_well_typed(*v),
        r matches Ok(resp) ==> response_matches(*v, resp),
        r matches Err(e) ==> e == ApiError::Schema,
{
    let fields = match v {
        JsonValue::Obj(fields) => fields,
        _ => {
            return Err(ApiError::Schema);
        },
    };
    let s_echo = get_u32_strict(fields, "sEcho")?;
    let i_total_records = get_u32_strict(fields, "iTotalRecords")?;
    let i_total_display_records = get_u32_strict(fields, "iTotalDisplayRecords")?;
    let items = match crate::json::find_field(fields, "aaData") {
        Some(JsonValue::Arr(items)) => items,
        _ => {
            return Err(ApiError::Schema);
        },
    };
    let mut aa_data: Vec<Record> = Vec::new();
    let mut i: usize = 0;
    while i < items.len()
        invariant
            0 <= i <= items@.len(),
            aa_data@.len() == i,
            forall|k: int| 0 <= k < i ==> record_well_typed(#[trigger] items@[k]),
            forall|k: int| 0 <= k < i ==> record_matches(#[trigger] items@[k], aa_data@[k]),
        decreases items@.len() - i,
    {
        let rec = decode_record(&items[i])?;
        aa_data.push(rec);
        i += 1;
    }
    Ok(FetchRequestsResponse { s_echo, i_total_records, i_total_display_records, aa_data })
}

/// Decodes a feed body: parses the text as JSON (through the outside
/// parser), then decodes the response envelope and its records.
pub fn decode_feed(body: &str) -> (r: Result<FetchRequestsResponse, ApiError>)
    ensures
        r is Ok <==> (json_parse(body@) matches Some(v) && response_well_typed(v)),
        r matches Ok(resp) ==> (json_parse(body@) matches Some(v) && response_matches(v, resp)),
        r matches Err(e) ==> e == ApiError::Schema,
{
    match parse_json(body) {
        Some(v) => decode_response(&v),
        None => Err(ApiError::Schema),
    }
}

} // verus!
