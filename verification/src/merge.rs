//! The update merge engine.
//!
//! The remote system has no partial-update API: an update POST must carry
//! the complete form a browser would submit.  `build_update_form` therefore
//! merges a sparse override set over the full current record, preserving
//! every field the caller did not specify, in the exact field order and
//! checkbox encoding the remote form uses.

use vstd::prelude::*;
use vstd::string::*;

use crate::record::Record;
use crate::text::dec_spec;
use crate::text::dec_u32;

verus! {

/// Fields to change on an assistance request.
///
/// Every field is optional; `None` means "keep the current value from the
/// server."  The merge engine fetches nothing itself: callers hand it the
/// current record and this override set.
///
/// **Identifier limitation (lossy-merge window):** the query feed exposes
/// assignees only as display names, while the form wants numeric ids.  When
/// the id fields here (`request_assigned_to_member_id`, the visit
/// assignees, `denial_reason_id`, `referred_from_organization_id`) are
/// `None`, the corresponding form fields are sent empty, which may clear
/// the assignment on the server.  Callers who want to keep an assignment
/// must re-supply the id explicitly (see the directory resolver).  The
/// denial reason's *text* is no identifier: the feed reports it, and the
/// merge preserves it like any other field.
#[derive(Debug)]
pub struct UpdateRequestInput {
    // Status
    pub status: Option<String>,
    pub denial_reason_id: Option<String>,
    pub denial_reason_str: Option<String>,
    // Client info
    pub client_first_name: Option<String>,
    pub client_last_name: Option<String>,
    pub date_requested: Option<String>,
    // Assignment
    pub request_assigned_to_member_id: Option<String>,
    pub request_note: Option<String>,
    // Visit type checkboxes
    pub home_visit_required: Option<bool>,
    pub other_visit: Option<bool>,
    pub elder_care_visit: Option<bool>,
    pub hospital_visit: Option<bool>,
    pub prison_visit: Option<bool>,
    pub telephone_visit: Option<bool>,
    pub church_pantry_visit: Option<bool>,
    // Visit details
    pub home_visit_cnt: Option<String>,
    pub visit_completed: Option<bool>,
    pub visit_assigned_to_member_id: Option<String>,
    pub visit_assigned_to_member_id_secondary: Option<String>,
    pub visit_mileage_in_service: Option<String>,
    pub visit_hours_in_service: Option<String>,
    pub visit_scheduled_date: Option<String>,
    pub visit_scheduled_time: Option<String>,
    pub people_helped_override: Option<String>,
    pub visit_notes: Option<String>,
    // Referral
    pub referred_to_agency: Option<bool>,
    pub referred_to_conference: Option<bool>,
    pub referred_from_organization_id: Option<String>,
    pub referral_note: Option<String>,
}

/// An override set that touches nothing: every field keeps its current
/// remote value (or the documented empty fallback for id-only fields).
pub open spec fn no_override(i: UpdateRequestInput) -> bool {
    &&& i.status is None
    &&& i.denial_reason_id is None
    &&& i.denial_reason_str is None
    &&& i.client_first_name is None
    &&& i.client_last_name is None
    &&& i.date_requested is None
    &&& i.request_assigned_to_member_id is None
    &&& i.request_note is None
    &&& i.home_visit_required is None
    &&& i.other_visit is None
    &&& i.elder_care_visit is None
    &&& i.hospital_visit is None
    &&& i.prison_visit is None
    &&& i.telephone_visit is None
    &&& i.church_pantry_visit is None
    &&& i.home_visit_cnt is None
    &&& i.visit_completed is None
    &&& i.visit_assigned_to_member_id is None
    &&& i.visit_assigned_to_member_id_secondary is None
    &&& i.visit_mileage_in_service is None
    &&& i.visit_hours_in_service is None
    &&& i.visit_scheduled_date is None
    &&& i.visit_scheduled_time is None
    &&& i.people_helped_override is None
    &&& i.visit_notes is None
    &&& i.referred_to_agency is None
    &&& i.referred_to_conference is None
    &&& i.referred_from_organization_id is None
    &&& i.referral_note is None
}

impl Default for UpdateRequestInput {
    /// The empty override set.
    fn default() -> (r: Self)
        ensures
            no_override(r),
    {
        UpdateRequestInput {
            status: None,
            denial_reason_id: None,
            denial_reason_str: None,
            client_first_name: None,
            client_last_name: None,
            date_requested: None,
            request_assigned_to_member_id: None,
            request_note: None,
            home_visit_required: None,
            other_visit: None,
            elder_care_visit: None,
            hospital_visit: None,
            prison_visit: None,
            telephone_visit: None,
            church_pantry_visit: None,
            home_visit_cnt: None,
            visit_completed: None,
            visit_assigned_to_member_id: None,
            visit_assigned_to_member_id_secondary: None,
            visit_mileage_in_service: None,
            visit_hours_in_service: None,
            visit_scheduled_date: None,
            visit_scheduled_time: None,
            people_helped_override: None,
            visit_notes: None,
            referred_to_agency: None,
            referred_to_conference: None,
            referred_from_organization_id: None,
            referral_note: None,
        }
    }
}

// ---------------------------------------------------------------------
// The payload, as a mathematical object
// ---------------------------------------------------------------------

/// The override's value when present, else the current remote value.
pub open spec fn keep_str(ov: Option<String>, cur: Seq<char>) -> Seq<char> {
    match ov {
        Some(s) => s@,
        None => cur,
    }
}

/// The override's value when present, else empty: used for fields whose
/// current value the read path cannot supply (identifier-only relations).
pub open spec fn or_empty(ov: Option<String>) -> Seq<char> {
    match ov {
        Some(s) => s@,
        None => Seq::<char>::empty(),
    }
}

/// The effective boolean of a checkbox after the merge.
pub open spec fn keep_flag(ov: Option<bool>, cur: bool) -> bool {
    match ov {
        Some(b) => b,
        None => cur,
    }
}

/// A numeric-optional field: the override's text when present, else the
/// current number rendered in decimal, else the empty string (the remote
/// form's own "unset" sentinel; never "0" or a textual null).
pub open spec fn keep_num(ov: Option<String>, cur: Option<u32>) -> Seq<char> {
    match ov {
        Some(s) => s@,
        None => match cur {
            Some(n) => dec_spec(n as nat),
            None => Seq::<char>::empty(),
        },
    }
}

/// A text-optional field: the override when present, else the current text
/// when the feed reported one, else empty.
pub open spec fn keep_text_opt(ov: Option<String>, cur: Option<String>) -> Seq<char> {
    match ov {
        Some(s) => s@,
        None => match cur {
            Some(s) => s@,
            None => Seq::<char>::empty(),
        },
    }
}

/// The presence/marker key paired with a checkbox value key.
pub open spec fn marker_key(name: Seq<char>) -> Seq<char> {
    "_"@ + name
}

/// The browser checkbox convention: the marker key is always submitted;
/// the value key is submitted (with a truthy token) only when checked.
pub open spec fn checkbox_pairs(name: Seq<char>, checked: bool) -> Seq<(Seq<char>, Seq<char>)> {
    if checked {
        seq![(name, "true"@), (marker_key(name), "on"@)]
    } else {
        seq![(marker_key(name), "on"@)]
    }
}

/// One plain key/value field of the form.
pub open spec fn field_pair(name: Seq<char>, value: Seq<char>) -> Seq<(Seq<char>, Seq<char>)> {
    seq![(name, value)]
}

/// The status, client-info and assignment fields, in form order.
pub open spec fn head_chunks(c: Record, i: UpdateRequestInput) -> Seq<
    Seq<(Seq<char>, Seq<char>)>,
> {
    seq![
        field_pair("status"@, keep_str(i.status, c.status@)),
        field_pair("denialReasonId"@, or_empty(i.denial_reason_id)),
        field_pair("denialReasonStr"@, keep_text_opt(i.denial_reason_str, c.denial_reason)),
        field_pair("clientFirstName"@, keep_str(i.client_first_name, c.client.first_name@)),
        field_pair("clientLastName"@, keep_str(i.client_last_name, c.client.last_name@)),
        field_pair("dateRequested"@, keep_str(i.date_requested, c.date_requested@)),
        field_pair("requestAssignedToMemberId"@, or_empty(i.request_assigned_to_member_id)),
        field_pair("requestNote"@, keep_str(i.request_note, c.request_note@)),
        field_pair("files"@, Seq::<char>::empty()),
    ]
}

/// The seven visit-type checkboxes, in form order.
pub open spec fn visit_flag_chunks(c: Record, i: UpdateRequestInput) -> Seq<
    Seq<(Seq<char>, Seq<char>)>,
> {
    seq![
        checkbox_pairs(
            "homeVisitRequired"@,
            keep_flag(i.home_visit_required, c.home_visit_required),
        ),
        checkbox_pairs("otherVisit"@, keep_flag(i.other_visit, c.other_visit)),
        checkbox_pairs("elderCareVisit"@, keep_flag(i.elder_care_visit, c.elder_care_visit)),
        checkbox_pairs("hospitalVisit"@, keep_flag(i.hospital_visit, c.hospital_visit)),
        checkbox_pairs("prisonVisit"@, keep_flag(i.prison_visit, c.prison_visit)),
        checkbox_pairs("telephoneVisit"@, keep_flag(i.telephone_visit, c.telephone_visit)),
        checkbox_pairs(
            "churchPantryVisit"@,
            keep_flag(i.church_pantry_visit, c.church_pantry_visit),
        ),
    ]
}

/// The visit-detail fields, in form order.
pub open spec fn visit_detail_chunks(c: Record, i: UpdateRequestInput) -> Seq<
    Seq<(Seq<char>, Seq<char>)>,
> {
    seq![
        field_pair("homeVisitCnt"@, keep_num(i.home_visit_cnt, c.home_visit_cnt)),
        checkbox_pairs("visitCompleted"@, keep_flag(i.visit_completed, c.visit_completed)),
        field_pair("visitAssignedToMemberId"@, or_empty(i.visit_assigned_to_member_id)),
        field_pair(
            "visitAssignedToMemberIdSecondary"@,
            or_empty(i.visit_assigned_to_member_id_secondary),
        ),
        field_pair(
            "visitMileageInService"@,
            keep_text_opt(i.visit_mileage_in_service, c.visit_mileage_hrs_in_svc),
        ),
        field_pair("visitHoursInService"@, or_empty(i.visit_hours_in_service)),
        field_pair(
            "visitScheduledDate"@,
            keep_text_opt(i.visit_scheduled_date, c.visit_scheduled_date),
        ),
        field_pair("visitScheduledTime"@, or_empty(i.visit_scheduled_time)),
        field_pair(
            "peopleHelpedOverride"@,
            keep_num(i.people_helped_override, c.people_helped_override),
        ),
        field_pair("visitNotes"@, keep_str(i.visit_notes, c.visit_notes@)),
        field_pair("files"@, Seq::<char>::empty()),
    ]
}

/// The referral fields, in form order.
pub open spec fn referral_chunks(c: Record, i: UpdateRequestInput) -> Seq<
    Seq<(Seq<char>, Seq<char>)>,
> {
    seq![
        checkbox_pairs("referredToAgency"@, keep_flag(i.referred_to_agency, c.referred_to_agency)),
        checkbox_pairs(
            "referredToConference"@,
            keep_flag(i.referred_to_conference, c.referred_to_conference),
        ),
        field_pair("referredFromOrganizationId"@, or_empty(i.referred_from_organization_id)),
        field_pair("referralNote"@, keep_str(i.referral_note, c.referral_note@)),
    ]
}

/// The payload as a list of per-field chunks, in the remote form's field
/// order.  A plain field is a one-pair chunk; a checkbox contributes one
/// or two pairs.
pub open spec fn form_chunks(c: Record, i: UpdateRequestInput) -> Seq<
    Seq<(Seq<char>, Seq<char>)>,
> {
    head_chunks(c, i) + visit_flag_chunks(c, i) + visit_detail_chunks(c, i) + referral_chunks(c, i)
}

/// The complete update payload: the chunks of `form_chunks`, concatenated.
pub open spec fn spec_update_form(c: Record, i: UpdateRequestInput) -> Seq<
    (Seq<char>, Seq<char>),
> {
    form_chunks(c, i).flatten_alt()
}

/// The key/value pairs a payload carries, as character sequences.
pub open spec fn form_view(v: Seq<(String, String)>) -> Seq<(Seq<char>, Seq<char>)> {
    v.map_values(|p: (String, String)| (p.0@, p.1@))
}

// ---------------------------------------------------------------------
// Building the payload
// ---------------------------------------------------------------------

fn keep_string(ov: &Option<String>, cur: &String) -> (r: String)
    ensures
        r@ == keep_str(*ov, cur@),
{
    match ov {
        Some(s) => s.clone(),
        None => cur.clone(),
    }
}

fn or_empty_string(ov: &Option<String>) -> (r: String)
    ensures
        r@ == or_empty(*ov),
{
    match ov {
        Some(s) => s.clone(),
        None => String::new(),
    }
}

fn keep_flag_val(ov: &Option<bool>, cur: bool) -> (r: bool)
    ensures
        r == keep_flag(*ov, cur),
{
    match ov {
        Some(b) => *b,
        None => cur,
    }
}

fn keep_num_string(ov: &Option<String>, cur: &Option<u32>) -> (r: String)
    ensures
        r@ == keep_num(*ov, *cur),
{
    match ov {
        Some(s) => s.clone(),
        None => match cur {
            Some(n) => dec_u32(*n),
            None => String::new(),
        },
    }
}

fn keep_opt_string(ov: &Option<String>, cur: &Option<String>) -> (r: String)
    ensures
        r@ == keep_text_opt(*ov, *cur),
{
    match ov {
        Some(s) => s.clone(),
        None => match cur {
            Some(s) => s.clone(),
            None => String::new(),
        },
    }
}

/// Appends one plain key/value field to the form.
pub(crate) fn push_pair(form: &mut Vec<(String, String)>, name: &str, value: String)
    ensures
        form_view(final(form)@) == form_view(old(form)@) + field_pair(name@, value@),
{
    let ghost v = value@;
    form.push((String::from_str(name), value));
    proof {
        assert(form_view(form@) =~= form_view(old(form)@) + field_pair(name@, v));
    }
}

/// Appends a browser-convention checkbox pair to the form.
///
/// - Checked: `name=true` plus `_name=on`
/// - Unchecked: `_name=on` only
pub fn push_checkbox(form: &mut Vec<(String, String)>, name: &str, checked: bool)
    ensures
        form_view(final(form)@) == form_view(old(form)@) + checkbox_pairs(name@, checked),
{
    if checked {
        form.push((String::from_str(name), String::from_str("true")));
    }
    let mut marker = String::from_str("_");
    marker.append(name);
    form.push((marker, String::from_str("on")));
    proof {
        assert(form_view(form@) =~= form_view(old(form)@) + checkbox_pairs(name@, checked));
    }
}

pub(crate) proof fn lemma_chunk_step(s: Seq<Seq<(Seq<char>, Seq<char>)>>, k: int)
    requires
        1 <= k <= s.len(),
    ensures
        s.subrange(0, k).flatten_alt() == s.subrange(0, k - 1).flatten_alt() + s[k - 1],
{
    assert(s.subrange(0, k).drop_last() =~= s.subrange(0, k - 1));
    assert(s.subrange(0, k).last() == s[k - 1]);
}

fn push_head_fields(f: &mut Vec<(String, String)>, current: &Record, input: &UpdateRequestInput)
    ensures
        form_view(final(f)@) == form_view(old(f)@) + head_chunks(*current, *input).flatten_alt(),
{
    let ghost base = form_view(f@);
    let ghost ch = head_chunks(*current, *input);
    push_pair(f, "status", keep_string(&input.status, &current.status));
    proof {
        lemma_chunk_step(ch, 1);
        assert(ch.subrange(0, 0).flatten_alt() + ch[0] =~= ch[0]);
        assert(form_view(f@) == base + ch.subrange(0, 1).flatten_alt());
    }
    push_pair(f, "denialReasonId", or_empty_string(&input.denial_reason_id));
    proof {
        lemma_chunk_step(ch, 2);
        vstd::seq_lib::lemma_concat_associative(
            base,
            ch.subrange(0, 1).flatten_alt(),
            ch[1],
        );
        assert(form_view(f@) == base + ch.subrange(0, 2).flatten_alt());
    }
    push_pair(
        f,
        "denialReasonStr",
        keep_opt_string(&input.denial_reason_str, &current.denial_reason),
    );
    proof {
        lemma_chunk_step(ch, 3);
        vstd::seq_lib::lemma_concat_associative(
            base,
            ch.subrange(0, 2).flatten_alt(),
            ch[2],
        );
        assert(form_view(f@) == base + ch.subrange(0, 3).flatten_alt());
    }
    push_pair(f, "clientFirstName", keep_string(&input.client_first_name, &current.client.first_name));
    proof {
        lemma_chunk_step(ch, 4);
        vstd::seq_lib::lemma_concat_associative(
            base,
            ch.subrange(0, 3).flatten_alt(),
            ch[3],
        );
        assert(form_view(f@) == base + ch.subrange(0, 4).flatten_alt());
    }
    push_pair(f, "clientLastName", keep_string(&input.client_last_name, &current.client.last_name));
    proof {
        lemma_chunk_step(ch, 5);
        vstd::seq_lib::lemma_concat_associative(
            base,
            ch.subrange(0, 4).flatten_alt(),
            ch[4],
        );
        assert(form_view(f@) == base + ch.subrange(0, 5).flatten_alt());
    }
    push_pair(f, "dateRequested", keep_string(&input.date_requested, &current.date_requested));
    proof {
        lemma_chunk_step(ch, 6);
        vstd::seq_lib::lemma_concat_associative(
            base,
            ch.subrange(0, 5).flatten_alt(),
            ch[5],
        );
        assert(form_view(f@) == base + ch.subrange(0, 6).flatten_alt());
    }
    // The feed reports display names, not member ids: with no override the
    // id field is sent empty.
    push_pair(f, "requestAssignedToMemberId", or_empty_string(&input.request_assigned_to_member_id));
    proof {
        lemma_chunk_step(ch, 7);
        vstd::seq_lib::lemma_concat_associative(
            base,
            ch.subrange(0, 6).flatten_alt(),
            ch[6],
        );
        assert(form_view(f@) == base + ch.subrange(0, 7).flatten_alt());
    }
    push_pair(f, "requestNote", keep_string(&input.request_note, &current.request_note));
    proof {
        lemma_chunk_step(ch, 8);
        vstd::seq_lib::lemma_concat_associative(
            base,
            ch.subrange(0, 7).flatten_alt(),
            ch[7],
        );
        assert(form_view(f@) == base + ch.subrange(0, 8).flatten_alt());
    }
    push_pair(f, "files", String::new());
    proof {
        lemma_chunk_step(ch, 9);
        vstd::seq_lib::lemma_concat_associative(
            base,
            ch.subrange(0, 8).flatten_alt(),
            ch[8],
        );
        assert(form_view(f@) == base + ch.subrange(0, 9).flatten_alt());
        assert(ch.subrange(0, 9) =~= ch);
    }
}

fn push_visit_flag_fields(
    f: &mut Vec<(String, String)>,
    current: &Record,
    input: &UpdateRequestInput,
)
    ensures
        form_view(final(f)@) == form_view(old(f)@) + visit_flag_chunks(
            *current,
            *input,
        ).flatten_alt(),
{
    let ghost base = form_view(f@);
    let ghost ch = visit_flag_chunks(*current, *input);
    push_checkbox(
        f,
        "homeVisitRequired",
        keep_flag_val(&input.home_visit_required, current.home_visit_required),
    );
    proof {
        lemma_chunk_step(ch, 1);
        assert(ch.subrange(0, 0).flatten_alt() + ch[0] =~= ch[0]);
        assert(form_view(f@) == base + ch.subrange(0, 1).flatten_alt());
    }
    push_checkbox(f, "otherVisit", keep_flag_val(&input.other_visit, current.other_visit));
    proof {
        lemma_chunk_step(ch, 2);
        vstd::seq_lib::lemma_concat_associative(
            base,
            ch.subrange(0, 1).flatten_alt(),
            ch[1],
        );
        assert(form_view(f@) == base + ch.subrange(0, 2).flatten_alt());
    }
    push_checkbox(
        f,
        "elderCareVisit",
        keep_flag_val(&input.elder_care_visit, current.elder_care_visit),
    );
    proof {
        lemma_chunk_step(ch, 3);
        vstd::seq_lib::lemma_concat_associative(
            base,
            ch.subrange(0, 2).flatten_alt(),
            ch[2],
        );
        assert(form_view(f@) == base + ch.subrange(0, 3).flatten_alt());
    }
    push_checkbox(f, "hospitalVisit", keep_flag_val(&input.hospital_visit, current.hospital_visit));
    proof {
        lemma_chunk_step(ch, 4);
        vstd::seq_lib::lemma_concat_associative(
            base,
            ch.subrange(0, 3).flatten_alt(),
            ch[3],
        );
        assert(form_view(f@) == base + ch.subrange(0, 4).flatten_alt());
    }
    push_checkbox(f, "prisonVisit", keep_flag_val(&input.prison_visit, current.prison_visit));
    proof {
        lemma_chunk_step(ch, 5);
        vstd::seq_lib::lemma_concat_associative(
            base,
            ch.subrange(0, 4).flatten_alt(),
            ch[4],
        );
        assert(form_view(f@) == base + ch.subrange(0, 5).flatten_alt());
    }
    push_checkbox(
        f,
        "telephoneVisit",
        keep_flag_val(&input.telephone_visit, current.telephone_visit),
    );
    proof {
        lemma_chunk_step(ch, 6);
        vstd::seq_lib::lemma_concat_associative(
            base,
            ch.subrange(0, 5).flatten_alt(),
            ch[5],
        );
        assert(form_view(f@) == base + ch.subrange(0, 6).flatten_alt());
    }
    push_checkbox(
        f,
        "churchPantryVisit",
        keep_flag_val(&input.church_pantry_visit, current.church_pantry_visit),
    );
    proof {
        lemma_chunk_step(ch, 7);
        vstd::seq_lib::lemma_concat_associative(
            base,
            ch.subrange(0, 6).flatten_alt(),
            ch[6],
        );
        assert(form_view(f@) == base + ch.subrange(0, 7).flatten_alt());
        assert(ch.subrange(0, 7) =~= ch);
    }
}

fn push_visit_detail_fields(
    f: &mut Vec<(String, String)>,
    current: &Record,
    input: &UpdateRequestInput,
)
    ensures
        form_view(final(f)@) == form_view(old(f)@) + visit_detail_chunks(
            *current,
            *input,
        ).flatten_alt(),
{
    let ghost base = form_view(f@);
    let ghost ch = visit_detail_chunks(*current, *input);
    push_pair(f, "homeVisitCnt", keep_num_string(&input.home_visit_cnt, &current.home_visit_cnt));
    proof {
        lemma_chunk_step(ch, 1);
        assert(ch.subrange(0, 0).flatten_alt() + ch[0] =~= ch[0]);
        assert(form_view(f@) == base + ch.subrange(0, 1).flatten_alt());
    }
    push_checkbox(
        f,
        "visitCompleted",
        keep_flag_val(&input.visit_completed, current.visit_completed),
    );
    proof {
        lemma_chunk_step(ch, 2);
        vstd::seq_lib::lemma_concat_associative(
            base,
            ch.subrange(0, 1).flatten_alt(),
            ch[1],
        );
        assert(form_view(f@) == base + ch.subrange(0, 2).flatten_alt());
    }
    push_pair(f, "visitAssignedToMemberId", or_empty_string(&input.visit_assigned_to_member_id));
    proof {
        lemma_chunk_step(ch, 3);
        vstd::seq_lib::lemma_concat_associative(
            base,
            ch.subrange(0, 2).flatten_alt(),
            ch[2],
        );
        assert(form_view(f@) == base + ch.subrange(0, 3).flatten_alt());
    }
    push_pair(
        f,
        "visitAssignedToMemberIdSecondary",
        or_empty_string(&input.visit_assigned_to_member_id_secondary),
    );
    proof {
        lemma_chunk_step(ch, 4);
        vstd::seq_lib::lemma_concat_associative(
            base,
            ch.subrange(0, 3).flatten_alt(),
            ch[3],
        );
        assert(form_view(f@) == base + ch.subrange(0, 4).flatten_alt());
    }
    push_pair(
        f,
        "visitMileageInService",
        keep_opt_string(&input.visit_mileage_in_service, &current.visit_mileage_hrs_in_svc),
    );
    proof {
        lemma_chunk_step(ch, 5);
        vstd::seq_lib::lemma_concat_associative(
            base,
            ch.subrange(0, 4).flatten_alt(),
            ch[4],
        );
        assert(form_view(f@) == base + ch.subrange(0, 5).flatten_alt());
    }
    push_pair(f, "visitHoursInService", or_empty_string(&input.visit_hours_in_service));
    proof {
        lemma_chunk_step(ch, 6);
        vstd::seq_lib::lemma_concat_associative(
            base,
            ch.subrange(0, 5).flatten_alt(),
            ch[5],
        );
        assert(form_view(f@) == base + ch.subrange(0, 6).flatten_alt());
    }
    push_pair(
        f,
        "visitScheduledDate",
        keep_opt_string(&input.visit_scheduled_date, &current.visit_scheduled_date),
    );
    proof {
        lemma_chunk_step(ch, 7);
        vstd::seq_lib::lemma_concat_associative(
            base,
            ch.subrange(0, 6).flatten_alt(),
            ch[6],
        );
        assert(form_view(f@) == base + ch.subrange(0, 7).flatten_alt());
    }
    push_pair(f, "visitScheduledTime", or_empty_string(&input.visit_scheduled_time));
    proof {
        lemma_chunk_step(ch, 8);
        vstd::seq_lib::lemma_concat_associative(
            base,
            ch.subrange(0, 7).flatten_alt(),
            ch[7],
        );
        assert(form_view(f@) == base + ch.subrange(0, 8).flatten_alt());
    }
    push_pair(
        f,
        "peopleHelpedOverride",
        keep_num_string(&input.people_helped_override, &current.people_helped_override),
    );
    proof {
        lemma_chunk_step(ch, 9);
        vstd::seq_lib::lemma_concat_associative(
            base,
            ch.subrange(0, 8).flatten_alt(),
            ch[8],
        );
        assert(form_view(f@) == base + ch.subrange(0, 9).flatten_alt());
    }
    push_pair(f, "visitNotes", keep_string(&input.visit_notes, &current.visit_notes));
    proof {
        lemma_chunk_step(ch, 10);
        vstd::seq_lib::lemma_concat_associative(
            base,
            ch.subrange(0, 9).flatten_alt(),
            ch[9],
        );
        assert(form_view(f@) == base + ch.subrange(0, 10).flatten_alt());
    }
    push_pair(f, "files", String::new());
    proof {
        lemma_chunk_step(ch, 11);
        vstd::seq_lib::lemma_concat_associative(
            base,
            ch.subrange(0, 10).flatten_alt(),
            ch[10],
        );
        assert(form_view(f@) == base + ch.subrange(0, 11).flatten_alt());
        assert(ch.subrange(0, 11) =~= ch);
    }
}

fn push_referral_fields(
    f: &mut Vec<(String, String)>,
    current: &Record,
    input: &UpdateRequestInput,
)
    ensures
        form_view(final(f)@) == form_view(old(f)@) + referral_chunks(
            *current,
            *input,
        ).flatten_alt(),
{
    let ghost base = form_view(f@);
    let ghost ch = referral_chunks(*current, *input);
    push_checkbox(
        f,
        "referredToAgency",
        keep_flag_val(&input.referred_to_agency, current.referred_to_agency),
    );
    proof {
        lemma_chunk_step(ch, 1);
        assert(ch.subrange(0, 0).flatten_alt() + ch[0] =~= ch[0]);
        assert(form_view(f@) == base + ch.subrange(0, 1).flatten_alt());
    }
    push_checkbox(
        f,
        "referredToConference",
        keep_flag_val(&input.referred_to_conference, current.referred_to_conference),
    );
    proof {
        lemma_chunk_step(ch, 2);
        vstd::seq_lib::lemma_concat_associative(
            base,
            ch.subrange(0, 1).flatten_alt(),
            ch[1],
        );
        assert(form_view(f@) == base + ch.subrange(0, 2).flatten_alt());
    }
    push_pair(
        f,
        "referredFromOrganizationId",
        or_empty_string(&input.referred_from_organization_id),
    );
    proof {
        lemma_chunk_step(ch, 3);
        vstd::seq_lib::lemma_concat_associative(
            base,
            ch.subrange(0, 2).flatten_alt(),
            ch[2],
        );
        assert(form_view(f@) == base + ch.subrange(0, 3).flatten_alt());
    }
    push_pair(f, "referralNote", keep_string(&input.referral_note, &current.referral_note));
    proof {
        lemma_chunk_step(ch, 4);
        vstd::seq_lib::lemma_concat_associative(
            base,
            ch.subrange(0, 3).flatten_alt(),
            ch[3],
        );
        assert(form_view(f@) == base + ch.subrange(0, 4).flatten_alt());
        assert(ch.subrange(0, 4) =~= ch);
    }
}

/// Builds the full update form by merging `input` over `current`.
///
/// Every field the override leaves `None` is emitted with the current
/// record's value in the form's own encoding; identifier-only fields the
/// feed cannot report are emitted empty (see `UpdateRequestInput`).
pub fn build_update_form(current: &Record, input: &UpdateRequestInput) -> (r: Vec<
    (String, String),
>)
    ensures
        form_view(r@) == spec_update_form(*current, *input),
{
    let mut f: Vec<(String, String)> = Vec::new();
    proof {
        assert(form_view(f@) =~= Seq::<(Seq<char>, Seq<char>)>::empty());
    }
    push_head_fields(&mut f, current, input);
    push_visit_flag_fields(&mut f, current, input);
    push_visit_detail_fields(&mut f, current, input);
    push_referral_fields(&mut f, current, input);
    proof {
        let c = *current;
        let i = *input;
        let h = head_chunks(c, i);
        let v = visit_flag_chunks(c, i);
        let d = visit_detail_chunks(c, i);
        let rr = referral_chunks(c, i);
        vstd::seq_lib::lemma_flatten_alt_concat(h, v);
        vstd::seq_lib::lemma_flatten_alt_concat(h + v, d);
        vstd::seq_lib::lemma_flatten_alt_concat(h + v + d, rr);
        assert(Seq::<(Seq<char>, Seq<char>)>::empty() + h.flatten_alt() =~= h.flatten_alt());
        assert(form_view(f@) == (h + v + d + rr).flatten_alt());
    }
    f
}

// ---------------------------------------------------------------------
// Laws of the merge
// ---------------------------------------------------------------------

/// The decimal text of an optional count, empty when absent.
pub open spec fn opt_num_text(o: Option<u32>) -> Seq<char> {
    match o {
        Some(n) => dec_spec(n as nat),
        None => Seq::<char>::empty(),
    }
}

/// The text of an optional field, empty when absent.
pub open spec fn opt_text(o: Option<String>) -> Seq<char> {
    match o {
        Some(s) => s@,
        None => Seq::<char>::empty(),
    }
}

/// The form encoding of the current record alone: every preservable field
/// carries the record's value, identifier-only fields are empty, and the
/// checkboxes mirror the record's flags.
pub open spec fn record_encoding_chunks(c: Record) -> Seq<Seq<(Seq<char>, Seq<char>)>> {
    seq![
        field_pair("status"@, c.status@),
        field_pair("denialReasonId"@, Seq::<char>::empty()),
        field_pair("denialReasonStr"@, opt_text(c.denial_reason)),
        field_pair("clientFirstName"@, c.client.first_name@),
        field_pair("clientLastName"@, c.client.last_name@),
        field_pair("dateRequested"@, c.date_requested@),
        field_pair("requestAssignedToMemberId"@, Seq::<char>::empty()),
        field_pair("requestNote"@, c.request_note@),
        field_pair("files"@, Seq::<char>::empty()),
        checkbox_pairs("homeVisitRequired"@, c.home_visit_required),
        checkbox_pairs("otherVisit"@, c.other_visit),
        checkbox_pairs("elderCareVisit"@, c.elder_care_visit),
        checkbox_pairs("hospitalVisit"@, c.hospital_visit),
        checkbox_pairs("prisonVisit"@, c.prison_visit),
        checkbox_pairs("telephoneVisit"@, c.telephone_visit),
        checkbox_pairs("churchPantryVisit"@, c.church_pantry_visit),
        field_pair("homeVisitCnt"@, opt_num_text(c.home_visit_cnt)),
        checkbox_pairs("visitCompleted"@, c.visit_completed),
        field_pair("visitAssignedToMemberId"@, Seq::<char>::empty()),
        field_pair("visitAssignedToMemberIdSecondary"@, Seq::<char>::empty()),
        field_pair("visitMileageInService"@, opt_text(c.visit_mileage_hrs_in_svc)),
        field_pair("visitHoursInService"@, Seq::<char>::empty()),
        field_pair("visitScheduledDate"@, opt_text(c.visit_scheduled_date)),
        field_pair("visitScheduledTime"@, Seq::<char>::empty()),
        field_pair("peopleHelpedOverride"@, opt_num_text(c.people_helped_override)),
        field_pair("visitNotes"@, c.visit_notes@),
        field_pair("files"@, Seq::<char>::empty()),
        checkbox_pairs("referredToAgency"@, c.referred_to_agency),
        checkbox_pairs("referredToConference"@, c.referred_to_conference),
        field_pair("referredFromOrganizationId"@, Seq::<char>::empty()),
        field_pair("referralNote"@, c.referral_note@),
    ]
}

/// Merging with an empty override set is the identity transform on current
/// state, modulo the form's own encoding: the payload is exactly the
/// record's encoding, field for field.
pub proof fn lemma_empty_override_is_identity(c: Record, i: UpdateRequestInput)
    requires
        no_override(i),
    ensures
        spec_update_form(c, i) == record_encoding_chunks(c).flatten_alt(),
{
    assert(form_chunks(c, i) =~= record_encoding_chunks(c));
}

/// Toggling one checkbox override changes only that field's chunk, and in
/// that chunk only the value key's presence: the marker key closes the
/// chunk in both payloads, and the value key appears exactly when the box
/// is checked.  (The payload is the concatenation of these chunks.)
pub proof fn lemma_toggle_home_visit_required(
    c: Record,
    a: UpdateRequestInput,
    b: UpdateRequestInput,
)
    requires
        a == (UpdateRequestInput { home_visit_required: Some(true), ..b }),
        b.home_visit_required == Some(false),
    ensures
        form_chunks(c, a).len() == form_chunks(c, b).len(),
        forall|m: int|
            0 <= m < form_chunks(c, b).len() && m != 9 ==> form_chunks(c, a)[m] == form_chunks(
                c,
                b,
            )[m],
        form_chunks(c, a)[9] == seq![
            ("homeVisitRequired"@, "true"@),
            (marker_key("homeVisitRequired"@), "on"@),
        ],
        form_chunks(c, b)[9] == seq![(marker_key("homeVisitRequired"@), "on"@)],
{
}

/// See `lemma_toggle_home_visit_required`.
pub proof fn lemma_toggle_other_visit(c: Record, a: UpdateRequestInput, b: UpdateRequestInput)
    requires
        a == (UpdateRequestInput { other_visit: Some(true), ..b }),
        b.other_visit == Some(false),
    ensures
        form_chunks(c, a).len() == form_chunks(c, b).len(),
        forall|m: int|
            0 <= m < form_chunks(c, b).len() && m != 10 ==> form_chunks(c, a)[m] == form_chunks(
                c,
                b,
            )[m],
        form_chunks(c, a)[10] == seq![
            ("otherVisit"@, "true"@),
            (marker_key("otherVisit"@), "on"@),
        ],
        form_chunks(c, b)[10] == seq![(marker_key("otherVisit"@), "on"@)],
{
}

/// See `lemma_toggle_home_visit_required`.
pub proof fn lemma_toggle_elder_care_visit(c: Record, a: UpdateRequestInput, b: UpdateRequestInput)
    requires
        a == (UpdateRequestInput { elder_care_visit: Some(true), ..b }),
        b.elder_care_visit == Some(false),
    ensures
        form_chunks(c, a).len() == form_chunks(c, b).len(),
        forall|m: int|
            0 <= m < form_chunks(c, b).len() && m != 11 ==> form_chunks(c, a)[m] == form_chunks(
                c,
                b,
            )[m],
        form_chunks(c, a)[11] == seq![
            ("elderCareVisit"@, "true"@),
            (marker_key("elderCareVisit"@), "on"@),
        ],
        form_chunks(c, b)[11] == seq![(marker_key("elderCareVisit"@), "on"@)],
{
}

/// See `lemma_toggle_home_visit_required`.
pub proof fn lemma_toggle_hospital_visit(c: Record, a: UpdateRequestInput, b: UpdateRequestInput)
    requires
        a == (UpdateRequestInput { hospital_visit: Some(true), ..b }),
        b.hospital_visit == Some(false),
    ensures
        form_chunks(c, a).len() == form_chunks(c, b).len(),
        forall|m: int|
            0 <= m < form_chunks(c, b).len() && m != 12 ==> form_chunks(c, a)[m] == form_chunks(
                c,
                b,
            )[m],
        form_chunks(c, a)[12] == seq![
            ("hospitalVisit"@, "true"@),
            (marker_key("hospitalVisit"@), "on"@),
        ],
        form_chunks(c, b)[12] == seq![(marker_key("hospitalVisit"@), "on"@)],
{
}

/// See `lemma_toggle_home_visit_required`.
pub proof fn lemma_toggle_prison_visit(c: Record, a: UpdateRequestInput, b: UpdateRequestInput)
    requires
        a == (UpdateRequestInput { prison_visit: Some(true), ..b }),
        b.prison_visit == Some(false),
    ensures
        form_chunks(c, a).len() == form_chunks(c, b).len(),
        forall|m: int|
            0 <= m < form_chunks(c, b).len() && m != 13 ==> form_chunks(c, a)[m] == form_chunks(
                c,
                b,
            )[m],
        form_chunks(c, a)[13] == seq![
            ("prisonVisit"@, "true"@),
            (marker_key("prisonVisit"@), "on"@),
        ],
        form_chunks(c, b)[13] == seq![(marker_key("prisonVisit"@), "on"@)],
{
}

/// See `lemma_toggle_home_visit_required`.
pub proof fn lemma_toggle_telephone_visit(c: Record, a: UpdateRequestInput, b: UpdateRequestInput)
    requires
        a == (UpdateRequestInput { telephone_visit: Some(true), ..b }),
        b.telephone_visit == Some(false),
    ensures
        form_chunks(c, a).len() == form_chunks(c, b).len(),
        forall|m: int|
            0 <= m < form_chunks(c, b).len() && m != 14 ==> form_chunks(c, a)[m] == form_chunks(
                c,
                b,
            )[m],
        form_chunks(c, a)[14] == seq![
            ("telephoneVisit"@, "true"@),
            (marker_key("telephoneVisit"@), "on"@),
        ],
        form_chunks(c, b)[14] == seq![(marker_key("telephoneVisit"@), "on"@)],
{
}

/// See `lemma_toggle_home_visit_required`.
pub proof fn lemma_toggle_church_pantry_visit(
    c: Record,
    a: UpdateRequestInput,
    b: UpdateRequestInput,
)
    requires
        a == (UpdateRequestInput { church_pantry_visit: Some(true), ..b }),
        b.church_pantry_visit == Some(false),
    ensures
        form_chunks(c, a).len() == form_chunks(c, b).len(),
        forall|m: int|
            0 <= m < form_chunks(c, b).len() && m != 15 ==> form_chunks(c, a)[m] == form_chunks(
                c,
                b,
            )[m],
        form_chunks(c, a)[15] == seq![
            ("churchPantryVisit"@, "true"@),
            (marker_key("churchPantryVisit"@), "on"@),
        ],
        form_chunks(c, b)[15] == seq![(marker_key("churchPantryVisit"@), "on"@)],
{
}

/// See `lemma_toggle_home_visit_required`.
pub proof fn lemma_toggle_visit_completed(c: Record, a: UpdateRequestInput, b: UpdateRequestInput)
    requires
        a == (UpdateRequestInput { visit_completed: Some(true), ..b }),
        b.visit_completed == Some(false),
    ensures
        form_chunks(c, a).len() == form_chunks(c, b).len(),
        forall|m: int|
            0 <= m < form_chunks(c, b).len() && m != 17 ==> form_chunks(c, a)[m] == form_chunks(
                c,
                b,
            )[m],
        form_chunks(c, a)[17] == seq![
            ("visitCompleted"@, "true"@),
            (marker_key("visitCompleted"@), "on"@),
        ],
        form_chunks(c, b)[17] == seq![(marker_key("visitCompleted"@), "on"@)],
{
}

/// See `lemma_toggle_home_visit_required`.
pub proof fn lemma_toggle_referred_to_agency(
    c: Record,
    a: UpdateRequestInput,
    b: UpdateRequestInput,
)
    requires
        a == (UpdateRequestInput { referred_to_agency: Some(true), ..b }),
        b.referred_to_agency == Some(false),
    ensures
        form_chunks(c, a).len() == form_chunks(c, b).len(),
        forall|m: int|
            0 <= m < form_chunks(c, b).len() && m != 27 ==> form_chunks(c, a)[m] == form_chunks(
                c,
                b,
            )[m],
        form_chunks(c, a)[27] == seq![
            ("referredToAgency"@, "true"@),
            (marker_key("referredToAgency"@), "on"@),
        ],
        form_chunks(c, b)[27] == seq![(marker_key("referredToAgency"@), "on"@)],
{
}

/// See `lemma_toggle_home_visit_required`.
pub proof fn lemma_toggle_referred_to_conference(
    c: Record,
    a: UpdateRequestInput,
    b: UpdateRequestInput,
)
    requires
        a == (UpdateRequestInput { referred_to_conference: Some(true), ..b }),
        b.referred_to_conference == Some(false),
    ensures
        form_chunks(c, a).len() == form_chunks(c, b).len(),
        forall|m: int|
            0 <= m < form_chunks(c, b).len() && m != 28 ==> form_chunks(c, a)[m] == form_chunks(
                c,
                b,
            )[m],
        form_chunks(c, a)[28] == seq![
            ("referredToConference"@, "true"@),
            (marker_key("referredToConference"@), "on"@),
        ],
        form_chunks(c, b)[28] == seq![(marker_key("referredToConference"@), "on"@)],
{
}

/// A numeric-optional field with no current value and no override renders
/// as the empty string: never "0" and never a textual null.
pub proof fn lemma_absent_numeric_fields_render_empty(c: Record, i: UpdateRequestInput)
    requires
        i.home_visit_cnt is None,
        c.home_visit_cnt is None,
        i.visit_mileage_in_service is None,
        c.visit_mileage_hrs_in_svc is None,
        i.people_helped_override is None,
        c.people_helped_override is None,
    ensures
        form_chunks(c, i)[16] == field_pair("homeVisitCnt"@, Seq::<char>::empty()),
        form_chunks(c, i)[20] == field_pair("visitMileageInService"@, Seq::<char>::empty()),
        form_chunks(c, i)[24] == field_pair("peopleHelpedOverride"@, Seq::<char>::empty()),
{
}

} // verus!
