//! The batch workflow: projecting fetched records into locally persisted
//! rows, and deriving the per-row operations that a bulk run applies.
//!
//! A row is created once by the export step and then drives later update
//! and append steps without re-deriving anything: it is the unit of
//! idempotent replay, and the file it lives in is what the operator
//! reviews.

use vstd::prelude::*;
use vstd::string::*;

use crate::errors::ApiError;
use crate::merge::UpdateRequestInput;
use crate::assistance::UpdateAssistanceInput;
use crate::record::Record;
use crate::text::dec_spec;
use crate::text::dec_u32;
use crate::text::dec_u64;

verus! {

/// One locally persisted row: a denormalized projection of a record plus
/// derived fields (the concatenated address and the donation amount from
/// the household-size table).
#[derive(Debug, Clone, PartialEq, Eq)]
pub struct OpenRequest {
    // Fields from the record itself.
    pub req_id: u64,
    pub req_date_created: String,
    pub req_status: String,
    pub req_calculated_household_count: u32,
    // Derived fields.
    pub merged_address: String,
    pub gift_card_dollars: u32,
    // Fields from the nested client.
    pub neighbor_id: u64,
    pub neighbor_first_name: String,
    pub neighbor_last_name: String,
    pub neighbor_last_request_date: String,
}

/// The donation amount for a household of the given size: a fixed lookup
/// table, capped at its largest step.
pub open spec fn gift_card_dollars_spec(family_size: u32) -> u32 {
    if family_size <= 1 {
        50
    } else if family_size == 2 {
        60
    } else if family_size == 3 {
        70
    } else if family_size == 4 {
        80
    } else if family_size == 5 {
        90
    } else {
        100
    }
}

/// See `gift_card_dollars_spec`.
pub fn gift_card_dollars(family_size: u32) -> (r: u32)
    ensures
        r == gift_card_dollars_spec(family_size),
{
    match family_size {
        0 | 1 => 50,
        2 => 60,
        3 => 70,
        4 => 80,
        5 => 90,
        _ => 100,
    }
}

/// The row's address field: street line one, a space, street line two,
/// then city and state, comma-separated.
pub open spec fn merged_address_spec(r: Record) -> Seq<char> {
    r.street_address_line1@ + " "@ + r.street_address_line2@ + ", "@ + r.city@ + ", "@
        + r.state_code@
}

/// Projects one fetched record into the row the batch file persists.
pub fn row_from_record(r: &Record) -> (row: OpenRequest)
    ensures
        row.req_id == r.id,
        row.req_date_created@ == r.date_created@,
        row.req_status@ == r.status@,
        row.req_calculated_household_count == r.calculated_household_count,
        row.merged_address@ == merged_address_spec(*r),
        row.gift_card_dollars == gift_card_dollars_spec(r.calculated_household_count),
        row.neighbor_id == r.client.id,
        row.neighbor_first_name@ == r.client.first_name@,
        row.neighbor_last_name@ == r.client.last_name@,
        row.neighbor_last_request_date@ == r.client.last_request_date@,
{
    let mut addr = r.street_address_line1.clone();
    addr.append(" ");
    addr.append(r.street_address_line2.as_str());
    addr.append(", ");
    addr.append(r.city.as_str());
    addr.append(", ");
    addr.append(r.state_code.as_str());
    OpenRequest {
        req_id: r.id,
        req_date_created: r.date_created.clone(),
        req_status: r.status.clone(),
        req_calculated_household_count: r.calculated_household_count,
        merged_address: addr,
        gift_card_dollars: gift_card_dollars(r.calculated_household_count),
        neighbor_id: r.client.id,
        neighbor_first_name: r.client.first_name.clone(),
        neighbor_last_name: r.client.last_name.clone(),
        neighbor_last_request_date: r.client.last_request_date.clone(),
    }
}

/// The view of an optional text field.
pub open spec fn opt_str_view(o: Option<String>) -> Option<Seq<char>> {
    match o {
        Some(s) => Some(s@),
        None => None,
    }
}

/// The override set that marks one request complete: status "Completed",
/// the volunteer assigned to request and visit, one required home visit,
/// the standing mileage and notes, and the given visit date.  Every other
/// field keeps its current remote value.
pub fn completion_overrides(member_id: &str, visit_date: &str) -> (r: UpdateRequestInput)
    ensures
        opt_str_view(r.status) == Some("Completed"@),
        opt_str_view(r.request_assigned_to_member_id) == Some(member_id@),
        r.home_visit_required == Some(true),
        opt_str_view(r.home_visit_cnt) == Some("1"@),
        r.visit_completed == Some(true),
        opt_str_view(r.visit_assigned_to_member_id) == Some(member_id@),
        opt_str_view(r.visit_mileage_in_service) == Some("5"@),
        opt_str_view(r.visit_scheduled_date) == Some(visit_date@),
        opt_str_view(r.visit_notes) == Some("<p>Delivered food and gift cards</p>"@),
        r.denial_reason_id is None,
        r.denial_reason_str is None,
        r.client_first_name is None,
        r.client_last_name is None,
        r.date_requested is None,
        r.request_note is None,
        r.other_visit is None,
        r.elder_care_visit is None,
        r.hospital_visit is None,
        r.prison_visit is None,
        r.telephone_visit is None,
        r.church_pantry_visit is None,
        r.visit_assigned_to_member_id_secondary is None,
        r.visit_hours_in_service is None,
        r.visit_scheduled_time is None,
        r.people_helped_override is None,
        r.referred_to_agency is None,
        r.referred_to_conference is None,
        r.referred_from_organization_id is None,
        r.referral_note is None,
{
    UpdateRequestInput {
        status: Some(String::from_str("Completed")),
        request_assigned_to_member_id: Some(String::from_str(member_id)),
        home_visit_required: Some(true),
        home_visit_cnt: Some(String::from_str("1")),
        visit_completed: Some(true),
        visit_assigned_to_member_id: Some(String::from_str(member_id)),
        visit_mileage_in_service: Some(String::from_str("5")),
        visit_scheduled_date: Some(String::from_str(visit_date)),
        visit_notes: Some(String::from_str("<p>Delivered food and gift cards</p>")),
        ..Default::default()
    }
}

/// The two line items appended to one completed request: the food delivery
/// at its standing value, and gift cards at the row's derived amount; both
/// quantity one, dated with the given provision date.
pub fn assistance_inputs_for_row(row: &OpenRequest, date_provided: &str) -> (r: (
    UpdateAssistanceInput,
    UpdateAssistanceInput,
))
    ensures
        r.0.assistance_type_id@ == "16542"@,
        r.0.client_id@ == dec_spec(row.neighbor_id as nat),
        r.0.monetary_value@ == "70"@,
        r.0.quantity@ == "1"@,
        r.0.date_provided@ == date_provided@,
        r.0.check_requested == false,
        r.1.assistance_type_id@ == "16522"@,
        r.1.client_id@ == dec_spec(row.neighbor_id as nat),
        r.1.monetary_value@ == dec_spec(row.gift_card_dollars as nat),
        r.1.quantity@ == "1"@,
        r.1.date_provided@ == date_provided@,
        r.1.check_requested == false,
{
    let client_id = dec_u64(row.neighbor_id);
    let food = UpdateAssistanceInput::new(
        "16542",
        client_id.as_str(),
        "70",
        "1",
        date_provided,
    );
    let dollars = dec_u32(row.gift_card_dollars);
    let cards = UpdateAssistanceInput::new(
        "16522",
        client_id.as_str(),
        dollars.as_str(),
        "1",
        date_provided,
    );
    (food, cards)
}

/// One row's outcome in a batch report: the row's identifier together
/// with what happened, so the operator can correct and re-run.
#[derive(Debug, Clone, Copy, PartialEq, Eq, Structural)]
pub struct RowOutcome {
    pub req_id: u64,
    pub failure: Option<ApiError>,
}

/// One line of the batch report, as text.
pub open spec fn spec_report_line(o: RowOutcome) -> Seq<char> {
    dec_spec(o.req_id as nat) + ": "@ + (match o.failure {
        None => "ok"@,
        Some(e) => e.describe_spec(),
    })
}

/// One line of the batch report: the row's identifier, then "ok" or the
/// failure kind.
pub fn report_line(outcome: &RowOutcome) -> (r: String)
    ensures
        r@ == spec_report_line(*outcome),
{
    let mut line = dec_u64(outcome.req_id);
    line.append(": ");
    match &outcome.failure {
        None => {
            line.append("ok");
        },
        Some(e) => {
            line.append(e.describe().as_str());
        },
    }
    line
}

/// How many of the outcomes failed.
pub open spec fn failure_count(outcomes: Seq<RowOutcome>) -> nat
    decreases outcomes.len(),
{
    if outcomes.len() == 0 {
        0
    } else {
        failure_count(outcomes.drop_first()) + (if outcomes[0].failure is Some {
            1nat
        } else {
            0nat
        })
    }
}

/// The batch report's text: one line per row, in run order.
pub open spec fn spec_report(outcomes: Seq<RowOutcome>) -> Seq<char>
    decreases outcomes.len(),
{
    if outcomes.len() == 0 {
        Seq::<char>::empty()
    } else {
        spec_report_line(outcomes[0]) + seq!['\n'] + spec_report(outcomes.drop_first())
    }
}

/// Aggregates a run's outcomes into the report the operator reviews:
/// every row named with what happened to it, plus how many rows failed.
#[verifier::loop_isolation(false)]
pub fn batch_report(outcomes: &Vec<RowOutcome>) -> (r: (String, usize))
    ensures
        r.0@ == spec_report(outcomes@),
        r.1 as nat == failure_count(outcomes@),
{
    let mut text = String::new();
    let mut failed: usize = 0;
    let mut i: usize = 0;
    proof {
        assert(outcomes@.subrange(0, outcomes@.len() as int) =~= outcomes@);
        assert(text@ + spec_report(outcomes@) =~= spec_report(outcomes@));
    }
    while i < outcomes.len()
        invariant
            0 <= i <= outcomes@.len(),
            text@ + spec_report(outcomes@.subrange(i as int, outcomes@.len() as int))
                == spec_report(outcomes@),
            failed as nat + failure_count(
                outcomes@.subrange(i as int, outcomes@.len() as int),
            ) == failure_count(outcomes@),
            failed <= i,
        decreases outcomes@.len() - i,
    {
        let ghost suffix = outcomes@.subrange(i as int, outcomes@.len() as int);
        let ghost prev = text@;
        let line = report_line(&outcomes[i]);
        text.append(line.as_str());
        text.append("\n");
        if outcomes[i].failure.is_some() {
            failed += 1;
        }
        proof {
            reveal_strlit("\n");
            assert("\n"@ =~= seq!['\n']);
            assert(suffix.drop_first() =~= outcomes@.subrange(i + 1, outcomes@.len() as int));
            assert(suffix[0] == outcomes@[i as int]);
            assert(text@ =~= prev + (spec_report_line(suffix[0]) + seq!['\n']));
            assert(spec_report(suffix) == spec_report_line(suffix[0]) + seq!['\n']
                + spec_report(suffix.drop_first()));
            assert(spec_report_line(suffix[0]) + seq!['\n'] + spec_report(suffix.drop_first())
                =~= (spec_report_line(suffix[0]) + seq!['\n']) + spec_report(
                suffix.drop_first(),
            ));
            vstd::seq_lib::lemma_concat_associative(
                prev,
                spec_report_line(suffix[0]) + seq!['\n'],
                spec_report(suffix.drop_first()),
            );
        }
        i += 1;
    }
    proof {
        assert(outcomes@.subrange(outcomes@.len() as int, outcomes@.len() as int) =~= Seq::<
            RowOutcome,
        >::empty());
        assert(text@ + Seq::<char>::empty() =~= text@);
    }
    (text, failed)
}

} // verus!
