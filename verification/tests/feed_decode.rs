use svdp::errors::ApiError;
use svdp::record::decode_feed;
use svdp::record::find_request;

fn one_record_feed(record_json: &str) -> String {
    format!(
        "{{\"sEcho\":1,\"iTotalRecords\":1,\"iTotalDisplayRecords\":1,\"aaData\":[{record_json}]}}"
    )
}

/// A full record decodes with exact values (this also exercises the
/// outside JSON parser: a wrapper that handed the text back unchanged
/// would decode nothing).
#[test]
fn decodes_full_record() {
    let body = one_record_feed(
        "{\"id\":42,\"dateCreated\":\"11/02/2025\",\"status\":\"Open\",\
         \"denialReason\":\"Duplicate request\",\
         \"dateRequested\":\"12/01/2025\",\"requestNote\":\"call first\",\
         \"streetAddressLine1\":\"12 Elm St\",\"streetAddressLine2\":\"Apt 3\",\
         \"city\":\"Springfield\",\"stateCode\":\"TN\",\
         \"calculatedHouseholdCount\":4,\"homeVisitRequired\":true,\
         \"otherVisit\":false,\"elderCareVisit\":false,\"hospitalVisit\":false,\
         \"prisonVisit\":false,\"telephoneVisit\":false,\"churchPantryVisit\":false,\
         \"homeVisitCnt\":2,\"visitCompleted\":false,\
         \"visitMileageHrsInSvc\":5.5,\"visitScheduledDate\":\"01/01/2030\",\
         \"peopleHelpedOverride\":6,\"visitNotes\":\"vn\",\
         \"referredToAgency\":false,\"referredToConference\":true,\
         \"referralNote\":\"rn\",\
         \"client\":{\"id\":7,\"firstName\":\"Ada\",\"lastName\":\"Lovelace\",\
         \"lastRequestDate\":\"10/10/2024\"}}",
    );
    let resp = decode_feed(&body).expect("must decode");
    assert_eq!(resp.s_echo, 1);
    assert_eq!(resp.i_total_records, 1);
    assert_eq!(resp.i_total_display_records, 1);
    assert_eq!(resp.aa_data.len(), 1);
    let r = &resp.aa_data[0];
    assert_eq!(r.id, 42);
    assert_eq!(r.status, "Open");
    assert_eq!(r.denial_reason.as_deref(), Some("Duplicate request"));
    assert_eq!(r.date_requested, "12/01/2025");
    assert_eq!(r.calculated_household_count, 4);
    assert!(r.home_visit_required);
    assert!(!r.visit_completed);
    assert_eq!(r.home_visit_cnt, Some(2));
    assert_eq!(r.visit_mileage_hrs_in_svc.as_deref(), Some("5.5"));
    assert_eq!(r.visit_scheduled_date.as_deref(), Some("01/01/2030"));
    assert_eq!(r.people_helped_override, Some(6));
    assert!(r.referred_to_conference);
    assert_eq!(r.client.id, 7);
    assert_eq!(r.client.first_name, "Ada");
    assert_eq!(r.client.last_request_date, "10/10/2024");
}

/// Null-leniency: a record payload missing an optional field entirely, or
/// carrying an explicit null for it, decodes without error using the
/// field's documented default.
#[test]
fn null_and_missing_fields_decode_to_defaults() {
    // Explicit nulls for some fields, others missing entirely.
    let body = one_record_feed(
        "{\"id\":5,\"status\":null,\"homeVisitCnt\":null,\
         \"visitMileageHrsInSvc\":null,\"client\":null}",
    );
    let resp = decode_feed(&body).expect("lenient decode");
    let r = &resp.aa_data[0];
    assert_eq!(r.id, 5);
    assert_eq!(r.status, "");
    assert_eq!(r.denial_reason, None);
    assert_eq!(r.date_requested, "");
    assert_eq!(r.calculated_household_count, 0);
    assert!(!r.home_visit_required);
    assert_eq!(r.home_visit_cnt, None);
    assert_eq!(r.visit_mileage_hrs_in_svc, None);
    assert_eq!(r.visit_scheduled_date, None);
    assert_eq!(r.people_helped_override, None);
    assert_eq!(r.client.id, 0);
    assert_eq!(r.client.first_name, "");
}

/// A present field of the wrong kind is a schema mismatch, not a default.
#[test]
fn mistyped_field_is_schema_error() {
    let body = one_record_feed("{\"id\":5,\"status\":17}");
    assert_eq!(decode_feed(&body), Err(ApiError::Schema));
}

/// The envelope's counters carry no default: a missing one is a schema
/// mismatch.
#[test]
fn missing_envelope_counter_is_schema_error() {
    let body = "{\"sEcho\":1,\"iTotalRecords\":1,\"aaData\":[]}";
    assert_eq!(decode_feed(body), Err(ApiError::Schema));
}

/// Text that is not JSON at all is a schema mismatch.
#[test]
fn invalid_json_is_schema_error() {
    assert_eq!(decode_feed("<html>error</html>"), Err(ApiError::Schema));
}

/// A null element inside the record array is a schema mismatch: only a
/// record's own fields are null-lenient.
#[test]
fn null_array_element_is_schema_error() {
    let body = "{\"sEcho\":1,\"iTotalRecords\":1,\"iTotalDisplayRecords\":1,\"aaData\":[null]}";
    assert_eq!(decode_feed(body), Err(ApiError::Schema));
}

/// A fractional value where a whole count is expected is a schema
/// mismatch.
#[test]
fn fractional_count_is_schema_error() {
    let body = one_record_feed("{\"id\":5,\"calculatedHouseholdCount\":2.5}");
    assert_eq!(decode_feed(&body), Err(ApiError::Schema));
}

/// The read-modify-write cycle finds its record by id, first match wins.
#[test]
fn find_request_locates_record() {
    let body = format!(
        "{{\"sEcho\":1,\"iTotalRecords\":2,\"iTotalDisplayRecords\":2,\"aaData\":[{},{}]}}",
        "{\"id\":11}", "{\"id\":29}"
    );
    let resp = decode_feed(&body).expect("decode");
    assert_eq!(find_request(&resp.aa_data, 29), Some(1));
    assert_eq!(find_request(&resp.aa_data, 11), Some(0));
    assert_eq!(find_request(&resp.aa_data, 3), None);
}
