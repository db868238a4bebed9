use svdp::merge::UpdateRequestInput;
use svdp::merge::build_update_form;
use svdp::record::Client;
use svdp::record::Record;

fn p(k: &str, v: &str) -> (String, String) {
    (k.to_string(), v.to_string())
}

fn sample_record() -> Record {
    Record {
        id: 42,
        date_created: "11/02/2025".to_string(),
        status: "Open".to_string(),
        denial_reason: None,
        date_requested: "12/01/2025".to_string(),
        request_note: "call first".to_string(),
        street_address_line1: "12 Elm St".to_string(),
        street_address_line2: "Apt 3".to_string(),
        city: "Springfield".to_string(),
        state_code: "TN".to_string(),
        calculated_household_count: 4,
        home_visit_required: true,
        other_visit: false,
        elder_care_visit: false,
        hospital_visit: false,
        prison_visit: false,
        telephone_visit: false,
        church_pantry_visit: false,
        home_visit_cnt: Some(2),
        visit_completed: false,
        visit_mileage_hrs_in_svc: Some("5.5".to_string()),
        visit_scheduled_date: None,
        people_helped_override: None,
        visit_notes: "left a message".to_string(),
        referred_to_agency: false,
        referred_to_conference: true,
        referral_note: "sister conference".to_string(),
        client: Client {
            id: 7,
            first_name: "Ada".to_string(),
            last_name: "Lovelace".to_string(),
            last_request_date: "10/10/2024".to_string(),
        },
    }
}

/// With an empty override set the payload is the identity transform on the
/// current record, modulo the form's encoding: every preservable field is
/// copied, identifier-only fields are empty, checkboxes mirror the flags.
#[test]
fn empty_override_reproduces_current_state() {
    let current = sample_record();
    let form = build_update_form(&current, &UpdateRequestInput::default());
    let expected = vec![
        p("status", "Open"),
        p("denialReasonId", ""),
        p("denialReasonStr", ""),
        p("clientFirstName", "Ada"),
        p("clientLastName", "Lovelace"),
        p("dateRequested", "12/01/2025"),
        p("requestAssignedToMemberId", ""),
        p("requestNote", "call first"),
        p("files", ""),
        p("homeVisitRequired", "true"),
        p("_homeVisitRequired", "on"),
        p("_otherVisit", "on"),
        p("_elderCareVisit", "on"),
        p("_hospitalVisit", "on"),
        p("_prisonVisit", "on"),
        p("_telephoneVisit", "on"),
        p("_churchPantryVisit", "on"),
        p("homeVisitCnt", "2"),
        p("_visitCompleted", "on"),
        p("visitAssignedToMemberId", ""),
        p("visitAssignedToMemberIdSecondary", ""),
        p("visitMileageInService", "5.5"),
        p("visitHoursInService", ""),
        p("visitScheduledDate", ""),
        p("visitScheduledTime", ""),
        p("peopleHelpedOverride", ""),
        p("visitNotes", "left a message"),
        p("files", ""),
        p("_referredToAgency", "on"),
        p("referredToConference", "true"),
        p("_referredToConference", "on"),
        p("referredFromOrganizationId", ""),
        p("referralNote", "sister conference"),
    ];
    assert_eq!(form, expected);
}

/// Toggling one checkbox override changes only that field's value-key
/// presence; the marker key is present in both payloads, and every other
/// pair is identical.
#[test]
fn toggling_checkbox_changes_only_value_key() {
    let current = sample_record();
    let mut on = UpdateRequestInput::default();
    on.other_visit = Some(true);
    let mut off = UpdateRequestInput::default();
    off.other_visit = Some(false);

    let form_on = build_update_form(&current, &on);
    let form_off = build_update_form(&current, &off);

    assert_eq!(form_on.len(), form_off.len() + 1);
    assert!(form_on.contains(&p("otherVisit", "true")));
    assert!(!form_off.iter().any(|kv| kv.0 == "otherVisit"));
    assert!(form_on.contains(&p("_otherVisit", "on")));
    assert!(form_off.contains(&p("_otherVisit", "on")));

    // Every pair except the inserted value key is unchanged, in order.
    let without: Vec<_> = form_on
        .iter()
        .filter(|kv| !(kv.0 == "otherVisit" && kv.1 == "true"))
        .cloned()
        .collect();
    assert_eq!(without, form_off);
}

/// A numeric-optional field with no current value and no override renders
/// as the empty string: never "0" and never a textual null.
#[test]
fn absent_numeric_fields_render_empty() {
    let mut current = sample_record();
    current.home_visit_cnt = None;
    current.visit_mileage_hrs_in_svc = None;
    current.people_helped_override = None;
    let form = build_update_form(&current, &UpdateRequestInput::default());
    for key in ["homeVisitCnt", "visitMileageInService", "peopleHelpedOverride"] {
        let value = &form.iter().find(|kv| kv.0 == key).expect("field missing").1;
        assert_eq!(value, "", "field {key} must be empty");
        assert_ne!(value, "0");
        assert_ne!(value, "null");
    }
}

/// The end-to-end completion scenario: status, visit-completed and visit
/// date overridden; everything else copied verbatim from the current
/// record.
#[test]
fn completion_scenario_payload() {
    let current = sample_record();
    assert_eq!(current.status, "Open");
    assert!(!current.visit_completed);

    let mut input = UpdateRequestInput::default();
    input.status = Some("Completed".to_string());
    input.visit_completed = Some(true);
    input.visit_scheduled_date = Some("01/01/2030".to_string());

    let form = build_update_form(&current, &input);
    let expected = vec![
        p("status", "Completed"),
        p("denialReasonId", ""),
        p("denialReasonStr", ""),
        p("clientFirstName", "Ada"),
        p("clientLastName", "Lovelace"),
        p("dateRequested", "12/01/2025"),
        p("requestAssignedToMemberId", ""),
        p("requestNote", "call first"),
        p("files", ""),
        p("homeVisitRequired", "true"),
        p("_homeVisitRequired", "on"),
        p("_otherVisit", "on"),
        p("_elderCareVisit", "on"),
        p("_hospitalVisit", "on"),
        p("_prisonVisit", "on"),
        p("_telephoneVisit", "on"),
        p("_churchPantryVisit", "on"),
        p("homeVisitCnt", "2"),
        p("visitCompleted", "true"),
        p("_visitCompleted", "on"),
        p("visitAssignedToMemberId", ""),
        p("visitAssignedToMemberIdSecondary", ""),
        p("visitMileageInService", "5.5"),
        p("visitHoursInService", ""),
        p("visitScheduledDate", "01/01/2030"),
        p("visitScheduledTime", ""),
        p("peopleHelpedOverride", ""),
        p("visitNotes", "left a message"),
        p("files", ""),
        p("_referredToAgency", "on"),
        p("referredToConference", "true"),
        p("_referredToConference", "on"),
        p("referredFromOrganizationId", ""),
        p("referralNote", "sister conference"),
    ];
    assert_eq!(form, expected);
}

/// The denial reason's text is preserved like any other field the feed
/// reports: kept verbatim without an override, replaced with one.  Only
/// the identifier fields fall in the lossy-merge window.
#[test]
fn denial_reason_text_is_preserved() {
    let mut current = sample_record();
    current.status = "Denied".to_string();
    current.denial_reason = Some("Duplicate request".to_string());

    let kept = build_update_form(&current, &UpdateRequestInput::default());
    assert!(kept.contains(&p("denialReasonStr", "Duplicate request")));
    assert!(kept.contains(&p("denialReasonId", "")));

    let mut input = UpdateRequestInput::default();
    input.denial_reason_str = Some("Moved away".to_string());
    input.denial_reason_id = Some("31".to_string());
    let overridden = build_update_form(&current, &input);
    assert!(overridden.contains(&p("denialReasonStr", "Moved away")));
    assert!(overridden.contains(&p("denialReasonId", "31")));
}

/// String overrides replace the current values exactly.
#[test]
fn string_overrides_replace_values() {
    let current = sample_record();
    let mut input = UpdateRequestInput::default();
    input.client_first_name = Some("Grace".to_string());
    input.request_assigned_to_member_id = Some("8812".to_string());
    let form = build_update_form(&current, &input);
    assert!(form.contains(&p("clientFirstName", "Grace")));
    assert!(form.contains(&p("requestAssignedToMemberId", "8812")));
    assert!(form.contains(&p("clientLastName", "Lovelace")));
}
