use svdp::assistance::UpdateAssistanceInput;
use svdp::assistance::build_assistance_form;
use svdp::batch::OpenRequest;
use svdp::batch::RowOutcome;
use svdp::batch::assistance_inputs_for_row;
use svdp::batch::batch_report;
use svdp::batch::completion_overrides;
use svdp::batch::gift_card_dollars;
use svdp::batch::report_line;
use svdp::batch::row_from_record;
use svdp::endpoints::assistance_item_url;
use svdp::endpoints::extend_session_url;
use svdp::endpoints::list_url;
use svdp::endpoints::login_url;
use svdp::endpoints::request_url;
use svdp::endpoints::url;
use svdp::errors::ApiError;
use svdp::query::FetchRequestsParams;
use svdp::query::build_fetch_query;
use svdp::record::Client;
use svdp::record::Record;
use svdp::session::LoginError;
use svdp::session::fetch_outcome;
use svdp::session::login_body_indicates_failure;
use svdp::session::login_outcome;
use svdp::session::post_outcome;
use svdp::text::contains_sub;
use svdp::text::dec_u64;
use svdp::text::parse_u32;
use svdp::text::parse_u64;
use svdp::text::trim;

fn p(k: &str, v: &str) -> (String, String) {
    (k.to_string(), v.to_string())
}

#[test]
fn decimal_round_trip() {
    assert_eq!(dec_u64(0), "0");
    assert_eq!(dec_u64(42), "42");
    assert_eq!(dec_u64(18446744073709551615), "18446744073709551615");
    assert_eq!(parse_u64("18446744073709551615"), Some(18446744073709551615));
    assert_eq!(parse_u64("18446744073709551616"), None);
    assert_eq!(parse_u64(""), None);
    assert_eq!(parse_u64("12a"), None);
    assert_eq!(parse_u32("4294967295"), Some(4294967295));
    assert_eq!(parse_u32("4294967296"), None);
    assert_eq!(parse_u64(&dec_u64(90210)), Some(90210));
}

#[test]
fn trim_and_contains() {
    assert_eq!(trim("  a b \t\n"), "a b");
    assert_eq!(trim(""), "");
    assert_eq!(trim(" \r\n "), "");
    assert!(contains_sub("https://host/security/login?x=1", "/security/login"));
    assert!(!contains_sub("https://host/app/home", "/security/login"));
    assert!(contains_sub("abc", ""));
}

#[test]
fn endpoint_urls() {
    assert_eq!(url("/x"), "https://www.servware.org/x");
    assert_eq!(login_url(), "https://www.servware.org/security/login");
    assert_eq!(list_url(), "https://www.servware.org/app/assistancerequests/list");
    assert_eq!(request_url(42), "https://www.servware.org/app/assistancerequests/42");
    assert_eq!(
        assistance_item_url(42),
        "https://www.servware.org/app/assistancerequests/42/assistanceitems/new"
    );
    assert_eq!(extend_session_url(), "https://www.servware.org/security/extendSession");
}

#[test]
fn session_outcomes() {
    assert_eq!(login_outcome("https://www.servware.org/app/home", 200), Ok(()));
    assert_eq!(
        login_outcome("https://www.servware.org/security/login", 200),
        Err(LoginError::BadCredentials)
    );
    assert_eq!(
        login_outcome("https://www.servware.org/app/home", 500),
        Err(LoginError::Transport { status: 500 })
    );
    assert_eq!(post_outcome(200), Ok(()));
    assert_eq!(post_outcome(302), Ok(()));
    assert_eq!(post_outcome(500), Err(ApiError::Transport { status: 500 }));
    assert_eq!(fetch_outcome(200), Ok(()));
    assert_eq!(fetch_outcome(302), Err(ApiError::Transport { status: 302 }));
    assert!(login_body_indicates_failure("<div class=\"login_error\">bad</div>"));
    assert!(login_body_indicates_failure("Invalid credentials, try again"));
    assert!(!login_body_indicates_failure("<html>welcome</html>"));
}

#[test]
fn gift_card_table() {
    assert_eq!(gift_card_dollars(0), 50);
    assert_eq!(gift_card_dollars(1), 50);
    assert_eq!(gift_card_dollars(2), 60);
    assert_eq!(gift_card_dollars(3), 70);
    assert_eq!(gift_card_dollars(4), 80);
    assert_eq!(gift_card_dollars(5), 90);
    assert_eq!(gift_card_dollars(6), 100);
    assert_eq!(gift_card_dollars(250), 100);
}

#[test]
fn row_projection() {
    let record = Record {
        id: 42,
        date_created: "11/02/2025".to_string(),
        status: "Open".to_string(),
        denial_reason: None,
        date_requested: "12/01/2025".to_string(),
        request_note: String::new(),
        street_address_line1: "12 Elm St".to_string(),
        street_address_line2: "Apt 3".to_string(),
        city: "Springfield".to_string(),
        state_code: "TN".to_string(),
        calculated_household_count: 5,
        home_visit_required: false,
        other_visit: false,
        elder_care_visit: false,
        hospital_visit: false,
        prison_visit: false,
        telephone_visit: false,
        church_pantry_visit: false,
        home_visit_cnt: None,
        visit_completed: false,
        visit_mileage_hrs_in_svc: None,
        visit_scheduled_date: None,
        people_helped_override: None,
        visit_notes: String::new(),
        referred_to_agency: false,
        referred_to_conference: false,
        referral_note: String::new(),
        client: Client {
            id: 7,
            first_name: "Ada".to_string(),
            last_name: "Lovelace".to_string(),
            last_request_date: "10/10/2024".to_string(),
        },
    };
    let row = row_from_record(&record);
    assert_eq!(row.req_id, 42);
    assert_eq!(row.merged_address, "12 Elm St Apt 3, Springfield, TN");
    assert_eq!(row.gift_card_dollars, 90);
    assert_eq!(row.neighbor_id, 7);
    assert_eq!(row.neighbor_first_name, "Ada");
}

#[test]
fn completion_override_fields() {
    let input = completion_overrides("8812", "01/01/2030");
    assert_eq!(input.status.as_deref(), Some("Completed"));
    assert_eq!(input.request_assigned_to_member_id.as_deref(), Some("8812"));
    assert_eq!(input.home_visit_required, Some(true));
    assert_eq!(input.home_visit_cnt.as_deref(), Some("1"));
    assert_eq!(input.visit_completed, Some(true));
    assert_eq!(input.visit_assigned_to_member_id.as_deref(), Some("8812"));
    assert_eq!(input.visit_mileage_in_service.as_deref(), Some("5"));
    assert_eq!(input.visit_scheduled_date.as_deref(), Some("01/01/2030"));
    assert_eq!(input.visit_notes.as_deref(), Some("<p>Delivered food and gift cards</p>"));
    assert_eq!(input.denial_reason_id, None);
    assert_eq!(input.referred_to_agency, None);
}

#[test]
fn assistance_items_for_one_row() {
    let row = OpenRequest {
        req_id: 42,
        req_date_created: String::new(),
        req_status: String::new(),
        req_calculated_household_count: 3,
        merged_address: String::new(),
        gift_card_dollars: 70,
        neighbor_id: 7,
        neighbor_first_name: String::new(),
        neighbor_last_name: String::new(),
        neighbor_last_request_date: String::new(),
    };
    let (food, cards) = assistance_inputs_for_row(&row, "01/01/2030");
    assert_eq!(food.assistance_type_id, "16542");
    assert_eq!(food.client_id, "7");
    assert_eq!(food.monetary_value, "70");
    assert_eq!(food.quantity, "1");
    assert_eq!(food.date_provided, "01/01/2030");
    assert!(!food.check_requested);
    assert_eq!(cards.assistance_type_id, "16522");
    assert_eq!(cards.client_id, "7");
    assert_eq!(cards.monetary_value, "70");
    assert_eq!(cards.quantity, "1");
}

#[test]
fn assistance_form_shape() {
    let input = UpdateAssistanceInput::new("16542", "7", "70", "1", "01/01/2030");
    let form = build_assistance_form(&input);
    let expected = vec![
        p("assistanceTypeId", "16542"),
        p("clientId", "7"),
        p("housingProviderId", ""),
        p("vendorId", ""),
        p("utilityId", ""),
        p("clientAccountId", ""),
        p("clientAccountName", ""),
        p("clientAccountNumber", ""),
        p("clientAccountHolder", ""),
        p("specialProgramId", ""),
        p("inKindSubType", ""),
        p("monetaryValue", "70"),
        p("accountId", ""),
        p("quantity", "1"),
        p("dateProvided", "01/01/2030"),
        p("voucherAsstId", ""),
        p("_pending", "on"),
        p("promisedDate", ""),
        p("_checkRequested", "on"),
        p("datePaid", ""),
        p("checkNumber", ""),
        p("payeeName", ""),
        p("notes", ""),
        p("councilPaymentValue", ""),
        p("councilCheckConfNumber", ""),
        p("districtPaymentValue", ""),
        p("districtCheckConfNumber", ""),
        p("otherPaymentValue", ""),
        p("otherCheckConfNumber", ""),
        p("action", "save"),
    ];
    assert_eq!(form, expected);

    let mut with_check = UpdateAssistanceInput::new("16542", "7", "70", "1", "01/01/2030");
    with_check.check_requested = true;
    let form2 = build_assistance_form(&with_check);
    assert!(form2.contains(&p("checkRequested", "true")));
    assert_eq!(form2.len(), form.len() + 1);
}

#[test]
fn fetch_query_parameters() {
    let params = FetchRequestsParams::new_open_asc();
    assert_eq!(params.display_start, 0);
    assert_eq!(params.display_length, 100);
    assert_eq!(params.sort_col, 3);
    assert_eq!(params.sort_dir, "asc");
    assert_eq!(params.filter_by_status, "Open");

    let q = build_fetch_query(&params, "1700000000000");
    assert_eq!(q.len(), 39);
    assert_eq!(q[0], p("sEcho", "1"));
    assert_eq!(q[3], p("iDisplayStart", "0"));
    assert_eq!(q[4], p("iDisplayLength", "100"));
    assert_eq!(q[17], p("iSortCol_0", "3"));
    assert_eq!(q[18], p("sSortDir_0", "asc"));
    assert_eq!(q[34], p("filterByStatus", "Open"));
    assert_eq!(q[38], p("_", "1700000000000"));
}

#[test]
fn batch_report_aggregates() {
    let outcomes = vec![
        RowOutcome { req_id: 42, failure: None },
        RowOutcome { req_id: 43, failure: Some(ApiError::Transport { status: 500 }) },
        RowOutcome { req_id: 44, failure: None },
    ];
    let (report, failed) = batch_report(&outcomes);
    assert_eq!(report, "42: ok\n43: transport failure\n44: ok\n");
    assert_eq!(failed, 1);
    let (empty_report, none_failed) = batch_report(&Vec::new());
    assert_eq!(empty_report, "");
    assert_eq!(none_failed, 0);
}

#[test]
fn batch_report_lines() {
    let ok = RowOutcome { req_id: 42, failure: None };
    assert_eq!(report_line(&ok), "42: ok");
    let bad = RowOutcome { req_id: 43, failure: Some(ApiError::Transport { status: 500 }) };
    assert_eq!(report_line(&bad), "43: transport failure");
    let nf = RowOutcome { req_id: 44, failure: Some(ApiError::NotFound) };
    assert_eq!(report_line(&nf), "44: expected content missing");
    let schema = RowOutcome { req_id: 45, failure: Some(ApiError::Schema) };
    assert_eq!(report_line(&schema), "45: schema mismatch");
    let val = RowOutcome { req_id: 46, failure: Some(ApiError::Validation) };
    assert_eq!(report_line(&val), "46: invalid local input");
}
