use svdp::batch::OpenRequest;
use svdp::batchfile::batch_rows_from_text;
use svdp::batchfile::members_to_csv_text;
use svdp::batchfile::rows_to_batch_text;
use svdp::errors::ApiError;
use svdp::members::Member;

fn row(id: u64, first: &str, last: &str, address: &str) -> OpenRequest {
    OpenRequest {
        req_id: id,
        req_date_created: "11/02/2025".to_string(),
        req_status: "Open".to_string(),
        req_calculated_household_count: 3,
        merged_address: address.to_string(),
        gift_card_dollars: 70,
        neighbor_id: id * 10,
        neighbor_first_name: first.to_string(),
        neighbor_last_name: last.to_string(),
        neighbor_last_request_date: "10/10/2024".to_string(),
    }
}

/// Round trip: exporting a row set and re-reading it reproduces every
/// field byte for byte, including fields that need quoting.
#[test]
fn round_trip_reproduces_rows() {
    let rows = vec![
        row(42, "Ada", "Lovelace", "12 Elm St Apt 3, Springfield, TN"),
        row(51, "Grace \"Amazing\" Hopper", "Hopper,", "1 Navy\nYard, Arlington, VA"),
        row(55, "Carriage\rReturn", "Quote\"", ",leading comma"),
        row(60, "", "O'Shea", ""),
    ];
    let text = rows_to_batch_text(&rows);
    let back = batch_rows_from_text(&text).expect("round trip must parse");
    assert_eq!(back, rows);

    // And writing again yields the same bytes: replay is idempotent.
    let text2 = rows_to_batch_text(&back);
    assert_eq!(text2, text);
}

/// The file's exact shape for a simple row.
#[test]
fn writes_expected_text() {
    let rows = vec![row(42, "Ada", "Lovelace", "12 Elm St Apt 3, Springfield, TN")];
    let text = rows_to_batch_text(&rows);
    let expected = "req_id,req_date_created,req_status,req_calculated_household_count,\
                    merged_address,gift_card_dollars,neighbor_id,neighbor_first_name,\
                    neighbor_last_name,neighbor_last_request_date\n\
                    42,11/02/2025,Open,3,\"12 Elm St Apt 3, Springfield, TN\",70,420,\
                    Ada,Lovelace,10/10/2024\n";
    assert_eq!(text, expected);
}

/// A file with the header but no rows is invalid local input.
#[test]
fn empty_batch_file_is_validation_error() {
    let text = rows_to_batch_text(&Vec::new());
    assert_eq!(batch_rows_from_text(&text), Err(ApiError::Validation));
}

/// A wrong header is a schema mismatch.
#[test]
fn wrong_header_is_schema_error() {
    assert_eq!(batch_rows_from_text("id,name\n1,x\n"), Err(ApiError::Schema));
}

/// A numeric field that does not denote an in-range value is a schema
/// mismatch.
#[test]
fn bad_number_is_schema_error() {
    let rows = vec![row(42, "Ada", "Lovelace", "addr")];
    let text = rows_to_batch_text(&rows).replace("42,", "fortytwo,");
    assert_eq!(batch_rows_from_text(&text), Err(ApiError::Schema));
}

/// A line with too few fields is a schema mismatch.
#[test]
fn short_line_is_schema_error() {
    let mut text = rows_to_batch_text(&Vec::new());
    text.push_str("1,2,3\n");
    assert_eq!(batch_rows_from_text(&text), Err(ApiError::Schema));
}

/// The member list's file: header plus one line per member, quoted where
/// needed.
#[test]
fn member_list_text() {
    let members = vec![
        Member { id: "8812".to_string(), name: "Ada Lovelace".to_string() },
        Member { id: "8813".to_string(), name: "Hopper, Grace".to_string() },
    ];
    let text = members_to_csv_text(&members);
    assert_eq!(text, "id,name\n8812,Ada Lovelace\n8813,\"Hopper, Grace\"\n");
}
