use svdp::errors::ApiError;
use svdp::members::Member;
use svdp::members::members_from_options;
use svdp::members::members_from_page;

/// A detail view with one placeholder option and two named options yields
/// exactly two entries, in document order.  (This also exercises the
/// outside HTML parser: a wrapper handing its argument back unchanged
/// would find no options at all.)
#[test]
fn two_members_in_document_order() {
    let html = "<html><body>\
        <select id=\"requestAssignedToMemberId\">\
          <option value=\"\">-- Select --</option>\
          <option value=\"8812\"> Ada Lovelace </option>\
          <option value=\"8813\">Grace Hopper</option>\
        </select>\
        </body></html>";
    let members = members_from_page(html).expect("two real options");
    assert_eq!(
        members,
        vec![
            Member { id: "8812".to_string(), name: "Ada Lovelace".to_string() },
            Member { id: "8813".to_string(), name: "Grace Hopper".to_string() },
        ]
    );
}

/// Only other controls on the page: nothing under the assignment control
/// is a structural failure.
#[test]
fn missing_control_is_not_found() {
    let html = "<html><body><select id=\"other\">\
        <option value=\"1\">x</option></select></body></html>";
    assert_eq!(members_from_page(html), Err(ApiError::NotFound));
}

/// A placeholder-only list is a structural failure, surfaced distinctly
/// from a transport problem.
#[test]
fn placeholder_only_is_not_found() {
    let html = "<select id=\"requestAssignedToMemberId\">\
        <option value=\"\">-- Select --</option>\
        <option value=\"   \">spaces only</option>\
        </select>";
    assert_eq!(members_from_page(html), Err(ApiError::NotFound));
}

/// The selection rule itself: placeholder dropped, values and names
/// trimmed, order kept.
#[test]
fn selection_rule_on_raw_options() {
    let options = vec![
        ("".to_string(), "-- Select --".to_string()),
        (" 21 ".to_string(), "\tFirst Person\n".to_string()),
        ("22".to_string(), "Second Person".to_string()),
    ];
    let members = members_from_options(&options).expect("two entries");
    assert_eq!(members.len(), 2);
    assert_eq!(members[0].id, "21");
    assert_eq!(members[0].name, "First Person");
    assert_eq!(members[1].id, "22");
    assert_eq!(members[1].name, "Second Person");
}
