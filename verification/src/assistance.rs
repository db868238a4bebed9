//! The assistance append engine.
//!
//! Appending a line item to a record's sub-ledger is pure creation: the
//! form has a fixed shape, reads nothing back, and never touches existing
//! line items.  Optional fields are sent as empty strings to match the
//! browser's own POST.

use vstd::prelude::*;
use vstd::string::*;

use crate::merge::checkbox_pairs;
use crate::merge::field_pair;
use crate::merge::form_view;
use crate::merge::lemma_chunk_step;
use crate::merge::push_checkbox;
use crate::merge::push_pair;

verus! {

/// Fields for one new assistance line item.
///
/// Mirrors the full creation form captured from the remote UI.  Optional
/// and unused fields are sent as empty strings.
#[derive(Debug, Clone, PartialEq, Eq)]
pub struct UpdateAssistanceInput {
    // Required
    pub assistance_type_id: String,
    pub client_id: String,
    pub monetary_value: String,
    pub quantity: String,
    pub date_provided: String,
    // Optional
    pub notes: String,
    pub client_account_name: String,
    pub client_account_holder: String,
    pub client_account_number: String,
    pub payee_name: String,
    pub check_requested: bool,
}

impl UpdateAssistanceInput {
    /// A new input with the required fields set and every optional field
    /// at its empty default.
    pub fn new(
        assistance_type_id: &str,
        client_id: &str,
        monetary_value: &str,
        quantity: &str,
        date_provided: &str,
    ) -> (r: Self)
        ensures
            r.assistance_type_id@ == assistance_type_id@,
            r.client_id@ == client_id@,
            r.monetary_value@ == monetary_value@,
            r.quantity@ == quantity@,
            r.date_provided@ == date_provided@,
            r.notes@ == Seq::<char>::empty(),
            r.client_account_name@ == Seq::<char>::empty(),
            r.client_account_holder@ == Seq::<char>::empty(),
            r.client_account_number@ == Seq::<char>::empty(),
            r.payee_name@ == Seq::<char>::empty(),
            r.check_requested == false,
    {
        UpdateAssistanceInput {
            assistance_type_id: String::from_str(assistance_type_id),
            client_id: String::from_str(client_id),
            monetary_value: String::from_str(monetary_value),
            quantity: String::from_str(quantity),
            date_provided: String::from_str(date_provided),
            notes: String::new(),
            client_account_name: String::new(),
            client_account_holder: String::new(),
            client_account_number: String::new(),
            payee_name: String::new(),
            check_requested: false,
        }
    }
}

/// The leading half of the creation form: account and value fields.
pub open spec fn assistance_head_chunks(i: UpdateAssistanceInput) -> Seq<
    Seq<(Seq<char>, Seq<char>)>,
> {
    seq![
        field_pair("assistanceTypeId"@, i.assistance_type_id@),
        field_pair("clientId"@, i.client_id@),
        field_pair("housingProviderId"@, Seq::<char>::empty()),
        field_pair("vendorId"@, Seq::<char>::empty()),
        field_pair("utilityId"@, Seq::<char>::empty()),
        field_pair("clientAccountId"@, Seq::<char>::empty()),
        field_pair("clientAccountName"@, i.client_account_name@),
        field_pair("clientAccountNumber"@, i.client_account_number@),
        field_pair("clientAccountHolder"@, i.client_account_holder@),
        field_pair("specialProgramId"@, Seq::<char>::empty()),
        field_pair("inKindSubType"@, Seq::<char>::empty()),
        field_pair("monetaryValue"@, i.monetary_value@),
        field_pair("accountId"@, Seq::<char>::empty()),
        field_pair("quantity"@, i.quantity@),
        field_pair("dateProvided"@, i.date_provided@),
        field_pair("voucherAsstId"@, Seq::<char>::empty()),
        field_pair("_pending"@, "on"@),
        field_pair("promisedDate"@, Seq::<char>::empty()),
    ]
}

/// The trailing half: the check-request checkbox and payment metadata.
pub open spec fn assistance_tail_chunks(i: UpdateAssistanceInput) -> Seq<
    Seq<(Seq<char>, Seq<char>)>,
> {
    seq![
        checkbox_pairs("checkRequested"@, i.check_requested),
        field_pair("datePaid"@, Seq::<char>::empty()),
        field_pair("checkNumber"@, Seq::<char>::empty()),
        field_pair("payeeName"@, i.payee_name@),
        field_pair("notes"@, i.notes@),
        field_pair("councilPaymentValue"@, Seq::<char>::empty()),
        field_pair("councilCheckConfNumber"@, Seq::<char>::empty()),
        field_pair("districtPaymentValue"@, Seq::<char>::empty()),
        field_pair("districtCheckConfNumber"@, Seq::<char>::empty()),
        field_pair("otherPaymentValue"@, Seq::<char>::empty()),
        field_pair("otherCheckConfNumber"@, Seq::<char>::empty()),
        field_pair("action"@, "save"@),
    ]
}

/// The complete creation payload for one line item.
pub open spec fn spec_assistance_form(i: UpdateAssistanceInput) -> Seq<(Seq<char>, Seq<char>)> {
    (assistance_head_chunks(i) + assistance_tail_chunks(i)).flatten_alt()
}

fn push_assistance_head(f: &mut Vec<(String, String)>, input: &UpdateAssistanceInput)
    ensures
        form_view(final(f)@) == form_view(old(f)@) + assistance_head_chunks(*input).flatten_alt(),
{
    let ghost base = form_view(f@);
    let ghost ch = assistance_head_chunks(*input);
    push_pair(f, "assistanceTypeId", input.assistance_type_id.clone());
    proof {
        lemma_chunk_step(ch, 1);
        assert(ch.subrange(0, 0).flatten_alt() + ch[0] =~= ch[0]);
        assert(form_view(f@) == base + ch.subrange(0, 1).flatten_alt());
    }
    push_pair(f, "clientId", input.client_id.clone());
    proof {
        lemma_chunk_step(ch, 2);
        vstd::seq_lib::lemma_concat_associative(base, ch.subrange(0, 1).flatten_alt(), ch[1]);
        assert(form_view(f@) == base + ch.subrange(0, 2).flatten_alt());
    }
    push_pair(f, "housingProviderId", String::new());
    proof {
        lemma_chunk_step(ch, 3);
        vstd::seq_lib::lemma_concat_associative(base, ch.subrange(0, 2).flatten_alt(), ch[2]);
        assert(form_view(f@) == base + ch.subrange(0, 3).flatten_alt());
    }
    push_pair(f, "vendorId", String::new());
    proof {
        lemma_chunk_step(ch, 4);
        vstd::seq_lib::lemma_concat_associative(base, ch.subrange(0, 3).flatten_alt(), ch[3]);
        assert(form_view(f@) == base + ch.subrange(0, 4).flatten_alt());
    }
    push_pair(f, "utilityId", String::new());
    proof {
        lemma_chunk_step(ch, 5);
        vstd::seq_lib::lemma_concat_associative(base, ch.subrange(0, 4).flatten_alt(), ch[4]);
        assert(form_view(f@) == base + ch.subrange(0, 5).flatten_alt());
    }
    push_pair(f, "clientAccountId", String::new());
    proof {
        lemma_chunk_step(ch, 6);
        vstd::seq_lib::lemma_concat_associative(base, ch.subrange(0, 5).flatten_alt(), ch[5]);
        assert(form_view(f@) == base + ch.subrange(0, 6).flatten_alt());
    }
    push_pair(f, "clientAccountName", input.client_account_name.clone());
    proof {
        lemma_chunk_step(ch, 7);
        vstd::seq_lib::lemma_concat_associative(base, ch.subrange(0, 6).flatten_alt(), ch[6]);
        assert(form_view(f@) == base + ch.subrange(0, 7).flatten_alt());
    }
    push_pair(f, "clientAccountNumber", input.client_account_number.clone());
    proof {
        lemma_chunk_step(ch, 8);
        vstd::seq_lib::lemma_concat_associative(base, ch.subrange(0, 7).flatten_alt(), ch[7]);
        assert(form_view(f@) == base + ch.subrange(0, 8).flatten_alt());
    }
    push_pair(f, "clientAccountHolder", input.client_account_holder.clone());
    proof {
        lemma_chunk_step(ch, 9);
        vstd::seq_lib::lemma_concat_associative(base, ch.subrange(0, 8).flatten_alt(), ch[8]);
        assert(form_view(f@) == base + ch.subrange(0, 9).flatten_alt());
    }
    push_pair(f, "specialProgramId", String::new());
    proof {
        lemma_chunk_step(ch, 10);
        vstd::seq_lib::lemma_concat_associative(base, ch.subrange(0, 9).flatten_alt(), ch[9]);
        assert(form_view(f@) == base + ch.subrange(0, 10).flatten_alt());
    }
    push_pair(f, "inKindSubType", String::new());
    proof {
        lemma_chunk_step(ch, 11);
        vstd::seq_lib::lemma_concat_associative(base, ch.subrange(0, 10).flatten_alt(), ch[10]);
        assert(form_view(f@) == base + ch.subrange(0, 11).flatten_alt());
    }
    push_pair(f, "monetaryValue", input.monetary_value.clone());
    proof {
        lemma_chunk_step(ch, 12);
        vstd::seq_lib::lemma_concat_associative(base, ch.subrange(0, 11).flatten_alt(), ch[11]);
        assert(form_view(f@) == base + ch.subrange(0, 12).flatten_alt());
    }
    push_pair(f, "accountId", String::new());
    proof {
        lemma_chunk_step(ch, 13);
        vstd::seq_lib::lemma_concat_associative(base, ch.subrange(0, 12).flatten_alt(), ch[12]);
        assert(form_view(f@) == base + ch.subrange(0, 13).flatten_alt());
    }
    push_pair(f, "quantity", input.quantity.clone());
    proof {
        lemma_chunk_step(ch, 14);
        vstd::seq_lib::lemma_concat_associative(base, ch.subrange(0, 13).flatten_alt(), ch[13]);
        assert(form_view(f@) == base + ch.subrange(0, 14).flatten_alt());
    }
    push_pair(f, "dateProvided", input.date_provided.clone());
    proof {
        lemma_chunk_step(ch, 15);
        vstd::seq_lib::lemma_concat_associative(base, ch.subrange(0, 14).flatten_alt(), ch[14]);
        assert(form_view(f@) == base + ch.subrange(0, 15).flatten_alt());
    }
    push_pair(f, "voucherAsstId", String::new());
    proof {
        lemma_chunk_step(ch, 16);
        vstd::seq_lib::lemma_concat_associative(base, ch.subrange(0, 15).flatten_alt(), ch[15]);
        assert(form_view(f@) == base + ch.subrange(0, 16).flatten_alt());
    }
    push_pair(f, "_pending", String::from_str("on"));
    proof {
        lemma_chunk_step(ch, 17);
        vstd::seq_lib::lemma_concat_associative(base, ch.subrange(0, 16).flatten_alt(), ch[16]);
        assert(form_view(f@) == base + ch.subrange(0, 17).flatten_alt());
    }
    push_pair(f, "promisedDate", String::new());
    proof {
        lemma_chunk_step(ch, 18);
        vstd::seq_lib::lemma_concat_associative(base, ch.subrange(0, 17).flatten_alt(), ch[17]);
        assert(form_view(f@) == base + ch.subrange(0, 18).flatten_alt());
        assert(ch.subrange(0, 18) =~= ch);
    }
}

fn push_assistance_tail(f: &mut Vec<(String, String)>, input: &UpdateAssistanceInput)
    ensures
        form_view(final(f)@) == form_view(old(f)@) + assistance_tail_chunks(*input).flatten_alt(),
{
    let ghost base = form_view(f@);
    let ghost ch = assistance_tail_chunks(*input);
    push_checkbox(f, "checkRequested", input.check_requested);
    proof {
        lemma_chunk_step(ch, 1);
        assert(ch.subrange(0, 0).flatten_alt() + ch[0] =~= ch[0]);
        assert(form_view(f@) == base + ch.subrange(0, 1).flatten_alt());
    }
    push_pair(f, "datePaid", String::new());
    proof {
        lemma_chunk_step(ch, 2);
        vstd::seq_lib::lemma_concat_associative(base, ch.subrange(0, 1).flatten_alt(), ch[1]);
        assert(form_view(f@) == base + ch.subrange(0, 2).flatten_alt());
    }
    push_pair(f, "checkNumber", String::new());
    proof {
        lemma_chunk_step(ch, 3);
        vstd::seq_lib::lemma_concat_associative(base, ch.subrange(0, 2).flatten_alt(), ch[2]);
        assert(form_view(f@) == base + ch.subrange(0, 3).flatten_alt());
    }
    push_pair(f, "payeeName", input.payee_name.clone());
    proof {
        lemma_chunk_step(ch, 4);
        vstd::seq_lib::lemma_concat_associative(base, ch.subrange(0, 3).flatten_alt(), ch[3]);
        assert(form_view(f@) == base + ch.subrange(0, 4).flatten_alt());
    }
    push_pair(f, "notes", input.notes.clone());
    proof {
        lemma_chunk_step(ch, 5);
        vstd::seq_lib::lemma_concat_associative(base, ch.subrange(0, 4).flatten_alt(), ch[4]);
        assert(form_view(f@) == base + ch.subrange(0, 5).flatten_alt());
    }
    push_pair(f, "councilPaymentValue", String::new());
    proof {
        lemma_chunk_step(ch, 6);
        vstd::seq_lib::lemma_concat_associative(base, ch.subrange(0, 5).flatten_alt(), ch[5]);
        assert(form_view(f@) == base + ch.subrange(0, 6).flatten_alt());
    }
    push_pair(f, "councilCheckConfNumber", String::new());
    proof {
        lemma_chunk_step(ch, 7);
        vstd::seq_lib::lemma_concat_associative(base, ch.subrange(0, 6).flatten_alt(), ch[6]);
        assert(form_view(f@) == base + ch.subrange(0, 7).flatten_alt());
    }
    push_pair(f, "districtPaymentValue", String::new());
    proof {
        lemma_chunk_step(ch, 8);
        vstd::seq_lib::lemma_concat_associative(base, ch.subrange(0, 7).flatten_alt(), ch[7]);
        assert(form_view(f@) == base + ch.subrange(0, 8).flatten_alt());
    }
    push_pair(f, "districtCheckConfNumber", String::new());
    proof {
        lemma_chunk_step(ch, 9);
        vstd::seq_lib::lemma_concat_associative(base, ch.subrange(0, 8).flatten_alt(), ch[8]);
        assert(form_view(f@) == base + ch.subrange(0, 9).flatten_alt());
    }
    push_pair(f, "otherPaymentValue", String::new());
    proof {
        lemma_chunk_step(ch, 10);
        vstd::seq_lib::lemma_concat_associative(base, ch.subrange(0, 9).flatten_alt(), ch[9]);
        assert(form_view(f@) == base + ch.subrange(0, 10).flatten_alt());
    }
    push_pair(f, "otherCheckConfNumber", String::new());
    proof {
        lemma_chunk_step(ch, 11);
        vstd::seq_lib::lemma_concat_associative(base, ch.subrange(0, 10).flatten_alt(), ch[10]);
        assert(form_view(f@) == base + ch.subrange(0, 11).flatten_alt());
    }
    push_pair(f, "action", String::from_str("save"));
    proof {
        lemma_chunk_step(ch, 12);
        vstd::seq_lib::lemma_concat_associative(base, ch.subrange(0, 11).flatten_alt(), ch[11]);
        assert(form_view(f@) == base + ch.subrange(0, 12).flatten_alt());
        assert(ch.subrange(0, 12) =~= ch);
    }
}

/// Builds the fixed-shape creation form for one new line item, exactly as
/// the browser would submit it (empty optional fields included).
pub fn build_assistance_form(input: &UpdateAssistanceInput) -> (r: Vec<(String, String)>)
    ensures
        form_view(r@) == spec_assistance_form(*input),
{
    let mut f: Vec<(String, String)> = Vec::new();
    proof {
        assert(form_view(f@) =~= Seq::<(Seq<char>, Seq<char>)>::empty());
    }
    push_assistance_head(&mut f, input);
    push_assistance_tail(&mut f, input);
    proof {
        let h = assistance_head_chunks(*input);
        let tl = assistance_tail_chunks(*input);
        vstd::seq_lib::lemma_flatten_alt_concat(h, tl);
        assert(Seq::<(Seq<char>, Seq<char>)>::empty() + h.flatten_alt() =~= h.flatten_alt());
        assert(form_view(f@) == (h + tl).flatten_alt());
    }
    f
}

} // verus!
