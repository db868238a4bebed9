//! The directory resolver.
//!
//! The remote system has no feed for volunteer identifiers: they exist
//! only as `<option>` elements of the assignment control on a record's
//! detail page.  The page is parsed by the outside HTML parser; the
//! library owns the selection rule: trim each option's value and text,
//! drop the placeholder (its value is empty), keep document order, and
//! treat an empty result as a structural failure, not a transient one.

use vstd::prelude::*;
use vstd::string::*;

use crate::errors::ApiError;
use crate::merge::form_view;
use crate::text::trim;
use crate::text::trim_spec;

verus! {

/// An identifier/display-name pair for one assignable volunteer.
#[derive(Debug, Clone, PartialEq, Eq)]
pub struct Member {
    pub id: String,
    pub name: String,
}

/// The id and name each member list carries, as character sequences.
pub open spec fn members_view(ms: Seq<Member>) -> Seq<(Seq<char>, Seq<char>)> {
    ms.map_values(|m: Member| (m.id@, m.name@))
}

/// What the outside HTML parser yields for a detail page: the (value
/// attribute, text) of each option under the assignment control, in
/// document order.
pub uninterp spec fn member_options_of(html: Seq<char>) -> Seq<(Seq<char>, Seq<char>)>;

/// Relies on scraper's Html::parse_document and Selector: collects the
/// value attribute and text of each option of the assignment control, in
/// document order; an option without a value attribute yields an empty
/// value (the selection rule below skips it, as the page's placeholder
/// carries no usable value either way).  The result depends
/// on the document alone.
#[verifier::external_body]
pub fn extract_member_options(html: &str) -> (r: Vec<(String, String)>)
    ensures
        form_view(r@) == member_options_of(html@),
{
    let document = scraper::Html::parse_document(html);
    let selector = match scraper::Selector::parse("select#requestAssignedToMemberId option") {
        Ok(s) => s,
        Err(_) => {
            return Vec::new();
        },
    };
    document
        .select(&selector)
        .map(|el| (el.value().attr("value").unwrap_or("").to_string(), el.text().collect::<String>()))
        .collect()
}

/// The member entries among an option list: values and texts trimmed,
/// options with an empty trimmed value (the "no selection" placeholder)
/// dropped, document order kept.
pub open spec fn member_entries(options: Seq<(Seq<char>, Seq<char>)>) -> Seq<
    (Seq<char>, Seq<char>),
>
    decreases options.len(),
{
    if options.len() == 0 {
        Seq::<(Seq<char>, Seq<char>)>::empty()
    } else {
        let value = trim_spec(options[0].0);
        let rest = member_entries(options.drop_first());
        if value.len() == 0 {
            rest
        } else {
            seq![(value, trim_spec(options[0].1))] + rest
        }
    }
}

/// Selects the member entries from a scraped option list.
///
/// An empty selection is a `NotFound`: the page's structure changed, and
/// that must surface rather than be swallowed.
#[verifier::loop_isolation(false)]
pub fn members_from_options(options: &Vec<(String, String)>) -> (r: Result<Vec<Member>, ApiError>)
    ensures
        r is Ok <==> member_entries(form_view(options@)).len() > 0,
        r matches Ok(ms) ==> members_view(ms@) == member_entries(form_view(options@)),
        r matches Err(e) ==> e == ApiError::NotFound,
{
    let ghost all = form_view(options@);
    let mut out: Vec<Member> = Vec::new();
    let mut i: usize = 0;
    proof {
        assert(all.subrange(0, all.len() as int) =~= all);
        assert(members_view(out@) =~= Seq::<(Seq<char>, Seq<char>)>::empty());
        assert(members_view(out@) + member_entries(all) =~= member_entries(all));
    }
    while i < options.len()
        invariant
            0 <= i <= options@.len(),
            member_entries(all) == members_view(out@) + member_entries(
                all.subrange(i as int, all.len() as int),
            ),
        decreases options@.len() - i,
    {
        let ghost suffix = all.subrange(i as int, all.len() as int);
        proof {
            assert(suffix.drop_first() =~= all.subrange(i + 1, all.len() as int));
            assert(suffix[0] == (options@[i as int].0@, options@[i as int].1@));
        }
        let value = trim(options[i].0.as_str());
        if value.unicode_len() > 0 {
            let name = trim(options[i].1.as_str());
            let ghost prev = members_view(out@);
            let ghost entry = (trim_spec(suffix[0].0), trim_spec(suffix[0].1));
            out.push(Member { id: value, name });
            proof {
                assert(members_view(out@) =~= prev + seq![entry]);
                assert(member_entries(suffix) == seq![entry] + member_entries(
                    suffix.drop_first(),
                ));
                vstd::seq_lib::lemma_concat_associative(
                    prev,
                    seq![entry],
                    member_entries(suffix.drop_first()),
                );
            }
        }
        i += 1;
    }
    proof {
        assert(all.subrange(all.len() as int, all.len() as int) =~= Seq::<
            (Seq<char>, Seq<char>),
        >::empty());
        assert(member_entries(all) =~= members_view(out@));
    }
    if out.len() == 0 {
        return Err(ApiError::NotFound);
    }
    Ok(out)
}

/// Resolves the assignable members from one record's detail page: the
/// parse through the outside parser, then the library's selection rule.
pub fn members_from_page(html: &str) -> (r: Result<Vec<Member>, ApiError>)
    ensures
        r is Ok <==> member_entries(member_options_of(html@)).len() > 0,
        r matches Ok(ms) ==> members_view(ms@) == member_entries(member_options_of(html@)),
        r matches Err(e) ==> e == ApiError::NotFound,
{
    let options = extract_member_options(html);
    members_from_options(&options)
}

} // verus!
