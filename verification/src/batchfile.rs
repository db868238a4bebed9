//! The batch file: the locally persisted, comma-separated table of rows
//! that drives bulk operations.
//!
//! Round-tripping through this file is the unit of operator review, so
//! the codec is exact: writing a row set and reading it back reproduces
//! every field byte for byte (`lemma_batch_round_trip`).  A field that
//! carries a comma, a quote or a line break travels quoted, with inner
//! quotes doubled, as a spreadsheet expects.

use vstd::prelude::*;
use vstd::string::*;

use crate::batch::OpenRequest;
use crate::errors::ApiError;
use crate::json::num_text_ok;
use crate::text::dec_spec;
use crate::text::dec_val;

verus! {

/// A character that forces a field into quotes.
pub open spec fn is_special(c: char) -> bool {
    c == ',' || c == '"' || c == '\n' || c == '\r'
}

/// Whether a field must travel quoted.
pub open spec fn needs_quoting(s: Seq<char>) -> bool {
    exists|i: int| 0 <= i < s.len() && is_special(#[trigger] s[i])
}

/// A field's body inside quotes: every quote doubled.
pub open spec fn esc(s: Seq<char>) -> Seq<char>
    decreases s.len(),
{
    if s.len() == 0 {
        Seq::<char>::empty()
    } else {
        esc(s.drop_last()) + (if s.last() == '"' {
            seq!['"', '"']
        } else {
            seq![s.last()]
        })
    }
}

/// One encoded field: quoted with doubled quotes when it carries a
/// special character, verbatim otherwise.
pub open spec fn enc_field(s: Seq<char>) -> Seq<char> {
    if needs_quoting(s) {
        seq!['"'] + esc(s) + seq!['"']
    } else {
        s
    }
}

/// A row's fields, comma-separated.
pub open spec fn enc_fields(fs: Seq<Seq<char>>) -> Seq<char>
    decreases fs.len(),
{
    if fs.len() == 0 {
        Seq::<char>::empty()
    } else if fs.len() == 1 {
        enc_field(fs[0])
    } else {
        enc_field(fs[0]) + seq![','] + enc_fields(fs.drop_first())
    }
}

/// One encoded row: its fields, then the line terminator.
pub open spec fn enc_row(fs: Seq<Seq<char>>) -> Seq<char> {
    enc_fields(fs) + seq!['\n']
}

/// The encoded rows, in order.
pub open spec fn enc_rows(rows: Seq<Seq<Seq<char>>>) -> Seq<char>
    decreases rows.len(),
{
    if rows.len() == 0 {
        Seq::<char>::empty()
    } else {
        enc_row(rows[0]) + enc_rows(rows.drop_first())
    }
}

/// The batch file's header line.
pub open spec fn header_spec() -> Seq<char> {
    "req_id,req_date_created,req_status,req_calculated_household_count,merged_address,gift_card_dollars,neighbor_id,neighbor_first_name,neighbor_last_name,neighbor_last_request_date\n"@
}

/// The whole file: the header, then the rows.
pub open spec fn enc_doc(rows: Seq<Seq<Seq<char>>>) -> Seq<char> {
    header_spec() + enc_rows(rows)
}

// ---------------------------------------------------------------------
// Parsing
// ---------------------------------------------------------------------

/// Parses the body of a quoted field, starting just after the opening
/// quote: a doubled quote is a literal quote, a lone quote closes the
/// field.  `None` when the field never closes.
pub open spec fn parse_quoted(s: Seq<char>, i: int) -> Option<(Seq<char>, int)>
    decreases s.len() - i when 0 <= i <= s.len()
{
    if i >= s.len() {
        None
    } else if s[i] == '"' {
        if i + 1 < s.len() && s[i + 1] == '"' {
            match parse_quoted(s, i + 2) {
                Some(fj) => Some((seq!['"'] + fj.0, fj.1)),
                None => None,
            }
        } else {
            Some((Seq::<char>::empty(), i + 1))
        }
    } else {
        match parse_quoted(s, i + 1) {
            Some(fj) => Some((seq![s[i]] + fj.0, fj.1)),
            None => None,
        }
    }
}

/// Parses an unquoted field: everything up to the next comma, line break
/// or the end of the text.
pub open spec fn parse_unquoted(s: Seq<char>, i: int) -> (Seq<char>, int)
    decreases s.len() - i when 0 <= i <= s.len()
{
    if i >= s.len() {
        (Seq::<char>::empty(), i)
    } else if s[i] == ',' || s[i] == '\n' {
        (Seq::<char>::empty(), i)
    } else {
        let fj = parse_unquoted(s, i + 1);
        (seq![s[i]] + fj.0, fj.1)
    }
}

/// Parses one field at `i`, quoted or not; the returned index sits on the
/// delimiter (or the end).
pub open spec fn parse_field_at(s: Seq<char>, i: int) -> Option<(Seq<char>, int)> {
    if i < s.len() && s[i] == '"' {
        parse_quoted(s, i + 1)
    } else {
        Some(parse_unquoted(s, i))
    }
}

/// Parses exactly `n` comma-separated fields starting at `i`; the
/// returned index sits after the last field, on its terminator.
pub open spec fn parse_fields(s: Seq<char>, i: int, n: nat) -> Option<(Seq<Seq<char>>, int)>
    decreases n,
{
    if n == 0 {
        Some((Seq::<Seq<char>>::empty(), i))
    } else if n == 1 {
        match parse_field_at(s, i) {
            Some(fj) => Some((seq![fj.0], fj.1)),
            None => None,
        }
    } else {
        match parse_field_at(s, i) {
            Some(fj) => {
                if fj.1 < s.len() && s[fj.1] == ',' {
                    match parse_fields(s, fj.1 + 1, (n - 1) as nat) {
                        Some(gk) => Some((seq![fj.0] + gk.0, gk.1)),
                        None => None,
                    }
                } else {
                    None
                }
            },
            None => None,
        }
    }
}

/// The number of fields in one batch row.
pub open spec fn row_arity() -> nat {
    10
}

/// Parses one row at `i`: its fields, then the line terminator.
pub open spec fn parse_row_at(s: Seq<char>, i: int) -> Option<(Seq<Seq<char>>, int)> {
    match parse_fields(s, i, row_arity()) {
        Some(fj) => {
            if fj.1 < s.len() && s[fj.1] == '\n' {
                Some((fj.0, fj.1 + 1))
            } else {
                None
            }
        },
        None => None,
    }
}

/// Parses rows from `i` to the end of the text.
pub open spec fn parse_rows(s: Seq<char>, i: int) -> Option<Seq<Seq<Seq<char>>>>
    decreases s.len() - i when 0 <= i <= s.len()
{
    if i == s.len() {
        Some(Seq::<Seq<Seq<char>>>::empty())
    } else {
        match parse_row_at(s, i) {
            Some(fj) => {
                if i < fj.1 <= s.len() {
                    match parse_rows(s, fj.1) {
                        Some(rest) => Some(seq![fj.0] + rest),
                        None => None,
                    }
                } else {
                    None
                }
            },
            None => None,
        }
    }
}

/// Parses a whole batch file: the exact header line, then the rows.
pub open spec fn parse_doc(s: Seq<char>) -> Option<Seq<Seq<Seq<char>>>> {
    if header_spec().len() <= s.len() && s.subrange(0, header_spec().len() as int)
        == header_spec() {
        parse_rows(s, header_spec().len() as int)
    } else {
        None
    }
}

// ---------------------------------------------------------------------
// Round trip: what was written is what is read
// ---------------------------------------------------------------------

/// Splits knowledge of a two-part run inside `s` into its parts.
proof fn lemma_concat_parts(s: Seq<char>, i: int, a: Seq<char>, b: Seq<char>)
    requires
        0 <= i,
        i + a.len() + b.len() <= s.len(),
        s.subrange(i, i + a.len() + b.len()) == a + b,
    ensures
        s.subrange(i, i + a.len()) == a,
        s.subrange(i + a.len(), i + a.len() + b.len()) == b,
{
    assert forall|j: int| i <= j < i + a.len() + b.len() implies #[trigger] s[j] == (a + b)[j
        - i] by {
        assert(s[j] == s.subrange(i, i + a.len() + b.len())[j - i]);
    }
    assert(s.subrange(i, i + a.len() as int) =~= a);
    assert(s.subrange(i + a.len() as int, i + a.len() + b.len()) =~= b);
}

proof fn lemma_esc_prepend(c: char, s: Seq<char>)
    ensures
        esc(seq![c] + s) == (if c == '"' {
            seq!['"', '"']
        } else {
            seq![c]
        }) + esc(s),
    decreases s.len(),
{
    let e = if c == '"' {
        seq!['"', '"']
    } else {
        seq![c]
    };
    if s.len() == 0 {
        assert(seq![c] + s =~= seq![c]);
        assert((seq![c]).drop_last() =~= Seq::<char>::empty());
        assert((seq![c]).last() == c);
        assert(esc((seq![c]).drop_last()) == Seq::<char>::empty());
        assert(esc(seq![c]) == Seq::<char>::empty() + e);
        assert(Seq::<char>::empty() + e =~= e);
        assert(e + esc(s) =~= e);
    } else {
        let t = seq![c] + s;
        assert(t.drop_last() =~= seq![c] + s.drop_last());
        assert(t.last() == s.last());
        lemma_esc_prepend(c, s.drop_last());
        let tail = if s.last() == '"' {
            seq!['"', '"']
        } else {
            seq![s.last()]
        };
        assert(esc(t) == (e + esc(s.drop_last())) + tail);
        assert((e + esc(s.drop_last())) + tail =~= e + (esc(s.drop_last()) + tail));
        assert(esc(s) == esc(s.drop_last()) + tail);
    }
}

proof fn lemma_parse_quoted(s: Seq<char>, i: int, f: Seq<char>)
    requires
        0 <= i,
        i + esc(f).len() + 1 <= s.len(),
        s.subrange(i, i + esc(f).len()) == esc(f),
        s[i + esc(f).len()] == '"',
        i + esc(f).len() + 1 == s.len() || s[i + esc(f).len() + 1] != '"',
    ensures
        parse_quoted(s, i) == Some((f, i + esc(f).len() + 1)),
    decreases f.len(),
{
    if f.len() == 0 {
        assert(esc(f).len() == 0);
        assert(s[i] == '"');
    } else {
        let c = f[0];
        let rest = f.drop_first();
        assert(f =~= seq![c] + rest);
        lemma_esc_prepend(c, rest);
        let e = if c == '"' {
            seq!['"', '"']
        } else {
            seq![c]
        };
        let d = e.len() as int;
        assert(s.subrange(i, i + esc(f).len()) == e + esc(rest));
        lemma_concat_parts(s, i, e, esc(rest));
        assert(s[i] == s.subrange(i, i + d)[0]);
        lemma_parse_quoted(s, i + d, rest);
        if c == '"' {
            assert(s[i] == '"');
            assert(s[i + 1] == s.subrange(i, i + d)[1]);
            assert(s[i + 1] == '"');
            assert(i + 1 < s.len());
            assert(parse_quoted(s, i) == Some((seq!['"'] + rest, i + esc(f).len() + 1)));
            assert(seq!['"'] + rest =~= f);
        } else {
            assert(s[i] == c);
            assert(c != '"');
            assert(parse_quoted(s, i) == Some((seq![c] + rest, i + esc(f).len() + 1)));
            assert(seq![c] + rest =~= f);
        }
    }
}

proof fn lemma_parse_unquoted(s: Seq<char>, i: int, f: Seq<char>)
    requires
        0 <= i,
        i + f.len() <= s.len(),
        s.subrange(i, i + f.len()) == f,
        !needs_quoting(f),
        i + f.len() == s.len() || s[i + f.len()] == ',' || s[i + f.len()] == '\n',
    ensures
        parse_unquoted(s, i) == (f, i + f.len()),
    decreases f.len(),
{
    if f.len() == 0 {
    } else {
        assert(!is_special(f[0]));
        let rest = f.drop_first();
        assert(f =~= seq![f[0]] + rest);
        lemma_concat_parts(s, i, seq![f[0]], rest);
        assert(s[i] == s.subrange(i, i + 1)[0]);
        assert(s[i] == f[0]);
        assert(forall|k: int| 0 <= k < rest.len() ==> rest[k] == f[k + 1]);
        assert(forall|k: int| 0 <= k < rest.len() ==> !is_special(#[trigger] rest[k]));
        lemma_parse_unquoted(s, i + 1, rest);
    }
}

proof fn lemma_parse_field(s: Seq<char>, i: int, f: Seq<char>)
    requires
        0 <= i,
        i + enc_field(f).len() <= s.len(),
        s.subrange(i, i + enc_field(f).len()) == enc_field(f),
        i + enc_field(f).len() == s.len() || s[i + enc_field(f).len()] == ',' || s[i
            + enc_field(f).len()] == '\n',
    ensures
        parse_field_at(s, i) == Some((f, i + enc_field(f).len())),
{
    if needs_quoting(f) {
        let e = esc(f);
        assert(enc_field(f) == seq!['"'] + e + seq!['"']);
        assert(enc_field(f) =~= seq!['"'] + (e + seq!['"']));
        lemma_concat_parts(s, i, seq!['"'], e + seq!['"']);
        assert(s[i] == s.subrange(i, i + 1)[0]);
        assert(s[i] == '"');
        lemma_concat_parts(s, i + 1, e, seq!['"']);
        assert(s[i + 1 + e.len()] == s.subrange(i + 1 + e.len() as int, i + 2 + e.len())[0]);
        assert(s[i + 1 + e.len()] == '"');
        lemma_parse_quoted(s, i + 1, f);
    } else {
        assert(enc_field(f) == f);
        if f.len() > 0 {
            assert(!is_special(f[0]));
            assert(s[i] == s.subrange(i, i + f.len() as int)[0]);
            assert(s[i] == f[0]);
            assert(s[i] != '"');
        } else {
            if i < s.len() {
                assert(s[i] == ',' || s[i] == '\n');
            }
        }
        lemma_parse_unquoted(s, i, f);
    }
}

proof fn lemma_parse_fields(s: Seq<char>, i: int, fs: Seq<Seq<char>>)
    requires
        0 <= i,
        fs.len() >= 1,
        i + enc_fields(fs).len() < s.len(),
        s.subrange(i, i + enc_fields(fs).len()) == enc_fields(fs),
        s[i + enc_fields(fs).len()] == '\n',
    ensures
        parse_fields(s, i, fs.len()) == Some((fs, i + enc_fields(fs).len())),
    decreases fs.len(),
{
    if fs.len() == 1 {
        assert(enc_fields(fs) == enc_field(fs[0]));
        lemma_parse_field(s, i, fs[0]);
        assert(seq![fs[0]] =~= fs);
    } else {
        let rest = fs.drop_first();
        let a = enc_field(fs[0]);
        let b = enc_fields(rest);
        assert(enc_fields(fs) == a + seq![','] + b);
        assert(enc_fields(fs) =~= a + (seq![','] + b));
        let d = a.len() as int;
        lemma_concat_parts(s, i, a, seq![','] + b);
        lemma_concat_parts(s, i + d, seq![','], b);
        assert(s[i + d] == s.subrange(i + d, i + d + 1)[0]);
        assert(s[i + d] == ',');
        lemma_parse_field(s, i, fs[0]);
        lemma_parse_fields(s, i + d + 1, rest);
        assert(seq![fs[0]] + rest =~= fs);
    }
}

proof fn lemma_parse_row(s: Seq<char>, i: int, fs: Seq<Seq<char>>)
    requires
        0 <= i,
        fs.len() == row_arity(),
        i + enc_row(fs).len() <= s.len(),
        s.subrange(i, i + enc_row(fs).len()) == enc_row(fs),
    ensures
        parse_row_at(s, i) == Some((fs, i + enc_row(fs).len())),
{
    assert(enc_row(fs) == enc_fields(fs) + seq!['\n']);
    let d = enc_fields(fs).len() as int;
    lemma_concat_parts(s, i, enc_fields(fs), seq!['\n']);
    assert(s[i + d] == s.subrange(i + d, i + d + 1)[0]);
    assert(s[i + d] == '\n');
    lemma_parse_fields(s, i, fs);
}

proof fn lemma_parse_rows(s: Seq<char>, i: int, rows: Seq<Seq<Seq<char>>>)
    requires
        0 <= i <= s.len(),
        s.subrange(i, s.len() as int) == enc_rows(rows),
        forall|k: int| 0 <= k < rows.len() ==> (#[trigger] rows[k]).len() == row_arity(),
    ensures
        parse_rows(s, i) == Some(rows),
    decreases rows.len(),
{
    if rows.len() == 0 {
        assert(enc_rows(rows).len() == 0);
        assert(i == s.len());
    } else {
        let rest = rows.drop_first();
        assert(enc_rows(rows) == enc_row(rows[0]) + enc_rows(rest));
        let d = enc_row(rows[0]).len() as int;
        lemma_concat_parts(s, i, enc_row(rows[0]), enc_rows(rest));
        lemma_parse_row(s, i, rows[0]);
        assert(enc_row(rows[0]).len() >= 1);
        lemma_parse_rows(s, i + d, rest);
        assert(seq![rows[0]] + rest =~= rows);
    }
}

/// The fields of one row, as the batch file persists them: identifiers
/// and amounts in decimal, text verbatim.
pub open spec fn row_fields(r: OpenRequest) -> Seq<Seq<char>> {
    seq![
        dec_spec(r.req_id as nat),
        r.req_date_created@,
        r.req_status@,
        dec_spec(r.req_calculated_household_count as nat),
        r.merged_address@,
        dec_spec(r.gift_card_dollars as nat),
        dec_spec(r.neighbor_id as nat),
        r.neighbor_first_name@,
        r.neighbor_last_name@,
        r.neighbor_last_request_date@,
    ]
}

/// The field matrix of a row set.
pub open spec fn rows_fields(rows: Seq<OpenRequest>) -> Seq<Seq<Seq<char>>> {
    rows.map_values(|r: OpenRequest| row_fields(r))
}

/// Writing a row set and parsing the text back yields every field of
/// every row byte for byte, and the fields read back rebuild exactly the
/// rows they came from: the batch file is idempotent under replay when
/// nothing changed remotely.
pub proof fn lemma_batch_round_trip(rows: Seq<OpenRequest>)
    ensures
        parse_doc(enc_doc(rows_fields(rows))) == Some(rows_fields(rows)),
        forall|k: int|
            0 <= k < rows.len() ==> row_fields_ok(#[trigger] rows_fields(rows)[k]),
        forall|k: int|
            0 <= k < rows.len() ==> row_matches(#[trigger] rows_fields(rows)[k], rows[k]),
{
    assert forall|k: int| 0 <= k < rows.len() implies row_fields_ok(
        #[trigger] rows_fields(rows)[k],
    ) && row_matches(rows_fields(rows)[k], rows[k]) by {
        lemma_row_fields_faithful(rows[k]);
    }
    let m = rows_fields(rows);
    let s = enc_doc(m);
    let h = header_spec().len() as int;
    assert(s.subrange(0, h) =~= header_spec());
    assert(s.subrange(h, s.len() as int) =~= enc_rows(m));
    assert(forall|k: int| 0 <= k < m.len() ==> (#[trigger] m[k]).len() == row_arity());
    lemma_parse_rows(s, h, m);
}

// ---------------------------------------------------------------------
// Faithful fields: a row's own encoding always reads back as that row
// ---------------------------------------------------------------------

/// Whether a parsed row's numeric fields denote in-range values (the
/// other fields are free text and always acceptable).
pub open spec fn row_fields_ok(fs: Seq<Seq<char>>) -> bool {
    &&& fs.len() == row_arity()
    &&& num_text_ok(fs[0], u64::MAX as nat)
    &&& num_text_ok(fs[3], u32::MAX as nat)
    &&& num_text_ok(fs[5], u32::MAX as nat)
    &&& num_text_ok(fs[6], u64::MAX as nat)
}

/// What a row read back from the file holds, field for field.
pub open spec fn row_matches(fs: Seq<Seq<char>>, row: OpenRequest) -> bool {
    &&& fs.len() == row_arity()
    &&& row.req_id == dec_val(fs[0])
    &&& row.req_date_created@ == fs[1]
    &&& row.req_status@ == fs[2]
    &&& row.req_calculated_household_count == dec_val(fs[3])
    &&& row.merged_address@ == fs[4]
    &&& row.gift_card_dollars == dec_val(fs[5])
    &&& row.neighbor_id == dec_val(fs[6])
    &&& row.neighbor_first_name@ == fs[7]
    &&& row.neighbor_last_name@ == fs[8]
    &&& row.neighbor_last_request_date@ == fs[9]
}

/// The fields a row writes always read back as exactly that row: the
/// decimal fields parse to the numbers they came from, and the text
/// fields are verbatim.
pub proof fn lemma_row_fields_faithful(r: OpenRequest)
    ensures
        row_fields_ok(row_fields(r)),
        row_matches(row_fields(r), r),
{
    crate::text::lemma_dec_spec_val(r.req_id as nat);
    crate::text::lemma_dec_spec_val(r.req_calculated_household_count as nat);
    crate::text::lemma_dec_spec_val(r.gift_card_dollars as nat);
    crate::text::lemma_dec_spec_val(r.neighbor_id as nat);
}

// ---------------------------------------------------------------------
// Writing
// ---------------------------------------------------------------------

/// The views of a list of strings.
pub open spec fn strs_view(v: Seq<String>) -> Seq<Seq<char>> {
    v.map_values(|s: String| s@)
}

/// The views of a parsed row list.
pub open spec fn rows_view(v: Seq<Vec<String>>) -> Seq<Seq<Seq<char>>> {
    v.map_values(|row: Vec<String>| strs_view(row@))
}

fn needs_quoting_exec(s: &str) -> (r: bool)
    ensures
        r == needs_quoting(s@),
{
    let len = s.unicode_len();
    let mut i: usize = 0;
    while i < len
        invariant
            0 <= i <= len,
            len == s@.len(),
            forall|k: int| 0 <= k < i ==> !is_special(#[trigger] s@[k]),
        decreases len - i,
    {
        let c = s.get_char(i);
        if c == ',' || c == '"' || c == '\n' || c == '\r' {
            assert(is_special(s@[i as int]));
            return true;
        }
        i += 1;
    }
    false
}

fn esc_exec(s: &str) -> (r: String)
    ensures
        r@ == esc(s@),
{
    let len = s.unicode_len();
    let mut out = String::new();
    let mut i: usize = 0;
    proof {
        assert(s@.subrange(0, 0) =~= Seq::<char>::empty());
    }
    while i < len
        invariant
            0 <= i <= len,
            len == s@.len(),
            out@ == esc(s@.subrange(0, i as int)),
        decreases len - i,
    {
        let c = s.get_char(i);
        proof {
            assert(s@.subrange(0, i + 1).drop_last() =~= s@.subrange(0, i as int));
            assert(s@.subrange(0, i + 1).last() == s@[i as int]);
        }
        if c == '"' {
            out.append("\"\"");
            proof {
                reveal_strlit("\"\"");
                assert("\"\""@ =~= seq!['"', '"']);
            }
        } else {
            out.append(s.substring_char(i, i + 1));
            proof {
                assert(s@.subrange(i as int, i + 1) =~= seq![s@[i as int]]);
            }
        }
        i += 1;
    }
    proof {
        assert(s@.subrange(0, len as int) =~= s@);
    }
    out
}

/// Encodes one field for the file: quoted (with doubled quotes) exactly
/// when it carries a comma, quote or line break.
fn enc_field_exec(s: &str) -> (r: String)
    ensures
        r@ == enc_field(s@),
{
    if needs_quoting_exec(s) {
        let mut out = String::from_str("\"");
        out.append(esc_exec(s).as_str());
        out.append("\"");
        proof {
            reveal_strlit("\"");
            assert("\""@ =~= seq!['"']);
            assert(out@ =~= seq!['"'] + esc(s@) + seq!['"']);
        }
        out
    } else {
        String::from_str(s)
    }
}

fn enc_fields_from(fields: &Vec<String>, i: usize) -> (r: String)
    requires
        i <= fields@.len(),
    ensures
        r@ == enc_fields(strs_view(fields@).subrange(i as int, fields@.len() as int)),
    decreases fields@.len() - i,
{
    let ghost suffix = strs_view(fields@).subrange(i as int, fields@.len() as int);
    if i >= fields.len() {
        proof {
            assert(suffix.len() == 0);
        }
        String::new()
    } else if i == fields.len() - 1 {
        let r = enc_field_exec(fields[i].as_str());
        proof {
            assert(suffix.len() == 1);
            assert(suffix[0] == fields@[i as int]@);
        }
        r
    } else {
        let mut out = enc_field_exec(fields[i].as_str());
        out.append(",");
        let rest = enc_fields_from(fields, i + 1);
        out.append(rest.as_str());
        proof {
            reveal_strlit(",");
            assert(","@ =~= seq![',']);
            assert(suffix[0] == fields@[i as int]@);
            assert(suffix.drop_first() =~= strs_view(fields@).subrange(
                i + 1,
                fields@.len() as int,
            ));
            assert(out@ =~= enc_field(suffix[0]) + seq![','] + enc_fields(suffix.drop_first()));
        }
        out
    }
}

/// Appends one row's line to the file text.
fn append_row(out: &mut String, row: &OpenRequest)
    ensures
        final(out)@ == old(out)@ + enc_row(row_fields(*row)),
{
    let mut fields: Vec<String> = Vec::new();
    fields.push(crate::text::dec_u64(row.req_id));
    fields.push(row.req_date_created.clone());
    fields.push(row.req_status.clone());
    fields.push(crate::text::dec_u32(row.req_calculated_household_count));
    fields.push(row.merged_address.clone());
    fields.push(crate::text::dec_u32(row.gift_card_dollars));
    fields.push(crate::text::dec_u64(row.neighbor_id));
    fields.push(row.neighbor_first_name.clone());
    fields.push(row.neighbor_last_name.clone());
    fields.push(row.neighbor_last_request_date.clone());
    proof {
        assert(strs_view(fields@) =~= row_fields(*row));
    }
    let body = enc_fields_from(&fields, 0);
    out.append(body.as_str());
    out.append("\n");
    proof {
        reveal_strlit("\n");
        assert("\n"@ =~= seq!['\n']);
        assert(strs_view(fields@).subrange(0, fields@.len() as int) =~= row_fields(*row));
        assert(out@ =~= old(out)@ + (enc_fields(row_fields(*row)) + seq!['\n']));
    }
}

/// Writes a row set as the batch file's text: the header line, then one
/// line per row, every field in the file's own quoting.
pub fn rows_to_batch_text(rows: &Vec<OpenRequest>) -> (r: String)
    ensures
        r@ == enc_doc(rows_fields(rows@)),
{
    let ghost all = rows_fields(rows@);
    let mut out = String::from_str(
        "req_id,req_date_created,req_status,req_calculated_household_count,merged_address,gift_card_dollars,neighbor_id,neighbor_first_name,neighbor_last_name,neighbor_last_request_date\n",
    );
    let mut i: usize = 0;
    proof {
        assert(all.subrange(0, all.len() as int) =~= all);
        assert(out@ + enc_rows(all) == enc_doc(all));
    }
    while i < rows.len()
        invariant
            0 <= i <= rows@.len(),
            all == rows_fields(rows@),
            out@ + enc_rows(all.subrange(i as int, all.len() as int)) == enc_doc(all),
        decreases rows@.len() - i,
    {
        let ghost suffix = all.subrange(i as int, all.len() as int);
        let ghost prev = out@;
        append_row(&mut out, &rows[i]);
        proof {
            assert(suffix.drop_first() =~= all.subrange(i + 1, all.len() as int));
            assert(suffix[0] == row_fields(rows@[i as int]));
            assert(enc_rows(suffix) == enc_row(suffix[0]) + enc_rows(suffix.drop_first()));
            vstd::seq_lib::lemma_concat_associative(
                prev,
                enc_row(suffix[0]),
                enc_rows(suffix.drop_first()),
            );
        }
        i += 1;
    }
    proof {
        assert(all.subrange(rows@.len() as int, all.len() as int) =~= Seq::<
            Seq<Seq<char>>,
        >::empty());
        assert(out@ + Seq::<char>::empty() =~= out@);
    }
    out
}

// ---------------------------------------------------------------------
// Reading
// ---------------------------------------------------------------------

fn parse_quoted_exec(s: &str, i: usize) -> (r: Option<(String, usize)>)
    requires
        i <= s@.len(),
    ensures
        match r {
            Some(fj) => parse_quoted(s@, i as int) == Some((fj.0@, fj.1 as int)) && fj.1
                <= s@.len(),
            None => parse_quoted(s@, i as int) is None,
        },
    decreases s@.len() - i,
{
    let len = s.unicode_len();
    if i >= len {
        return None;
    }
    let c = s.get_char(i);
    if c == '"' {
        if i + 1 < len && s.get_char(i + 1) == '"' {
            match parse_quoted_exec(s, i + 2) {
                Some((f, j)) => {
                    let mut out = String::from_str("\"");
                    out.append(f.as_str());
                    proof {
                        reveal_strlit("\"");
                        assert("\""@ =~= seq!['"']);
                    }
                    Some((out, j))
                },
                None => None,
            }
        } else {
            Some((String::new(), i + 1))
        }
    } else {
        match parse_quoted_exec(s, i + 1) {
            Some((f, j)) => {
                let mut out = String::from_str(s.substring_char(i, i + 1));
                out.append(f.as_str());
                proof {
                    assert(s@.subrange(i as int, i + 1) =~= seq![s@[i as int]]);
                }
                Some((out, j))
            },
            None => None,
        }
    }
}

fn parse_unquoted_exec(s: &str, i: usize) -> (r: (String, usize))
    requires
        i <= s@.len(),
    ensures
        parse_unquoted(s@, i as int) == (r.0@, r.1 as int),
        r.1 <= s@.len(),
    decreases s@.len() - i,
{
    let len = s.unicode_len();
    if i >= len {
        return (String::new(), i);
    }
    let c = s.get_char(i);
    if c == ',' || c == '\n' {
        return (String::new(), i);
    }
    let (f, j) = parse_unquoted_exec(s, i + 1);
    let mut out = String::from_str(s.substring_char(i, i + 1));
    out.append(f.as_str());
    proof {
        assert(s@.subrange(i as int, i + 1) =~= seq![s@[i as int]]);
    }
    (out, j)
}

fn parse_field_at_exec(s: &str, i: usize) -> (r: Option<(String, usize)>)
    requires
        i <= s@.len(),
    ensures
        match r {
            Some(fj) => parse_field_at(s@, i as int) == Some((fj.0@, fj.1 as int)) && fj.1
                <= s@.len(),
            None => parse_field_at(s@, i as int) is None,
        },
{
    let len = s.unicode_len();
    if i < len && s.get_char(i) == '"' {
        parse_quoted_exec(s, i + 1)
    } else {
        let (f, j) = parse_unquoted_exec(s, i);
        Some((f, j))
    }
}

fn parse_fields_exec(s: &str, i: usize, n: usize) -> (r: Option<(Vec<String>, usize)>)
    requires
        i <= s@.len(),
    ensures
        match r {
            Some(fj) => parse_fields(s@, i as int, n as nat) == Some(
                (strs_view(fj.0@), fj.1 as int),
            ) && fj.1 <= s@.len(),
            None => parse_fields(s@, i as int, n as nat) is None,
        },
    decreases n,
{
    if n == 0 {
        let v: Vec<String> = Vec::new();
        proof {
            assert(strs_view(v@) =~= Seq::<Seq<char>>::empty());
        }
        return Some((v, i));
    }
    if n == 1 {
        match parse_field_at_exec(s, i) {
            Some((f, j)) => {
                let ghost fv = f@;
                let mut v: Vec<String> = Vec::new();
                v.push(f);
                proof {
                    assert(strs_view(v@) =~= seq![fv]);
                }
                Some((v, j))
            },
            None => None,
        }
    } else {
        match parse_field_at_exec(s, i) {
            Some((f, j)) => {
                let len = s.unicode_len();
                if j < len && s.get_char(j) == ',' {
                    match parse_fields_exec(s, j + 1, n - 1) {
                        Some((v, k)) => {
                            let ghost prevv = strs_view(v@);
                            let ghost fv = f@;
                            let mut v = v;
                            v.insert(0, f);
                            proof {
                                assert(strs_view(v@) =~= seq![fv] + prevv);
                            }
                            Some((v, k))
                        },
                        None => None,
                    }
                } else {
                    None
                }
            },
            None => None,
        }
    }
}

fn parse_row_at_exec(s: &str, i: usize) -> (r: Option<(Vec<String>, usize)>)
    requires
        i <= s@.len(),
    ensures
        match r {
            Some(fj) => parse_row_at(s@, i as int) == Some((strs_view(fj.0@), fj.1 as int))
                && fj.1 <= s@.len(),
            None => parse_row_at(s@, i as int) is None,
        },
{
    match parse_fields_exec(s, i, 10) {
        Some((v, j)) => {
            let len = s.unicode_len();
            if j < len && s.get_char(j) == '\n' {
                Some((v, j + 1))
            } else {
                None
            }
        },
        None => None,
    }
}

fn parse_rows_exec(s: &str, i: usize) -> (r: Option<Vec<Vec<String>>>)
    requires
        i <= s@.len(),
    ensures
        match r {
            Some(rows) => parse_rows(s@, i as int) == Some(rows_view(rows@)),
            None => parse_rows(s@, i as int) is None,
        },
    decreases s@.len() - i,
{
    let len = s.unicode_len();
    if i == len {
        let v: Vec<Vec<String>> = Vec::new();
        proof {
            assert(rows_view(v@) =~= Seq::<Seq<Seq<char>>>::empty());
        }
        return Some(v);
    }
    match parse_row_at_exec(s, i) {
        Some((fields, j)) => {
            if j > i {
                match parse_rows_exec(s, j) {
                    Some(rest) => {
                        let ghost prevv = rows_view(rest@);
                        let ghost fv = strs_view(fields@);
                        let mut rest = rest;
                        rest.insert(0, fields);
                        proof {
                            assert(rows_view(rest@) =~= seq![fv] + prevv);
                        }
                        Some(rest)
                    },
                    None => None,
                }
            } else {
                None
            }
        },
        None => None,
    }
}

/// Rebuilds one row from its parsed fields; a numeric field that does
/// not denote an in-range value is a schema mismatch.
fn row_from_fields(fields: &Vec<String>) -> (r: Result<OpenRequest, ApiError>)
    ensures
        r is Ok <==> row_fields_ok(strs_view(fields@)),
        r matches Ok(row) ==> row_matches(strs_view(fields@), row),
        r matches Err(e) ==> e == ApiError::Schema,
{
    proof {
        assert(forall|k: int|
            0 <= k < fields@.len() ==> strs_view(fields@)[k] == (#[trigger] fields@[k])@);
    }
    if fields.len() != 10 {
        return Err(ApiError::Schema);
    }
    let req_id = match crate::text::parse_u64(fields[0].as_str()) {
        Some(n) => n,
        None => {
            return Err(ApiError::Schema);
        },
    };
    let req_calculated_household_count = match crate::text::parse_u32(fields[3].as_str()) {
        Some(n) => n,
        None => {
            return Err(ApiError::Schema);
        },
    };
    let gift_card_dollars = match crate::text::parse_u32(fields[5].as_str()) {
        Some(n) => n,
        None => {
            return Err(ApiError::Schema);
        },
    };
    let neighbor_id = match crate::text::parse_u64(fields[6].as_str()) {
        Some(n) => n,
        None => {
            return Err(ApiError::Schema);
        },
    };
    Ok(
        OpenRequest {
            req_id,
            req_date_created: fields[1].clone(),
            req_status: fields[2].clone(),
            req_calculated_household_count,
            merged_address: fields[4].clone(),
            gift_card_dollars,
            neighbor_id,
            neighbor_first_name: fields[7].clone(),
            neighbor_last_name: fields[8].clone(),
            neighbor_last_request_date: fields[9].clone(),
        },
    )
}

/// Reads a batch file's text back into its rows.
///
/// The header must match the file's own; a malformed line or an
/// out-of-range numeric field is a schema mismatch; a file with no rows
/// at all is invalid local input.
#[verifier::loop_isolation(false)]
pub fn batch_rows_from_text(text: &str) -> (r: Result<Vec<OpenRequest>, ApiError>)
    ensures
        r is Ok <==> (parse_doc(text@) matches Some(m) && m.len() >= 1 && (forall|k: int|
            0 <= k < m.len() ==> row_fields_ok(#[trigger] m[k]))),
        r matches Ok(rows) ==> (parse_doc(text@) matches Some(m) && rows@.len() == m.len() && (
        forall|k: int| 0 <= k < m.len() ==> row_matches(#[trigger] m[k], rows@[k]))),
        (parse_doc(text@) matches Some(m) && m.len() == 0) ==> r == Err::<
            Vec<OpenRequest>,
            ApiError,
        >(ApiError::Validation),
        parse_doc(text@) is None ==> r == Err::<Vec<OpenRequest>, ApiError>(ApiError::Schema),
        r matches Err(e) ==> (e == ApiError::Validation || e == ApiError::Schema),
{
    let header =
        "req_id,req_date_created,req_status,req_calculated_household_count,merged_address,gift_card_dollars,neighbor_id,neighbor_first_name,neighbor_last_name,neighbor_last_request_date\n";
    let hlen = header.unicode_len();
    let tlen = text.unicode_len();
    if tlen < hlen {
        return Err(ApiError::Schema);
    }
    let mut k: usize = 0;
    while k < hlen
        invariant
            0 <= k <= hlen,
            forall|j: int| 0 <= j < k ==> text@[j] == header_spec()[j],
        decreases hlen - k,
    {
        if text.get_char(k) != header.get_char(k) {
            proof {
                assert(text@.subrange(0, hlen as int)[k as int] != header_spec()[k as int]);
            }
            return Err(ApiError::Schema);
        }
        k += 1;
    }
    proof {
        assert(text@.subrange(0, hlen as int) =~= header_spec());
    }
    match parse_rows_exec(text, hlen) {
        Some(rowfields) => {
            let ghost m = rows_view(rowfields@);
            proof {
                assert(forall|j: int|
                    0 <= j < rowfields@.len() ==> m[j] == strs_view(
                        (#[trigger] rowfields@[j])@,
                    ));
            }
            if rowfields.len() == 0 {
                return Err(ApiError::Validation);
            }
            let mut out: Vec<OpenRequest> = Vec::new();
            let mut i: usize = 0;
            while i < rowfields.len()
                invariant
                    0 <= i <= rowfields@.len(),
                    out@.len() == i,
                    forall|j: int| 0 <= j < i ==> row_fields_ok(#[trigger] m[j]),
                    forall|j: int| 0 <= j < i ==> row_matches(#[trigger] m[j], out@[j]),
                decreases rowfields@.len() - i,
            {
                let row = match row_from_fields(&rowfields[i]) {
                    Ok(row) => row,
                    Err(e) => {
                        return Err(e);
                    },
                };
                out.push(row);
                i += 1;
            }
            Ok(out)
        },
        None => Err(ApiError::Schema),
    }
}

// ---------------------------------------------------------------------
// The member list's file
// ---------------------------------------------------------------------

/// The two fields of one member row.
pub open spec fn member_fields(m: crate::members::Member) -> Seq<Seq<char>> {
    seq![m.id@, m.name@]
}

/// The field matrix of a member list.
pub open spec fn member_rows_fields(ms: Seq<crate::members::Member>) -> Seq<Seq<Seq<char>>> {
    ms.map_values(|m: crate::members::Member| member_fields(m))
}

/// The member file's header line.
pub open spec fn member_header_spec() -> Seq<char> {
    "id,name\n"@
}

/// Writes a scraped member list as a comma-separated file, one row per
/// member, in the same quoting as the batch file.
pub fn members_to_csv_text(ms: &Vec<crate::members::Member>) -> (r: String)
    ensures
        r@ == member_header_spec() + enc_rows(member_rows_fields(ms@)),
{
    let ghost all = member_rows_fields(ms@);
    let mut out = String::from_str("id,name\n");
    let mut i: usize = 0;
    proof {
        assert(all.subrange(0, all.len() as int) =~= all);
    }
    while i < ms.len()
        invariant
            0 <= i <= ms@.len(),
            all == member_rows_fields(ms@),
            out@ + enc_rows(all.subrange(i as int, all.len() as int)) == member_header_spec()
                + enc_rows(all),
        decreases ms@.len() - i,
    {
        let ghost suffix = all.subrange(i as int, all.len() as int);
        let ghost prev = out@;
        let mut fields: Vec<String> = Vec::new();
        fields.push(ms[i].id.clone());
        fields.push(ms[i].name.clone());
        proof {
            assert(strs_view(fields@) =~= member_fields(ms@[i as int]));
        }
        let body = enc_fields_from(&fields, 0);
        out.append(body.as_str());
        out.append("\n");
        proof {
            reveal_strlit("\n");
            assert("\n"@ =~= seq!['\n']);
            assert(strs_view(fields@).subrange(0, fields@.len() as int) =~= member_fields(
                ms@[i as int],
            ));
            assert(out@ =~= prev + (enc_fields(member_fields(ms@[i as int])) + seq!['\n']));
            assert(suffix.drop_first() =~= all.subrange(i + 1, all.len() as int));
            assert(suffix[0] == member_fields(ms@[i as int]));
            assert(enc_rows(suffix) == enc_row(suffix[0]) + enc_rows(suffix.drop_first()));
            vstd::seq_lib::lemma_concat_associative(
                prev,
                enc_row(suffix[0]),
                enc_rows(suffix.drop_first()),
            );
        }
        i += 1;
    }
    proof {
        assert(all.subrange(ms@.len() as int, all.len() as int) =~= Seq::<
            Seq<Seq<char>>,
        >::empty());
        assert(out@ + Seq::<char>::empty() =~= out@);
    }
    out
}

} // verus!
