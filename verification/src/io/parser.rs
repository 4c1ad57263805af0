//! The line tokenizer and the errors of decoding.

use vstd::prelude::*;
use crate::io::{
    control_point, dose_action, dose_tracking, extended_field, extended_plan, field, mlc_shape,
    multi_leaf_collimator, plan, prescription, same_text, simulation, site_setup,
};
use crate::model::rtp::Rtp;
use crate::number::IntErrorKind;
use crate::text::{texts, to_chars};

verus! {

/// Why a record could not be decoded.
#[derive(Debug)]
pub enum Error {
    /// The first field is not the keyword of the record kind: expected, actual.
    Keyword(String, String),
    /// The record does not have as many fields as its kind declares: expected, actual.
    ParameterLengthMismatch(usize, usize),
    /// A mandatory integer field does not hold an integer.
    ParseIntError(IntErrorKind),
}

/// An [`Error`] with its strings as character sequences.
pub enum ErrorView {
    Keyword(Seq<char>, Seq<char>),
    ParameterLengthMismatch(nat, nat),
    ParseIntError(IntErrorKind),
}

impl View for Error {
    type V = ErrorView;

    open spec fn view(&self) -> ErrorView {
        match self {
            Error::Keyword(expected, actual) => ErrorView::Keyword(expected@, actual@),
            Error::ParameterLengthMismatch(expected, actual) => ErrorView::ParameterLengthMismatch(
                *expected as nat,
                *actual as nat,
            ),
            Error::ParseIntError(kind) => ErrorView::ParseIntError(*kind),
        }
    }
}

/// Whether the three-character delimiter `","` begins at position `i`.
pub open spec fn delimiter_at(line: Seq<char>, i: int) -> bool {
    &&& 0 <= i
    &&& i + 3 <= line.len()
    &&& line[i] == '"'
    &&& line[i + 1] == ','
    &&& line[i + 2] == '"'
}

/// The first position at or after `from` where a delimiter begins, or the
/// length of the line where none does.
pub open spec fn next_delimiter(line: Seq<char>, from: int) -> int
    decreases line.len() - from,
{
    if from < 0 || from + 3 > line.len() {
        line.len() as int
    } else if delimiter_at(line, from) {
        from
    } else {
        next_delimiter(line, from + 1)
    }
}

/// The fields of a record line from position `start` on. A field ends where
/// the next delimiter begins, and the following field starts right after
/// that delimiter. What stands between the last delimiter and the closing
/// quote is the last field, be it empty or not.
pub open spec fn fields_from(line: Seq<char>, start: int) -> Seq<Seq<char>>
    decreases line.len() - start,
{
    let i = next_delimiter(line, start);
    if 0 <= start <= i && i + 3 <= line.len() {
        seq![line.subrange(start, i)] + fields_from(line, i + 3)
    } else if 0 <= start <= line.len() - 1 {
        seq![line.subrange(start, line.len() - 1)]
    } else {
        Seq::empty()
    }
}

/// A record line begins and ends with a quote and holds something between
/// the two. The line of two quotes alone spells no field.
pub open spec fn is_record_line(line: Seq<char>) -> bool {
    line.len() > 2 && line[0] == '"' && line.last() == '"'
}

/// The fields of a line: those after its opening quote where it is a record
/// line, none otherwise.
pub open spec fn tokens(line: Seq<char>) -> Seq<Seq<char>> {
    if is_record_line(line) {
        fields_from(line, 1)
    } else {
        Seq::empty()
    }
}

/// No delimiter begins between `from` and `to`, so the search from `from`
/// goes on at `to`.
proof fn lemma_next_delimiter_skips(line: Seq<char>, from: int, to: int)
    requires
        0 <= from <= to,
        forall|j: int| from <= j < to ==> !delimiter_at(line, j),
    ensures
        next_delimiter(line, from) == next_delimiter(line, to),
    decreases to - from,
{
    if from < to {
        lemma_next_delimiter_skips(line, from + 1, to);
    }
}

/// What follows the opening quote of the line that spells `fields`: each
/// field, the delimiter between two of them, and the closing quote.
pub open spec fn line_tail(fields: Seq<Seq<char>>) -> Seq<char>
    decreases fields.len(),
{
    if fields.len() == 0 {
        Seq::empty()
    } else if fields.len() == 1 {
        fields[0] + seq!['"']
    } else {
        fields[0] + seq!['"', ',', '"'] + line_tail(fields.drop_first())
    }
}

/// The line that spells `fields`.
pub open spec fn line_of(fields: Seq<Seq<char>>) -> Seq<char> {
    seq!['"'] + line_tail(fields)
}

/// No field holds a quote.
pub open spec fn quote_free(fields: Seq<Seq<char>>) -> bool {
    forall|i: int, j: int|
        0 <= i < fields.len() && 0 <= j < fields[i].len() ==> (#[trigger] fields[i][j]) != '"'
}

proof fn lemma_line_tail_ends_with_quote(fields: Seq<Seq<char>>)
    requires
        fields.len() > 0,
    ensures
        line_tail(fields).len() > 0,
        line_tail(fields).last() == '"',
    decreases fields.len(),
{
    if fields.len() > 1 {
        lemma_line_tail_ends_with_quote(fields.drop_first());
    }
}

proof fn lemma_fields_from_line_tail(line: Seq<char>, start: int, fields: Seq<Seq<char>>)
    requires
        0 <= start <= line.len(),
        line.skip(start) == line_tail(fields),
        fields.len() > 0,
        quote_free(fields),
    ensures
        fields_from(line, start) == fields,
    decreases fields.len(),
{
    let w = fields[0];
    let i = start + w.len();
    let rest = line.skip(start);
    assert(rest.len() == line.len() - start);
    if fields.len() == 1 {
        assert(rest == w + seq!['"']);
    } else {
        assert(rest == w + seq!['"', ',', '"'] + line_tail(fields.drop_first()));
    }
    assert forall|k: int| 0 <= k < rest.len() implies line[start + k] == #[trigger] rest[k] by {}
    assert forall|j: int| start <= j < i implies !delimiter_at(line, j) by {
        assert(line[j] == rest[j - start]);
        assert(rest[j - start] == fields[0][j - start]);
    }
    lemma_next_delimiter_skips(line, start, i);
    if fields.len() == 1 {
        assert(line.len() == i + 1);
        assert(next_delimiter(line, i) == line.len()) by {
            if i + 3 <= line.len() {
            }
        }
        assert(line.subrange(start, line.len() - 1) =~= w);
        assert(fields =~= seq![w]);
    } else {
        let others = fields.drop_first();
        assert(rest[i - start] == '"');
        assert(rest[i - start + 1] == ',');
        assert(rest[i - start + 2] == '"');
        assert(line[i] == rest[i - start]);
        assert(line[i + 1] == rest[i + 1 - start]);
        assert(line[i + 2] == rest[i + 2 - start]);
        assert(delimiter_at(line, i));
        assert(next_delimiter(line, i) == i);
        let tail = line_tail(others);
        assert(rest.len() == w.len() + 3 + tail.len());
        assert forall|k: int| 0 <= k < tail.len() implies line.skip(i + 3)[k] == tail[k] by {
            assert(line[i + 3 + k] == rest[i + 3 + k - start]);
        }
        assert(line.skip(i + 3) =~= tail);
        assert(quote_free(others)) by {
            assert forall|a: int, b: int|
                0 <= a < others.len() && 0 <= b < others[a].len() implies (
            #[trigger] others[a][b]) != '"' by {
                assert(others[a][b] == fields[a + 1][b]);
            }
        }
        lemma_fields_from_line_tail(line, i + 3, others);
        assert(line.subrange(start, i) =~= w);
        assert(seq![w] + others =~= fields);
    }
}

/// Splitting the line that spells some fields gives those fields back, where
/// no field holds a quote. Any field may be empty, the last one too. Only a
/// single empty field is left out: the line that would spell it is the line
/// of two quotes, which spells no field.
pub proof fn lemma_tokens_of_line(fields: Seq<Seq<char>>)
    requires
        fields.len() >= 2 || (fields.len() == 1 && fields[0].len() > 0),
        quote_free(fields),
    ensures
        tokens(line_of(fields)) == fields,
{
    let line = line_of(fields);
    lemma_line_tail_ends_with_quote(fields);
    if fields.len() >= 2 {
        lemma_line_tail_ends_with_quote(fields.drop_first());
    }
    assert(line.skip(1) =~= line_tail(fields));
    assert(line.last() == line_tail(fields).last());
    lemma_fields_from_line_tail(line, 1, fields);
}

/// Splits a line into its fields.
///
/// A record line starts and ends with a quote and separates its fields by
/// `","`; the quotes around each field are stripped and nothing else is. A
/// field may be empty, the last one too. Any other line has no fields: the
/// empty line, a line that lacks one of the two quotes, and the line of two
/// quotes alone.
pub fn get_params(line: &str) -> (v: Vec<String>)
    ensures
        texts(v@) == tokens(line@),
{
    let chars = to_chars(line);
    let n = chars.len();
    let mut v: Vec<String> = Vec::new();
    if n <= 2 || chars[0] != '"' || chars[n - 1] != '"' {
        assert(texts(v@) =~= tokens(line@));
        return v;
    }
    let mut start: usize = 1;
    let mut i: usize = 1;
    assert(texts(v@) + fields_from(line@, 1) =~= tokens(line@));
    while n - i >= 3
        invariant
            1 <= start <= i <= n,
            n == line@.len(),
            chars@ == line@,
            texts(v@) + fields_from(line@, start as int) == tokens(line@),
            forall|j: int| start <= j < i ==> !delimiter_at(line@, j),
        decreases n - i,
    {
        if chars[i] == '"' && chars[i + 1] == ',' && chars[i + 2] == '"' {
            let field = line.substring_char(start, i).to_owned();
            proof {
                lemma_next_delimiter_skips(line@, start as int, i as int);
                assert(next_delimiter(line@, i as int) == i);
                assert(texts(v@.push(field)) =~= texts(v@).push(field@));
                assert(texts(v@).push(field@) + fields_from(line@, i + 3) =~= texts(v@) + (
                seq![field@] + fields_from(line@, i + 3)));
            }
            v.push(field);
            start = i + 3;
            i = start;
        } else {
            i += 1;
        }
    }
    proof {
        lemma_next_delimiter_skips(line@, start as int, i as int);
        assert(next_delimiter(line@, i as int) == n);
    }
    if start <= n - 1 {
        let field = line.substring_char(start, n - 1).to_owned();
        proof {
            assert(texts(v@.push(field)) =~= texts(v@).push(field@));
            assert(texts(v@).push(field@) =~= texts(v@) + seq![field@]);
        }
        v.push(field);
    } else {
        assert(texts(v@) + Seq::<Seq<char>>::empty() =~= texts(v@));
    }
    v
}

/// The kinds of record that the decoder knows.
#[derive(Debug, Clone, Copy, PartialEq, Eq, Structural)]
pub enum RecordKind {
    /// A plan definition; a file holds one.
    Plan,
    /// An extended plan definition; a file holds one.
    ExtendedPlan,
    /// A prescription site; a file holds one.
    Prescription,
    /// A site setup; a file holds one.
    SiteSetup,
    /// A simulation field; a file holds one.
    Simulation,
    /// A treatment field; a file may hold many.
    Field,
    /// An extended treatment field; a file may hold many.
    ExtendedField,
    /// A multi leaf collimator; a file may hold many.
    MultiLeafCollimator,
    /// A control point; a file may hold many.
    ControlPoint,
    /// An MLC shape; a file may hold many.
    MlcShape,
    /// A dose tracking; a file may hold many.
    DoseTracking,
    /// A dose action point; a file may hold many.
    DoseAction,
}

/// The record kind that a keyword stands for; none for a keyword that the
/// decoder does not know.
pub open spec fn kind_of_keyword(keyword: Seq<char>) -> Option<RecordKind> {
    if keyword == plan::KEYWORD@ {
        Some(RecordKind::Plan)
    } else if keyword == extended_plan::KEYWORD@ {
        Some(RecordKind::ExtendedPlan)
    } else if keyword == prescription::KEYWORD@ {
        Some(RecordKind::Prescription)
    } else if keyword == site_setup::KEYWORD@ {
        Some(RecordKind::SiteSetup)
    } else if keyword == simulation::KEYWORD@ {
        Some(RecordKind::Simulation)
    } else if keyword == field::KEYWORD@ {
        Some(RecordKind::Field)
    } else if keyword == extended_field::KEYWORD@ {
        Some(RecordKind::ExtendedField)
    } else if keyword == multi_leaf_collimator::KEYWORD@ {
        Some(RecordKind::MultiLeafCollimator)
    } else if keyword == control_point::KEYWORD@ {
        Some(RecordKind::ControlPoint)
    } else if keyword == mlc_shape::KEYWORD@ {
        Some(RecordKind::MlcShape)
    } else if keyword == dose_tracking::KEYWORD@ {
        Some(RecordKind::DoseTracking)
    } else if keyword == dose_action::KEYWORD@ {
        Some(RecordKind::DoseAction)
    } else {
        None
    }
}

/// The record kind of a line: that of its first field. A line without fields
/// has none.
pub open spec fn kind_of_line(line: Seq<char>) -> Option<RecordKind> {
    if tokens(line).len() == 0 {
        None
    } else {
        kind_of_keyword(tokens(line)[0])
    }
}

/// The keyword of a record kind.
pub open spec fn keyword_of(kind: RecordKind) -> Seq<char> {
    match kind {
        RecordKind::Plan => plan::KEYWORD@,
        RecordKind::ExtendedPlan => extended_plan::KEYWORD@,
        RecordKind::Prescription => prescription::KEYWORD@,
        RecordKind::SiteSetup => site_setup::KEYWORD@,
        RecordKind::Simulation => simulation::KEYWORD@,
        RecordKind::Field => field::KEYWORD@,
        RecordKind::ExtendedField => extended_field::KEYWORD@,
        RecordKind::MultiLeafCollimator => multi_leaf_collimator::KEYWORD@,
        RecordKind::ControlPoint => control_point::KEYWORD@,
        RecordKind::MlcShape => mlc_shape::KEYWORD@,
        RecordKind::DoseTracking => dose_tracking::KEYWORD@,
        RecordKind::DoseAction => dose_action::KEYWORD@,
    }
}

/// The number of fields that a record kind declares.
pub open spec fn length_of(kind: RecordKind) -> nat {
    match kind {
        RecordKind::Plan => plan::LENGTH as nat,
        RecordKind::ExtendedPlan => extended_plan::LENGTH as nat,
        RecordKind::Prescription => prescription::LENGTH as nat,
        RecordKind::SiteSetup => site_setup::LENGTH as nat,
        RecordKind::Simulation => simulation::LENGTH as nat,
        RecordKind::Field => field::LENGTH as nat,
        RecordKind::ExtendedField => extended_field::LENGTH as nat,
        RecordKind::MultiLeafCollimator => multi_leaf_collimator::LENGTH as nat,
        RecordKind::ControlPoint => control_point::LENGTH as nat,
        RecordKind::MlcShape => mlc_shape::LENGTH as nat,
        RecordKind::DoseTracking => dose_tracking::LENGTH as nat,
        RecordKind::DoseAction => dose_action::LENGTH as nat,
    }
}

/// No two record kinds share a keyword: the keyword of a kind stands for
/// that kind and for no other.
pub proof fn lemma_keyword_tells_kind(kind: RecordKind)
    ensures
        kind_of_keyword(keyword_of(kind)) == Some(kind),
{
    reveal_strlit("PLAN_DEF");
    reveal_strlit("EXTENDED_PLAN_DEF");
    reveal_strlit("RX_DEF");
    reveal_strlit("SITE_SETUP_DEF");
    reveal_strlit("SIM_DEF");
    reveal_strlit("FIELD_DEF");
    reveal_strlit("EXTENDED_FIELD_DEF");
    reveal_strlit("MLC_DEF");
    reveal_strlit("CONTROL_PT_DEF");
    reveal_strlit("MLC_SHAPE_DEF");
    reveal_strlit("DOSE_DEF");
    reveal_strlit("DOSE_ACTION");
    assert(plan::KEYWORD@.len() == 8);
    assert(extended_plan::KEYWORD@.len() == 17);
    assert(prescription::KEYWORD@.len() == 6);
    assert(site_setup::KEYWORD@.len() == 14);
    assert(simulation::KEYWORD@.len() == 7);
    assert(field::KEYWORD@.len() == 9);
    assert(extended_field::KEYWORD@.len() == 18);
    assert(multi_leaf_collimator::KEYWORD@.len() == 7);
    assert(control_point::KEYWORD@.len() == 14);
    assert(mlc_shape::KEYWORD@.len() == 13);
    assert(dose_tracking::KEYWORD@.len() == 8);
    assert(dose_action::KEYWORD@.len() == 11);
    assert(plan::KEYWORD@[0] == 'P');
    assert(dose_tracking::KEYWORD@[0] == 'D');
    assert(simulation::KEYWORD@[1] == 'I');
    assert(multi_leaf_collimator::KEYWORD@[1] == 'L');
    assert(site_setup::KEYWORD@[0] == 'S');
    assert(control_point::KEYWORD@[0] == 'C');
}

/// Fields that are fewer or more than their kind declares are refused for
/// their number, whatever they hold. The error tells both numbers.
pub proof fn lemma_wrong_length_fails(kind: RecordKind, f: Seq<Seq<char>>)
    requires
        f.len() != length_of(kind),
    ensures
        record_failure(kind, f) == Some(
            ErrorView::ParameterLengthMismatch(length_of(kind), f.len()),
        ),
{
}

/// Fields of the declared number that begin with another keyword are refused
/// for their keyword, whatever else they hold. The error tells both keywords.
pub proof fn lemma_wrong_keyword_fails(kind: RecordKind, f: Seq<Seq<char>>)
    requires
        f.len() == length_of(kind),
        f[0] != keyword_of(kind),
    ensures
        record_failure(kind, f) == Some(ErrorView::Keyword(keyword_of(kind), f[0])),
{
}

/// Fields of the declared number that begin with the keyword of their kind
/// can only be refused for a mandatory integer that is none. Everything else
/// in them decodes, whatever it holds.
pub proof fn lemma_well_headed_fails_on_integers_only(kind: RecordKind, f: Seq<Seq<char>>)
    requires
        f.len() == length_of(kind),
        f[0] == keyword_of(kind),
    ensures
        record_failure(kind, f) matches Some(e) ==> e is ParseIntError,
{
}

/// Why the fields `f` are no record of the given kind, if they are none.
pub open spec fn record_failure(kind: RecordKind, f: Seq<Seq<char>>) -> Option<ErrorView> {
    match kind {
        RecordKind::Plan => plan::failure(f),
        RecordKind::ExtendedPlan => extended_plan::failure(f),
        RecordKind::Prescription => prescription::failure(f),
        RecordKind::SiteSetup => site_setup::failure(f),
        RecordKind::Simulation => simulation::failure(f),
        RecordKind::Field => field::failure(f),
        RecordKind::ExtendedField => extended_field::failure(f),
        RecordKind::MultiLeafCollimator => multi_leaf_collimator::failure(f),
        RecordKind::ControlPoint => control_point::failure(f),
        RecordKind::MlcShape => mlc_shape::failure(f),
        RecordKind::DoseTracking => dose_tracking::failure(f),
        RecordKind::DoseAction => dose_action::failure(f),
    }
}

/// Why a line cannot be decoded, if it cannot. A line without fields and a
/// line of an unknown kind are passed over, so they never fail.
pub open spec fn line_failure(line: Seq<char>) -> Option<ErrorView> {
    match kind_of_line(line) {
        Some(kind) => record_failure(kind, tokens(line)),
        None => None,
    }
}

/// The failure of the first line that cannot be decoded, if there is one.
pub open spec fn first_failure(lines: Seq<Seq<char>>) -> Option<ErrorView>
    decreases lines.len(),
{
    if lines.len() == 0 {
        None
    } else if first_failure(lines.drop_last()) is Some {
        first_failure(lines.drop_last())
    } else {
        line_failure(lines.last())
    }
}

/// The lines of one record kind, each as its fields, in file order.
pub open spec fn records_of(lines: Seq<Seq<char>>, kind: RecordKind) -> Seq<Seq<Seq<char>>>
    decreases lines.len(),
{
    if lines.len() == 0 {
        Seq::empty()
    } else if kind_of_line(lines.last()) == Some(kind) {
        records_of(lines.drop_last(), kind).push(tokens(lines.last()))
    } else {
        records_of(lines.drop_last(), kind)
    }
}

/// What a plan holds once `lines` are decoded into it. A slot holds the last
/// record of its kind, or the record in which nothing is decoded where the
/// lines have none of that kind. A list holds every record of its kind, in
/// file order.
pub open spec fn collected(rtp: Rtp, lines: Seq<Seq<char>>) -> bool {
    &&& if records_of(lines, RecordKind::Plan).len() == 0 {
        rtp.plan.is_default()
    } else {
        plan::decoded(rtp.plan, records_of(lines, RecordKind::Plan).last())
    }
    &&& if records_of(lines, RecordKind::ExtendedPlan).len() == 0 {
        rtp.extended_plan.is_default()
    } else {
        extended_plan::decoded(rtp.extended_plan, records_of(lines, RecordKind::ExtendedPlan).last())
    }
    &&& if records_of(lines, RecordKind::Prescription).len() == 0 {
        rtp.prescription.is_default()
    } else {
        prescription::decoded(rtp.prescription, records_of(lines, RecordKind::Prescription).last())
    }
    &&& if records_of(lines, RecordKind::SiteSetup).len() == 0 {
        rtp.site_setup.is_default()
    } else {
        site_setup::decoded(rtp.site_setup, records_of(lines, RecordKind::SiteSetup).last())
    }
    &&& if records_of(lines, RecordKind::Simulation).len() == 0 {
        rtp.simulation.is_default()
    } else {
        simulation::decoded(rtp.simulation, records_of(lines, RecordKind::Simulation).last())
    }
    &&& rtp.fields@.len() == records_of(lines, RecordKind::Field).len()
    &&& forall|i: int|
        0 <= i < rtp.fields@.len() ==> field::decoded(
            #[trigger] rtp.fields@[i],
            records_of(lines, RecordKind::Field)[i],
        )
    &&& rtp.extended_fields@.len() == records_of(lines, RecordKind::ExtendedField).len()
    &&& forall|i: int|
        0 <= i < rtp.extended_fields@.len() ==> extended_field::decoded(
            #[trigger] rtp.extended_fields@[i],
            records_of(lines, RecordKind::ExtendedField)[i],
        )
    &&& rtp.mlcs@.len() == records_of(lines, RecordKind::MultiLeafCollimator).len()
    &&& forall|i: int|
        0 <= i < rtp.mlcs@.len() ==> multi_leaf_collimator::decoded(
            #[trigger] rtp.mlcs@[i],
            records_of(lines, RecordKind::MultiLeafCollimator)[i],
        )
    &&& rtp.control_points@.len() == records_of(lines, RecordKind::ControlPoint).len()
    &&& forall|i: int|
        0 <= i < rtp.control_points@.len() ==> control_point::decoded(
            #[trigger] rtp.control_points@[i],
            records_of(lines, RecordKind::ControlPoint)[i],
        )
    &&& rtp.mlc_shapes@.len() == records_of(lines, RecordKind::MlcShape).len()
    &&& forall|i: int|
        0 <= i < rtp.mlc_shapes@.len() ==> mlc_shape::decoded(
            #[trigger] rtp.mlc_shapes@[i],
            records_of(lines, RecordKind::MlcShape)[i],
        )
    &&& rtp.dose_trackings@.len() == records_of(lines, RecordKind::DoseTracking).len()
    &&& forall|i: int|
        0 <= i < rtp.dose_trackings@.len() ==> dose_tracking::decoded(
            #[trigger] rtp.dose_trackings@[i],
            records_of(lines, RecordKind::DoseTracking)[i],
        )
    &&& rtp.dose_actions@.len() == records_of(lines, RecordKind::DoseAction).len()
    &&& forall|i: int|
        0 <= i < rtp.dose_actions@.len() ==> dose_action::decoded(
            #[trigger] rtp.dose_actions@[i],
            records_of(lines, RecordKind::DoseAction)[i],
        )
}

/// Decoding one more line: the first failure stays what it was, or becomes
/// that of the new line; the new line joins the records of its kind.
proof fn lemma_one_more_line(lines: Seq<Seq<char>>, i: int)
    requires
        0 <= i < lines.len(),
    ensures
        first_failure(lines.take(i + 1)) == if first_failure(lines.take(i)) is Some {
            first_failure(lines.take(i))
        } else {
            line_failure(lines[i])
        },
        forall|kind: RecordKind|
            #[trigger] records_of(lines.take(i + 1), kind) == if kind_of_line(lines[i]) == Some(
                kind,
            ) {
                records_of(lines.take(i), kind).push(tokens(lines[i]))
            } else {
                records_of(lines.take(i), kind)
            },
{
    assert(lines.take(i + 1).drop_last() =~= lines.take(i));
    assert(lines.take(i + 1).last() == lines[i]);
}

/// What decoding one line does to a plan. A line without a known kind leaves
/// the plan as it is. A record of a kind that a file holds once takes the
/// slot of its kind; a record of any other kind goes to the end of the list
/// of its kind. Nothing else changes.
pub open spec fn stored(before: Rtp, after: Rtp, line: Seq<char>) -> bool {
    match kind_of_line(line) {
        None => after == before,
        Some(RecordKind::Plan) => {
            &&& plan::decoded(after.plan, tokens(line))
            &&& after == (Rtp { plan: after.plan, ..before })
        },
        Some(RecordKind::ExtendedPlan) => {
            &&& extended_plan::decoded(after.extended_plan, tokens(line))
            &&& after == (Rtp { extended_plan: after.extended_plan, ..before })
        },
        Some(RecordKind::Prescription) => {
            &&& prescription::decoded(after.prescription, tokens(line))
            &&& after == (Rtp { prescription: after.prescription, ..before })
        },
        Some(RecordKind::SiteSetup) => {
            &&& site_setup::decoded(after.site_setup, tokens(line))
            &&& after == (Rtp { site_setup: after.site_setup, ..before })
        },
        Some(RecordKind::Simulation) => {
            &&& simulation::decoded(after.simulation, tokens(line))
            &&& after == (Rtp { simulation: after.simulation, ..before })
        },
        Some(RecordKind::Field) => {
            &&& after.fields@.len() == before.fields@.len() + 1
            &&& after.fields@.drop_last() == before.fields@
            &&& field::decoded(after.fields@.last(), tokens(line))
            &&& after == (Rtp { fields: after.fields, ..before })
        },
        Some(RecordKind::ExtendedField) => {
            &&& after.extended_fields@.len() == before.extended_fields@.len() + 1
            &&& after.extended_fields@.drop_last() == before.extended_fields@
            &&& extended_field::decoded(after.extended_fields@.last(), tokens(line))
            &&& after == (Rtp { extended_fields: after.extended_fields, ..before })
        },
        Some(RecordKind::MultiLeafCollimator) => {
            &&& after.mlcs@.len() == before.mlcs@.len() + 1
            &&& after.mlcs@.drop_last() == before.mlcs@
            &&& multi_leaf_collimator::decoded(after.mlcs@.last(), tokens(line))
            &&& after == (Rtp { mlcs: after.mlcs, ..before })
        },
        Some(RecordKind::ControlPoint) => {
            &&& after.control_points@.len() == before.control_points@.len() + 1
            &&& after.control_points@.drop_last() == before.control_points@
            &&& control_point::decoded(after.control_points@.last(), tokens(line))
            &&& after == (Rtp { control_points: after.control_points, ..before })
        },
        Some(RecordKind::MlcShape) => {
            &&& after.mlc_shapes@.len() == before.mlc_shapes@.len() + 1
            &&& after.mlc_shapes@.drop_last() == before.mlc_shapes@
            &&& mlc_shape::decoded(after.mlc_shapes@.last(), tokens(line))
            &&& after == (Rtp { mlc_shapes: after.mlc_shapes, ..before })
        },
        Some(RecordKind::DoseTracking) => {
            &&& after.dose_trackings@.len() == before.dose_trackings@.len() + 1
            &&& after.dose_trackings@.drop_last() == before.dose_trackings@
            &&& dose_tracking::decoded(after.dose_trackings@.last(), tokens(line))
            &&& after == (Rtp { dose_trackings: after.dose_trackings, ..before })
        },
        Some(RecordKind::DoseAction) => {
            &&& after.dose_actions@.len() == before.dose_actions@.len() + 1
            &&& after.dose_actions@.drop_last() == before.dose_actions@
            &&& dose_action::decoded(after.dose_actions@.last(), tokens(line))
            &&& after == (Rtp { dose_actions: after.dose_actions, ..before })
        },
    }
}

/// A plan that holds some lines, and then stores one more, holds them all.
pub proof fn lemma_collected_one_more(before: Rtp, after: Rtp, lines: Seq<Seq<char>>, i: int)
    requires
        0 <= i < lines.len(),
        collected(before, lines.take(i)),
        stored(before, after, lines[i]),
    ensures
        collected(after, lines.take(i + 1)),
{
    lemma_one_more_line(lines, i);
    match kind_of_line(lines[i]) {
        Some(RecordKind::Field) => {
            assert(after.fields@ =~= before.fields@.push(after.fields@.last()));
        },
        Some(RecordKind::ExtendedField) => {
            assert(after.extended_fields@ =~= before.extended_fields@.push(after.extended_fields@.last()));
        },
        Some(RecordKind::MultiLeafCollimator) => {
            assert(after.mlcs@ =~= before.mlcs@.push(after.mlcs@.last()));
        },
        Some(RecordKind::ControlPoint) => {
            assert(after.control_points@ =~= before.control_points@.push(after.control_points@.last()));
        },
        Some(RecordKind::MlcShape) => {
            assert(after.mlc_shapes@ =~= before.mlc_shapes@.push(after.mlc_shapes@.last()));
        },
        Some(RecordKind::DoseTracking) => {
            assert(after.dose_trackings@ =~= before.dose_trackings@.push(after.dose_trackings@.last()));
        },
        Some(RecordKind::DoseAction) => {
            assert(after.dose_actions@ =~= before.dose_actions@.push(after.dose_actions@.last()));
        },
        _ => {},
    }
}

/// A failure among the first `k` lines is the failure of the whole file.
proof fn lemma_failure_stays(lines: Seq<Seq<char>>, k: int)
    requires
        0 <= k <= lines.len(),
        first_failure(lines.take(k)) is Some,
    ensures
        first_failure(lines) == first_failure(lines.take(k)),
    decreases lines.len() - k,
{
    if k == lines.len() {
        assert(lines.take(k) =~= lines);
    } else {
        lemma_one_more_line(lines, k);
        lemma_failure_stays(lines, k + 1);
    }
}

/// Tells the record kind of a keyword.
pub fn record_kind(keyword: &str) -> (r: Option<RecordKind>)
    ensures
        r == kind_of_keyword(keyword@),
{
    if same_text(keyword, plan::KEYWORD) {
        Some(RecordKind::Plan)
    } else if same_text(keyword, extended_plan::KEYWORD) {
        Some(RecordKind::ExtendedPlan)
    } else if same_text(keyword, prescription::KEYWORD) {
        Some(RecordKind::Prescription)
    } else if same_text(keyword, site_setup::KEYWORD) {
        Some(RecordKind::SiteSetup)
    } else if same_text(keyword, simulation::KEYWORD) {
        Some(RecordKind::Simulation)
    } else if same_text(keyword, field::KEYWORD) {
        Some(RecordKind::Field)
    } else if same_text(keyword, extended_field::KEYWORD) {
        Some(RecordKind::ExtendedField)
    } else if same_text(keyword, multi_leaf_collimator::KEYWORD) {
        Some(RecordKind::MultiLeafCollimator)
    } else if same_text(keyword, control_point::KEYWORD) {
        Some(RecordKind::ControlPoint)
    } else if same_text(keyword, mlc_shape::KEYWORD) {
        Some(RecordKind::MlcShape)
    } else if same_text(keyword, dose_tracking::KEYWORD) {
        Some(RecordKind::DoseTracking)
    } else if same_text(keyword, dose_action::KEYWORD) {
        Some(RecordKind::DoseAction)
    } else {
        None
    }
}

/// Decodes one line into a plan that holds the lines before it.
///
/// A line without fields and a line of an unknown kind are passed over. A
/// record of a kind that a file holds once replaces the one in the plan; a
/// record of any other kind is added to the list of its kind. Where the line
/// cannot be decoded the plan stays as it is.
pub fn parse_line(rtp: &mut Rtp, line: &str) -> (res: Result<(), Error>)
    ensures
        match res {
            Ok(_) => line_failure(line@) is None && stored(*old(rtp), *final(rtp), line@),
            Err(e) => line_failure(line@) == Some(e@) && *final(rtp) == *old(rtp),
        },
{
    let params = get_params(line);
    if params.len() == 0 {
        return Ok(());
    }
    match record_kind(params[0].as_str()) {
        Some(RecordKind::Plan) => {
            rtp.plan = plan::parse(&params)?;
        },
        Some(RecordKind::ExtendedPlan) => {
            rtp.extended_plan = extended_plan::parse(&params)?;
        },
        Some(RecordKind::Prescription) => {
            rtp.prescription = prescription::parse(&params)?;
        },
        Some(RecordKind::SiteSetup) => {
            rtp.site_setup = site_setup::parse(&params)?;
        },
        Some(RecordKind::Simulation) => {
            rtp.simulation = simulation::parse(&params)?;
        },
        Some(RecordKind::Field) => {
            let record = field::parse(&params)?;
            rtp.fields.push(record);
            assert(rtp.fields@.drop_last() =~= old(rtp).fields@);
        },
        Some(RecordKind::ExtendedField) => {
            let record = extended_field::parse(&params)?;
            rtp.extended_fields.push(record);
            assert(rtp.extended_fields@.drop_last() =~= old(rtp).extended_fields@);
        },
        Some(RecordKind::MultiLeafCollimator) => {
            let record = multi_leaf_collimator::parse(&params)?;
            rtp.mlcs.push(record);
            assert(rtp.mlcs@.drop_last() =~= old(rtp).mlcs@);
        },
        Some(RecordKind::ControlPoint) => {
            let record = control_point::parse(&params)?;
            rtp.control_points.push(record);
            assert(rtp.control_points@.drop_last() =~= old(rtp).control_points@);
        },
        Some(RecordKind::MlcShape) => {
            let record = mlc_shape::parse(&params)?;
            rtp.mlc_shapes.push(record);
            assert(rtp.mlc_shapes@.drop_last() =~= old(rtp).mlc_shapes@);
        },
        Some(RecordKind::DoseTracking) => {
            let record = dose_tracking::parse(&params)?;
            rtp.dose_trackings.push(record);
            assert(rtp.dose_trackings@.drop_last() =~= old(rtp).dose_trackings@);
        },
        Some(RecordKind::DoseAction) => {
            let record = dose_action::parse(&params)?;
            rtp.dose_actions.push(record);
            assert(rtp.dose_actions@.drop_last() =~= old(rtp).dose_actions@);
        },
        None => {},
    }
    Ok(())
}

/// Decodes the lines of a file into a plan.
///
/// The lines are taken in order, each as [`parse_line`] takes it. The first
/// line that cannot be decoded ends the decoding with its error, and nothing
/// of the plan is returned.
pub fn parse_lines(lines: &Vec<String>) -> (res: Result<Rtp, Error>)
    ensures
        match res {
            Ok(rtp) => first_failure(texts(lines@)) is None && collected(rtp, texts(lines@)),
            Err(e) => first_failure(texts(lines@)) == Some(e@),
        },
{
    let ghost all = texts(lines@);
    let mut rtp = Rtp::new();
    let n = lines.len();
    let mut i: usize = 0;
    assert(all.take(0) =~= Seq::<Seq<char>>::empty());
    while i < n
        invariant
            i <= n,
            n == lines@.len(),
            all == texts(lines@),
            first_failure(all.take(i as int)) is None,
            collected(rtp, all.take(i as int)),
        decreases n - i,
    {
        let ghost before = rtp;
        proof {
            lemma_one_more_line(all, i as int);
            assert(all[i as int] == lines@[i as int]@);
        }
        match parse_line(&mut rtp, lines[i].as_str()) {
            Ok(_) => {
                proof {
                    lemma_collected_one_more(before, rtp, all, i as int);
                }
            },
            Err(e) => {
                proof {
                    lemma_failure_stays(all, i + 1);
                }
                return Err(e);
            },
        }
        i += 1;
    }
    assert(all.take(n as int) =~= all);
    Ok(rtp)
}

} // verus!
