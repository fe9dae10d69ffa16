//! The wire object: the members of a JSON document that the bridge knows.
//! A reading is recognised by the members that are present, and is written
//! as the object of its members.

use vstd::prelude::*;
use vstd::string::*;
use crate::common::{JsonData, Reading};
use crate::decimal::{decimal, push_decimal};
use crate::error::CodecError;
use crate::json::{quote, string_literal};

verus! {

/// The members of a JSON document that the bridge knows, each with the value
/// it has where it is present and of the right kind: `source` as a string,
/// the others as integers.
#[derive(Debug)]
pub struct Fields {
    pub source: Option<String>,
    pub acc_x: Option<i64>,
    pub acc_y: Option<i64>,
    pub acc_z: Option<i64>,
    pub rot_x: Option<i64>,
    pub rot_y: Option<i64>,
    pub rot_z: Option<i64>,
    pub range: Option<i64>,
}

/// The mathematical value of [`Fields`].
pub struct FieldsView {
    pub source: Option<Seq<char>>,
    pub acc_x: Option<i64>,
    pub acc_y: Option<i64>,
    pub acc_z: Option<i64>,
    pub rot_x: Option<i64>,
    pub rot_y: Option<i64>,
    pub rot_z: Option<i64>,
    pub range: Option<i64>,
}

impl View for Fields {
    type V = FieldsView;

    open spec fn view(&self) -> FieldsView {
        FieldsView {
            source: match self.source {
                Some(text) => Some(text@),
                None => None,
            },
            acc_x: self.acc_x,
            acc_y: self.acc_y,
            acc_z: self.acc_z,
            rot_x: self.rot_x,
            rot_y: self.rot_y,
            rot_z: self.rot_z,
            range: self.range,
        }
    }
}

impl FieldsView {
    /// Every member of an inertial reading is there.
    pub open spec fn is_inertial(self) -> bool {
        self.source is Some && self.acc_x is Some && self.acc_y is Some && self.acc_z is Some
            && self.rot_x is Some && self.rot_y is Some && self.rot_z is Some
    }

    /// Every member of a range reading is there.
    pub open spec fn is_range(self) -> bool {
        self.source is Some && self.range is Some
    }
}

/// The reading that a set of members stands for. The kinds are tried in a
/// fixed order, the inertial reading first; members that the chosen kind does
/// not have are ignored. Members of neither kind are a `DecodeError`.
pub open spec fn classified(fields: FieldsView) -> Result<Reading, CodecError> {
    if fields.is_inertial() {
        Ok(
            Reading::Inertial {
                source: fields.source->0,
                acc_x: fields.acc_x->0,
                acc_y: fields.acc_y->0,
                acc_z: fields.acc_z->0,
                rot_x: fields.rot_x->0,
                rot_y: fields.rot_y->0,
                rot_z: fields.rot_z->0,
            },
        )
    } else if fields.is_range() {
        Ok(Reading::Range { source: fields.source->0, range: fields.range->0 })
    } else {
        Err(CodecError::DecodeError)
    }
}

/// The reading that a set of members stands for, or `DecodeError` where they
/// are the members of neither kind.
pub fn classify(fields: Fields) -> (outcome: Result<JsonData, CodecError>)
    ensures
        match outcome {
            Ok(reading) => classified(fields@) == Ok::<Reading, CodecError>(reading@),
            Err(error) => classified(fields@) == Err::<Reading, CodecError>(error),
        },
{
    match fields {
        Fields {
            source: Some(source),
            acc_x: Some(acc_x),
            acc_y: Some(acc_y),
            acc_z: Some(acc_z),
            rot_x: Some(rot_x),
            rot_y: Some(rot_y),
            rot_z: Some(rot_z),
            range: _,
        } => Ok(JsonData::MPU6050Data { source, acc_x, acc_y, acc_z, rot_x, rot_y, rot_z }),
        Fields { source: Some(source), range: Some(range), .. } => Ok(
            JsonData::UWBData { source, range },
        ),
        _ => Err(CodecError::DecodeError),
    }
}

/// Members that are of neither kind are a `DecodeError`, and nothing else
/// is: members of a kind always give a reading.
pub proof fn lemma_neither_kind(fields: FieldsView)
    ensures
        classified(fields) is Err <==> !fields.is_inertial() && !fields.is_range(),
        classified(fields) is Err ==> classified(fields) == Err::<Reading, CodecError>(
            CodecError::DecodeError,
        ),
{
}

/// The members that a reading is written with.
pub open spec fn members_of(reading: Reading) -> FieldsView {
    match reading {
        Reading::Inertial { source, acc_x, acc_y, acc_z, rot_x, rot_y, rot_z } => FieldsView {
            source: Some(source),
            acc_x: Some(acc_x),
            acc_y: Some(acc_y),
            acc_z: Some(acc_z),
            rot_x: Some(rot_x),
            rot_y: Some(rot_y),
            rot_z: Some(rot_z),
            range: None,
        },
        Reading::Range { source, range } => FieldsView {
            source: Some(source),
            acc_x: None,
            acc_y: None,
            acc_z: None,
            rot_x: None,
            rot_y: None,
            rot_z: None,
            range: Some(range),
        },
    }
}

/// The members that a reading is written with.
pub fn members(reading: &JsonData) -> (fields: Fields)
    ensures
        fields@ == members_of(reading@),
{
    match reading {
        JsonData::MPU6050Data { source, acc_x, acc_y, acc_z, rot_x, rot_y, rot_z } => Fields {
            source: Some(source.clone()),
            acc_x: Some(*acc_x),
            acc_y: Some(*acc_y),
            acc_z: Some(*acc_z),
            rot_x: Some(*rot_x),
            rot_y: Some(*rot_y),
            rot_z: Some(*rot_z),
            range: None,
        },
        JsonData::UWBData { source, range } => Fields {
            source: Some(source.clone()),
            acc_x: None,
            acc_y: None,
            acc_z: None,
            rot_x: None,
            rot_y: None,
            rot_z: None,
            range: Some(*range),
        },
    }
}

/// The members that a reading is written with are read back as that reading,
/// whatever the reading.
pub proof fn lemma_members_round_trip(reading: Reading)
    ensures
        classified(members_of(reading)) == Ok::<Reading, CodecError>(reading),
{
}

/// A member's name as JSON writes it in front of the value: in quotes, with
/// a colon behind it.
pub open spec fn label(name: Seq<char>) -> Seq<char> {
    seq!['"'] + name + seq!['"', ':']
}

/// The entry of a string member: none where the member is absent.
pub open spec fn text_entry(name: Seq<char>, value: Option<Seq<char>>) -> Seq<Seq<char>> {
    match value {
        Some(text) => seq![label(name) + string_literal(text)],
        None => seq![],
    }
}

/// The entry of an integer member: none where the member is absent.
pub open spec fn integer_entry(name: Seq<char>, value: Option<i64>) -> Seq<Seq<char>> {
    match value {
        Some(number) => seq![label(name) + decimal(number as int)],
        None => seq![],
    }
}

/// The entries of the members that are present, in the order in which they
/// are written.
pub open spec fn entries(fields: FieldsView) -> Seq<Seq<char>> {
    text_entry("source"@, fields.source) + integer_entry("acc_x"@, fields.acc_x) + integer_entry(
        "acc_y"@,
        fields.acc_y,
    ) + integer_entry("acc_z"@, fields.acc_z) + integer_entry("rot_x"@, fields.rot_x)
        + integer_entry("rot_y"@, fields.rot_y) + integer_entry("rot_z"@, fields.rot_z)
        + integer_entry("range"@, fields.range)
}

/// The parts with a comma between each two of them.
pub open spec fn joined(parts: Seq<Seq<char>>) -> Seq<char>
    decreases parts.len(),
{
    if parts.len() == 0 {
        seq![]
    } else if parts.len() == 1 {
        parts[0]
    } else {
        joined(parts.drop_last()) + seq![','] + parts.last()
    }
}

/// The compact JSON object that holds the members that are present.
pub open spec fn rendered(fields: FieldsView) -> Seq<char> {
    seq!['{'] + joined(entries(fields)) + seq!['}']
}

/// Writes the separator where an entry is not the first, and then the
/// entry's label.
fn push_label(out: &mut String, written: Ghost<Seq<Seq<char>>>, first: bool, name: &str)
    requires
        old(out)@ == seq!['{'] + joined(written@),
        first == (written@.len() == 0),
    ensures
        forall|value: Seq<char>|
            final(out)@ + value == seq!['{'] + #[trigger] joined(
                written@.push(label(name@) + value),
            ),
{
    if !first {
        out.append(",");
    }
    out.append("\"");
    out.append(name);
    out.append("\":");
    proof {
        reveal_strlit(",");
        reveal_strlit("\"");
        reveal_strlit("\":");
        assert forall|value: Seq<char>|
            final(out)@ + value == seq!['{'] + #[trigger] joined(
                written@.push(label(name@) + value),
            ) by {
            let entry = label(name@) + value;
            let parts = written@.push(entry);
            assert(parts.drop_last() =~= written@);
            assert(parts.last() == entry);
            if first {
                assert(final(out)@ + value =~= seq!['{'] + entry);
            } else {
                assert(final(out)@ + value =~= seq!['{'] + (joined(written@) + seq![','] + entry));
            }
        }
    }
}

/// Writes the entry of a string member, where it is present.
fn push_text(
    out: &mut String,
    written: Ghost<Seq<Seq<char>>>,
    first: bool,
    name: &str,
    value: &Option<String>,
) -> (still_first: bool)
    requires
        old(out)@ == seq!['{'] + joined(written@),
        first == (written@.len() == 0),
    ensures
        final(out)@ == seq!['{'] + joined(
            written@ + text_entry(
                name@,
                match *value {
                    Some(text) => Some(text@),
                    None => None,
                },
            ),
        ),
        still_first == (first && *value is None),
{
    match value {
        Some(text) => {
            push_label(out, written, first, name);
            let literal = match quote(text.as_str()) {
                Ok(literal) => literal,
                Err(_) => unreached(),
            };
            out.append(literal.as_str());
            assert(written@ + seq![label(name@) + string_literal(text@)] =~= written@.push(
                label(name@) + string_literal(text@),
            ));
            false
        },
        None => {
            assert(written@ + Seq::<Seq<char>>::empty() =~= written@);
            first
        },
    }
}

/// Writes the entry of an integer member, where it is present.
fn push_integer(
    out: &mut String,
    written: Ghost<Seq<Seq<char>>>,
    first: bool,
    name: &str,
    value: Option<i64>,
) -> (still_first: bool)
    requires
        old(out)@ == seq!['{'] + joined(written@),
        first == (written@.len() == 0),
    ensures
        final(out)@ == seq!['{'] + joined(written@ + integer_entry(name@, value)),
        still_first == (first && value is None),
{
    match value {
        Some(number) => {
            push_label(out, written, first, name);
            push_decimal(out, number);
            assert(written@ + seq![label(name@) + decimal(number as int)] =~= written@.push(
                label(name@) + decimal(number as int),
            ));
            false
        },
        None => {
            assert(written@ + Seq::<Seq<char>>::empty() =~= written@);
            first
        },
    }
}

/// The members that are present, as a compact JSON object.
pub fn render(fields: &Fields) -> (text: String)
    ensures
        text@ == rendered(fields@),
{
    let mut out = String::from_str("{");
    let ghost mut written: Seq<Seq<char>> = seq![];
    proof {
        reveal_strlit("{");
        reveal_strlit("}");
        assert(out@ =~= seq!['{'] + joined(written));
    }
    let first = push_text(&mut out, Ghost(written), true, "source", &fields.source);
    proof {
        written = written + text_entry("source"@, fields@.source);
    }
    let first = push_integer(&mut out, Ghost(written), first, "acc_x", fields.acc_x);
    proof {
        written = written + integer_entry("acc_x"@, fields@.acc_x);
    }
    let first = push_integer(&mut out, Ghost(written), first, "acc_y", fields.acc_y);
    proof {
        written = written + integer_entry("acc_y"@, fields@.acc_y);
    }
    let first = push_integer(&mut out, Ghost(written), first, "acc_z", fields.acc_z);
    proof {
        written = written + integer_entry("acc_z"@, fields@.acc_z);
    }
    let first = push_integer(&mut out, Ghost(written), first, "rot_x", fields.rot_x);
    proof {
        written = written + integer_entry("rot_x"@, fields@.rot_x);
    }
    let first = push_integer(&mut out, Ghost(written), first, "rot_y", fields.rot_y);
    proof {
        written = written + integer_entry("rot_y"@, fields@.rot_y);
    }
    let first = push_integer(&mut out, Ghost(written), first, "rot_z", fields.rot_z);
    proof {
        written = written + integer_entry("rot_z"@, fields@.rot_z);
    }
    let _ = push_integer(&mut out, Ghost(written), first, "range", fields.range);
    proof {
        written = written + integer_entry("range"@, fields@.range);
        assert(written =~= entries(fields@));
    }
    out.append("}");
    out
}

} // verus!
