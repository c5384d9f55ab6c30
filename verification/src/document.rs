//! The settings document: lines of `name = value`, one for each field of a
//! schema.

use crate::text::{
    append_str, chars_of, find_char, is_space, lemma_position_at, lemma_split_more,
    lemma_trimmed_blank, lemma_trimmed_tight, piece, position, same_chars, split, split_at,
    text_of, trim, trimmed, views,
};
use crate::number::{all_digits, value_of};
use crate::value::{
    conforms, is_stable, is_written, law_count_out_of_range, lemma_lacks_concat,
    lemma_read_conforms, lemma_value_round_trip, lemma_value_text_tight, read_value, value_read,
    value_text, write_value, Fault, FaultView, Kind, Value, ValueView,
};
use vstd::prelude::*;

verus! {

/// A field of a schema: its name and the kind of its value.
#[derive(Clone, Copy, Debug, PartialEq, Eq)]
pub struct Field {
    pub name: &'static str,
    pub kind: Kind,
}

/// Why a document could not be read. Each error but the last names the field
/// at fault.
#[derive(Clone, Debug, PartialEq, Eq)]
pub enum SchemaError {
    /// The value of the field is no name of its kind; holds the field and the
    /// name that was found.
    UnknownVariant(&'static str, String),
    /// The number of the field lies outside its bounds; holds the field and
    /// the value as it was written.
    OutOfRange(&'static str, String),
    /// The document has no line for the field.
    MissingField(&'static str),
    /// The value of the field is not written as values of its kind are; holds
    /// the field and the value as it was written.
    InvalidValue(&'static str, String),
    /// A line is neither blank nor a comment nor of the form `name = value`;
    /// holds the line.
    Malformed(String),
    /// The document is no text in UTF-8.
    NotText,
}

/// What a [`SchemaError`] holds, with texts as sequences of characters.
pub enum SchemaErrorView {
    UnknownVariant(&'static str, Seq<char>),
    OutOfRange(&'static str, Seq<char>),
    MissingField(&'static str),
    InvalidValue(&'static str, Seq<char>),
    Malformed(Seq<char>),
    NotText,
}

impl View for SchemaError {
    type V = SchemaErrorView;

    open spec fn view(&self) -> SchemaErrorView {
        match self {
            SchemaError::UnknownVariant(field, name) => SchemaErrorView::UnknownVariant(
                field,
                name@,
            ),
            SchemaError::OutOfRange(field, value) => SchemaErrorView::OutOfRange(field, value@),
            SchemaError::MissingField(field) => SchemaErrorView::MissingField(field),
            SchemaError::InvalidValue(field, value) => SchemaErrorView::InvalidValue(
                field,
                value@,
            ),
            SchemaError::Malformed(line) => SchemaErrorView::Malformed(line@),
            SchemaError::NotText => SchemaErrorView::NotText,
        }
    }
}

/// What a line of a document says.
pub enum LineView {
    /// Nothing: the line is empty, white space or a comment after `#`.
    Blank,
    /// That the field of the first text has the value that the second text
    /// writes.
    Entry(Seq<char>, Seq<char>),
    /// Nothing that can be read.
    Malformed,
}

/// What the line says: around the first `=` stand the name and the value,
/// each without the white space around it.
pub open spec fn line_read(line: Seq<char>) -> LineView {
    let inner = trimmed(line);
    if inner.len() == 0 || inner[0] == '#' {
        LineView::Blank
    } else {
        match position(inner, '=') {
            None => LineView::Malformed,
            Some(at) => LineView::Entry(
                trimmed(inner.subrange(0, at)),
                trimmed(inner.subrange(at + 1, inner.len() as int)),
            ),
        }
    }
}

/// The entries that the lines hold, in their order, or the first line that
/// cannot be read.
pub open spec fn entries_of(lines: Seq<Seq<char>>) -> Result<
    Seq<(Seq<char>, Seq<char>)>,
    Seq<char>,
>
    decreases lines.len(),
{
    if lines.len() == 0 {
        Ok(Seq::empty())
    } else {
        match entries_of(lines.drop_last()) {
            Err(line) => Err(line),
            Ok(entries) => match line_read(lines.last()) {
                LineView::Blank => Ok(entries),
                LineView::Entry(name, raw) => Ok(entries.push((name, raw))),
                LineView::Malformed => Err(lines.last()),
            },
        }
    }
}

/// The value that the entries give to a name: that of the last entry with the
/// name.
pub open spec fn lookup(entries: Seq<(Seq<char>, Seq<char>)>, name: Seq<char>) -> Option<
    Seq<char>,
>
    decreases entries.len(),
{
    if entries.len() == 0 {
        None
    } else if entries.last().0 == name {
        Some(entries.last().1)
    } else {
        lookup(entries.drop_last(), name)
    }
}

/// The error that a fault in the value of a field makes.
pub open spec fn fault_error(
    name: &'static str,
    raw: Seq<char>,
    fault: FaultView,
) -> SchemaErrorView {
    match fault {
        FaultView::Invalid => SchemaErrorView::InvalidValue(name, raw),
        FaultView::OutOfRange => SchemaErrorView::OutOfRange(name, raw),
        FaultView::UnknownVariant(found) => SchemaErrorView::UnknownVariant(name, found),
    }
}

/// The value that the entries give to a field. Only a path may be missing.
pub open spec fn field_read(entries: Seq<(Seq<char>, Seq<char>)>, field: Field) -> Result<
    ValueView,
    SchemaErrorView,
> {
    match lookup(entries, field.name@) {
        None => if field.kind == Kind::Path {
            Ok(ValueView::Path(None))
        } else {
            Err(SchemaErrorView::MissingField(field.name))
        },
        Some(raw) => match value_read(field.kind, raw) {
            Ok(value) => Ok(value),
            Err(fault) => Err(fault_error(field.name, raw, fault)),
        },
    }
}

/// The values that the entries give to the fields of a schema, or the error
/// of the first field, in the order of the schema, that has one.
pub open spec fn fields_read(entries: Seq<(Seq<char>, Seq<char>)>, schema: Seq<Field>) -> Result<
    Seq<ValueView>,
    SchemaErrorView,
>
    decreases schema.len(),
{
    if schema.len() == 0 {
        Ok(Seq::empty())
    } else {
        match fields_read(entries, schema.drop_last()) {
            Err(error) => Err(error),
            Ok(values) => match field_read(entries, schema.last()) {
                Ok(value) => Ok(values.push(value)),
                Err(error) => Err(error),
            },
        }
    }
}

/// What reading a document comes to: the first line that cannot be read is
/// an error; else the values of the fields of the schema, or the error of the
/// first field that has one. Lines with other names are passed over.
pub open spec fn document_read(text: Seq<char>, schema: Seq<Field>) -> Result<
    Seq<ValueView>,
    SchemaErrorView,
> {
    match entries_of(split(text, '\n')) {
        Err(line) => Err(SchemaErrorView::Malformed(line)),
        Ok(entries) => fields_read(entries, schema),
    }
}

/// The line of a field without its line feed.
pub open spec fn field_line(field: Field, value: ValueView) -> Seq<char> {
    field.name@ + seq![' ', '=', ' '] + value_text(value)
}

/// The document of the values of a schema: a line for each value that is
/// written, in the order of the schema.
pub open spec fn document_text(schema: Seq<Field>, values: Seq<ValueView>) -> Seq<char>
    decreases schema.len(),
{
    if schema.len() == 0 || values.len() != schema.len() {
        Seq::empty()
    } else if is_written(values.last()) {
        document_text(schema.drop_last(), values.drop_last()) + field_line(
            schema.last(),
            values.last(),
        ).push('\n')
    } else {
        document_text(schema.drop_last(), values.drop_last())
    }
}

/// What each value of a list holds.
pub open spec fn value_views(values: Seq<Value>) -> Seq<ValueView> {
    values.map_values(|value: Value| value@)
}

/// What each entry of a list holds.
pub open spec fn entry_views(entries: Seq<(Vec<char>, Vec<char>)>) -> Seq<(Seq<char>, Seq<char>)> {
    entries.map_values(|entry: (Vec<char>, Vec<char>)| (entry.0@, entry.1@))
}

/// A line of a document, read.
pub enum Line {
    Blank,
    Entry(Vec<char>, Vec<char>),
    Malformed,
}

impl View for Line {
    type V = LineView;

    open spec fn view(&self) -> LineView {
        match self {
            Line::Blank => LineView::Blank,
            Line::Entry(name, raw) => LineView::Entry(name@, raw@),
            Line::Malformed => LineView::Malformed,
        }
    }
}

/// Computes [`line_read`].
pub fn read_line(line: &Vec<char>) -> (read: Line)
    ensures
        read@ == line_read(line@),
{
    let inner = trim(line);
    if inner.len() == 0 || inner[0] == '#' {
        return Line::Blank;
    }
    match find_char(&inner, '=') {
        None => Line::Malformed,
        Some(at) => Line::Entry(
            trim(&piece(&inner, 0, at)),
            trim(&piece(&inner, at + 1, inner.len())),
        ),
    }
}

/// Where some lines cannot be read, no longer run of lines can, and the line
/// at fault is the same.
proof fn lemma_entries_of_prefix(lines: Seq<Seq<char>>, count: int)
    requires
        0 <= count <= lines.len(),
        entries_of(lines.subrange(0, count)) is Err,
    ensures
        entries_of(lines) == entries_of(lines.subrange(0, count)),
    decreases lines.len() - count,
{
    if count < lines.len() {
        assert(lines.subrange(0, count + 1).drop_last() =~= lines.subrange(0, count));
        lemma_entries_of_prefix(lines, count + 1);
    } else {
        assert(lines.subrange(0, count) =~= lines);
    }
}

/// Computes [`entries_of`] for the lines of a text.
pub fn read_entries(text: &Vec<char>) -> (outcome: Result<Vec<(Vec<char>, Vec<char>)>, Vec<char>>)
    ensures
        match outcome {
            Ok(entries) => entries_of(split(text@, '\n')) == Ok::<
                Seq<(Seq<char>, Seq<char>)>,
                Seq<char>,
            >(entry_views(entries@)),
            Err(line) => entries_of(split(text@, '\n')) == Err::<
                Seq<(Seq<char>, Seq<char>)>,
                Seq<char>,
            >(line@),
        },
{
    let lines = split_at(text, '\n');
    let ghost all = views(lines@);
    let mut entries: Vec<(Vec<char>, Vec<char>)> = Vec::new();
    let mut i: usize = 0;
    assert(all.subrange(0, 0) =~= Seq::<Seq<char>>::empty());
    assert(entry_views(entries@) =~= Seq::<(Seq<char>, Seq<char>)>::empty());
    while i < lines.len()
        invariant
            i <= lines.len(),
            all == views(lines@),
            all == split(text@, '\n'),
            entries_of(all.subrange(0, i as int)) == Ok::<Seq<(Seq<char>, Seq<char>)>, Seq<char>>(
                entry_views(entries@),
            ),
        decreases lines.len() - i,
    {
        assert(all.subrange(0, i + 1).drop_last() =~= all.subrange(0, i as int));
        assert(all.subrange(0, i + 1).last() == lines@[i as int]@);
        match read_line(&lines[i]) {
            Line::Blank => {},
            Line::Entry(name, raw) => {
                let ghost before = entries@;
                entries.push((name, raw));
                assert(entry_views(entries@) =~= entry_views(before).push((name@, raw@)));
            },
            Line::Malformed => {
                proof {
                    lemma_entries_of_prefix(all, i + 1);
                }
                let line = piece(&lines[i], 0, lines[i].len());
                assert(line@ =~= lines@[i as int]@);
                return Err(line);
            },
        }
        i += 1;
    }
    assert(all.subrange(0, lines.len() as int) =~= all);
    Ok(entries)
}

/// Computes [`lookup`]: the value of the last entry with the name.
pub fn find_entry(entries: &Vec<(Vec<char>, Vec<char>)>, name: &str) -> (raw: Option<Vec<char>>)
    ensures
        match raw {
            Some(found) => lookup(entry_views(entries@), name@) == Some(found@),
            None => lookup(entry_views(entries@), name@) is None,
        },
{
    let wanted = chars_of(name);
    let ghost all = entry_views(entries@);
    let mut i: usize = entries.len();
    assert(all.subrange(0, i as int) =~= all);
    while i > 0
        invariant
            i <= entries.len(),
            all == entry_views(entries@),
            wanted@ == name@,
            lookup(all, name@) == lookup(all.subrange(0, i as int), name@),
        decreases i,
    {
        assert(all.subrange(0, i as int).last() == (entries@[i - 1].0@, entries@[i - 1].1@));
        assert(all.subrange(0, i as int).drop_last() =~= all.subrange(0, i - 1));
        if same_chars(&entries[i - 1].0, &wanted) {
            let raw = piece(&entries[i - 1].1, 0, entries[i - 1].1.len());
            assert(raw@ =~= entries@[i - 1].1@);
            return Some(raw);
        }
        i -= 1;
    }
    None
}

/// Computes [`fault_error`].
pub fn error_of(name: &'static str, raw: &Vec<char>, fault: Fault) -> (error: SchemaError)
    ensures
        error@ == fault_error(name, raw@, fault@),
{
    match fault {
        Fault::Invalid => SchemaError::InvalidValue(name, text_of(raw)),
        Fault::OutOfRange => SchemaError::OutOfRange(name, text_of(raw)),
        Fault::UnknownVariant(found) => SchemaError::UnknownVariant(name, found),
    }
}

/// The view of a value or of the error in its place.
pub open spec fn field_view(outcome: Result<Value, SchemaError>) -> Result<
    ValueView,
    SchemaErrorView,
> {
    match outcome {
        Ok(value) => Ok(value@),
        Err(error) => Err(error@),
    }
}

/// Computes [`field_read`].
pub fn read_field(entries: &Vec<(Vec<char>, Vec<char>)>, field: Field) -> (outcome: Result<
    Value,
    SchemaError,
>)
    ensures
        field_view(outcome) == field_read(entry_views(entries@), field),
        outcome matches Ok(value) ==> conforms(value@, field.kind),
{
    proof {
        let found = lookup(entry_views(entries@), field.name@);
        if found is Some {
            lemma_read_conforms(field.kind, found->0);
        }
    }
    match find_entry(entries, field.name) {
        None => match field.kind {
            Kind::Path => Ok(Value::Path(None)),
            _ => Err(SchemaError::MissingField(field.name)),
        },
        Some(raw) => match read_value(field.kind, &raw) {
            Ok(value) => Ok(value),
            Err(fault) => Err(error_of(field.name, &raw, fault)),
        },
    }
}

/// Where the first fields of a schema cannot be read, the schema cannot, and
/// the error is the same.
proof fn lemma_fields_read_prefix(
    entries: Seq<(Seq<char>, Seq<char>)>,
    schema: Seq<Field>,
    count: int,
)
    requires
        0 <= count <= schema.len(),
        fields_read(entries, schema.subrange(0, count)) is Err,
    ensures
        fields_read(entries, schema) == fields_read(entries, schema.subrange(0, count)),
    decreases schema.len() - count,
{
    if count < schema.len() {
        assert(schema.subrange(0, count + 1).drop_last() =~= schema.subrange(0, count));
        lemma_fields_read_prefix(entries, schema, count + 1);
    } else {
        assert(schema.subrange(0, count) =~= schema);
    }
}

/// The view of the values of a schema or of the error in their place.
pub open spec fn values_view(outcome: Result<Vec<Value>, SchemaError>) -> Result<
    Seq<ValueView>,
    SchemaErrorView,
> {
    match outcome {
        Ok(values) => Ok(value_views(values@)),
        Err(error) => Err(error@),
    }
}

/// Whether there is a value for each field of a schema, of its kind and
/// within its bounds.
pub open spec fn values_conform(schema: Seq<Field>, values: Seq<ValueView>) -> bool {
    &&& values.len() == schema.len()
    &&& forall|at: int| 0 <= at < schema.len() ==> conforms(#[trigger] values[at], schema[at].kind)
}

/// Computes [`fields_read`].
pub fn read_fields(entries: &Vec<(Vec<char>, Vec<char>)>, schema: &Vec<Field>) -> (outcome: Result<
    Vec<Value>,
    SchemaError,
>)
    ensures
        values_view(outcome) == fields_read(entry_views(entries@), schema@),
        outcome matches Ok(values) ==> values_conform(schema@, value_views(values@)),
{
    let ghost all = entry_views(entries@);
    let mut values: Vec<Value> = Vec::new();
    let mut i: usize = 0;
    assert(schema@.subrange(0, 0) =~= Seq::<Field>::empty());
    assert(value_views(values@) =~= Seq::<ValueView>::empty());
    while i < schema.len()
        invariant
            i <= schema.len(),
            values.len() == i,
            all == entry_views(entries@),
            fields_read(all, schema@.subrange(0, i as int)) == Ok::<
                Seq<ValueView>,
                SchemaErrorView,
            >(value_views(values@)),
            forall|k: int|
                0 <= k < i ==> conforms(#[trigger] value_views(values@)[k], schema@[k].kind),
        decreases schema.len() - i,
    {
        assert(schema@.subrange(0, i + 1).drop_last() =~= schema@.subrange(0, i as int));
        assert(schema@.subrange(0, i + 1).last() == schema@[i as int]);
        match read_field(entries, schema[i]) {
            Ok(value) => {
                let ghost before = values@;
                values.push(value);
                assert(value_views(values@) =~= value_views(before).push(value@));
            },
            Err(error) => {
                proof {
                    lemma_fields_read_prefix(all, schema@, i + 1);
                }
                return Err(error);
            },
        }
        i += 1;
    }
    assert(schema@.subrange(0, schema.len() as int) =~= schema@);
    Ok(values)
}

/// Reads the document `text` against a schema.
pub fn read_document(text: &str, schema: &Vec<Field>) -> (outcome: Result<Vec<Value>, SchemaError>)
    ensures
        values_view(outcome) == document_read(text@, schema@),
        outcome matches Ok(values) ==> values_conform(schema@, value_views(values@)),
{
    match read_entries(&chars_of(text)) {
        Ok(entries) => read_fields(&entries, schema),
        Err(line) => Err(SchemaError::Malformed(text_of(&line))),
    }
}

/// Writes the document of the values of a schema.
pub fn write_document(schema: &Vec<Field>, values: &Vec<Value>) -> (text: String)
    requires
        values.len() == schema.len(),
    ensures
        text@ == document_text(schema@, value_views(values@)),
{
    let ghost all = value_views(values@);
    let mut out: Vec<char> = Vec::new();
    let mut i: usize = 0;
    assert(schema@.subrange(0, 0) =~= Seq::<Field>::empty());
    while i < schema.len()
        invariant
            i <= schema.len(),
            values.len() == schema.len(),
            all == value_views(values@),
            out@ == document_text(schema@.subrange(0, i as int), all.subrange(0, i as int)),
        decreases schema.len() - i,
    {
        assert(schema@.subrange(0, i + 1).drop_last() =~= schema@.subrange(0, i as int));
        assert(all.subrange(0, i + 1).drop_last() =~= all.subrange(0, i as int));
        assert(schema@.subrange(0, i + 1).last() == schema@[i as int]);
        assert(all.subrange(0, i + 1).last() == values@[i as int]@);
        let ghost before = out@;
        let written = match &values[i] {
            Value::Path(None) => false,
            _ => true,
        };
        if written {
            append_str(&mut out, schema[i].name);
            out.push(' ');
            out.push('=');
            out.push(' ');
            write_value(&mut out, &values[i]);
            out.push('\n');
            assert(out@ =~= before + field_line(schema@[i as int], values@[i as int]@).push('\n'));
        }
        i += 1;
    }
    assert(schema@.subrange(0, schema.len() as int) =~= schema@);
    assert(all.subrange(0, schema.len() as int) =~= all);
    text_of(&out)
}

/// The first fields of a schema are read where each of them is.
proof fn lemma_fields_read_so_far(
    entries: Seq<(Seq<char>, Seq<char>)>,
    schema: Seq<Field>,
    count: int,
)
    requires
        0 <= count <= schema.len(),
        forall|j: int| 0 <= j < count ==> field_read(entries, #[trigger] schema[j]) is Ok,
    ensures
        fields_read(entries, schema.subrange(0, count)) is Ok,
    decreases count,
{
    if count == 0 {
        assert(schema.subrange(0, 0) =~= Seq::<Field>::empty());
    } else {
        lemma_fields_read_so_far(entries, schema, count - 1);
        assert(schema.subrange(0, count).drop_last() =~= schema.subrange(0, count - 1));
        assert(schema.subrange(0, count).last() == schema[count - 1]);
    }
}

/// Reading reports the first field at fault: where the lines of a document
/// can be read, the fields before a place have their values and the field at
/// the place has none, reading the document gives the error of that field.
pub proof fn law_first_fault_is_reported(text: Seq<char>, schema: Seq<Field>, at: int)
    requires
        0 <= at < schema.len(),
        entries_of(split(text, '\n')) is Ok,
        forall|j: int|
            0 <= j < at ==> field_read(
                entries_of(split(text, '\n'))->Ok_0,
                #[trigger] schema[j],
            ) is Ok,
        field_read(entries_of(split(text, '\n'))->Ok_0, schema[at]) is Err,
    ensures
        document_read(text, schema) == Err::<Seq<ValueView>, SchemaErrorView>(
            field_read(entries_of(split(text, '\n'))->Ok_0, schema[at])->Err_0,
        ),
{
    let entries = entries_of(split(text, '\n'))->Ok_0;
    lemma_fields_read_so_far(entries, schema, at);
    assert(schema.subrange(0, at + 1).drop_last() =~= schema.subrange(0, at));
    assert(schema.subrange(0, at + 1).last() == schema[at]);
    lemma_fields_read_prefix(entries, schema, at + 1);
}

/// A number that a document gives to a field is refused as out of range
/// where its digits write more than the bound of the field, and where digits
/// follow a minus sign; the error holds the field and the text as it was
/// written.
pub proof fn law_number_out_of_range(
    entries: Seq<(Seq<char>, Seq<char>)>,
    field: Field,
    max: u32,
    raw: Seq<char>,
)
    requires
        field.kind == Kind::Count(max),
        lookup(entries, field.name@) == Some(raw),
        (raw.len() > 0 && all_digits(raw, 10) && value_of(raw, 10) > max) || (raw.len() > 1
            && raw[0] == '-' && all_digits(raw.skip(1), 10)),
    ensures
        field_read(entries, field) == Err::<ValueView, SchemaErrorView>(
            SchemaErrorView::OutOfRange(field.name, raw),
        ),
{
    law_count_out_of_range(raw, max);
}

/// The values that were read for a schema are its own: one for each field, of
/// its kind and within its bounds.
pub proof fn lemma_fields_conform(entries: Seq<(Seq<char>, Seq<char>)>, schema: Seq<Field>)
    ensures
        fields_read(entries, schema) matches Ok(values) ==> values_conform(schema, values),
    decreases schema.len(),
{
    if schema.len() > 0 {
        lemma_fields_conform(entries, schema.drop_last());
        if fields_read(entries, schema) is Ok {
            let values = fields_read(entries, schema)->Ok_0;
            let before = fields_read(entries, schema.drop_last())->Ok_0;
            let found = lookup(entries, schema.last().name@);
            if found is Some {
                lemma_read_conforms(schema.last().kind, found->0);
            }
            assert forall|at: int| 0 <= at < schema.len() implies conforms(
                #[trigger] values[at],
                schema[at].kind,
            ) by {
                if at < schema.len() - 1 {
                    assert(values[at] == before[at]);
                    assert(schema[at] == schema.drop_last()[at]);
                }
            }
        }
    }
}

/// As [`lemma_fields_conform`], for a document.
pub proof fn lemma_document_conforms(text: Seq<char>, schema: Seq<Field>)
    ensures
        document_read(text, schema) matches Ok(values) ==> values_conform(schema, values),
{
    if entries_of(split(text, '\n')) is Ok {
        lemma_fields_conform(entries_of(split(text, '\n'))->Ok_0, schema);
    }
}

/// Whether a character may stand in the name of a field: a small letter, a
/// digit or `_`.
pub open spec fn is_name_char(c: char) -> bool {
    ('a' <= c <= 'z') || ('0' <= c <= '9') || c == '_'
}

/// Whether a text can be the name of a field.
pub open spec fn name_ok(name: Seq<char>) -> bool {
    name.len() > 0 && forall|i: int| 0 <= i < name.len() ==> is_name_char(#[trigger] name[i])
}

/// Whether a schema can be written and read back: its names are names, and no
/// two fields share one.
pub open spec fn schema_ok(schema: Seq<Field>) -> bool {
    &&& forall|i: int| 0 <= i < schema.len() ==> name_ok((#[trigger] schema[i]).name@)
    &&& forall|i: int, j: int|
        #![trigger schema[i], schema[j]]
        0 <= i < j < schema.len() ==> schema[i].name@ != schema[j].name@
}

/// Whether values are those of a schema: one for each field, of its kind,
/// within its bounds and stable.
pub open spec fn values_fit(schema: Seq<Field>, values: Seq<ValueView>) -> bool {
    &&& values.len() == schema.len()
    &&& forall|i: int|
        0 <= i < schema.len() ==> conforms(#[trigger] values[i], schema[i].kind) && is_stable(
            values[i],
            schema[i].kind,
        )
}

/// The entries that the document of the values of a schema holds.
pub open spec fn field_entries(schema: Seq<Field>, values: Seq<ValueView>) -> Seq<
    (Seq<char>, Seq<char>),
>
    decreases schema.len(),
{
    if schema.len() == 0 || values.len() != schema.len() {
        Seq::empty()
    } else if is_written(values.last()) {
        field_entries(schema.drop_last(), values.drop_last()).push(
            (schema.last().name@, value_text(values.last())),
        )
    } else {
        field_entries(schema.drop_last(), values.drop_last())
    }
}

/// The lines that the document of the values of a schema holds.
pub open spec fn field_lines(schema: Seq<Field>, values: Seq<ValueView>) -> Seq<Seq<char>>
    decreases schema.len(),
{
    if schema.len() == 0 || values.len() != schema.len() {
        Seq::empty()
    } else if is_written(values.last()) {
        field_lines(schema.drop_last(), values.drop_last()).push(
            field_line(schema.last(), values.last()),
        )
    } else {
        field_lines(schema.drop_last(), values.drop_last())
    }
}

/// A name holds neither white space nor `=`, `#` or a line feed.
proof fn lemma_name_plain(name: Seq<char>)
    requires
        name_ok(name),
    ensures
        !is_space(name[0]),
        !is_space(name.last()),
        name[0] != '#',
        !name.contains('='),
        !name.contains('\n'),
{
    assert(is_name_char(name[0]));
    assert(is_name_char(name[name.len() - 1]));
    if name.contains('=') {
        let k = choose|k: int| 0 <= k < name.len() && name[k] == '=';
        assert(is_name_char(name[k]));
    }
    if name.contains('\n') {
        let k = choose|k: int| 0 <= k < name.len() && name[k] == '\n';
        assert(is_name_char(name[k]));
    }
}

/// The line of a field reads as the entry of its name and the text of its
/// value, and holds no line feed.
proof fn lemma_field_line(field: Field, value: ValueView)
    requires
        name_ok(field.name@),
        is_written(value),
    ensures
        line_read(field_line(field, value)) == LineView::Entry(field.name@, value_text(value)),
        !field_line(field, value).contains('\n'),
{
    let name = field.name@;
    let text = value_text(value);
    let middle = seq![' ', '=', ' '];
    let line = field_line(field, value);
    lemma_name_plain(name);
    lemma_value_text_tight(value);
    assert(!middle.contains('\n'));
    lemma_lacks_concat(name, middle, '\n');
    lemma_lacks_concat(name + middle, text, '\n');
    assert(line[0] == name[0]);
    assert(line.last() == text.last());
    lemma_trimmed_tight(line);
    let at = (name.len() + 1) as int;
    assert(line[at] == '=');
    assert forall|k: int| 0 <= k < at implies line[k] != '=' by {
        if k < name.len() {
            assert(line[k] == name[k]);
            assert(name.contains(name[k]));
        }
    }
    lemma_position_at(line, '=', at);
    assert(line.subrange(0, at) =~= name.push(' '));
    assert(line.subrange(at + 1, line.len() as int) =~= seq![' '] + text);
    lemma_trimmed_blank(name);
    lemma_trimmed_blank(text);
}

/// The document of the values of a schema splits into its lines and an empty
/// piece after the last line feed.
proof fn lemma_document_lines(schema: Seq<Field>, values: Seq<ValueView>)
    requires
        schema_ok(schema),
        values.len() == schema.len(),
    ensures
        split(document_text(schema, values), '\n') == field_lines(schema, values).push(
            Seq::empty(),
        ),
    decreases schema.len(),
{
    if schema.len() > 0 {
        let shorter = schema.drop_last();
        let fewer = values.drop_last();
        assert(schema_ok(shorter)) by {
            assert forall|i: int| 0 <= i < shorter.len() implies name_ok(
                (#[trigger] shorter[i]).name@,
            ) by {
                assert(shorter[i] == schema[i]);
            }
            assert forall|i: int, j: int| 0 <= i < j < shorter.len() implies (
            #[trigger] shorter[i]).name@ != (#[trigger] shorter[j]).name@ by {
                assert(shorter[i] == schema[i] && shorter[j] == schema[j]);
            }
        }
        lemma_document_lines(shorter, fewer);
        if is_written(values.last()) {
            let before = document_text(shorter, fewer);
            let line = field_line(schema.last(), values.last());
            assert(name_ok(schema[schema.len() - 1].name@));
            lemma_field_line(schema.last(), values.last());
            lemma_split_more(before, line, '\n');
            let joined = before + line;
            assert(document_text(schema, values) =~= joined.push('\n'));
            assert(joined.push('\n').drop_last() =~= joined);
            assert(field_lines(shorter, fewer).push(Seq::<char>::empty()).drop_last()
                =~= field_lines(shorter, fewer));
            assert(Seq::<char>::empty() + line =~= line);
        }
    }
}

/// The lines of the document of the values of a schema read as its entries.
proof fn lemma_lines_entries(schema: Seq<Field>, values: Seq<ValueView>)
    requires
        schema_ok(schema),
        values.len() == schema.len(),
    ensures
        entries_of(field_lines(schema, values)) == Ok::<Seq<(Seq<char>, Seq<char>)>, Seq<char>>(
            field_entries(schema, values),
        ),
    decreases schema.len(),
{
    if schema.len() > 0 {
        let shorter = schema.drop_last();
        let fewer = values.drop_last();
        assert(schema_ok(shorter)) by {
            assert forall|i: int| 0 <= i < shorter.len() implies name_ok(
                (#[trigger] shorter[i]).name@,
            ) by {
                assert(shorter[i] == schema[i]);
            }
            assert forall|i: int, j: int| 0 <= i < j < shorter.len() implies (
            #[trigger] shorter[i]).name@ != (#[trigger] shorter[j]).name@ by {
                assert(shorter[i] == schema[i] && shorter[j] == schema[j]);
            }
        }
        lemma_lines_entries(shorter, fewer);
        if is_written(values.last()) {
            assert(name_ok(schema[schema.len() - 1].name@));
            lemma_field_line(schema.last(), values.last());
            let lines = field_lines(schema, values);
            assert(lines.drop_last() =~= field_lines(shorter, fewer));
        }
    }
}

/// The entries of a document give no value to a name that no field has.
proof fn lemma_lookup_absent(schema: Seq<Field>, values: Seq<ValueView>, name: Seq<char>)
    requires
        values.len() == schema.len(),
        forall|j: int| 0 <= j < schema.len() ==> (#[trigger] schema[j]).name@ != name,
    ensures
        lookup(field_entries(schema, values), name) is None,
    decreases schema.len(),
{
    if schema.len() > 0 {
        let shorter = schema.drop_last();
        assert forall|j: int| 0 <= j < shorter.len() implies (#[trigger] shorter[j]).name@
            != name by {
            assert(shorter[j] == schema[j]);
        }
        lemma_lookup_absent(shorter, values.drop_last(), name);
        assert(schema[schema.len() - 1].name@ != name);
        if is_written(values.last()) {
            let entries = field_entries(schema, values);
            assert(entries.drop_last() =~= field_entries(shorter, values.drop_last()));
        }
    }
}

/// The entries of a document give each field the text of its value, and no
/// value to a field whose value is not written.
proof fn lemma_lookup_field(schema: Seq<Field>, values: Seq<ValueView>, at: int)
    requires
        schema_ok(schema),
        values.len() == schema.len(),
        0 <= at < schema.len(),
    ensures
        lookup(field_entries(schema, values), schema[at].name@) == if is_written(values[at]) {
            Some(value_text(values[at]))
        } else {
            None
        },
    decreases schema.len(),
{
    let shorter = schema.drop_last();
    let fewer = values.drop_last();
    let last = schema.len() - 1;
    let entries = field_entries(schema, values);
    if is_written(values.last()) {
        assert(entries.drop_last() =~= field_entries(shorter, fewer));
    }
    if at == last {
        if !is_written(values.last()) {
            assert forall|j: int| 0 <= j < shorter.len() implies (#[trigger] shorter[j]).name@
                != schema[at].name@ by {
                assert(shorter[j] == schema[j]);
                assert(schema[j].name@ != schema[last].name@);
            }
            lemma_lookup_absent(shorter, fewer, schema[at].name@);
        }
    } else {
        assert(schema_ok(shorter)) by {
            assert forall|i: int| 0 <= i < shorter.len() implies name_ok(
                (#[trigger] shorter[i]).name@,
            ) by {
                assert(shorter[i] == schema[i]);
            }
            assert forall|i: int, j: int| 0 <= i < j < shorter.len() implies (
            #[trigger] shorter[i]).name@ != (#[trigger] shorter[j]).name@ by {
                assert(shorter[i] == schema[i] && shorter[j] == schema[j]);
            }
        }
        lemma_lookup_field(shorter, fewer, at);
        assert(shorter[at] == schema[at]);
        assert(fewer[at] == values[at]);
        assert(schema[at].name@ != schema[last].name@);
    }
}

/// The entries of a document give the first fields of its schema their
/// values back.
proof fn lemma_fields_read_back(schema: Seq<Field>, values: Seq<ValueView>, count: int)
    requires
        schema_ok(schema),
        values_fit(schema, values),
        0 <= count <= schema.len(),
    ensures
        fields_read(field_entries(schema, values), schema.subrange(0, count)) == Ok::<
            Seq<ValueView>,
            SchemaErrorView,
        >(values.subrange(0, count)),
    decreases count,
{
    let entries = field_entries(schema, values);
    if count == 0 {
        assert(schema.subrange(0, 0) =~= Seq::<Field>::empty());
        assert(values.subrange(0, 0) =~= Seq::<ValueView>::empty());
    } else {
        let at = count - 1;
        lemma_fields_read_back(schema, values, at);
        lemma_lookup_field(schema, values, at);
        assert(schema.subrange(0, count).drop_last() =~= schema.subrange(0, at));
        assert(schema.subrange(0, count).last() == schema[at]);
        assert(conforms(values[at], schema[at].kind) && is_stable(values[at], schema[at].kind));
        if is_written(values[at]) {
            lemma_value_round_trip(values[at], schema[at].kind);
        }
        assert(field_read(entries, schema[at]) == Ok::<ValueView, SchemaErrorView>(values[at]));
        assert(values.subrange(0, at).push(values[at]) =~= values.subrange(0, count));
    }
}

/// Reading the document of the values of a schema gives the values, where the
/// schema can be written and the values are its own.
pub proof fn lemma_document_round_trip(schema: Seq<Field>, values: Seq<ValueView>)
    requires
        schema_ok(schema),
        values_fit(schema, values),
    ensures
        document_read(document_text(schema, values), schema) == Ok::<
            Seq<ValueView>,
            SchemaErrorView,
        >(values),
{
    let lines = field_lines(schema, values);
    lemma_document_lines(schema, values);
    lemma_lines_entries(schema, values);
    assert(lines.push(Seq::<char>::empty()).drop_last() =~= lines);
    assert(line_read(Seq::<char>::empty()) == LineView::Blank);
    lemma_fields_read_back(schema, values, schema.len() as int);
    assert(schema.subrange(0, schema.len() as int) =~= schema);
    assert(values.subrange(0, schema.len() as int) =~= values);
}

} // verus!
