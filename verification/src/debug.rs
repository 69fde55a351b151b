//! Debug text. Types that hold secrets write their own.
use crate::text::{bool_name, bool_text, decimal, decimal_text};
use std::path::PathBuf;
use std::time::Duration;
use vstd::prelude::*;
use vstd::string::StringExecFns;

verus! {

/// `text` in quotes and with escapes.
pub uninterp spec fn quoted(text: Seq<char>) -> Seq<char>;

/// Writes a text with the `Debug` format of `str`. Claimed without proof: what
/// it writes depends on the text alone.
#[verifier::external_body]
pub(crate) fn quote(text: &str) -> (written: String)
    ensures
        written@ == quoted(text@),
{
    format!("{:?}", text)
}

/// A path in quotes and with escapes.
pub uninterp spec fn quoted_path(path: PathBuf) -> Seq<char>;

/// Writes a path with the `Debug` format of `std::path::PathBuf`. Claimed
/// without proof: what it writes depends on the path alone.
#[verifier::external_body]
pub(crate) fn quote_path(path: &PathBuf) -> (written: String)
    ensures
        written@ == quoted_path(*path),
{
    format!("{:?}", path)
}

/// A duration with its unit.
pub uninterp spec fn duration_text(duration: Duration) -> Seq<char>;

/// Writes a duration with the `Debug` format of `std::time::Duration`. Claimed
/// without proof: what it writes depends on the duration alone.
#[verifier::external_body]
pub(crate) fn write_duration(duration: &Duration) -> (written: String)
    ensures
        written@ == duration_text(*duration),
{
    format!("{:?}", duration)
}

/// The duration of `count` whole seconds.
pub uninterp spec fn whole_seconds(count: u64) -> Duration;

/// `std::time::Duration::from_secs`. Claimed without proof: the duration
/// depends on the number of seconds alone.
#[verifier::external_body]
pub(crate) fn seconds(count: u64) -> (duration: Duration)
    ensures
        duration == whole_seconds(count),
{
    Duration::from_secs(count)
}

/// A field of a struct: its name, and the debug text of its value.
pub struct DebugField {
    pub name: &'static str,
    pub value: String,
}

/// What a [`DebugField`] stands for.
pub struct FieldModel {
    pub name: Seq<char>,
    pub value: Seq<char>,
}

impl View for DebugField {
    type V = FieldModel;

    open spec fn view(&self) -> FieldModel {
        FieldModel { name: self.name@, value: self.value@ }
    }
}

/// What several fields stand for.
pub open spec fn field_models(fields: Seq<DebugField>) -> Seq<FieldModel> {
    fields.map_values(|field: DebugField| field@)
}

/// A field with the name `name` and the value `value`.
pub open spec fn field(name: Seq<char>, value: Seq<char>) -> FieldModel {
    FieldModel { name, value }
}

/// The texts of several fields, with commas between them.
pub open spec fn fields_text(fields: Seq<FieldModel>) -> Seq<char>
    decreases fields.len(),
{
    if fields.len() == 0 {
        Seq::empty()
    } else {
        let front = if fields.len() == 1 {
            Seq::empty()
        } else {
            fields_text(fields.drop_last()) + ", "@
        };
        front + fields.last().name + ": "@ + fields.last().value
    }
}

/// The text of a struct. Where `open` is set it says that fields are left out.
pub open spec fn struct_text(name: Seq<char>, fields: Seq<FieldModel>, open: bool) -> Seq<char> {
    if fields.len() == 0 {
        if open {
            name + " { .. }"@
        } else {
            name
        }
    } else if open {
        name + " { "@ + fields_text(fields) + ", .. }"@
    } else {
        name + " { "@ + fields_text(fields) + " }"@
    }
}

/// Writes a struct.
pub(crate) fn write_struct(name: &str, fields: Vec<DebugField>, open: bool) -> (written: String)
    ensures
        written@ == struct_text(name@, field_models(fields@), open),
{
    let ghost models = field_models(fields@);
    let count = fields.len();
    let mut text = name.to_owned();
    if count == 0 {
        if open {
            text.append(" { .. }");
        }
        return text;
    }
    text.append(" { ");
    let ghost start = text@;
    let mut i: usize = 0;
    assert(models.take(0) =~= Seq::<FieldModel>::empty());
    assert(text@ =~= start + fields_text(models.take(0)));
    while i < count
        invariant
            i <= count,
            count == fields@.len(),
            models == field_models(fields@),
            text@ == start + fields_text(models.take(i as int)),
        decreases count - i,
    {
        if i > 0 {
            text.append(", ");
        }
        text.append(fields[i].name);
        text.append(": ");
        text.append(fields[i].value.as_str());
        proof {
            let longer = models.take(i + 1);
            assert(longer.drop_last() =~= models.take(i as int));
            assert(longer.last() == models[i as int]);
            assert(text@ =~= start + fields_text(longer));
        }
        i += 1;
    }
    assert(models.take(i as int) =~= models);
    if open {
        text.append(", .. }");
    } else {
        text.append(" }");
    }
    text
}

/// The text of an optional value whose own text is `inner`.
pub open spec fn optional_of(inner: Option<Seq<char>>) -> Seq<char> {
    match inner {
        Some(inner) => "Some("@ + inner + ")"@,
        None => "None"@,
    }
}

/// Writes an optional value whose own text is `inner`.
pub(crate) fn write_optional(inner: Option<String>) -> (written: String)
    ensures
        written@ == optional_of(
            match inner {
                Some(inner) => Some(inner@),
                None => None,
            },
        ),
{
    match inner {
        Some(inner) => {
            let mut text = "Some(".to_owned();
            text.append(inner.as_str());
            text.append(")");
            text
        },
        None => "None".to_owned(),
    }
}

/// The text of an optional text.
pub open spec fn optional_quoted(text: Option<String>) -> Seq<char> {
    optional_of(
        match text {
            Some(text) => Some(quoted(text@)),
            None => None,
        },
    )
}

/// Writes an optional text.
pub(crate) fn quote_optional(text: &Option<String>) -> (written: String)
    ensures
        written@ == optional_quoted(*text),
{
    match text {
        Some(text) => write_optional(Some(quote(text.as_str()))),
        None => write_optional(None),
    }
}

/// A field that holds a text.
pub(crate) fn text_field(name: &'static str, value: &str) -> (made: DebugField)
    ensures
        made@ == field(name@, quoted(value@)),
{
    DebugField { name, value: quote(value) }
}

/// A field that holds a number.
pub(crate) fn number_field(name: &'static str, value: usize) -> (made: DebugField)
    ensures
        made@ == field(name@, decimal_text(value as nat)),
{
    DebugField { name, value: decimal(value) }
}

/// A field that holds a truth value.
pub(crate) fn bool_field(name: &'static str, value: bool) -> (made: DebugField)
    ensures
        made@ == field(name@, bool_text(value)),
{
    DebugField { name, value: bool_name(value).to_owned() }
}

} // verus!
