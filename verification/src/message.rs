//! What the user is told when configuration fails: one line for each error,
//! naming the flag or field at fault and the value that was given.

use crate::config::{ConfigError, ConfigErrorView};
use crate::document::{SchemaError, SchemaErrorView};
use crate::number::{digits_of, write_number};
use crate::options::{ParseError, ParseErrorView};
use crate::resolve::ResolveError;
use crate::text::text_of;
use vstd::prelude::*;
use vstd::string::StringExecFns;

verus! {

/// A label, a name and, after a colon and a blank, a value.
pub open spec fn labelled(label: Seq<char>, name: Seq<char>, value: Seq<char>) -> Seq<char> {
    label + name + seq![':', ' '] + value
}

/// The line for an error of the command line.
pub open spec fn parse_message(error: ParseErrorView) -> Seq<char> {
    match error {
        ParseErrorView::InvalidAddress(field, value) => labelled(
            "invalid address for "@,
            field@,
            value,
        ),
        ParseErrorView::InvalidPath(field, value) => labelled(
            "no such directory for "@,
            field@,
            value,
        ),
        ParseErrorView::InvalidNumber(field, value) => labelled(
            "invalid number for "@,
            field@,
            value,
        ),
        ParseErrorView::UnknownArgument(argument) => "unknown argument: "@ + argument,
        ParseErrorView::MissingValue(field) => "missing value for "@ + field@,
        ParseErrorView::UnexpectedValue(field, value) => labelled(
            "unexpected value for "@,
            field@,
            value,
        ),
        ParseErrorView::RepeatedFlag(field) => "flag given more than once: "@ + field@,
    }
}

/// The line for an error of the settings document.
pub open spec fn schema_message(error: SchemaErrorView) -> Seq<char> {
    match error {
        SchemaErrorView::UnknownVariant(field, name) => labelled(
            "unknown variant for "@,
            field@,
            name,
        ),
        SchemaErrorView::OutOfRange(field, value) => labelled(
            "value out of range for "@,
            field@,
            value,
        ),
        SchemaErrorView::MissingField(field) => "missing field: "@ + field@,
        SchemaErrorView::InvalidValue(field, value) => labelled(
            "invalid value for "@,
            field@,
            value,
        ),
        SchemaErrorView::Malformed(line) => "malformed line: "@ + line,
        SchemaErrorView::NotText => "settings document is not UTF-8 text"@,
    }
}

/// The line for an error of resolving.
pub open spec fn resolve_message(error: ResolveError) -> Seq<char> {
    match error {
        ResolveError::ConflictingFlags(name) => "conflicting flags: "@ + name@,
        ResolveError::OutOfRange(field, value) => labelled(
            "value out of range for "@,
            field@,
            digits_of(value as nat, 10),
        ),
    }
}

/// The line for an error of configuration.
pub open spec fn config_message(error: ConfigErrorView) -> Seq<char> {
    match error {
        ConfigErrorView::Parse(inner) => parse_message(inner),
        ConfigErrorView::Schema(inner) => schema_message(inner),
        ConfigErrorView::Resolve(inner) => resolve_message(inner),
    }
}

/// Computes [`labelled`].
fn label(prefix: &str, name: &str, value: &str) -> (line: String)
    ensures
        line@ == labelled(prefix@, name@, value@),
{
    let line = String::from_str(prefix).concat(name).concat(": ").concat(value);
    proof {
        reveal_strlit(": ");
        assert(": "@ =~= seq![':', ' ']);
    }
    line
}

/// A label and a text after it.
fn after(prefix: &str, text: &str) -> (line: String)
    ensures
        line@ == prefix@ + text@,
{
    String::from_str(prefix).concat(text)
}

impl ParseError {
    /// The line that tells the user of the error.
    pub fn message(&self) -> (line: String)
        ensures
            line@ == parse_message(self@),
    {
        match self {
            ParseError::InvalidAddress(field, value) => label(
                "invalid address for ",
                field,
                value.as_str(),
            ),
            ParseError::InvalidPath(field, value) => label(
                "no such directory for ",
                field,
                value.as_str(),
            ),
            ParseError::InvalidNumber(field, value) => label(
                "invalid number for ",
                field,
                value.as_str(),
            ),
            ParseError::UnknownArgument(argument) => after("unknown argument: ", argument.as_str()),
            ParseError::MissingValue(field) => after("missing value for ", field),
            ParseError::UnexpectedValue(field, value) => label(
                "unexpected value for ",
                field,
                value.as_str(),
            ),
            ParseError::RepeatedFlag(field) => after("flag given more than once: ", field),
        }
    }
}

impl SchemaError {
    /// The line that tells the user of the error.
    pub fn message(&self) -> (line: String)
        ensures
            line@ == schema_message(self@),
    {
        match self {
            SchemaError::UnknownVariant(field, name) => label(
                "unknown variant for ",
                field,
                name.as_str(),
            ),
            SchemaError::OutOfRange(field, value) => label(
                "value out of range for ",
                field,
                value.as_str(),
            ),
            SchemaError::MissingField(field) => after("missing field: ", field),
            SchemaError::InvalidValue(field, value) => label(
                "invalid value for ",
                field,
                value.as_str(),
            ),
            SchemaError::Malformed(line) => after("malformed line: ", line.as_str()),
            SchemaError::NotText => String::from_str("settings document is not UTF-8 text"),
        }
    }
}

impl ResolveError {
    /// The line that tells the user of the error.
    pub fn message(&self) -> (line: String)
        ensures
            line@ == resolve_message(*self),
    {
        match self {
            ResolveError::ConflictingFlags(name) => after("conflicting flags: ", name),
            ResolveError::OutOfRange(field, value) => label(
                "value out of range for ",
                field,
                text_of(&write_number(*value, 10)).as_str(),
            ),
        }
    }
}

impl ConfigError {
    /// The line that tells the user of the error.
    pub fn message(&self) -> (line: String)
        ensures
            line@ == config_message(self@),
    {
        match self {
            ConfigError::Parse(inner) => inner.message(),
            ConfigError::Schema(inner) => inner.message(),
            ConfigError::Resolve(inner) => inner.message(),
        }
    }
}

} // verus!
