//! Column types and the names the engine gives them.

use vstd::prelude::*;
use crate::error::EngineError;

verus! {

/// The type of a table column.
#[derive(Clone, Copy, Debug, PartialEq, Eq, Structural)]
pub enum ColumnType {
    String,
    Integer,
    Float,
    Boolean,
    Date,
    Datetime,
}

/// The engine's name for a column type.
pub open spec fn name_of(t: ColumnType) -> Seq<char> {
    match t {
        ColumnType::String => "string"@,
        ColumnType::Integer => "integer"@,
        ColumnType::Float => "float"@,
        ColumnType::Boolean => "boolean"@,
        ColumnType::Date => "date"@,
        ColumnType::Datetime => "datetime"@,
    }
}

/// The column type that a name stands for, if it stands for one.
pub open spec fn type_named(name: Seq<char>) -> Option<ColumnType> {
    if name == "string"@ {
        Some(ColumnType::String)
    } else if name == "integer"@ {
        Some(ColumnType::Integer)
    } else if name == "float"@ {
        Some(ColumnType::Float)
    } else if name == "boolean"@ {
        Some(ColumnType::Boolean)
    } else if name == "date"@ {
        Some(ColumnType::Date)
    } else if name == "datetime"@ {
        Some(ColumnType::Datetime)
    } else {
        None
    }
}

/// Every column type is the one that its own name stands for, so the six
/// names are six different texts.
pub proof fn lemma_name_round_trip(t: ColumnType)
    ensures
        type_named(name_of(t)) == Some(t),
{
    reveal_strlit("string");
    reveal_strlit("integer");
    reveal_strlit("float");
    reveal_strlit("boolean");
    reveal_strlit("date");
    reveal_strlit("datetime");
    assert("string"@.len() == 6 && "integer"@.len() == 7 && "float"@.len() == 5);
    assert("boolean"@.len() == 7 && "date"@.len() == 4 && "datetime"@.len() == 8);
    assert("integer"@[0] == 'i' && "boolean"@[0] == 'b');
}

/// A text stands for a column type only if it is that type's name.
pub proof fn lemma_named_is_name(name: Seq<char>, t: ColumnType)
    requires
        type_named(name) == Some(t),
    ensures
        name == name_of(t),
{
}

/// The text of the engine's failure for a name that stands for no type.
pub open spec fn unknown_type_text(name: Seq<char>) -> Seq<char> {
    "Abort(): Unknown type "@ + name
}

/// Calls `TryFrom<&str>` of `perspective_client::proto::ColumnType`, which
/// compares the name with the six type names in turn and fails with
/// `ClientError::Internal("Unknown type <name>")` on any other; that error is
/// handed back as the text its `Display` gives, `Abort(): ` and the message.
#[verifier::external_body]
fn engine_parse_type(name: &str) -> (res: Result<ColumnType, EngineError>)
    ensures
        match res {
            Ok(t) => type_named(name@) == Some(t),
            Err(e) => type_named(name@).is_none() && e@ == unknown_type_text(name@),
        },
{
    match perspective_client::proto::ColumnType::try_from(name) {
        Ok(perspective_client::proto::ColumnType::String) => Ok(ColumnType::String),
        Ok(perspective_client::proto::ColumnType::Integer) => Ok(ColumnType::Integer),
        Ok(perspective_client::proto::ColumnType::Float) => Ok(ColumnType::Float),
        Ok(perspective_client::proto::ColumnType::Boolean) => Ok(ColumnType::Boolean),
        Ok(perspective_client::proto::ColumnType::Date) => Ok(ColumnType::Date),
        Ok(perspective_client::proto::ColumnType::Datetime) => Ok(ColumnType::Datetime),
        Err(e) => Err(EngineError { message: format!("{}", e) }),
    }
}

/// Calls `Display` of `perspective_client::proto::ColumnType`, which writes
/// the type's lower-case name.
#[verifier::external_body]
fn engine_display_type(t: ColumnType) -> (res: String)
    ensures
        res@ == name_of(t),
{
    let engine_type = match t {
        ColumnType::String => perspective_client::proto::ColumnType::String,
        ColumnType::Integer => perspective_client::proto::ColumnType::Integer,
        ColumnType::Float => perspective_client::proto::ColumnType::Float,
        ColumnType::Boolean => perspective_client::proto::ColumnType::Boolean,
        ColumnType::Date => perspective_client::proto::ColumnType::Date,
        ColumnType::Datetime => perspective_client::proto::ColumnType::Datetime,
    };
    format!("{}", engine_type)
}

impl ColumnType {
    /// The column type named by `name`, or the engine's failure when `name`
    /// is none of the six type names.
    pub fn parse(name: &str) -> (res: Result<ColumnType, EngineError>)
        ensures
            match res {
                Ok(t) => type_named(name@) == Some(t),
                Err(e) => type_named(name@).is_none() && e@ == unknown_type_text(name@),
            },
    {
        engine_parse_type(name)
    }

    /// The engine's name for this type.
    pub fn name(&self) -> (res: String)
        ensures
            res@ == name_of(*self),
    {
        engine_display_type(*self)
    }
}

} // verus!
