//! What a table asks of the engine, and how its answers are shown.

use vstd::prelude::*;
use crate::column_type::{name_of, ColumnType};
use crate::error::{value_failure, HostError};
use crate::update_data::{is_required_update_of, UpdateData};
use crate::value::HostValue;

verus! {

/// The format in which the data of an update is to be read.
#[derive(Clone, Copy, Debug, PartialEq, Eq, Structural)]
pub enum TableReadFormat {
    Csv,
    JsonString,
    ColumnsString,
    Arrow,
    Ndjson,
}

/// The format that a name stands for, if it stands for one.
pub open spec fn format_named(name: Seq<char>) -> Option<TableReadFormat> {
    if name == "csv"@ {
        Some(TableReadFormat::Csv)
    } else if name == "json"@ {
        Some(TableReadFormat::JsonString)
    } else if name == "columns"@ {
        Some(TableReadFormat::ColumnsString)
    } else if name == "arrow"@ {
        Some(TableReadFormat::Arrow)
    } else if name == "ndjson"@ {
        Some(TableReadFormat::Ndjson)
    } else {
        None
    }
}

/// The message of the error for a name that stands for no format.
pub open spec fn unknown_format_message(name: Seq<char>) -> Seq<char> {
    "Unknown format \""@ + name + "\""@
}

/// What is made of the name of a format that may be absent: no name gives no
/// format, a format's name gives that format, any other name is refused.
pub open spec fn format_of(name: Option<String>) -> Result<Option<TableReadFormat>, Seq<char>> {
    match name {
        None => Ok(None),
        Some(text) => match format_named(text@) {
            Some(format) => Ok(Some(format)),
            None => Err(unknown_format_message(text@)),
        },
    }
}

/// Calls `perspective_client::TableReadFormat::parse`, which gives no format
/// for no name, the format for each of its five names, and for any other
/// name the message `Unknown format "<name>"`.
#[verifier::external_body]
fn engine_parse_format(name: Option<String>) -> (res: Result<Option<TableReadFormat>, String>)
    ensures
        match res {
            Ok(format) => format_of(name) == Ok::<Option<TableReadFormat>, Seq<char>>(format),
            Err(message) => format_of(name) == Err::<Option<TableReadFormat>, Seq<char>>(
                message@,
            ),
        },
{
    match perspective_client::TableReadFormat::parse(name) {
        Ok(Some(perspective_client::TableReadFormat::Csv)) => Ok(Some(TableReadFormat::Csv)),
        Ok(Some(perspective_client::TableReadFormat::JsonString)) => Ok(Some(TableReadFormat::JsonString)),
        Ok(Some(perspective_client::TableReadFormat::ColumnsString)) => Ok(Some(TableReadFormat::ColumnsString)),
        Ok(Some(perspective_client::TableReadFormat::Arrow)) => Ok(Some(TableReadFormat::Arrow)),
        Ok(Some(perspective_client::TableReadFormat::Ndjson)) => Ok(Some(TableReadFormat::Ndjson)),
        Ok(None) => Ok(None),
        Err(message) => Err(message),
    }
}

/// The options an update is made with.
#[derive(Clone, Copy, Debug, PartialEq, Eq, Structural)]
pub struct UpdateOptions {
    pub port_id: Option<u32>,
    pub format: Option<TableReadFormat>,
}

/// What to ask of the engine to update a table.
#[derive(Clone, Debug, PartialEq, Eq)]
pub struct UpdateRequest {
    pub data: UpdateData,
    pub options: UpdateOptions,
}

impl UpdateOptions {
    /// The options for an update through the given port, its data in the
    /// format of the given name.  A name that stands for no format is an
    /// error.
    pub fn new(format: Option<String>, port_id: Option<u32>) -> (res: Result<
        UpdateOptions,
        HostError,
    >)
        ensures
            match format_of(format) {
                Ok(parsed) => res matches Ok(options) && options.format == parsed
                    && options.port_id == port_id,
                Err(message) => res matches Err(e) && e@ == value_failure(message),
            },
    {
        match engine_parse_format(format) {
            Ok(parsed) => Ok(UpdateOptions { port_id, format: parsed }),
            Err(message) => Err(HostError::value(message)),
        }
    }
}

/// What to ask of the engine to update a table with `input`.
///
/// The options are looked at first: a name that stands for no format fails
/// the call whatever `input` is.  Then `input` is normalized, as
/// [`UpdateData::from_py`] does it, and its failure is the failure of the
/// call.
pub fn update<F>(
    input: &HostValue,
    format: Option<String>,
    port_id: Option<u32>,
    encode: F,
) -> (res: Result<UpdateRequest, HostError>) where F: Fn(&HostValue) -> Result<String, HostError>
    requires
        encode.requires((input,)),
    ensures
        match format_of(format) {
            Err(message) => res matches Err(e) && e@ == value_failure(message),
            Ok(parsed) => match res {
                Ok(request) => {
                    &&& request.options.format == parsed
                    &&& request.options.port_id == port_id
                    &&& is_required_update_of(*input, encode, Ok(request.data))
                },
                Err(e) => is_required_update_of(*input, encode, Err(e)),
            },
        },
{
    let options = match UpdateOptions::new(format, port_id) {
        Ok(options) => options,
        Err(e) => {
            return Err(e);
        },
    };
    match UpdateData::from_py(input, encode) {
        Ok(data) => Ok(UpdateRequest { data, options }),
        Err(e) => Err(e),
    }
}

/// Shows a schema to the host: each column keeps its name and its place, and
/// its type is shown by the engine's name for it.
pub fn schema(columns: &Vec<(String, ColumnType)>) -> (res: Vec<(String, String)>)
    ensures
        res@.len() == columns@.len(),
        forall|i: int|
            0 <= i < columns@.len() ==> (#[trigger] res@[i]).0@ == columns@[i].0@ && res@[i].1@
                == name_of(columns@[i].1),
{
    let mut shown: Vec<(String, String)> = Vec::new();
    let mut i: usize = 0;
    while i < columns.len()
        invariant
            i <= columns.len(),
            shown@.len() == i,
            forall|k: int|
                0 <= k < i ==> (#[trigger] shown@[k]).0@ == columns@[k].0@ && shown@[k].1@
                    == name_of(columns@[k].1),
        decreases columns.len() - i,
    {
        let column = &columns[i];
        shown.push((column.0.clone(), column.1.name()));
        i += 1;
    }
    shown
}

} // verus!
