//! The input-format normalizer: from a host value to an update payload.

use vstd::prelude::*;
use crate::column_type::{ColumnType, type_named, unknown_type_text};
use crate::error::{type_failure, value_failure, Failure, HostError};
use crate::value::{HostValue, descriptor_of};

verus! {

/// Data for an update, in one of the shapes the engine accepts.
#[derive(Clone, Debug, PartialEq, Eq)]
pub enum UpdateData {
    Csv(String),
    Arrow(Vec<u8>),
    JsonRows(String),
    JsonColumns(String),
}

/// What an [`UpdateData`] holds.
pub enum UpdateModel {
    Csv(Seq<char>),
    Arrow(Seq<u8>),
    JsonRows(Seq<char>),
    JsonColumns(Seq<char>),
}

impl View for UpdateData {
    type V = UpdateModel;

    open spec fn view(&self) -> UpdateModel {
        match *self {
            UpdateData::Csv(text) => UpdateModel::Csv(text@),
            UpdateData::Arrow(bytes) => UpdateModel::Arrow(bytes@),
            UpdateData::JsonRows(text) => UpdateModel::JsonRows(text@),
            UpdateData::JsonColumns(text) => UpdateModel::JsonColumns(text@),
        }
    }
}

/// The two layouts of a JSON document of table data.
#[derive(Clone, Copy, Debug, PartialEq, Eq, Structural)]
pub enum JsonShape {
    /// A sequence of rows.
    Rows,
    /// A mapping from column names to sequences of values.
    Columns,
}

/// What the normalizer makes of a host value before anything is encoded.
pub enum Recognized {
    /// A binary buffer: an Arrow payload with these bytes.
    Arrow(Seq<u8>),
    /// A text: a CSV payload with this text.
    Csv(Seq<char>),
    /// A sequence or a mapping of sequences: the whole value is to be encoded
    /// as a JSON document of this shape.
    Json(JsonShape),
    /// A mapping without entries, which has no shape.
    EmptyMapping,
    /// Anything else: no update.
    NotUpdate,
}

/// The rules of precedence: buffer, text, sequence, mapping.  A mapping is
/// judged by the value under its first key alone.
pub open spec fn recognize(value: HostValue) -> Recognized {
    match value {
        HostValue::Bytes(bytes) => Recognized::Arrow(bytes@),
        HostValue::Text(text) => Recognized::Csv(text@),
        HostValue::List(_) => Recognized::Json(JsonShape::Rows),
        HostValue::Dict(entries) => if entries@.len() == 0 {
            Recognized::EmptyMapping
        } else if entries@[0].1 is List {
            Recognized::Json(JsonShape::Columns)
        } else {
            Recognized::NotUpdate
        },
        _ => Recognized::NotUpdate,
    }
}

/// The payload that holds an encoded document of the given shape.
pub open spec fn json_data(shape: JsonShape, text: String) -> UpdateData {
    match shape {
        JsonShape::Rows => UpdateData::JsonRows(text),
        JsonShape::Columns => UpdateData::JsonColumns(text),
    }
}

/// The encoded document that a payload of the given shape holds; none where
/// the payload is of another kind.
pub open spec fn json_text(shape: JsonShape, data: UpdateData) -> Option<String> {
    match (shape, data) {
        (JsonShape::Rows, UpdateData::JsonRows(text)) => Some(text),
        (JsonShape::Columns, UpdateData::JsonColumns(text)) => Some(text),
        _ => None,
    }
}

/// The message of the error for a mapping without entries.
pub open spec fn empty_mapping_message() -> Seq<char> {
    "Cannot infer type of empty dict"@
}

/// The message of the error for a value that is no table data.
pub open spec fn unknown_input_message(value: HostValue) -> Seq<char> {
    "Unknown input type "@ + descriptor_of(value)
}

/// The message of the error for a value that should have been a text.
pub open spec fn not_text_message(value: HostValue) -> Seq<char> {
    "'"@ + descriptor_of(value) + "' object cannot be converted to 'PyString'"@
}

/// The message of the error for a value that the default encoder hook does
/// not know.
pub open spec fn not_serializable_message() -> Seq<char> {
    "Object type not serializable"@
}

/// Whether `res` is what normalizing `input` as an update gives, `encode`
/// being the encoder: a buffer gives an Arrow payload and a text a CSV
/// payload, with the content unchanged; a value to be encoded gives the
/// payload of its shape around the very text that `encode` returned for it,
/// or the very error; a mapping without entries gives an error.  No result is
/// right for a value that is no update.
pub open spec fn is_update_of<F: Fn(&HostValue) -> Result<String, HostError>>(
    input: HostValue,
    encode: F,
    res: Result<UpdateData, HostError>,
) -> bool {
    match recognize(input) {
        Recognized::Arrow(bytes) => res matches Ok(data) && data@ == UpdateModel::Arrow(bytes),
        Recognized::Csv(text) => res matches Ok(data) && data@ == UpdateModel::Csv(text),
        Recognized::Json(shape) => match res {
            Ok(data) => json_text(shape, data) matches Some(text) && encode.ensures(
                (&input,),
                Ok(text),
            ),
            Err(e) => encode.ensures((&input,), Err(e)),
        },
        Recognized::EmptyMapping => res matches Err(e) && e@ == value_failure(
            empty_mapping_message(),
        ),
        Recognized::NotUpdate => false,
    }
}

/// Whether `res` is what normalizing `input` gives where an update is asked
/// for: as [`is_update_of`] says, and for a value that is no update the error
/// whose message names the type of the value.
pub open spec fn is_required_update_of<F: Fn(&HostValue) -> Result<String, HostError>>(
    input: HostValue,
    encode: F,
    res: Result<UpdateData, HostError>,
) -> bool {
    if recognize(input) is NotUpdate {
        res matches Err(e) && e@ == value_failure(unknown_input_message(input))
    } else {
        is_update_of(input, encode, res)
    }
}

/// Wraps what the encoder returned for a value of the given shape: its text
/// becomes the payload as it is, its error is handed on as it is.
pub fn encoded(shape: JsonShape, outcome: Result<String, HostError>) -> (res: Result<
    UpdateData,
    HostError,
>)
    ensures
        match outcome {
            Ok(text) => res == Ok::<UpdateData, HostError>(json_data(shape, text)),
            Err(e) => res == Err::<UpdateData, HostError>(e),
        },
{
    match outcome {
        Ok(text) => match shape {
            JsonShape::Rows => Ok(UpdateData::JsonRows(text)),
            JsonShape::Columns => Ok(UpdateData::JsonColumns(text)),
        },
        Err(e) => Err(e),
    }
}

/// The default hook of the encoder, asked for each value that the encoder
/// does not know: a date, a time and a date with a time are encoded as the
/// text they print as; anything else is not serializable.
pub open spec fn printed_text(obj: HostValue) -> Option<Seq<char>> {
    match obj {
        HostValue::DateTime(text) => Some(text@),
        HostValue::Date(text) => Some(text@),
        HostValue::Time(text) => Some(text@),
        _ => None,
    }
}

/// The default hook of the encoder: the text of a temporal value, a type
/// error for every other value.
pub fn default_serializer(obj: &HostValue) -> (res: Result<String, HostError>)
    ensures
        match printed_text(*obj) {
            Some(text) => res matches Ok(s) && s@ == text,
            None => res matches Err(e) && e@ == type_failure(not_serializable_message()),
        },
{
    match obj {
        HostValue::DateTime(text) => Ok(text.clone()),
        HostValue::Date(text) => Ok(text.clone()),
        HostValue::Time(text) => Ok(text.clone()),
        _ => Err(HostError::type_error("Object type not serializable".to_owned())),
    }
}

/// The error for a value that is no table data.
fn unknown_input(input: &HostValue) -> (e: HostError)
    ensures
        e@ == value_failure(unknown_input_message(*input)),
{
    let descriptor = input.descriptor();
    HostError::value("Unknown input type ".to_owned().concat(descriptor.as_str()))
}

/// The text of a value that has to be a text, or the error for it.
fn extract_text(value: &HostValue) -> (res: Result<String, HostError>)
    ensures
        match *value {
            HostValue::Text(text) => res matches Ok(s) && s@ == text@,
            _ => res matches Err(e) && e@ == value_failure(not_text_message(*value)),
        },
{
    match value {
        HostValue::Text(text) => Ok(text.clone()),
        _ => {
            let descriptor = value.descriptor();
            let message = "'".to_owned().concat(descriptor.as_str()).concat(
                "' object cannot be converted to 'PyString'",
            );
            Err(HostError::value(message))
        },
    }
}

impl UpdateData {
    /// Normalizes a host value into an update payload, where it is one.
    ///
    /// A buffer becomes an Arrow payload and a text a CSV payload, both with
    /// the content unchanged.  A sequence, and a mapping whose first value is
    /// a sequence, are handed whole to `encode`, once; the payload holds the
    /// text that came back, and an error of the encoder is returned as it is.
    /// A mapping without entries is an error.  Every other value is no
    /// update, which is `Ok(None)`.
    pub fn from_py_partial<F>(input: &HostValue, encode: F) -> (res: Result<
        Option<UpdateData>,
        HostError,
    >) where F: Fn(&HostValue) -> Result<String, HostError>
        requires
            encode.requires((input,)),
        ensures
            match res {
                Ok(Some(data)) => is_update_of(*input, encode, Ok(data)),
                Ok(None) => recognize(*input) is NotUpdate,
                Err(e) => is_update_of(*input, encode, Err(e)),
            },
    {
        match input {
            HostValue::Bytes(bytes) => Ok(Some(UpdateData::Arrow(bytes.clone()))),
            HostValue::Text(text) => Ok(Some(UpdateData::Csv(text.clone()))),
            HostValue::List(_) => {
                match encoded(JsonShape::Rows, encode(input)) {
                    Ok(data) => Ok(Some(data)),
                    Err(e) => Err(e),
                }
            },
            HostValue::Dict(entries) => {
                if entries.len() == 0 {
                    return Err(HostError::value("Cannot infer type of empty dict".to_owned()));
                }
                match &entries[0].1 {
                    HostValue::List(_) => {
                        match encoded(JsonShape::Columns, encode(input)) {
                            Ok(data) => Ok(Some(data)),
                            Err(e) => Err(e),
                        }
                    },
                    _ => Ok(None),
                }
            },
            _ => Ok(None),
        }
    }

    /// Normalizes a host value that has to be an update.  As
    /// [`UpdateData::from_py_partial`], but a value that is no update is an
    /// error, whose message names the type of the value.
    pub fn from_py<F>(input: &HostValue, encode: F) -> (res: Result<UpdateData, HostError>) where
        F: Fn(&HostValue) -> Result<String, HostError>,

        requires
            encode.requires((input,)),
        ensures
            is_required_update_of(*input, encode, res),
    {
        match UpdateData::from_py_partial(input, encode) {
            Ok(Some(data)) => Ok(data),
            Ok(None) => Err(unknown_input(input)),
            Err(e) => Err(e),
        }
    }
}

/// Data to make a table from: an update, or a schema that names each column
/// and its type.  A schema has at least one column.
#[derive(Clone, Debug, PartialEq, Eq)]
pub enum TableData {
    Schema(Vec<(String, ColumnType)>),
    Update(UpdateData),
}

impl TableData {
    /// Whether this is data that a table can be made from: an update of any
    /// kind, or a schema with at least one column.
    pub open spec fn well_formed(&self) -> bool {
        match *self {
            TableData::Schema(schema) => schema@.len() > 0,
            TableData::Update(_) => true,
        }
    }
}

/// What one pair of a mapping says of a column: its name and its type.  The
/// key has to be a text, then the value has to be a text, then that text has
/// to name a column type; the first of these that fails gives the error.  The
/// error is a value error in each case: nothing has been asked of the engine
/// yet.  For a text that names no type its message is the one that the
/// engine's own reading of type names gives.
pub open spec fn column_of(entry: (HostValue, HostValue)) -> Result<
    (Seq<char>, ColumnType),
    Failure,
> {
    match entry.0 {
        HostValue::Text(key) => match entry.1 {
            HostValue::Text(name) => match type_named(name@) {
                Some(t) => Ok((key@, t)),
                None => Err(value_failure(unknown_type_text(name@))),
            },
            _ => Err(value_failure(not_text_message(entry.1))),
        },
        _ => Err(value_failure(not_text_message(entry.0))),
    }
}

/// Whether a pair of a mapping reads as the given column.
pub open spec fn reads_as(entry: (HostValue, HostValue), column: (String, ColumnType)) -> bool {
    column_of(entry) == Ok::<(Seq<char>, ColumnType), Failure>((column.0@, column.1))
}

/// Whether a pair of a mapping cannot be read, and `e` is the error for it.
pub open spec fn fails_with(entry: (HostValue, HostValue), e: HostError) -> bool {
    column_of(entry) == Err::<(Seq<char>, ColumnType), Failure>(e@)
}

/// Whether `res` is the schema that the pairs of a mapping spell out: every
/// pair in its place where all are well formed, and else the error of the
/// first pair that is not, with no schema at all.
pub open spec fn is_schema_of(
    entries: Seq<(HostValue, HostValue)>,
    res: Result<Vec<(String, ColumnType)>, HostError>,
) -> bool {
    match res {
        Ok(schema) => {
            &&& schema@.len() == entries.len()
            &&& forall|i: int| 0 <= i < entries.len() ==> reads_as(#[trigger] entries[i], schema@[i])
        },
        Err(e) => exists|j: int|
            {
                &&& 0 <= j < entries.len()
                &&& fails_with(#[trigger] entries[j], e)
                &&& forall|i: int| 0 <= i < j ==> column_of(#[trigger] entries[i]) is Ok
            },
    }
}

/// Whether `res` is what normalizing `input` gives where a table is to be
/// made.  Whatever is an update gives that update, as [`is_update_of`] says.
/// A mapping that is no update gives the schema that its pairs spell out, as
/// [`is_schema_of`] says.  Any other value gives the error whose message
/// names the type of the value.
pub open spec fn is_table_data_of<F: Fn(&HostValue) -> Result<String, HostError>>(
    input: HostValue,
    encode: F,
    res: Result<TableData, HostError>,
) -> bool {
    if !(recognize(input) is NotUpdate) {
        match res {
            Ok(TableData::Update(data)) => is_update_of(input, encode, Ok(data)),
            Ok(TableData::Schema(_)) => false,
            Err(e) => is_update_of(input, encode, Err(e)),
        }
    } else if let HostValue::Dict(entries) = input {
        match res {
            Ok(TableData::Schema(schema)) => is_schema_of(entries@, Ok(schema)),
            Ok(TableData::Update(_)) => false,
            Err(e) => is_schema_of(entries@, Err(e)),
        }
    } else {
        res matches Err(e) && e@ == value_failure(unknown_input_message(input))
    }
}

/// Reads one pair of a mapping as a column.
fn column(entry: &(HostValue, HostValue)) -> (res: Result<(String, ColumnType), HostError>)
    ensures
        match res {
            Ok(pair) => reads_as(*entry, pair),
            Err(e) => fails_with(*entry, e),
        },
{
    let key = match extract_text(&entry.0) {
        Ok(key) => key,
        Err(e) => { return Err(e); },
    };
    let name = match extract_text(&entry.1) {
        Ok(name) => name,
        Err(e) => { return Err(e); },
    };
    match ColumnType::parse(name.as_str()) {
        Ok(t) => Ok((key, t)),
        Err(e) => Err(HostError::value(e.message)),
    }
}

/// Reads the pairs of a mapping as a schema, all or nothing.
pub fn schema_from_entries(entries: &Vec<(HostValue, HostValue)>) -> (res: Result<
    Vec<(String, ColumnType)>,
    HostError,
>)
    ensures
        is_schema_of(entries@, res),
{
    let mut schema: Vec<(String, ColumnType)> = Vec::new();
    let mut i: usize = 0;
    while i < entries.len()
        invariant
            i <= entries.len(),
            schema@.len() == i,
            forall|k: int| 0 <= k < i ==> reads_as(#[trigger] entries@[k], schema@[k]),
        decreases entries.len() - i,
    {
        match column(&entries[i]) {
            Ok(pair) => {
                schema.push(pair);
            },
            Err(e) => {
                return Err(e);
            },
        }
        i += 1;
    }
    Ok(schema)
}

/// A binary buffer is normalized to an Arrow payload with the same bytes, in
/// the update form and in the table form alike.
pub proof fn lemma_buffer_is_arrow<F: Fn(&HostValue) -> Result<String, HostError>>(
    input: HostValue,
    encode: F,
    update: Result<UpdateData, HostError>,
    table: Result<TableData, HostError>,
)
    requires
        input is Bytes,
        is_required_update_of(input, encode, update),
        is_table_data_of(input, encode, table),
    ensures
        update matches Ok(data) && data@ == UpdateModel::Arrow(input->Bytes_0@),
        table matches Ok(TableData::Update(data)) && data@ == UpdateModel::Arrow(input->Bytes_0@),
{
}

/// A text is normalized to a CSV payload with the same text, in the update
/// form and in the table form alike.
pub proof fn lemma_text_is_csv<F: Fn(&HostValue) -> Result<String, HostError>>(
    input: HostValue,
    encode: F,
    update: Result<UpdateData, HostError>,
    table: Result<TableData, HostError>,
)
    requires
        input is Text,
        is_required_update_of(input, encode, update),
        is_table_data_of(input, encode, table),
    ensures
        update matches Ok(data) && data@ == UpdateModel::Csv(input->Text_0@),
        table matches Ok(TableData::Update(data)) && data@ == UpdateModel::Csv(input->Text_0@),
{
}

/// A sequence, empty or not, is normalized to a payload of JSON rows that
/// holds what the encoder made of the sequence, or fails as the encoder did.
pub proof fn lemma_sequence_is_json_rows<F: Fn(&HostValue) -> Result<String, HostError>>(
    input: HostValue,
    encode: F,
    update: Result<UpdateData, HostError>,
)
    requires
        input is List,
        is_required_update_of(input, encode, update),
    ensures
        match update {
            Ok(UpdateData::JsonRows(text)) => encode.ensures((&input,), Ok(text)),
            Ok(_) => false,
            Err(e) => encode.ensures((&input,), Err(e)),
        },
{
}

/// A mapping with entries whose first value is a sequence is normalized to a
/// payload of JSON columns that holds what the encoder made of the mapping,
/// or fails as the encoder did.  A mapping without entries is an error.
pub proof fn lemma_mapping_is_json_columns<F: Fn(&HostValue) -> Result<String, HostError>>(
    input: HostValue,
    encode: F,
    update: Result<UpdateData, HostError>,
)
    requires
        input is Dict,
        input->Dict_0@.len() == 0 || input->Dict_0@[0].1 is List,
        is_required_update_of(input, encode, update),
    ensures
        if input->Dict_0@.len() == 0 {
            update matches Err(e) && e@ == value_failure(empty_mapping_message())
        } else {
            match update {
                Ok(UpdateData::JsonColumns(text)) => encode.ensures((&input,), Ok(text)),
                Ok(_) => false,
                Err(e) => encode.ensures((&input,), Err(e)),
            }
        },
{
}

/// Normalizing a sequence neither adds to nor takes from what the encoder
/// wrote: whatever holds of every document that the encoder may write for the
/// sequence holds of the payload.  So where the encoder writes only documents
/// that read back as the sequence, the payload reads back as the sequence.
pub proof fn lemma_rows_round_trip<F: Fn(&HostValue) -> Result<String, HostError>>(
    input: HostValue,
    encode: F,
    reads_back: spec_fn(Seq<char>) -> bool,
    update: Result<UpdateData, HostError>,
)
    requires
        input is List,
        is_required_update_of(input, encode, update),
        forall|text: String| #[trigger] encode.ensures((&input,), Ok(text)) ==> reads_back(text@),
    ensures
        update matches Ok(data) ==> data matches UpdateData::JsonRows(text) && reads_back(text@),
{
}

/// The table form is the update form with one more branch: on every value
/// that is an update, and on a mapping without entries, the two agree.
pub proof fn lemma_table_form_extends_update_form<F: Fn(&HostValue) -> Result<String, HostError>>(
    input: HostValue,
    encode: F,
    table: Result<TableData, HostError>,
)
    requires
        !(recognize(input) is NotUpdate),
        is_table_data_of(input, encode, table),
    ensures
        match table {
            Ok(TableData::Update(data)) => is_required_update_of(input, encode, Ok(data)),
            Ok(TableData::Schema(_)) => false,
            Err(e) => is_required_update_of(input, encode, Err(e)),
        },
{
}

/// One pair that cannot be read as a column fails the whole schema: no
/// schema comes back, whatever the other pairs are.
pub proof fn lemma_schema_is_all_or_nothing(
    entries: Seq<(HostValue, HostValue)>,
    res: Result<Vec<(String, ColumnType)>, HostError>,
    j: int,
)
    requires
        is_schema_of(entries, res),
        0 <= j < entries.len(),
        column_of(entries[j]) is Err,
    ensures
        res is Err,
{
}

impl TableData {
    /// Normalizes a host value into the data to make a table from.
    ///
    /// Whatever is an update is that update.  A mapping that is no update,
    /// which is one whose first value is no sequence, is read as a schema:
    /// each key a column name, each value the name of a column type; the
    /// first pair that cannot be read fails the whole, and no schema comes
    /// back.  Any other value is an error, whose message names its type.
    pub fn from_py<F>(input: &HostValue, encode: F) -> (res: Result<TableData, HostError>) where
        F: Fn(&HostValue) -> Result<String, HostError>,

        requires
            encode.requires((input,)),
        ensures
            is_table_data_of(*input, encode, res),
            res matches Ok(data) ==> data.well_formed(),
    {
        match UpdateData::from_py_partial(input, encode) {
            Ok(Some(data)) => Ok(TableData::Update(data)),
            Ok(None) => match input {
                HostValue::Dict(entries) => match schema_from_entries(entries) {
                    Ok(schema) => Ok(TableData::Schema(schema)),
                    Err(e) => Err(e),
                },
                _ => Err(unknown_input(input)),
            },
            Err(e) => Err(e),
        }
    }
}

} // verus!
