//! Host values as the bindings see them.

use vstd::prelude::*;

verus! {

/// A value handed over by the host.  Only what the bindings look at is held:
/// the value's type, the content of buffers and texts, the text that temporal
/// values print as, and the items of sequences and mappings in their order.
#[derive(Debug, PartialEq, Eq)]
pub enum HostValue {
    /// The host's null value.
    Null,
    Bool(bool),
    Int(i64),
    /// A text value.
    Text(String),
    /// A binary buffer.
    Bytes(Vec<u8>),
    /// A calendar date, held as the text it prints as.
    Date(String),
    /// A time of day, held as the text it prints as.
    Time(String),
    /// A date with a time, held as the text it prints as.
    DateTime(String),
    /// An ordered sequence.
    List(Vec<HostValue>),
    /// A keyed mapping, its pairs in insertion order.
    Dict(Vec<(HostValue, HostValue)>),
    /// A value of any other type, held as the name of that type.
    Other(String),
}

/// The host's name for the type of a value.
pub open spec fn descriptor_of(value: HostValue) -> Seq<char> {
    match value {
        HostValue::Null => "NoneType"@,
        HostValue::Bool(_) => "bool"@,
        HostValue::Int(_) => "int"@,
        HostValue::Text(_) => "str"@,
        HostValue::Bytes(_) => "bytes"@,
        HostValue::Date(_) => "date"@,
        HostValue::Time(_) => "time"@,
        HostValue::DateTime(_) => "datetime"@,
        HostValue::List(_) => "list"@,
        HostValue::Dict(_) => "dict"@,
        HostValue::Other(name) => name@,
    }
}

impl HostValue {
    /// The host's name for the type of this value.
    pub fn descriptor(&self) -> (res: String)
        ensures
            res@ == descriptor_of(*self),
    {
        match self {
            HostValue::Null => "NoneType".to_owned(),
            HostValue::Bool(_) => "bool".to_owned(),
            HostValue::Int(_) => "int".to_owned(),
            HostValue::Text(_) => "str".to_owned(),
            HostValue::Bytes(_) => "bytes".to_owned(),
            HostValue::Date(_) => "date".to_owned(),
            HostValue::Time(_) => "time".to_owned(),
            HostValue::DateTime(_) => "datetime".to_owned(),
            HostValue::List(_) => "list".to_owned(),
            HostValue::Dict(_) => "dict".to_owned(),
            HostValue::Other(name) => name.clone(),
        }
    }
}

} // verus!
