use perspective_python::column_type::ColumnType;
use perspective_python::error::{into_pyerr, EngineError, ErrorKind, HostError};
use perspective_python::subscription::{OnUpdateMode, OnUpdateOptions};
use perspective_python::table::{schema, update, TableReadFormat, UpdateOptions, UpdateRequest};
use perspective_python::update_data::UpdateData;
use perspective_python::value::HostValue;

fn no_encoder(_: &HostValue) -> Result<String, HostError> {
    Ok("[]".to_string())
}

#[test]
fn column_types_parse_from_their_names() {
    assert_eq!(ColumnType::parse("string"), Ok(ColumnType::String));
    assert_eq!(ColumnType::parse("integer"), Ok(ColumnType::Integer));
    assert_eq!(ColumnType::parse("float"), Ok(ColumnType::Float));
    assert_eq!(ColumnType::parse("boolean"), Ok(ColumnType::Boolean));
    assert_eq!(ColumnType::parse("date"), Ok(ColumnType::Date));
    assert_eq!(ColumnType::parse("datetime"), Ok(ColumnType::Datetime));
}

#[test]
fn unknown_column_type_is_the_engines_failure() {
    assert_eq!(
        ColumnType::parse("nonsense"),
        Err(EngineError { message: "Abort(): Unknown type nonsense".to_string() })
    );
    assert_eq!(
        ColumnType::parse(""),
        Err(EngineError { message: "Abort(): Unknown type ".to_string() })
    );
    assert_eq!(
        ColumnType::parse("String"),
        Err(EngineError { message: "Abort(): Unknown type String".to_string() })
    );
}

#[test]
fn column_types_show_their_names() {
    assert_eq!(ColumnType::String.name(), "string");
    assert_eq!(ColumnType::Integer.name(), "integer");
    assert_eq!(ColumnType::Float.name(), "float");
    assert_eq!(ColumnType::Boolean.name(), "boolean");
    assert_eq!(ColumnType::Date.name(), "date");
    assert_eq!(ColumnType::Datetime.name(), "datetime");
}

#[test]
fn column_type_names_round_trip() {
    for t in [
        ColumnType::String,
        ColumnType::Integer,
        ColumnType::Float,
        ColumnType::Boolean,
        ColumnType::Date,
        ColumnType::Datetime,
    ] {
        assert_eq!(ColumnType::parse(&t.name()), Ok(t));
    }
}

#[test]
fn engine_success_is_handed_on() {
    assert_eq!(into_pyerr(Ok::<u32, EngineError>(7)), Ok(7));
    assert_eq!(
        into_pyerr(Ok::<Vec<String>, EngineError>(vec!["a".to_string()])),
        Ok(vec!["a".to_string()])
    );
}

#[test]
fn engine_failure_keeps_its_message() {
    assert_eq!(
        into_pyerr(Err::<u32, EngineError>(EngineError::new("View not found".to_string()))),
        Err(HostError { kind: ErrorKind::Perspective, message: "View not found".to_string() })
    );
    assert_eq!(
        into_pyerr(Err::<(), EngineError>(EngineError::new(String::new()))),
        Err(HostError { kind: ErrorKind::Perspective, message: String::new() })
    );
}

#[test]
fn host_error_constructors_set_the_kind() {
    assert_eq!(
        HostError::value("v".to_string()),
        HostError { kind: ErrorKind::Value, message: "v".to_string() }
    );
    assert_eq!(
        HostError::type_error("t".to_string()),
        HostError { kind: ErrorKind::Type, message: "t".to_string() }
    );
    assert_eq!(
        HostError::attribute("a".to_string()),
        HostError { kind: ErrorKind::Attribute, message: "a".to_string() }
    );
}

#[test]
fn update_formats_parse_from_their_names() {
    let cases = [
        ("csv", TableReadFormat::Csv),
        ("json", TableReadFormat::JsonString),
        ("columns", TableReadFormat::ColumnsString),
        ("arrow", TableReadFormat::Arrow),
        ("ndjson", TableReadFormat::Ndjson),
    ];
    for (name, format) in cases {
        assert_eq!(
            UpdateOptions::new(Some(name.to_string()), Some(3)),
            Ok(UpdateOptions { port_id: Some(3), format: Some(format) })
        );
    }
}

#[test]
fn update_options_without_a_format() {
    assert_eq!(UpdateOptions::new(None, None), Ok(UpdateOptions { port_id: None, format: None }));
    assert_eq!(
        UpdateOptions::new(None, Some(0)),
        Ok(UpdateOptions { port_id: Some(0), format: None })
    );
}

#[test]
fn unknown_update_format_is_refused() {
    assert_eq!(
        UpdateOptions::new(Some("xml".to_string()), Some(1)),
        Err(HostError { kind: ErrorKind::Value, message: "Unknown format \"xml\"".to_string() })
    );
    assert_eq!(
        UpdateOptions::new(Some(String::new()), None),
        Err(HostError { kind: ErrorKind::Value, message: "Unknown format \"\"".to_string() })
    );
}

#[test]
fn update_request_holds_data_and_options() {
    let input = HostValue::Text("a\n1\n".to_string());
    assert_eq!(
        update(&input, Some("csv".to_string()), Some(2), no_encoder),
        Ok(UpdateRequest {
            data: UpdateData::Csv("a\n1\n".to_string()),
            options: UpdateOptions { port_id: Some(2), format: Some(TableReadFormat::Csv) },
        })
    );
}

#[test]
fn update_request_refuses_a_bad_format_first() {
    let input = HostValue::Int(1);
    assert_eq!(
        update(&input, Some("xml".to_string()), None, no_encoder),
        Err(HostError { kind: ErrorKind::Value, message: "Unknown format \"xml\"".to_string() })
    );
    assert_eq!(
        update(&input, None, None, no_encoder),
        Err(HostError { kind: ErrorKind::Value, message: "Unknown input type int".to_string() })
    );
}

#[test]
fn update_request_refuses_a_schema() {
    let input = HostValue::Dict(vec![(
        HostValue::Text("a".to_string()),
        HostValue::Text("integer".to_string()),
    )]);
    assert_eq!(
        update(&input, None, None, no_encoder),
        Err(HostError { kind: ErrorKind::Value, message: "Unknown input type dict".to_string() })
    );
}

#[test]
fn row_mode_parses() {
    assert_eq!(
        OnUpdateOptions::new(Some("row".to_string())),
        Ok(OnUpdateOptions { mode: Some(OnUpdateMode::Row) })
    );
}

#[test]
fn no_mode_is_no_mode() {
    assert_eq!(OnUpdateOptions::new(None), Ok(OnUpdateOptions { mode: None }));
}

#[test]
fn unknown_mode_is_the_engines_failure() {
    for name in ["Row", "rows", "", "none"] {
        assert_eq!(
            OnUpdateOptions::new(Some(name.to_string())),
            Err(HostError {
                kind: ErrorKind::Perspective,
                message: "Unwrapped option".to_string(),
            })
        );
    }
}

#[test]
fn schema_is_shown_by_type_names() {
    let columns = vec![
        ("a".to_string(), ColumnType::Integer),
        ("b".to_string(), ColumnType::Datetime),
        ("a".to_string(), ColumnType::String),
    ];
    assert_eq!(
        schema(&columns),
        vec![
            ("a".to_string(), "integer".to_string()),
            ("b".to_string(), "datetime".to_string()),
            ("a".to_string(), "string".to_string()),
        ]
    );
    assert_eq!(schema(&vec![]), vec![]);
}
