use std::cell::Cell;

use perspective_python::callback::{
    settle, CallbackRegistry, Dispatcher, Event, HostArg, HostCallback, Invocation,
};
use perspective_python::client::{PyClient, TableInitOptions, TableRequest};
use perspective_python::column_type::ColumnType;
use perspective_python::error::{ErrorKind, HostError};
use perspective_python::update_data::{TableData, UpdateData};
use perspective_python::value::HostValue;

const CALLBACK: HostCallback = HostCallback { id: 11 };
const OTHER: HostCallback = HostCallback { id: 12 };
const HOOK: HostCallback = HostCallback { id: 99 };

fn no_registration() -> HostError {
    HostError {
        kind: ErrorKind::Attribute,
        message: "No registration found for callback".to_string(),
    }
}

fn fixed_encoder(_: &HostValue) -> Result<String, HostError> {
    Ok("[]".to_string())
}

#[test]
fn table_with_limit_and_index_is_refused() {
    let client = PyClient::new();
    let calls = Cell::new(0);
    let counting = |_: &HostValue| {
        calls.set(calls.get() + 1);
        Ok("[]".to_string())
    };
    let input = HostValue::List(vec![]);
    assert_eq!(
        client.table(&input, Some(5), Some("a".to_string()), None, &counting),
        Err(HostError {
            kind: ErrorKind::Value,
            message: "Cannot set both `limit` and `index`".to_string(),
        })
    );
    assert_eq!(calls.get(), 0);
}

#[test]
fn table_with_limit_and_index_is_refused_whatever_the_input() {
    let client = PyClient::new();
    for input in [HostValue::Int(1), HostValue::Dict(vec![]), HostValue::Bytes(vec![1])] {
        assert_eq!(
            client.table(&input, Some(0), Some(String::new()), Some("t".to_string()), fixed_encoder),
            Err(HostError {
                kind: ErrorKind::Value,
                message: "Cannot set both `limit` and `index`".to_string(),
            })
        );
    }
}

#[test]
fn table_request_keeps_the_options() {
    let client = PyClient::new();
    let input = HostValue::Text("a\n1\n".to_string());
    assert_eq!(
        client.table(&input, Some(5), None, Some("prices".to_string()), fixed_encoder),
        Ok(TableRequest {
            data: TableData::Update(UpdateData::Csv("a\n1\n".to_string())),
            options: TableInitOptions {
                name: Some("prices".to_string()),
                index: None,
                limit: Some(5),
            },
        })
    );
    assert_eq!(
        client.table(&input, None, Some("a".to_string()), None, fixed_encoder),
        Ok(TableRequest {
            data: TableData::Update(UpdateData::Csv("a\n1\n".to_string())),
            options: TableInitOptions { name: None, index: Some("a".to_string()), limit: None },
        })
    );
    assert_eq!(
        client.table(&input, None, None, None, fixed_encoder),
        Ok(TableRequest {
            data: TableData::Update(UpdateData::Csv("a\n1\n".to_string())),
            options: TableInitOptions { name: None, index: None, limit: None },
        })
    );
}

#[test]
fn table_from_a_schema() {
    let client = PyClient::new();
    let input = HostValue::Dict(vec![(
        HostValue::Text("a".to_string()),
        HostValue::Text("integer".to_string()),
    )]);
    assert_eq!(
        client.table(&input, None, Some("a".to_string()), None, fixed_encoder),
        Ok(TableRequest {
            data: TableData::Schema(vec![("a".to_string(), ColumnType::Integer)]),
            options: TableInitOptions { name: None, index: Some("a".to_string()), limit: None },
        })
    );
}

#[test]
fn table_from_a_bad_schema_gives_no_request() {
    let client = PyClient::new();
    let input = HostValue::Dict(vec![
        (HostValue::Text("a".to_string()), HostValue::Text("integer".to_string())),
        (HostValue::Text("b".to_string()), HostValue::Text("nonsense".to_string())),
    ]);
    assert_eq!(
        client.table(&input, None, None, None, fixed_encoder),
        Err(HostError {
            kind: ErrorKind::Value,
            message: "Abort(): Unknown type nonsense".to_string(),
        })
    );
}

#[test]
fn table_options_exclude_limit_with_index() {
    assert_eq!(
        TableInitOptions::new(Some(1), Some("i".to_string()), None),
        Err(HostError {
            kind: ErrorKind::Value,
            message: "Cannot set both `limit` and `index`".to_string(),
        })
    );
    assert_eq!(
        TableInitOptions::new(None, None, Some("n".to_string())),
        Ok(TableInitOptions { name: Some("n".to_string()), index: None, limit: None })
    );
}

#[test]
fn new_client_has_no_loop_hook() {
    assert_eq!(PyClient::new().loop_cb(), None);
}

#[test]
fn loop_hook_is_replaced() {
    let mut client = PyClient::new();
    client.set_loop_cb(HOOK);
    assert_eq!(client.loop_cb(), Some(HOOK));
    client.set_loop_cb(OTHER);
    assert_eq!(client.loop_cb(), Some(OTHER));
}

#[test]
fn update_without_hook_calls_the_callback_with_the_delta() {
    let client = PyClient::new();
    let dispatcher = client.dispatcher(CALLBACK);
    assert_eq!(
        dispatcher.on_update(Some(vec![1, 2, 3])),
        Invocation { target: CALLBACK, args: vec![HostArg::Bytes(vec![1, 2, 3])] }
    );
    assert_eq!(dispatcher.on_update(None), Invocation { target: CALLBACK, args: vec![] });
}

#[test]
fn update_with_hook_calls_the_hook() {
    let mut client = PyClient::new();
    client.set_loop_cb(HOOK);
    let dispatcher = client.dispatcher(CALLBACK);
    assert_eq!(
        dispatcher.on_update(Some(vec![1, 2, 3])),
        Invocation {
            target: HOOK,
            args: vec![HostArg::Callback(CALLBACK), HostArg::Bytes(vec![1, 2, 3])],
        }
    );
    assert_eq!(
        dispatcher.on_update(None),
        Invocation { target: HOOK, args: vec![HostArg::Callback(CALLBACK)] }
    );
}

#[test]
fn empty_delta_is_still_a_delta() {
    let dispatcher = Dispatcher::new(CALLBACK, None);
    assert_eq!(
        dispatcher.on_update(Some(vec![])),
        Invocation { target: CALLBACK, args: vec![HostArg::Bytes(vec![])] }
    );
}

#[test]
fn delete_is_routed_like_an_update_without_delta() {
    assert_eq!(
        Dispatcher::new(CALLBACK, None).on_delete(),
        Invocation { target: CALLBACK, args: vec![] }
    );
    assert_eq!(
        Dispatcher::new(CALLBACK, Some(HOOK)).on_delete(),
        Invocation { target: HOOK, args: vec![HostArg::Callback(CALLBACK)] }
    );
}

#[test]
fn hook_installed_later_does_not_reach_an_earlier_dispatcher() {
    let mut client = PyClient::new();
    let earlier = client.dispatcher(CALLBACK);
    client.set_loop_cb(HOOK);
    let later = client.dispatcher(OTHER);
    assert_eq!(
        earlier.on_update(Some(vec![7])),
        Invocation { target: CALLBACK, args: vec![HostArg::Bytes(vec![7])] }
    );
    assert_eq!(
        later.on_update(Some(vec![7])),
        Invocation { target: HOOK, args: vec![HostArg::Callback(OTHER), HostArg::Bytes(vec![7])] }
    );
}

#[test]
fn callback_failure_becomes_a_warning() {
    let failure = HostError { kind: ErrorKind::Value, message: "boom".to_string() };
    assert_eq!(
        settle(Event::Update, Err(failure.clone())),
        Some("Error in on_update callback: boom".to_string())
    );
    assert_eq!(
        settle(Event::Delete, Err(failure)),
        Some("Error in on_delete callback: boom".to_string())
    );
}

#[test]
fn callback_success_gives_no_warning() {
    assert_eq!(settle(Event::Update, Ok(())), None);
    assert_eq!(settle(Event::Delete, Ok(())), None);
}

#[test]
fn removing_a_delete_callback_twice() {
    let mut registry = CallbackRegistry::new();
    registry.register(CALLBACK, 42);
    assert_eq!(registry.remove(CALLBACK), Ok(42));
    assert_eq!(registry.remove(CALLBACK), Err(no_registration()));
    assert_eq!(registry.len(), 0);
}

#[test]
fn removing_a_callback_never_registered() {
    let mut registry = CallbackRegistry::new();
    assert_eq!(registry.remove(CALLBACK), Err(no_registration()));
    registry.register(OTHER, 1);
    assert_eq!(registry.remove(CALLBACK), Err(no_registration()));
    assert_eq!(registry.find(OTHER), Some(1));
    assert_eq!(registry.len(), 1);
}

#[test]
fn registering_again_keeps_the_earlier_registration() {
    let mut registry = CallbackRegistry::new();
    registry.register(CALLBACK, 1);
    registry.register(OTHER, 2);
    registry.register(CALLBACK, 3);
    assert_eq!(registry.len(), 3);
    assert_eq!(registry.find(CALLBACK), Some(3));
    assert_eq!(registry.remove(CALLBACK), Ok(3));
    assert_eq!(registry.find(CALLBACK), Some(1));
    assert_eq!(registry.find(OTHER), Some(2));
    assert_eq!(registry.remove(CALLBACK), Ok(1));
    assert_eq!(registry.remove(CALLBACK), Err(no_registration()));
    assert_eq!(registry.remove(OTHER), Ok(2));
    assert_eq!(registry.len(), 0);
}

#[test]
fn registering_again_after_removal() {
    let mut registry = CallbackRegistry::new();
    registry.register(CALLBACK, 5);
    assert_eq!(registry.remove(CALLBACK), Ok(5));
    registry.register(CALLBACK, 6);
    assert_eq!(registry.find(CALLBACK), Some(6));
    assert_eq!(registry.remove(CALLBACK), Ok(6));
}

#[test]
fn identifiers_at_the_ends_of_their_range() {
    let mut registry = CallbackRegistry::new();
    registry.register(HostCallback { id: u64::MAX }, u32::MAX);
    registry.register(HostCallback { id: 0 }, 0);
    assert_eq!(registry.remove(HostCallback { id: u64::MAX }), Ok(u32::MAX));
    assert_eq!(registry.remove(HostCallback { id: 0 }), Ok(0));
}
