//! The client: its loop hook, and what it asks of the engine to make a table.

use vstd::prelude::*;
use crate::callback::{routed, ArgModel, Call, Dispatcher, HostCallback};
use crate::error::{value_failure, HostError};
use crate::update_data::{is_table_data_of, TableData};
use crate::value::HostValue;

verus! {

/// The options a table is made with.  `index` names the column that rows are
/// keyed by; `limit` bounds the number of rows.  A table has at most one of
/// the two.
#[derive(Clone, Debug, PartialEq, Eq)]
pub struct TableInitOptions {
    pub name: Option<String>,
    pub index: Option<String>,
    pub limit: Option<u32>,
}

/// What to ask of the engine to make a table.
#[derive(Clone, Debug, PartialEq, Eq)]
pub struct TableRequest {
    pub data: TableData,
    pub options: TableInitOptions,
}

/// The message of the error for a table asked for with both a limit and an
/// index.
pub open spec fn both_policies_message() -> Seq<char> {
    "Cannot set both `limit` and `index`"@
}

impl TableInitOptions {
    /// The options for a table with the given size policy and name.  A limit
    /// and an index exclude each other: with both set this is an error.
    pub fn new(limit: Option<u32>, index: Option<String>, name: Option<String>) -> (res: Result<
        TableInitOptions,
        HostError,
    >)
        ensures
            match res {
                Ok(options) => {
                    &&& !(limit is Some && index is Some)
                    &&& options.name == name
                    &&& options.index == index
                    &&& options.limit == limit
                },
                Err(e) => {
                    &&& limit is Some && index is Some
                    &&& e@ == value_failure(both_policies_message())
                },
            },
    {
        if limit.is_some() && index.is_some() {
            Err(HostError::value("Cannot set both `limit` and `index`".to_owned()))
        } else {
            Ok(TableInitOptions { name, index, limit })
        }
    }
}

/// The state of a client that the bindings keep themselves: the loop hook,
/// which is absent until one is installed.
#[derive(Clone, Copy, Debug, PartialEq, Eq)]
pub struct PyClient {
    loop_cb: Option<HostCallback>,
}

impl View for PyClient {
    type V = Option<HostCallback>;

    closed spec fn view(&self) -> Option<HostCallback> {
        self.loop_cb
    }
}

/// The dispatcher that a client makes for a callback: it holds the loop hook
/// as the client has it at that moment.
pub open spec fn dispatcher_of(loop_cb: Option<HostCallback>, callback: HostCallback) -> Dispatcher {
    Dispatcher { callback, loop_cb }
}

/// The call that a dispatcher makes for an event with the given payload.
pub open spec fn dispatched(dispatcher: Dispatcher, payload: Option<Seq<u8>>) -> Call {
    routed(dispatcher.callback, dispatcher.loop_cb, payload)
}

impl PyClient {
    /// A client without a loop hook.
    pub fn new() -> (client: PyClient)
        ensures
            client@ is None,
    {
        PyClient { loop_cb: None }
    }

    /// Installs `loop_cb` as the loop hook, in place of any earlier one.
    pub fn set_loop_cb(&mut self, loop_cb: HostCallback)
        ensures
            final(self)@ == Some(loop_cb),
    {
        self.loop_cb = Some(loop_cb);
    }

    /// The loop hook, if one is installed.
    pub fn loop_cb(&self) -> (res: Option<HostCallback>)
        ensures
            res == self@,
    {
        self.loop_cb
    }

    /// The dispatcher for a callback that is about to be registered.  It
    /// keeps the loop hook of this moment: a hook installed later does not
    /// reach it.
    pub fn dispatcher(&self, callback: HostCallback) -> (res: Dispatcher)
        ensures
            res == dispatcher_of(self@, callback),
    {
        Dispatcher::new(callback, self.loop_cb)
    }

    /// What to ask of the engine to make a table from `input`.
    ///
    /// The size policy is looked at first: with both a limit and an index the
    /// call fails whatever `input` is.  Then `input` is normalized, as
    /// [`TableData::from_py`] does it, and its failure is the failure of the
    /// call.  The request holds the data and the options as they were given.
    pub fn table<F>(
        &self,
        input: &HostValue,
        limit: Option<u32>,
        index: Option<String>,
        name: Option<String>,
        encode: F,
    ) -> (res: Result<TableRequest, HostError>) where
        F: Fn(&HostValue) -> Result<String, HostError>,

        requires
            encode.requires((input,)),
        ensures
            if limit is Some && index is Some {
                res matches Err(e) && e@ == value_failure(both_policies_message())
            } else {
                match res {
                    Ok(request) => {
                        &&& request.options.name == name
                        &&& request.options.index == index
                        &&& request.options.limit == limit
                        &&& request.data.well_formed()
                        &&& is_table_data_of(*input, encode, Ok(request.data))
                    },
                    Err(e) => is_table_data_of(*input, encode, Err(e)),
                }
            },
    {
        let options = match TableInitOptions::new(limit, index, name) {
            Ok(options) => options,
            Err(e) => {
                return Err(e);
            },
        };
        match TableData::from_py(input, encode) {
            Ok(data) => Ok(TableRequest { data, options }),
            Err(e) => Err(e),
        }
    }
}

/// An update with a delta, dispatched for a callback that was registered
/// while no loop hook was installed, calls that callback with the delta as
/// its one argument.
pub proof fn lemma_update_without_hook(callback: HostCallback, delta: Seq<u8>)
    ensures
        dispatched(dispatcher_of(None, callback), Some(delta)).target == callback,
        dispatched(dispatcher_of(None, callback), Some(delta)).args == seq![ArgModel::Bytes(delta)],
{
    assert(dispatched(dispatcher_of(None, callback), Some(delta)).args =~= seq![
        ArgModel::Bytes(delta),
    ]);
}

/// An update dispatched for a callback that was registered after a loop hook
/// was installed calls the hook, with the callback as first argument and the
/// delta, if there is one, as second.
pub proof fn lemma_update_through_hook(
    callback: HostCallback,
    hook: HostCallback,
    delta: Option<Seq<u8>>,
)
    ensures
        dispatched(dispatcher_of(Some(hook), callback), delta).target == hook,
        dispatched(dispatcher_of(Some(hook), callback), delta).args == match delta {
            Some(bytes) => seq![ArgModel::Callback(callback), ArgModel::Bytes(bytes)],
            None => seq![ArgModel::Callback(callback)],
        },
{
    let args = dispatched(dispatcher_of(Some(hook), callback), delta).args;
    match delta {
        Some(bytes) => {
            assert(args =~= seq![ArgModel::Callback(callback), ArgModel::Bytes(bytes)]);
        },
        None => {
            assert(args =~= seq![ArgModel::Callback(callback)]);
        },
    }
}

} // verus!
