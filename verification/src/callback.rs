//! The callback bridge: how engine events reach host callbacks, and how a
//! registration is found again when it is to be removed.

use vstd::prelude::*;
use crate::error::{attribute_failure, HostError};

verus! {

/// A host callable, known by its identity alone.
#[derive(Clone, Copy, Debug, PartialEq, Eq, Structural)]
pub struct HostCallback {
    pub id: u64,
}

/// One positional argument of a call into the host.
#[derive(Clone, Debug, PartialEq, Eq)]
pub enum HostArg {
    /// A host callable, handed over as a value.
    Callback(HostCallback),
    /// A binary buffer.
    Bytes(Vec<u8>),
}

/// A call into the host: the callable to call and its positional arguments.
#[derive(Clone, Debug, PartialEq, Eq)]
pub struct Invocation {
    pub target: HostCallback,
    pub args: Vec<HostArg>,
}

/// What a [`HostArg`] holds.
pub enum ArgModel {
    Callback(HostCallback),
    Bytes(Seq<u8>),
}

/// What an [`Invocation`] holds.
pub struct Call {
    pub target: HostCallback,
    pub args: Seq<ArgModel>,
}

impl View for HostArg {
    type V = ArgModel;

    open spec fn view(&self) -> ArgModel {
        match *self {
            HostArg::Callback(callback) => ArgModel::Callback(callback),
            HostArg::Bytes(bytes) => ArgModel::Bytes(bytes@),
        }
    }
}

impl View for Invocation {
    type V = Call;

    open spec fn view(&self) -> Call {
        Call { target: self.target, args: self.args@.map_values(|arg: HostArg| arg@) }
    }
}

/// The call that an event leads to.  Without a loop hook the callback itself
/// is called; with one, the hook is called and the callback is its first
/// argument.  The payload of the event, if it has one, is the last argument.
pub open spec fn routed(
    callback: HostCallback,
    loop_cb: Option<HostCallback>,
    payload: Option<Seq<u8>>,
) -> Call {
    let tail = match payload {
        Some(bytes) => seq![ArgModel::Bytes(bytes)],
        None => Seq::<ArgModel>::empty(),
    };
    match loop_cb {
        Some(hook) => Call { target: hook, args: seq![ArgModel::Callback(callback)] + tail },
        None => Call { target: callback, args: tail },
    }
}

/// What stands between an engine event and a host callback: the callback, and
/// the loop hook as it was when the callback was registered.
#[derive(Clone, Copy, Debug, PartialEq, Eq, Structural)]
pub struct Dispatcher {
    pub callback: HostCallback,
    pub loop_cb: Option<HostCallback>,
}

impl Dispatcher {
    /// A dispatcher for `callback` that goes through `loop_cb` where there is
    /// one.
    pub fn new(callback: HostCallback, loop_cb: Option<HostCallback>) -> (dispatcher: Dispatcher)
        ensures
            dispatcher.callback == callback,
            dispatcher.loop_cb == loop_cb,
    {
        Dispatcher { callback, loop_cb }
    }

    /// The call to make when the engine reports a delete.
    pub fn on_delete(&self) -> (call: Invocation)
        ensures
            call@ == routed(self.callback, self.loop_cb, None),
    {
        self.dispatch(None)
    }

    /// The call to make when the engine reports an update, with the delta
    /// that came with it, if one did.
    pub fn on_update(&self, delta: Option<Vec<u8>>) -> (call: Invocation)
        ensures
            call@ == routed(
                self.callback,
                self.loop_cb,
                match delta {
                    Some(bytes) => Some(bytes@),
                    None => None,
                },
            ),
    {
        self.dispatch(delta)
    }

    fn dispatch(&self, payload: Option<Vec<u8>>) -> (call: Invocation)
        ensures
            call@ == routed(
                self.callback,
                self.loop_cb,
                match payload {
                    Some(bytes) => Some(bytes@),
                    None => None,
                },
            ),
    {
        let mut args: Vec<HostArg> = Vec::new();
        let target = match self.loop_cb {
            Some(hook) => {
                args.push(HostArg::Callback(self.callback));
                hook
            },
            None => self.callback,
        };
        match payload {
            Some(bytes) => {
                args.push(HostArg::Bytes(bytes));
            },
            None => {},
        }
        let call = Invocation { target, args };
        assert(call@.args =~= routed(
            self.callback,
            self.loop_cb,
            match payload {
                Some(bytes) => Some(bytes@),
                None => None,
            },
        ).args);
        call
    }
}

/// The kind of engine event that a callback is registered for.
#[derive(Clone, Copy, Debug, PartialEq, Eq, Structural)]
pub enum Event {
    Delete,
    Update,
}

/// The first words of the warning for a callback that failed.
pub open spec fn warning_prefix(event: Event) -> Seq<char> {
    match event {
        Event::Delete => "Error in on_delete callback: "@,
        Event::Update => "Error in on_update callback: "@,
    }
}

/// Settles what a dispatched callback did.  A failure inside the callback
/// goes no further: it becomes the text of a warning to report, and nothing
/// is handed back to the engine.  A callback that returned gives no warning.
pub fn settle(event: Event, outcome: Result<(), HostError>) -> (warning: Option<String>)
    ensures
        match outcome {
            Ok(_) => warning is None,
            Err(e) => warning matches Some(text) && text@ == warning_prefix(event) + e@.message,
        },
{
    match outcome {
        Ok(_) => None,
        Err(e) => {
            let prefix = match event {
                Event::Delete => "Error in on_delete callback: ",
                Event::Update => "Error in on_update callback: ",
            };
            Some(prefix.to_owned().concat(e.message.as_str()))
        },
    }
}

/// The index of the latest registration of `callback` among `entries`.
pub open spec fn latest(entries: Seq<(HostCallback, u32)>, callback: HostCallback) -> Option<int>
    decreases entries.len(),
{
    if entries.len() == 0 {
        None
    } else if entries.last().0 == callback {
        Some(entries.len() - 1)
    } else {
        latest(entries.drop_last(), callback)
    }
}

/// The registrations after one more: the new pairing comes last, and every
/// earlier one stays.
pub open spec fn after_register(
    entries: Seq<(HostCallback, u32)>,
    callback: HostCallback,
    id: u32,
) -> Seq<(HostCallback, u32)> {
    entries.push((callback, id))
}

/// The identifier that a removal for `callback` finds: that of its latest
/// registration.
pub open spec fn found(entries: Seq<(HostCallback, u32)>, callback: HostCallback) -> Option<u32> {
    match latest(entries, callback) {
        Some(j) => Some(entries[j].1),
        None => None,
    }
}

/// The registrations after a removal for `callback`: its latest registration
/// is gone, and all others stay in their order.
pub open spec fn after_remove(
    entries: Seq<(HostCallback, u32)>,
    callback: HostCallback,
) -> Seq<(HostCallback, u32)> {
    match latest(entries, callback) {
        Some(j) => entries.remove(j),
        None => entries,
    }
}

/// The message of the error for a callback that has no registration.
pub open spec fn no_registration_message() -> Seq<char> {
    "No registration found for callback"@
}

/// Where `latest` points there is a registration of the callback, and none
/// comes after it; where it points nowhere there is none at all.
pub proof fn lemma_latest(entries: Seq<(HostCallback, u32)>, callback: HostCallback)
    ensures
        match latest(entries, callback) {
            Some(j) => {
                &&& 0 <= j < entries.len()
                &&& entries[j].0 == callback
                &&& forall|k: int| j < k < entries.len() ==> (#[trigger] entries[k]).0 != callback
            },
            None => forall|k: int| 0 <= k < entries.len() ==> (#[trigger] entries[k]).0 != callback,
        },
    decreases entries.len(),
{
    if entries.len() > 0 && entries.last().0 != callback {
        let front = entries.drop_last();
        lemma_latest(front, callback);
        assert forall|k: int| 0 <= k < front.len() implies #[trigger] entries[k] == front[k] by {}
        match latest(front, callback) {
            Some(j) => {
                assert forall|k: int| j < k < entries.len() implies (#[trigger] entries[k]).0
                    != callback by {
                    if k < front.len() {
                        assert(front[k].0 != callback);
                    }
                }
            },
            None => {
                assert forall|k: int| 0 <= k < entries.len() implies (#[trigger] entries[k]).0
                    != callback by {
                    if k < front.len() {
                        assert(front[k].0 != callback);
                    }
                }
            },
        }
    }
}

/// A registration with no later one of the same callback is the latest.
proof fn lemma_latest_at(entries: Seq<(HostCallback, u32)>, callback: HostCallback, j: int)
    requires
        0 <= j < entries.len(),
        entries[j].0 == callback,
        forall|k: int| j < k < entries.len() ==> (#[trigger] entries[k]).0 != callback,
    ensures
        latest(entries, callback) == Some(j),
    decreases entries.len(),
{
    if j < entries.len() - 1 {
        lemma_latest_at(entries.drop_last(), callback, j);
    }
}

/// Among registrations of other callbacks only, none is the latest.
proof fn lemma_latest_none(entries: Seq<(HostCallback, u32)>, callback: HostCallback)
    requires
        forall|k: int| 0 <= k < entries.len() ==> (#[trigger] entries[k]).0 != callback,
    ensures
        latest(entries, callback) is None,
    decreases entries.len(),
{
    if entries.len() > 0 {
        lemma_latest_none(entries.drop_last(), callback);
    }
}

/// A callback that is registered and then removed leaves the registrations as
/// they were, and the removal finds the identifier that was registered.
pub proof fn lemma_register_then_remove(
    entries: Seq<(HostCallback, u32)>,
    callback: HostCallback,
    id: u32,
)
    ensures
        found(after_register(entries, callback, id), callback) == Some(id),
        after_remove(after_register(entries, callback, id), callback) == entries,
{
    let next = after_register(entries, callback, id);
    assert(next.last() == (callback, id));
    assert(next.remove(entries.len() as int) =~= entries);
}

/// A callback that was not registered before, is registered once and removed
/// twice: the first removal finds the identifier, the second finds nothing.
pub proof fn lemma_second_removal_fails(
    entries: Seq<(HostCallback, u32)>,
    callback: HostCallback,
    id: u32,
)
    requires
        found(entries, callback) is None,
    ensures
        found(after_register(entries, callback, id), callback) == Some(id),
        found(after_remove(after_register(entries, callback, id), callback), callback) is None,
{
    lemma_register_then_remove(entries, callback, id);
}

/// A removal leaves the registrations of every other callback as they were.
pub proof fn lemma_remove_keeps_others(
    entries: Seq<(HostCallback, u32)>,
    callback: HostCallback,
    other: HostCallback,
)
    requires
        other != callback,
    ensures
        found(after_remove(entries, callback), other) == found(entries, other),
    decreases entries.len(),
{
    lemma_latest(entries, callback);
    match latest(entries, callback) {
        None => {},
        Some(j) => {
            let rest = entries.remove(j);
            lemma_latest(entries, other);
            match latest(entries, other) {
                None => {
                    assert forall|k: int| 0 <= k < rest.len() implies (#[trigger] rest[k]).0
                        != other by {
                        if k < j {
                            assert(rest[k] == entries[k]);
                        } else {
                            assert(rest[k] == entries[k + 1]);
                        }
                    }
                    lemma_latest_none(rest, other);
                },
                Some(i) => {
                    let moved = if i < j {
                        i
                    } else {
                        i - 1
                    };
                    assert(rest[moved] == entries[i]);
                    assert forall|k: int| moved < k < rest.len() implies (#[trigger] rest[k]).0
                        != other by {
                        if k < j {
                            assert(rest[k] == entries[k]);
                        } else {
                            assert(rest[k] == entries[k + 1]);
                        }
                    }
                    lemma_latest_at(rest, other, moved);
                },
            }
        },
    }
}

/// The live registrations: each pairs a callback with the identifier that the
/// engine gave to one registration of it.  A callback may be registered more
/// than once; no registration replaces another.
#[derive(Debug)]
pub struct CallbackRegistry {
    entries: Vec<(HostCallback, u32)>,
}

impl View for CallbackRegistry {
    type V = Seq<(HostCallback, u32)>;

    closed spec fn view(&self) -> Seq<(HostCallback, u32)> {
        self.entries@
    }
}

impl CallbackRegistry {
    /// A registry without registrations.
    pub fn new() -> (registry: CallbackRegistry)
        ensures
            registry@ == Seq::<(HostCallback, u32)>::empty(),
    {
        CallbackRegistry { entries: Vec::new() }
    }

    /// The number of live registrations.
    pub fn len(&self) -> (n: usize)
        ensures
            n == self@.len(),
    {
        self.entries.len()
    }

    /// Records that the engine gave `id` to a registration of `callback`.
    pub fn register(&mut self, callback: HostCallback, id: u32)
        ensures
            final(self)@ == after_register(old(self)@, callback, id),
    {
        self.entries.push((callback, id));
    }

    /// The identifier of the latest registration of `callback`, which is
    /// what a removal would find.
    pub fn find(&self, callback: HostCallback) -> (res: Option<u32>)
        ensures
            res == found(self@, callback),
    {
        match self.position(callback) {
            Some(j) => Some(self.entries[j].1),
            None => None,
        }
    }

    /// Takes the latest registration of `callback` out and returns its
    /// identifier, which is the one to hand to the engine's removal call.
    /// Without a registration of `callback` this is an error, and nothing
    /// changes.
    pub fn remove(&mut self, callback: HostCallback) -> (res: Result<u32, HostError>)
        ensures
            final(self)@ == after_remove(old(self)@, callback),
            match found(old(self)@, callback) {
                Some(id) => res == Ok::<u32, HostError>(id),
                None => res matches Err(e) && e@ == attribute_failure(no_registration_message()),
            },
    {
        match self.position(callback) {
            Some(j) => {
                let entry = self.entries.remove(j);
                Ok(entry.1)
            },
            None => Err(HostError::attribute("No registration found for callback".to_owned())),
        }
    }

    fn position(&self, callback: HostCallback) -> (res: Option<usize>)
        ensures
            match res {
                Some(j) => latest(self@, callback) == Some(j as int) && j < self@.len(),
                None => latest(self@, callback) is None,
            },
    {
        let mut i: usize = self.entries.len();
        while i > 0
            invariant
                i <= self.entries.len(),
                forall|k: int| i <= k < self.entries@.len() ==> (#[trigger] self.entries@[k]).0
                    != callback,
            decreases i,
        {
            i -= 1;
            if self.entries[i].0 == callback {
                proof {
                    lemma_latest_at(self.entries@, callback, i as int);
                }
                return Some(i);
            }
        }
        proof {
            lemma_latest_none(self.entries@, callback);
        }
        None
    }
}

} // verus!
