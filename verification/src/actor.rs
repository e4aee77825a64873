//! The actor: the operations it offers, its two lifecycle events, and the
//! two turns of a tracking call.
//!
//! The host runs one turn at a time and hands each the actor for itself. A
//! tracking call takes two turns, one that sends and one that resumes when
//! the call has ended; between them the host may run any number of other
//! turns.
//!
//! A call is being built until `track_send` returns it, is sent once the
//! host has taken it, and has resumed, for good, when `track_resume` has
//! read its outcome. Each step uses up what the step before handed out, so
//! no call is sent or read twice.

use crate::counter::restored;
use crate::counter::successor;
use crate::counter::Counter;
use crate::counter::DEFAULT_VALUE;
use crate::envelope::counter_description;
use crate::envelope::describe_counter;
use crate::envelope::Action;
use crate::envelope::ActionView;
use crate::envelope::TrackerRequest;
use crate::envelope::TrackerRequestView;
use crate::identity::principal_of_text;
use crate::identity::ActorId;
use crate::natural::Natural;
use crate::response::decode;
use crate::response::failure_of;
use crate::response::reply_of;
use crate::response::CallOutcome;
use crate::response::TrackReport;
use vstd::prelude::*;
use vstd::string::StringExecFns;

verus! {

/// The actor whose operation `get` the tracker is to poll.
pub const CALLBACK_ID: &'static str = "r7inp-6aaaa-aaaaa-aaabq-cai";

/// The actor that tracks metrics.
pub const TRACKER_ID: &'static str = "ryjl3-tyaaa-aaaaa-aaaba-cai";

/// What happens to the state cell in one turn of the actor.
pub enum Turn {
    Read,
    Write(u64),
    Increment,
    TrackSend,
    TrackResume,
}

/// The value of the state cell after `turn`. Only writing and incrementing
/// change it: neither turn of a tracking call touches the cell.
pub open spec fn step(value: u64, turn: Turn) -> u64 {
    match turn {
        Turn::Read => value,
        Turn::Write(new_value) => new_value,
        Turn::Increment => successor(value),
        Turn::TrackSend => value,
        Turn::TrackResume => value,
    }
}

/// The value of the state cell after `turns`, one after the other.
pub open spec fn run(value: u64, turns: Seq<Turn>) -> u64
    decreases turns.len(),
{
    if turns.len() == 0 {
        value
    } else {
        step(run(value, turns.drop_last()), turns.last())
    }
}

/// What is saved of a state cell at teardown: the value, whole.
pub open spec fn snapshot_of(value: u64) -> u64 {
    value
}

/// What the state cell of a rebuilt actor holds: what was saved, and the
/// default where nothing was.
pub open spec fn reconstructed(saved: Option<u64>) -> u64 {
    restored(DEFAULT_VALUE, saved)
}

/// A number that the state cell cannot hold.
#[derive(Clone, Copy, Debug, PartialEq, Eq)]
pub struct ValueTooLarge;

/// Which of the two identities of a tracking call does not read as one.
#[derive(Clone, Copy, Debug, PartialEq, Eq)]
pub enum MalformedIdentity {
    Callback,
    Tracker,
}

/// Whether a teardown may go on once the host has tried to save.
#[derive(Debug, PartialEq, Eq)]
pub enum Teardown {
    /// The snapshot is saved.
    Proceed,
    /// The snapshot could not be saved. The teardown must be given up with
    /// this message, and the actor stays as it was.
    Abort(String),
}

/// A call to another actor, ready to be sent.
#[derive(Debug, PartialEq, Eq)]
pub struct OutboundCall {
    pub target: ActorId,
    pub method: String,
    pub payload: TrackerRequest,
}

/// What an `OutboundCall` is, in plain values.
pub struct OutboundCallView {
    pub target: Seq<u8>,
    pub method: Seq<char>,
    pub payload: TrackerRequestView,
}

impl View for OutboundCall {
    type V = OutboundCallView;

    open spec fn view(&self) -> OutboundCallView {
        OutboundCallView { target: self.target@, method: self.method@, payload: self.payload@ }
    }
}

/// The call that registers the counter of the actor `own` with `tracker`:
/// the operation `track`, asked to set up a new attribute, so without a
/// number, under `counter_description(own)`.
pub open spec fn tracking_call(own: Seq<u8>, tracker: Seq<u8>) -> OutboundCallView {
    OutboundCallView {
        target: tracker,
        method: "track"@,
        payload: TrackerRequestView {
            attribute_id: None,
            action: ActionView::SetUp(counter_description(own)),
        },
    }
}

/// Builds `tracking_call(own@, tracker@)`.
pub fn build_tracking_call(own: ActorId, tracker: ActorId) -> (call: OutboundCall)
    ensures
        call@ == tracking_call(own@, tracker@),
{
    OutboundCall {
        target: tracker,
        method: String::from_str("track"),
        payload: TrackerRequest::build(None, Action::SetUp(describe_counter(own))),
    }
}

/// The tracking call with both identities read from their texts, the
/// callback's before the tracker's. The first text that writes no identity is
/// reported.
pub fn tracking_call_from_text(callback: &str, tracker: &str) -> (call: Result<
    OutboundCall,
    MalformedIdentity,
>)
    ensures
        match call {
            Ok(call) => {
                &&& principal_of_text(callback@) matches Some(own)
                &&& principal_of_text(tracker@) matches Some(target)
                &&& call@ == tracking_call(own, target)
            },
            Err(MalformedIdentity::Callback) => principal_of_text(callback@) is None,
            Err(MalformedIdentity::Tracker) => principal_of_text(callback@) is Some
                && principal_of_text(tracker@) is None,
        },
{
    let own = match ActorId::from_text(callback) {
        Some(own) => own,
        None => {
            return Err(MalformedIdentity::Callback);
        },
    };
    let target = match ActorId::from_text(tracker) {
        Some(target) => target,
        None => {
            return Err(MalformedIdentity::Tracker);
        },
    };
    Ok(build_tracking_call(own, target))
}

/// What to do after the host has tried to save the snapshot. A failure is
/// fatal: the message names the event and repeats the host's words.
pub fn teardown_after_save(saved: Result<(), String>) -> (teardown: Teardown)
    ensures
        match saved {
            Ok(_) => teardown == Teardown::Proceed,
            Err(detail) => teardown matches Teardown::Abort(message) && message@
                == "[pre_upgrade] stable save error: "@ + detail@,
        },
{
    match saved {
        Ok(_) => Teardown::Proceed,
        Err(detail) => Teardown::Abort(
            String::from_str("[pre_upgrade] stable save error: ").concat(detail.as_str()),
        ),
    }
}

/// The application state: all that the actor keeps between turns.
#[derive(Debug, PartialEq, Eq)]
pub struct Actor {
    counter: Counter,
}

impl View for Actor {
    type V = u64;

    closed spec fn view(&self) -> u64 {
        self.counter@
    }
}

impl Actor {
    /// A new actor. Its state cell holds the default.
    pub fn init() -> (actor: Actor)
        ensures
            actor@ == DEFAULT_VALUE,
    {
        Actor { counter: Counter::default() }
    }

    /// The value to save before teardown. The actor is borrowed for the
    /// whole of the event, so no turn can run in the middle of it.
    pub fn pre_upgrade(&self) -> (saved: u64)
        ensures
            saved == snapshot_of(self@),
    {
        self.counter.snapshot()
    }

    /// The actor after reconstruction: a new actor that has taken over what
    /// the host found saved. A snapshot that is missing or unreadable is no
    /// error.
    pub fn post_upgrade(saved: Option<u64>) -> (actor: Actor)
        ensures
            actor@ == reconstructed(saved),
    {
        let mut actor = Actor::init();
        actor.counter.restore(saved);
        actor
    }

    /// The value of the state cell.
    pub fn get(&self) -> (value: Natural)
        ensures
            value@ == self@,
            value.wf(),
    {
        Natural::from_u64(self.counter.read())
    }

    /// Writes `value` to the state cell, unless it is too large for the
    /// cell, which then stays as it is.
    pub fn set(&mut self, value: &Natural) -> (done: Result<(), ValueTooLarge>)
        ensures
            value@ <= u64::MAX ==> done is Ok && final(self)@ == step(
                old(self)@,
                Turn::Write(value@ as u64),
            ),
            value@ > u64::MAX ==> done is Err && final(self)@ == old(self)@,
    {
        match value.to_u64() {
            Some(small) => {
                self.counter.write(small);
                Ok(())
            },
            None => Err(ValueTooLarge),
        }
    }

    /// Adds one to the state cell, wrapping to zero after the largest value.
    pub fn inc(&mut self)
        ensures
            final(self)@ == step(old(self)@, Turn::Increment),
    {
        self.counter.increment();
    }

    /// The first turn of a tracking call: builds the call for the host to
    /// send, from `CALLBACK_ID` to `TRACKER_ID`. The state cell is left
    /// alone.
    pub fn track_send(&mut self) -> (call: Result<OutboundCall, MalformedIdentity>)
        ensures
            final(self)@ == step(old(self)@, Turn::TrackSend),
            match call {
                Ok(call) => {
                    &&& principal_of_text(CALLBACK_ID@) matches Some(own)
                    &&& principal_of_text(TRACKER_ID@) matches Some(target)
                    &&& call@ == tracking_call(own, target)
                },
                Err(MalformedIdentity::Callback) => principal_of_text(CALLBACK_ID@) is None,
                Err(MalformedIdentity::Tracker) => principal_of_text(CALLBACK_ID@) is Some
                    && principal_of_text(TRACKER_ID@) is None,
            },
    {
        tracking_call_from_text(CALLBACK_ID, TRACKER_ID)
    }

    /// The second turn of a tracking call: reads how the call ended. The
    /// state cell is left alone, so what other turns wrote while the call
    /// was under way is still there.
    pub fn track_resume(&mut self, outcome: CallOutcome) -> (report: TrackReport)
        ensures
            final(self)@ == step(old(self)@, Turn::TrackResume),
            report.response == reply_of(outcome),
            report.diagnostic == failure_of(outcome),
    {
        decode(outcome)
    }
}

/// A value that was written and then saved at teardown is the value of the
/// actor that is rebuilt from what was saved.
pub proof fn written_value_survives_upgrade(before: u64, value: u64)
    ensures
        reconstructed(Some(snapshot_of(step(before, Turn::Write(value))))) == value,
{
}

/// The state cell survives an upgrade whatever it holds.
pub proof fn upgrade_keeps_value(value: u64)
    ensures
        reconstructed(Some(snapshot_of(value))) == value,
{
}

/// An actor that is rebuilt without a snapshot holds 5.
pub proof fn upgrade_without_snapshot_gives_default()
    ensures
        reconstructed(None) == 5,
{
}

/// What is written while a tracking call is under way is what the state
/// cell holds when the call has resumed.
pub proof fn write_during_tracking_is_kept(before: u64, value: u64)
    ensures
        step(step(step(before, Turn::TrackSend), Turn::Write(value)), Turn::TrackResume)
            == value,
{
}

/// Whatever turns run while a tracking call is under way, the state cell
/// ends as those turns alone would have left it.
pub proof fn tracking_leaves_no_trace(before: u64, between: Seq<Turn>)
    ensures
        step(run(step(before, Turn::TrackSend), between), Turn::TrackResume) == run(
            before,
            between,
        ),
{
}

} // verus!
