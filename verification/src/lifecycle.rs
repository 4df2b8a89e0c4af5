//! The life of a connection's flag: the events that a connection
//! witnesses, what each does to the flag, and what holds of every sequence
//! of them.
use crate::failure::{code_of, keeps_session, kind_of, must_close, FailureKind};
use redis::RedisError;
use vstd::prelude::*;

verus! {

/// What a connection witnesses between two reads of its flag.
pub enum Event {
    /// A request came back with a reply.
    Success,
    /// A request failed with an error of this category and subcode.
    Failure { kind: FailureKind, code: Option<Seq<char>> },
    /// The caller condemned the connection.
    Condemn,
}

/// The event that an error of the client library stands for.
pub open spec fn failure_event(err: RedisError) -> Event {
    Event::Failure { kind: kind_of(err), code: code_of(err) }
}

/// The event that the outcome of a request stands for.
pub open spec fn outcome_event<T>(outcome: Result<T, RedisError>) -> Event {
    match outcome {
        Ok(_) => Event::Success,
        Err(err) => failure_event(err),
    }
}

/// Whether an event condemns the connection that witnesses it: a failure
/// that must close the connection does, and so does the caller's verdict.
pub open spec fn condemns(event: Event) -> bool {
    match event {
        Event::Success => false,
        Event::Failure { kind, code } => must_close(kind, code),
        Event::Condemn => true,
    }
}

/// The flag after an event, given the flag before it. The flag is raised
/// by an event that condemns and is never lowered.
pub open spec fn step(close_required: bool, event: Event) -> bool {
    close_required || condemns(event)
}

/// The flag after a sequence of events, given the flag before the first.
pub open spec fn run(close_required: bool, events: Seq<Event>) -> bool
    decreases events.len(),
{
    if events.len() == 0 {
        close_required
    } else {
        run(step(close_required, events.first()), events.drop_first())
    }
}

/// The categories split in two: a failure must close the connection
/// exactly if its category is a rejected authentication, an invalid client
/// configuration, a transport failure, a client-side fault, a server
/// extension error or a category that is not known; the subcode changes
/// nothing.
pub proof fn closing_categories(kind: FailureKind, code: Option<Seq<char>>)
    ensures
        must_close(kind, code) <==> (kind is AuthenticationFailed || kind is InvalidClientConfig
            || kind is IoError || kind is ClientError || kind is ExtensionError
            || kind is Unrecognized),
        must_close(kind, code) <==> !keeps_session(kind),
{
}

/// A failure that must close the connection leaves it condemned, whatever
/// its state was, and seeing the same failure again changes nothing.
pub proof fn closing_failure_condemns(close_required: bool, kind: FailureKind, code: Option<Seq<char>>)
    requires
        must_close(kind, code),
    ensures
        step(close_required, Event::Failure { kind, code }),
        step(step(close_required, Event::Failure { kind, code }), Event::Failure { kind, code })
            == step(close_required, Event::Failure { kind, code }),
{
}

/// A failure that need not close the connection leaves a healthy
/// connection healthy.
pub proof fn passing_failure_keeps_healthy(kind: FailureKind, code: Option<Seq<char>>)
    requires
        !must_close(kind, code),
    ensures
        !step(false, Event::Failure { kind, code }),
{
}

/// A request that succeeds leaves the flag as it was.
pub proof fn success_keeps_flag(close_required: bool)
    ensures
        step(close_required, Event::Success) == close_required,
{
}

/// Condemning a connection condemns it whatever its state was, and
/// condemning it again changes nothing.
pub proof fn condemn_is_unconditional(close_required: bool)
    ensures
        step(close_required, Event::Condemn),
        step(step(close_required, Event::Condemn), Event::Condemn) == step(
            close_required,
            Event::Condemn,
        ),
{
}

/// After a sequence of events the connection is condemned exactly if it
/// was condemned before or one of the events condemns.
pub proof fn run_condemns_iff_some_event_does(close_required: bool, events: Seq<Event>)
    ensures
        run(close_required, events) <==> (close_required || exists|i: int|
            0 <= i < events.len() && condemns(#[trigger] events[i])),
    decreases events.len(),
{
    if events.len() > 0 {
        let rest = events.drop_first();
        run_condemns_iff_some_event_does(step(close_required, events.first()), rest);
        if exists|i: int| 0 <= i < rest.len() && condemns(#[trigger] rest[i]) {
            let i = choose|i: int| 0 <= i < rest.len() && condemns(#[trigger] rest[i]);
            assert(condemns(events[i + 1]));
        }
        if exists|i: int| 0 <= i < events.len() && condemns(#[trigger] events[i]) {
            let i = choose|i: int| 0 <= i < events.len() && condemns(#[trigger] events[i]);
            if i > 0 {
                assert(condemns(rest[i - 1]));
            }
        }
    }
}

/// A condemned connection stays condemned, whatever it witnesses.
pub proof fn condemned_is_terminal(events: Seq<Event>)
    ensures
        run(true, events),
{
    run_condemns_iff_some_event_does(true, events);
}

/// A sequence of successes and of failures that need not close the
/// connection leaves the flag as it was: a healthy connection stays
/// healthy and a condemned one stays condemned.
pub proof fn passing_events_keep_flag(close_required: bool, events: Seq<Event>)
    requires
        forall|i: int| 0 <= i < events.len() ==> !condemns(#[trigger] events[i]),
    ensures
        run(close_required, events) == close_required,
{
    run_condemns_iff_some_event_does(close_required, events);
}

} // verus!
