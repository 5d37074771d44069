//! Observability events: what a reconcile step publishes on the parent, and
//! the rule deciding which event (if any) an operation's outcome earns.

use vstd::prelude::*;
use vstd::string::*;
use crate::error::{Error, ErrorView, spec_error_text};

verus! {

/// What a convergence step did to its object.
#[derive(Debug, Clone, Copy, PartialEq, Eq, Structural)]
pub enum Outcome {
    NoOp,
    Created,
    Updated,
}

/// The class of a published event.
#[derive(Debug, Clone, Copy, PartialEq, Eq, Structural)]
pub enum EventType {
    Normal,
    Warning,
}

/// An event published on the parent object.
#[derive(Debug, Clone, PartialEq)]
pub struct Event {
    pub type_: EventType,
    pub reason: String,
    pub note: String,
    pub action: String,
}

pub ghost struct EventView {
    pub type_: EventType,
    pub reason: Seq<char>,
    pub note: Seq<char>,
    pub action: Seq<char>,
}

impl View for Event {
    type V = EventView;

    open spec fn view(&self) -> EventView {
        EventView {
            type_: self.type_,
            reason: self.reason@,
            note: self.note@,
            action: self.action@,
        }
    }
}

/// The event published for a reason and note; the action mirrors the reason.
pub open spec fn spec_event(reason: Seq<char>, note: Seq<char>, type_: EventType) -> EventView {
    EventView { type_: type_, reason: reason, note: note, action: reason }
}

/// The stable reporter identity events are published under.
#[derive(Debug, Clone, PartialEq)]
pub struct Reporter {
    pub controller: String,
    pub instance: Option<String>,
}

pub ghost struct ReporterView {
    pub controller: Seq<char>,
    pub instance: Option<Seq<char>>,
}

impl View for Reporter {
    type V = ReporterView;

    open spec fn view(&self) -> ReporterView {
        ReporterView {
            controller: self.controller@,
            instance: match self.instance {
                Option::Some(i) => Option::Some(i@),
                Option::None => Option::None,
            },
        }
    }
}

/// The reporter identity this controller publishes events under.
pub fn make_reporter() -> (r: Reporter)
    ensures
        r@.controller == "model-operator"@,
        r@.instance == Option::Some("dev"@),
{
    Reporter { controller: "model-operator".to_owned(), instance: Some("dev".to_owned()) }
}

/// Builds the event for one reason and note.
pub fn emit_event(reason: &str, note: &str, event_type: EventType) -> (r: Event)
    ensures
        r@ == spec_event(reason@, note@, event_type),
{
    Event {
        type_: event_type,
        reason: reason.to_owned(),
        note: note.to_owned(),
        action: reason.to_owned(),
    }
}

/// The event a step's outcome earns: a Normal success event on `Created` or
/// `Updated`, nothing on `NoOp`, and a Warning carrying the error text on
/// failure.
pub open spec fn spec_event_for(
    op: Result<Outcome, ErrorView>,
    success_msg: Seq<char>,
    success_reason: Seq<char>,
    fail_reason: Seq<char>,
) -> Option<EventView> {
    match op {
        Result::Ok(o) => if o == Outcome::NoOp {
            Option::None
        } else {
            Option::Some(spec_event(success_reason, success_msg, EventType::Normal))
        },
        Result::Err(e) => Option::Some(
            spec_event(fail_reason, spec_error_text(e), EventType::Warning),
        ),
    }
}

/// Wraps an operation's result with event emission: passes the result
/// through unchanged and returns the event to publish, if any.
pub fn with_event(
    op: Result<Outcome, Error>,
    success_msg: &str,
    success_reason: &str,
    fail_reason: &str,
) -> (r: (Result<Outcome, Error>, Option<Event>))
    ensures
        r.0 == op,
        match r.1 {
            Option::Some(ev) => Option::Some(ev@) == spec_event_for(
                result_view(op),
                success_msg@,
                success_reason@,
                fail_reason@,
            ),
            Option::None => Option::None::<EventView> == spec_event_for(
                result_view(op),
                success_msg@,
                success_reason@,
                fail_reason@,
            ),
        },
{
    match op {
        Ok(o) => {
            if o == Outcome::NoOp {
                (Ok(o), None)
            } else {
                let ev = emit_event(success_reason, success_msg, EventType::Normal);
                (Ok(o), Some(ev))
            }
        },
        Err(e) => {
            let note = e.text();
            let ev = emit_event(fail_reason, note.as_str(), EventType::Warning);
            (Err(e), Some(ev))
        },
    }
}

/// Spec-level image of a step result.
pub open spec fn result_view(op: Result<Outcome, Error>) -> Result<Outcome, ErrorView> {
    match op {
        Result::Ok(o) => Result::Ok(o),
        Result::Err(e) => Result::Err(e@),
    }
}

} // verus!

