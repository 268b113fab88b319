//! Consumption of a streamed response: which text each event contributes,
//! and what the consumer does after each receive.
//!
//! The consumer itself suspends on the network, so the loop that drives it
//! lives with the caller. What is decided here is the rest: given what one
//! receive yielded, whether to emit text and go on, to finish, or to abort
//! with a translated error. [`replay`] runs these decisions over a recorded
//! sequence of receives.

use vstd::prelude::*;
use vstd::string::*;
use aws_sdk_bedrockruntime::types::error::ConverseStreamOutputError;
use aws_sdk_bedrockruntime::types::ConverseStreamOutput;
use crate::boundary::{
    read_stream_output, read_stream_output_error, stream_event, stream_output_fault,
};
use crate::error::{
    reason_text, stream_output_placeholder, translated_with, BedrockConverseStreamError,
    ClientError, FaultView, ServiceFault,
};

verus! {

/// One event of a response stream, reduced to what the consumer reads.
#[derive(Debug, PartialEq, Eq)]
pub enum StreamEvent {
    /// A content delta, with its text if it carries text. A delta without a
    /// payload, or with a payload that is not text, carries none.
    TextDelta(Option<String>),
    /// Any other event.
    Other,
}

/// Mathematical model of a [`StreamEvent`].
pub enum EventView {
    TextDelta(Option<Seq<char>>),
    Other,
}

impl View for StreamEvent {
    type V = EventView;

    open spec fn view(&self) -> EventView {
        match *self {
            StreamEvent::TextDelta(text) => EventView::TextDelta(text.deep_view()),
            StreamEvent::Other => EventView::Other,
        }
    }
}

/// The text that an event contributes to the output: the text of a text
/// delta, and nothing for every other event.
pub open spec fn fragment_text(event: EventView) -> Seq<char> {
    match event {
        EventView::TextDelta(Some(text)) => text,
        _ => Seq::empty(),
    }
}

impl StreamEvent {
    /// The text that this event contributes to the output.
    pub fn fragment(&self) -> (text: String)
        ensures
            text@ == fragment_text(self@),
    {
        match self {
            StreamEvent::TextDelta(Some(text)) => text.clone(),
            _ => String::new(),
        }
    }
}

/// The text that a stream output contributes: the text of a text delta, and
/// the empty string for everything else. Never fails.
pub fn get_converse_output_text(output: ConverseStreamOutput) -> (result: Result<
    String,
    BedrockConverseStreamError,
>)
    ensures
        result is Ok,
        result->Ok_0@ == fragment_text(stream_event(output)),
{
    let event = read_stream_output(&output);
    Ok(event.fragment())
}

/// What one receive on the stream yielded.
#[derive(Debug, PartialEq, Eq)]
pub enum Received {
    /// An event arrived.
    Event(StreamEvent),
    /// The stream signalled completion.
    End,
    /// The receive failed, with the service's fault if the service reported
    /// one.
    Failure(Option<ServiceFault>),
}

/// Mathematical model of a [`Received`].
pub enum ReceivedView {
    Event(EventView),
    End,
    Failure(Option<FaultView>),
}

/// Model of an optional fault.
pub open spec fn fault_view(fault: Option<ServiceFault>) -> Option<FaultView> {
    match fault {
        Some(f) => Some(f@),
        None => None,
    }
}

impl View for Received {
    type V = ReceivedView;

    open spec fn view(&self) -> ReceivedView {
        match *self {
            Received::Event(event) => ReceivedView::Event(event@),
            Received::End => ReceivedView::End,
            Received::Failure(fault) => ReceivedView::Failure(fault_view(fault)),
        }
    }
}

impl Received {
    /// The receive that yielded `output`.
    pub fn event(output: &ConverseStreamOutput) -> (received: Received)
        ensures
            received@ == ReceivedView::Event(stream_event(*output)),
    {
        Received::Event(read_stream_output(output))
    }

    /// The receive that failed with `error`, where `error` is the
    /// service's error if the failure came from the service.
    pub fn failure(error: Option<&ConverseStreamOutputError>) -> (received: Received)
        ensures
            received@ == ReceivedView::Failure(
                match error {
                    Some(e) => Some(stream_output_fault(*e)),
                    None => None,
                },
            ),
    {
        match error {
            Some(e) => Received::Failure(Some(read_stream_output_error(e))),
            None => Received::Failure(None),
        }
    }
}

/// What the consumer does after a receive.
#[derive(Debug, PartialEq, Eq)]
pub enum Action {
    /// Emit the text, then receive again.
    Emit(String),
    /// Stop: the stream is complete.
    Finish,
    /// Stop: the stream failed.
    Abort(BedrockConverseStreamError),
}

/// Mathematical model of an [`Action`].
pub enum ActionView {
    Emit(Seq<char>),
    Finish,
    Abort(Seq<char>),
}

impl View for Action {
    type V = ActionView;

    open spec fn view(&self) -> ActionView {
        match *self {
            Action::Emit(text) => ActionView::Emit(text@),
            Action::Finish => ActionView::Finish,
            Action::Abort(error) => ActionView::Abort(error@),
        }
    }
}

/// The reason given for a failed receive: the translated fault where the
/// service reported one, with [`stream_output_placeholder`] for a fault
/// that has neither a name in the table nor a message; and a fixed text
/// where the service reported none.
pub open spec fn failure_text(fault: Option<FaultView>) -> Seq<char> {
    match fault {
        Some(f) => reason_text(translated_with(f, stream_output_placeholder())),
        None => "Unknown error receiving stream"@,
    }
}

/// The decision table of the consumer.
pub open spec fn action_for(received: ReceivedView) -> ActionView {
    match received {
        ReceivedView::Event(event) => ActionView::Emit(fragment_text(event)),
        ReceivedView::End => ActionView::Finish,
        ReceivedView::Failure(fault) => ActionView::Abort(failure_text(fault)),
    }
}

/// Decides what to do after a receive, by the table [`action_for`].
pub fn next_action(received: &Received) -> (action: Action)
    ensures
        action@ == action_for(received@),
{
    match received {
        Received::Event(event) => Action::Emit(event.fragment()),
        Received::End => Action::Finish,
        Received::Failure(Some(fault)) => Action::Abort(
            BedrockConverseStreamError::from(ClientError::translate_on_stream(fault)),
        ),
        Received::Failure(None) => Action::Abort(
            BedrockConverseStreamError::from("Unknown error receiving stream"),
        ),
    }
}

/// How a consumed stream ended.
#[derive(Debug, PartialEq, Eq)]
pub enum Outcome {
    /// The recorded receives ran out before the stream ended.
    Open,
    /// The stream completed.
    Finished,
    /// The stream failed.
    Failed(BedrockConverseStreamError),
}

/// Mathematical model of an [`Outcome`].
pub enum OutcomeView {
    Open,
    Finished,
    Failed(Seq<char>),
}

impl View for Outcome {
    type V = OutcomeView;

    open spec fn view(&self) -> OutcomeView {
        match *self {
            Outcome::Open => OutcomeView::Open,
            Outcome::Finished => OutcomeView::Finished,
            Outcome::Failed(error) => OutcomeView::Failed(error@),
        }
    }
}

/// What a consumer emitted, and how it ended.
#[derive(Debug, PartialEq, Eq)]
pub struct Transcript {
    /// The fragments in the order in which they were emitted.
    pub fragments: Vec<String>,
    pub outcome: Outcome,
}

impl Transcript {
    /// The text that was put out: the fragments one after the other, with
    /// nothing between them.
    pub fn text(&self) -> (text: String)
        ensures
            text@ == self.fragments.deep_view().flatten(),
    {
        let ghost parts = self.fragments.deep_view();
        let mut text = String::new();
        let mut i: usize = 0;
        while i < self.fragments.len()
            invariant
                i <= self.fragments.len(),
                parts == self.fragments.deep_view(),
                text@ == parts.take(i as int).flatten(),
            decreases self.fragments.len() - i,
        {
            proof {
                assert(parts.take(i as int + 1) =~= parts.take(i as int).push(parts[i as int]));
                parts.take(i as int).lemma_flatten_push(parts[i as int]);
            }
            text.append(self.fragments[i].as_str());
            i = i + 1;
        }
        assert(parts.take(i as int) =~= parts);
        text
    }
}

/// Model of a sequence of receives.
pub open spec fn received_views(items: Seq<Received>) -> Seq<ReceivedView> {
    Seq::new(items.len(), |i: int| items[i]@)
}

/// The number of events at the head of `items`: the receives that come
/// before the first end or failure.
pub open spec fn leading_events(items: Seq<ReceivedView>) -> nat
    decreases items.len(),
{
    if items.len() > 0 && items[0] is Event {
        1 + leading_events(items.drop_first())
    } else {
        0
    }
}

/// The fragments that a consumer emits on `items`: one for each leading
/// event, in the order of arrival.
pub open spec fn emitted(items: Seq<ReceivedView>) -> Seq<Seq<char>> {
    Seq::new(leading_events(items), |i: int| fragment_text(items[i]->Event_0))
}

/// How a consumer ends on `items`: with the first receive that is not an
/// event, or still open if there is none.
pub open spec fn outcome_of(items: Seq<ReceivedView>) -> OutcomeView {
    let n = leading_events(items) as int;
    if n >= items.len() {
        OutcomeView::Open
    } else {
        match items[n] {
            ReceivedView::Failure(fault) => OutcomeView::Failed(failure_text(fault)),
            _ => OutcomeView::Finished,
        }
    }
}

/// The text that a consumer has put out on `items`: the emitted fragments
/// one after the other, with nothing between them.
pub open spec fn emitted_text(items: Seq<ReceivedView>) -> Seq<char> {
    emitted(items).flatten()
}

/// `leading_events` counts exactly the events before the first receive
/// that is not one.
pub proof fn lemma_leading_events(items: Seq<ReceivedView>, n: int)
    requires
        0 <= n <= items.len(),
        forall|i: int| 0 <= i < n ==> items[i] is Event,
        n < items.len() ==> !(items[n] is Event),
    ensures
        leading_events(items) == n,
    decreases items.len(),
{
    if n > 0 {
        let rest = items.drop_first();
        assert forall|i: int| 0 <= i < n - 1 implies rest[i] is Event by {
            assert(rest[i] == items[i + 1]);
        }
        if n - 1 < rest.len() {
            assert(rest[n - 1] == items[n]);
        }
        lemma_leading_events(rest, n - 1);
    }
}

/// Runs the consumer over recorded receives: emits the fragment of each
/// event until the first end or failure, and reports how the stream ended.
/// Receives after the first end or failure are never looked at.
pub fn replay(items: &Vec<Received>) -> (transcript: Transcript)
    ensures
        transcript.fragments.len() == leading_events(received_views(items@)),
        transcript.fragments.deep_view() == emitted(received_views(items@)),
        transcript.outcome@ == outcome_of(received_views(items@)),
{
    let ghost views = received_views(items@);
    let mut fragments: Vec<String> = Vec::new();
    let mut outcome = Outcome::Open;
    let mut i: usize = 0;
    while i < items.len()
        invariant_except_break
            outcome is Open,
        invariant
            i <= items.len(),
            views == received_views(items@),
            fragments.len() == i,
            forall|j: int| 0 <= j < i ==> views[j] is Event,
            forall|j: int| 0 <= j < i ==> fragments[j]@ == fragment_text(views[j]->Event_0),
        ensures
            i <= items.len(),
            fragments.len() == i,
            forall|j: int| 0 <= j < i ==> views[j] is Event,
            forall|j: int| 0 <= j < i ==> fragments[j]@ == fragment_text(views[j]->Event_0),
            i < items.len() ==> !(views[i as int] is Event),
            outcome@ == if i < items.len() {
                match views[i as int] {
                    ReceivedView::Failure(fault) => OutcomeView::Failed(failure_text(fault)),
                    _ => OutcomeView::Finished,
                }
            } else {
                OutcomeView::Open
            },
        decreases items.len() - i,
    {
        assert(views[i as int] == items@[i as int]@);
        match next_action(&items[i]) {
            Action::Emit(text) => {
                fragments.push(text);
                i = i + 1;
            },
            Action::Finish => {
                outcome = Outcome::Finished;
                break ;
            },
            Action::Abort(error) => {
                outcome = Outcome::Failed(error);
                break ;
            },
        }
    }
    proof {
        lemma_leading_events(views, i as int);
        assert(fragments.deep_view() =~= emitted(views));
    }
    Transcript { fragments, outcome }
}

/// The receives that `leading_events` counts are events, and the receive
/// after them, if there is one, is not.
pub proof fn lemma_leading_events_stop(items: Seq<ReceivedView>)
    ensures
        leading_events(items) <= items.len(),
        forall|i: int| 0 <= i < leading_events(items) ==> items[i] is Event,
        leading_events(items) < items.len() ==> !(items[leading_events(items) as int] is Event),
    decreases items.len(),
{
    if items.len() > 0 && items[0] is Event {
        let rest = items.drop_first();
        lemma_leading_events_stop(rest);
        assert forall|i: int| 0 <= i < leading_events(items) implies items[i] is Event by {
            if i > 0 {
                assert(items[i] == rest[i - 1]);
            }
        }
        if leading_events(items) < items.len() {
            assert(items[leading_events(items) as int] == rest[leading_events(rest) as int]);
        }
    }
}

/// A consumer that takes the action of [`action_for`] after every receive
/// emits exactly the fragments of [`emitted`], one per receive and in the
/// order of arrival, and then stops as [`outcome_of`] says: every leading
/// event makes it emit and go on, and the first receive that is not an event
/// makes it finish or abort.
pub proof fn lemma_consumer_follows_actions(items: Seq<ReceivedView>)
    ensures
        leading_events(items) <= items.len(),
        emitted(items).len() == leading_events(items),
        forall|i: int|
            0 <= i < leading_events(items) ==> action_for(items[i]) == ActionView::Emit(
                #[trigger] emitted(items)[i],
            ),
        leading_events(items) == items.len() ==> outcome_of(items) == OutcomeView::Open,
        leading_events(items) < items.len() ==> match action_for(
            items[leading_events(items) as int],
        ) {
            ActionView::Emit(_) => false,
            ActionView::Finish => outcome_of(items) == OutcomeView::Finished,
            ActionView::Abort(reason) => outcome_of(items) == OutcomeView::Failed(reason),
        },
{
    lemma_leading_events_stop(items);
}

/// The receives of a stream that delivers `events` and then stops with
/// `last`.
pub open spec fn events_then(events: Seq<EventView>, last: ReceivedView) -> Seq<ReceivedView> {
    Seq::new(events.len(), |i: int| ReceivedView::Event(events[i])).push(last)
}

/// On a stream that delivers events and then ends or fails, the consumer
/// emits the fragment of each event, in the order of arrival, and nothing
/// else; it finishes where the stream ended and fails with the translated
/// reason where the stream failed. Whatever is recorded after the stop has
/// no effect.
pub proof fn lemma_events_then_stop(
    events: Seq<EventView>,
    last: ReceivedView,
    rest: Seq<ReceivedView>,
)
    requires
        !(last is Event),
    ensures
        emitted(events_then(events, last) + rest) == Seq::new(
            events.len(),
            |i: int| fragment_text(events[i]),
        ),
        outcome_of(events_then(events, last) + rest) == match last {
            ReceivedView::Failure(fault) => OutcomeView::Failed(failure_text(fault)),
            _ => OutcomeView::Finished,
        },
{
    let items = events_then(events, last) + rest;
    let n = events.len() as int;
    assert forall|i: int| 0 <= i < n implies items[i] is Event by {
        assert(items[i] == ReceivedView::Event(events[i]));
    }
    assert(items[n] == last);
    lemma_leading_events(items, n);
    assert forall|i: int| 0 <= i < n implies #[trigger] emitted(items)[i] == fragment_text(
        events[i],
    ) by {
        assert(items[i] == ReceivedView::Event(events[i]));
    }
    assert(emitted(items) =~= Seq::new(events.len(), |i: int| fragment_text(events[i])));
}

/// A stream that fails before it delivers any event: the consumer emits
/// nothing, so that no text is put out, and fails with the translated
/// reason.
pub proof fn lemma_failure_before_any_event(fault: Option<FaultView>, rest: Seq<ReceivedView>)
    ensures
        emitted(seq![ReceivedView::Failure(fault)] + rest) == Seq::<Seq<char>>::empty(),
        emitted_text(seq![ReceivedView::Failure(fault)] + rest) == Seq::<char>::empty(),
        outcome_of(seq![ReceivedView::Failure(fault)] + rest) == OutcomeView::Failed(
            failure_text(fault),
        ),
{
    let last = ReceivedView::Failure(fault);
    lemma_events_then_stop(Seq::empty(), last, rest);
    assert(events_then(Seq::empty(), last) =~= seq![last]);
    assert(emitted(seq![last] + rest) =~= Seq::<Seq<char>>::empty());
}

/// A text delta without text is no error: the consumer emits the empty
/// string and goes on.
pub proof fn lemma_delta_without_text()
    ensures
        action_for(ReceivedView::Event(EventView::TextDelta(None))) == ActionView::Emit(
            Seq::empty(),
        ),
{
}

} // verus!
