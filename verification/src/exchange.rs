//! One exchange with the service, as a sequence of decisions.
//!
//! The caller does the work on the network. It begins with [`begin`], does
//! what the returned [`Action`] asks, reports what happened as an [`Event`]
//! to [`step`], and goes on until an action ends the exchange.

use vstd::prelude::*;
use crate::error::{ClientError, ClientErrorView, ErrorKind};
use crate::report::{Report, ReportView};
use crate::request::{
    address_text, fixed_parameters, request_outcome, request_url, sendable, url_with_params,
};

verus! {

/// How far an exchange has come.
#[derive(Clone, Copy, Debug, PartialEq, Eq, Structural)]
pub enum Stage {
    /// The request is under way and no status has arrived.
    AwaitingStatus,
    /// The status was 200, and the body is being decoded as a report.
    AwaitingReport,
    /// The status was not 200, and the body is being read as text.
    AwaitingMessage,
    /// The exchange is over.
    Closed,
}

/// What the caller reports back.
#[derive(Clone, Debug, PartialEq, Eq)]
pub enum Event {
    /// A response arrived, with this status.
    Status(u16),
    /// The body was decoded as this report.
    Report(Report),
    /// The body is no report; the text says why.
    Malformed(String),
    /// The body was read as this text.
    Message(String),
    /// The transport failed; the text says how.
    Failed(String),
}

/// What the caller is to do next.
#[derive(Clone, Debug, PartialEq, Eq)]
pub enum Action {
    /// Send a GET request to this URL, and report the status of the response.
    Get(String),
    /// Decode the body of the response as a report.
    DecodeReport,
    /// Read the body of the response as text.
    ReadMessage,
    /// The exchange is over, and this is the report.
    Deliver(Report),
    /// The exchange is over, and this is why there is no report.
    Fail(ClientError),
    /// Nothing: the event answered nothing that was asked.
    Nothing,
}

/// An event as a mathematical value.
pub ghost enum EventView {
    Status(int),
    Report(ReportView),
    Malformed(Seq<char>),
    Message(Seq<char>),
    Failed(Seq<char>),
}

/// An action as a mathematical value.
pub ghost enum ActionView {
    Get(Seq<char>),
    DecodeReport,
    ReadMessage,
    Deliver(ReportView),
    Fail(ClientErrorView),
    Nothing,
}

impl View for Event {
    type V = EventView;

    open spec fn view(&self) -> EventView {
        match self {
            Event::Status(status) => EventView::Status(*status as int),
            Event::Report(report) => EventView::Report(report@),
            Event::Malformed(reason) => EventView::Malformed(reason@),
            Event::Message(text) => EventView::Message(text@),
            Event::Failed(reason) => EventView::Failed(reason@),
        }
    }
}

impl View for Action {
    type V = ActionView;

    open spec fn view(&self) -> ActionView {
        match self {
            Action::Get(url) => ActionView::Get(url@),
            Action::DecodeReport => ActionView::DecodeReport,
            Action::ReadMessage => ActionView::ReadMessage,
            Action::Deliver(report) => ActionView::Deliver(report@),
            Action::Fail(error) => ActionView::Fail(error@),
            Action::Nothing => ActionView::Nothing,
        }
    }
}

/// A failure of the given kind and text, as an action.
pub open spec fn fail(kind: ErrorKind, message: Seq<char>) -> ActionView {
    ActionView::Fail(ClientErrorView { kind, message })
}

/// The first stage and action of an exchange, given what became of the
/// request's address.
pub open spec fn first(parsed: Result<Seq<char>, Seq<char>>) -> (Stage, ActionView) {
    match request_outcome(parsed) {
        Ok(url) => (Stage::AwaitingStatus, ActionView::Get(url)),
        Err(error) => (Stage::Closed, ActionView::Fail(error)),
    }
}

/// The stage that follows `stage` on `event`, and the action to take.
///
/// A transport failure ends an exchange at any stage. A status of 200 calls
/// for the body to be decoded, any other status for it to be read as text. A
/// decoded report is delivered; a body that is no report, or the body that
/// came with another status, ends the exchange in a failure that carries the
/// text. An event that answers nothing that was asked changes nothing.
pub open spec fn next(stage: Stage, event: EventView) -> (Stage, ActionView) {
    match (stage, event) {
        (Stage::Closed, _) => (Stage::Closed, ActionView::Nothing),
        (_, EventView::Failed(reason)) => (Stage::Closed, fail(ErrorKind::Transport, reason)),
        (Stage::AwaitingStatus, EventView::Status(status)) => if status == 200 {
            (Stage::AwaitingReport, ActionView::DecodeReport)
        } else {
            (Stage::AwaitingMessage, ActionView::ReadMessage)
        },
        (Stage::AwaitingReport, EventView::Report(report)) => (
            Stage::Closed,
            ActionView::Deliver(report),
        ),
        (Stage::AwaitingReport, EventView::Malformed(reason)) => (
            Stage::Closed,
            fail(ErrorKind::Decode, reason),
        ),
        (Stage::AwaitingMessage, EventView::Message(text)) => (
            Stage::Closed,
            fail(ErrorKind::Api, text),
        ),
        _ => (stage, ActionView::Nothing),
    }
}

/// The stage that is reached from `stage` by a sequence of events, and the
/// actions that were asked for on the way, one for each event.
pub open spec fn run(stage: Stage, events: Seq<EventView>) -> (Stage, Seq<ActionView>)
    decreases events.len(),
{
    if events.len() == 0 {
        (stage, Seq::<ActionView>::empty())
    } else {
        let before = run(stage, events.drop_last());
        let last = next(before.0, events.last());
        (last.0, before.1.push(last.1))
    }
}

/// Whether an action ends the exchange.
pub open spec fn is_final(action: ActionView) -> bool {
    action is Deliver || action is Fail
}

/// A response with status 200 whose body decodes ends the exchange with the
/// decoded report, unchanged.
pub proof fn lemma_decoded_report_is_delivered(report: ReportView)
    ensures
        run(
            Stage::AwaitingStatus,
            seq![EventView::Status(200), EventView::Report(report)],
        ) == (Stage::Closed, seq![ActionView::DecodeReport, ActionView::Deliver(report)]),
{
    let events = seq![EventView::Status(200), EventView::Report(report)];
    lemma_run_two(Stage::AwaitingStatus, events[0], events[1]);
    assert(events =~= seq![events[0], events[1]]);
}

/// A response with a status other than 200 ends the exchange in a failure
/// whose message is the body of the response, unchanged.
pub proof fn lemma_other_status_fails_with_body(status: int, body: Seq<char>)
    requires
        status != 200,
    ensures
        run(
            Stage::AwaitingStatus,
            seq![EventView::Status(status), EventView::Message(body)],
        ) == (Stage::Closed, seq![ActionView::ReadMessage, fail(ErrorKind::Api, body)]),
{
    let events = seq![EventView::Status(status), EventView::Message(body)];
    lemma_run_two(Stage::AwaitingStatus, events[0], events[1]);
    assert(events =~= seq![events[0], events[1]]);
}

/// A response with status 200 whose body is no report ends the exchange in a
/// decode failure.
pub proof fn lemma_malformed_body_fails(reason: Seq<char>)
    ensures
        run(
            Stage::AwaitingStatus,
            seq![EventView::Status(200), EventView::Malformed(reason)],
        ) == (Stage::Closed, seq![ActionView::DecodeReport, fail(ErrorKind::Decode, reason)]),
{
    let events = seq![EventView::Status(200), EventView::Malformed(reason)];
    lemma_run_two(Stage::AwaitingStatus, events[0], events[1]);
    assert(events =~= seq![events[0], events[1]]);
}

/// A transport failure ends an exchange that is not over, at whatever stage,
/// in a transport failure.
pub proof fn lemma_transport_failure_ends(stage: Stage, reason: Seq<char>)
    requires
        stage != Stage::Closed,
    ensures
        next(stage, EventView::Failed(reason)) == (
            Stage::Closed,
            fail(ErrorKind::Transport, reason),
        ),
{
}

/// An action ends the exchange exactly when it closes it: the stage after a
/// final action is `Closed`, and an exchange closes in no other way.
pub proof fn lemma_final_action_closes(stage: Stage, event: EventView)
    requires
        stage != Stage::Closed,
    ensures
        is_final(next(stage, event).1) <==> next(stage, event).0 == Stage::Closed,
{
}

/// No exchange has two outcomes: of the actions asked for in a run, at most
/// one is final, and after it every action is `Nothing`.
pub proof fn lemma_one_outcome(stage: Stage, events: Seq<EventView>, i: int, j: int)
    requires
        0 <= i < j < events.len(),
        is_final(run(stage, events).1[i]),
    ensures
        run(stage, events).1.len() == events.len(),
        run(stage, events).1[j] == ActionView::Nothing,
{
    let actions = run(stage, events).1;
    // The action at `i` is the one that the event at `i` brought about.
    let to_i = events.take(i + 1);
    let before_i = run(stage, events.take(i));
    assert(to_i.drop_last() =~= events.take(i));
    assert(to_i.last() == events[i]);
    lemma_run_prefix(stage, events, i);
    lemma_run_prefix(stage, events, i + 1);
    assert(before_i.1.len() == i);
    assert(run(stage, to_i).1[i] == next(before_i.0, events[i]).1);
    assert(actions.take(i + 1)[i] == actions[i]);
    // Being final, it closed the exchange.
    if before_i.0 != Stage::Closed {
        lemma_final_action_closes(before_i.0, events[i]);
    }
    assert(run(stage, to_i).0 == Stage::Closed);
    // So the event at `j` found it closed.
    lemma_closed_stays(stage, events, i + 1, j);
    let to_j = events.take(j + 1);
    let before_j = run(stage, events.take(j));
    assert(to_j.drop_last() =~= events.take(j));
    assert(to_j.last() == events[j]);
    lemma_run_prefix(stage, events, j);
    lemma_run_prefix(stage, events, j + 1);
    assert(before_j.1.len() == j);
    assert(run(stage, to_j).1[j] == next(before_j.0, events[j]).1);
    assert(actions.take(j + 1)[j] == actions[j]);
}

/// The actions of a run are as many as its events, and the run over the
/// first `n` events asks for the first `n` of them.
proof fn lemma_run_prefix(stage: Stage, events: Seq<EventView>, n: int)
    requires
        0 <= n <= events.len(),
    ensures
        run(stage, events).1.len() == events.len(),
        run(stage, events.take(n)).1 == run(stage, events).1.take(n),
    decreases events.len(),
{
    if events.len() == 0 {
        assert(events.take(n) =~= events);
        assert(run(stage, events).1.take(n) =~= run(stage, events).1);
    } else if n == events.len() {
        lemma_run_prefix(stage, events.drop_last(), n - 1);
        assert(events.take(n) =~= events);
        assert(run(stage, events).1.take(n) =~= run(stage, events).1);
    } else {
        lemma_run_prefix(stage, events.drop_last(), n);
        assert(events.drop_last().take(n) =~= events.take(n));
        assert(run(stage, events).1.take(n) =~= run(stage, events.drop_last()).1.take(n));
    }
}

/// Once closed, an exchange stays closed.
proof fn lemma_closed_stays(stage: Stage, events: Seq<EventView>, m: int, n: int)
    requires
        0 <= m <= n <= events.len(),
        run(stage, events.take(m)).0 == Stage::Closed,
    ensures
        run(stage, events.take(n)).0 == Stage::Closed,
    decreases n - m,
{
    if m < n {
        lemma_closed_stays(stage, events, m, n - 1);
        assert(events.take(n).drop_last() =~= events.take(n - 1));
    }
}

/// The run over two events, spelled out.
proof fn lemma_run_two(stage: Stage, a: EventView, b: EventView)
    ensures
        run(stage, seq![a, b]) == (
            next(next(stage, a).0, b).0,
            seq![next(stage, a).1, next(next(stage, a).0, b).1],
        ),
{
    let both = seq![a, b];
    let one = seq![a];
    assert(both.drop_last() =~= one);
    assert(one.drop_last() =~= Seq::<EventView>::empty());
    assert(run(stage, one.drop_last()) == (stage, Seq::<ActionView>::empty()));
    assert(run(stage, one) == (next(stage, a).0, Seq::<ActionView>::empty().push(next(stage, a).1)));
    assert(run(stage, both).1 =~= seq![next(stage, a).1, next(next(stage, a).0, b).1]);
}

/// Begins an exchange for the current weather of `city`, asked with `key`.
pub fn begin(city: &str, key: &str) -> (r: (Stage, Action))
    requires
        sendable(city@, key@),
    ensures
        (r.0, r.1@) == first(url_with_params(address_text(city@, key@), fixed_parameters())),
{
    match request_url(city, key) {
        Ok(url) => (Stage::AwaitingStatus, Action::Get(url)),
        Err(error) => (Stage::Closed, Action::Fail(error)),
    }
}

/// Takes an exchange one step further.
pub fn step(stage: Stage, event: Event) -> (r: (Stage, Action))
    ensures
        (r.0, r.1@) == next(stage, event@),
{
    match stage {
        Stage::Closed => (Stage::Closed, Action::Nothing),
        Stage::AwaitingStatus => match event {
            Event::Failed(reason) => (
                Stage::Closed,
                Action::Fail(ClientError::new(ErrorKind::Transport, reason)),
            ),
            Event::Status(status) => if status == 200 {
                (Stage::AwaitingReport, Action::DecodeReport)
            } else {
                (Stage::AwaitingMessage, Action::ReadMessage)
            },
            _ => (stage, Action::Nothing),
        },
        Stage::AwaitingReport => match event {
            Event::Failed(reason) => (
                Stage::Closed,
                Action::Fail(ClientError::new(ErrorKind::Transport, reason)),
            ),
            Event::Report(report) => (Stage::Closed, Action::Deliver(report)),
            Event::Malformed(reason) => (
                Stage::Closed,
                Action::Fail(ClientError::new(ErrorKind::Decode, reason)),
            ),
            _ => (stage, Action::Nothing),
        },
        Stage::AwaitingMessage => match event {
            Event::Failed(reason) => (
                Stage::Closed,
                Action::Fail(ClientError::new(ErrorKind::Transport, reason)),
            ),
            Event::Message(text) => (
                Stage::Closed,
                Action::Fail(ClientError::new(ErrorKind::Api, text)),
            ),
            _ => (stage, Action::Nothing),
        },
    }
}

} // verus!
