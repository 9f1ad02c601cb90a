//! Ingestion: what happens to the history store and to the broadcaster for
//! each line of the feed, and the state machine of the upstream connection.

use vstd::prelude::*;

use crate::broadcast::{initial, publish_all, published, CellView, LatestValue};
use crate::history::{newest, HistoryBuffer};
use crate::point::{PointView, TrackPoint};

verus! {

/// The two shared stores, as the ingestion loop sees them: the history with
/// its limit, and the broadcaster's cell.
pub struct HubView {
    pub history: Seq<PointView>,
    pub limit: nat,
    pub cell: CellView,
}

/// The two stores taken together.
pub open spec fn hub(history: &HistoryBuffer, latest: &LatestValue) -> HubView {
    HubView { history: history@, limit: history.limit(), cell: latest@ }
}

/// The stores before anything is ingested.
pub open spec fn fresh(limit: nat) -> HubView {
    HubView { history: Seq::<PointView>::empty(), limit, cell: initial() }
}

/// The stores after one line has been dealt with. A line that yields a
/// point appends it to the history and publishes it; a line that yields
/// none changes nothing.
pub open spec fn ingested(hub: HubView, point: Option<PointView>) -> HubView {
    match point {
        Some(p) => HubView {
            history: newest(hub.history.push(p), hub.limit),
            limit: hub.limit,
            cell: published(hub.cell, p),
        },
        None => hub,
    }
}

/// The stores after the lines of a feed have been dealt with in order,
/// each given as the point it yields, if any.
pub open spec fn ingested_all(hub: HubView, lines: Seq<Option<PointView>>) -> HubView
    decreases lines.len(),
{
    if lines.len() == 0 {
        hub
    } else {
        ingested(ingested_all(hub, lines.drop_last()), lines.last())
    }
}

/// The points that the lines of a feed yield, in order.
pub open spec fn yielded(lines: Seq<Option<PointView>>) -> Seq<PointView>
    decreases lines.len(),
{
    if lines.len() == 0 {
        Seq::<PointView>::empty()
    } else {
        match lines.last() {
            Some(p) => yielded(lines.drop_last()).push(p),
            None => yielded(lines.drop_last()),
        }
    }
}

/// What a point says, where there is one.
pub open spec fn point_view(point: Option<TrackPoint>) -> Option<PointView> {
    match point {
        Some(p) => Some(p@),
        None => None,
    }
}

/// Deals with what one line of the feed yielded. A point is appended to
/// the history and then published to the broadcaster, in that order;
/// without a point neither store changes. Returns whether there was a point.
pub fn ingest(
    history: &mut HistoryBuffer,
    latest: &mut LatestValue,
    point: Option<TrackPoint>,
) -> (accepted: bool)
    requires
        point is Some ==> old(latest)@.version < u64::MAX,
    ensures
        accepted == point is Some,
        hub(final(history), final(latest)) == ingested(
            hub(old(history), old(latest)),
            point_view(point),
        ),
{
    match point {
        Some(p) => {
            history.append(p.clone());
            latest.publish(p);
            true
        },
        None => false,
    }
}

/// Where the upstream connection stands.
#[derive(Clone, Copy, Debug, PartialEq, Eq, Structural)]
pub enum IngestState {
    /// The connection is being established.
    Connecting,
    /// Lines are being read.
    Streaming,
    /// Ingestion has ended for good.
    Stopped,
}

/// What the connection reports to the ingestion loop.
#[derive(Clone, Copy, Debug, PartialEq, Eq, Structural)]
pub enum IngestEvent {
    /// The connection was established.
    Connected,
    /// The connection could not be established.
    ConnectFailed,
    /// A line was read.
    LineRead,
    /// The stream ended in an orderly way.
    StreamEnded,
    /// Reading from the stream failed.
    ReadFailed,
}

/// Why ingestion ended.
#[derive(Clone, Copy, Debug, PartialEq, Eq, Structural)]
pub enum Fault {
    /// The connection could not be established.
    ConnectFailed,
    /// The stream ended.
    StreamEnded,
    /// Reading from the stream failed.
    ReadFailed,
}

/// What the ingestion loop does next.
#[derive(Clone, Copy, Debug, PartialEq, Eq, Structural)]
pub enum IngestAction {
    /// Read the first line.
    ReadLine,
    /// Run the line just read through the parser, ingest what it yields,
    /// and read the next line.
    IngestLine,
    /// Make the fault known and end the loop.
    Report(Fault),
    /// Nothing: the event does not belong to the state.
    Ignore,
}

/// The state that follows `state` on `event`, and what to do.
pub open spec fn ingest_step(state: IngestState, event: IngestEvent) -> (
    IngestState,
    IngestAction,
) {
    match (state, event) {
        (IngestState::Connecting, IngestEvent::Connected) => (
            IngestState::Streaming,
            IngestAction::ReadLine,
        ),
        (IngestState::Connecting, IngestEvent::ConnectFailed) => (
            IngestState::Stopped,
            IngestAction::Report(Fault::ConnectFailed),
        ),
        (IngestState::Streaming, IngestEvent::LineRead) => (
            IngestState::Streaming,
            IngestAction::IngestLine,
        ),
        (IngestState::Streaming, IngestEvent::StreamEnded) => (
            IngestState::Stopped,
            IngestAction::Report(Fault::StreamEnded),
        ),
        (IngestState::Streaming, IngestEvent::ReadFailed) => (
            IngestState::Stopped,
            IngestAction::Report(Fault::ReadFailed),
        ),
        _ => (state, IngestAction::Ignore),
    }
}

/// The state after the events of `events`, in order.
pub open spec fn ingest_run(state: IngestState, events: Seq<IngestEvent>) -> IngestState
    decreases events.len(),
{
    if events.len() == 0 {
        state
    } else {
        ingest_step(ingest_run(state, events.drop_last()), events.last()).0
    }
}

/// Moves the ingestion loop on by one event.
pub fn on_ingest_event(state: IngestState, event: IngestEvent) -> (next: (
    IngestState,
    IngestAction,
))
    ensures
        next == ingest_step(state, event),
{
    match state {
        IngestState::Connecting => match event {
            IngestEvent::Connected => (IngestState::Streaming, IngestAction::ReadLine),
            IngestEvent::ConnectFailed => (
                IngestState::Stopped,
                IngestAction::Report(Fault::ConnectFailed),
            ),
            _ => (state, IngestAction::Ignore),
        },
        IngestState::Streaming => match event {
            IngestEvent::LineRead => (IngestState::Streaming, IngestAction::IngestLine),
            IngestEvent::StreamEnded => (
                IngestState::Stopped,
                IngestAction::Report(Fault::StreamEnded),
            ),
            IngestEvent::ReadFailed => (
                IngestState::Stopped,
                IngestAction::Report(Fault::ReadFailed),
            ),
            _ => (state, IngestAction::Ignore),
        },
        IngestState::Stopped => (state, IngestAction::Ignore),
    }
}

/// Of a feed ingested into fresh stores: the history holds the newest of
/// the points that the lines yielded, the cell has been published each of
/// them in turn, and lines that yielded nothing have left no trace.
pub proof fn lemma_ingested_all(limit: nat, lines: Seq<Option<PointView>>)
    ensures
        ingested_all(fresh(limit), lines) == (HubView {
            history: newest(yielded(lines), limit),
            limit,
            cell: publish_all(initial(), yielded(lines)),
        }),
    decreases lines.len(),
{
    if lines.len() == 0 {
    } else {
        let earlier = lines.drop_last();
        lemma_ingested_all(limit, earlier);
        match lines.last() {
            Some(p) => {
                let sent = yielded(earlier);
                assert(yielded(lines).drop_last() =~= sent);
                assert(newest(newest(sent, limit).push(p), limit) =~= newest(sent.push(p), limit));
            },
            None => {},
        }
    }
}

/// History before broadcast: whenever the cell of stores that started
/// fresh holds a published point, and the history retains anything at all,
/// that point is the newest entry of the history.
pub proof fn lemma_latest_is_in_history(limit: nat, lines: Seq<Option<PointView>>)
    requires
        limit > 0,
    ensures
        ({
            let now = ingested_all(fresh(limit), lines);
            &&& now.cell.version == yielded(lines).len()
            &&& now.history.len() <= limit
            &&& now.cell.version > 0 ==> now.history.len() > 0 && now.history.last()
                == now.cell.value
        }),
{
    lemma_ingested_all(limit, lines);
    crate::broadcast::lemma_publish_all(initial(), yielded(lines));
}

/// Ingestion never goes back to connecting: once it streams or has stopped,
/// no sequence of events brings it to the connecting state again, and once
/// it has stopped it stays stopped.
pub proof fn lemma_no_reconnect(state: IngestState, events: Seq<IngestEvent>)
    ensures
        state != IngestState::Connecting ==> ingest_run(state, events) != IngestState::Connecting,
        state == IngestState::Stopped ==> ingest_run(state, events) == IngestState::Stopped,
    decreases events.len(),
{
    if events.len() > 0 {
        lemma_no_reconnect(state, events.drop_last());
    }
}

/// Ingestion never ends silently: the step that stops it reports a fault.
pub proof fn lemma_stop_is_reported(state: IngestState, event: IngestEvent)
    requires
        state != IngestState::Stopped,
        ingest_step(state, event).0 == IngestState::Stopped,
    ensures
        ingest_step(state, event).1 is Report,
{
}

/// A line that yields no point leaves both stores as they were, wherever
/// in the feed it stands.
pub proof fn lemma_pointless_line_changes_nothing(hub: HubView, lines: Seq<Option<PointView>>)
    ensures
        ingested(hub, None) == hub,
        ingested_all(hub, lines.push(None)) == ingested_all(hub, lines),
{
    assert(lines.push(None).drop_last() =~= lines);
}

} // verus!
