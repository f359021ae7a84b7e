//! What a duty cycle does, seen as a whole.
//!
//! The actions a cycle asks for form its trace. Whatever is reported, the
//! trace is a run of connector actions followed by the course of the
//! snapshot as far as the cycle has come: nothing reaches the broker before
//! the frame is on the panel, and a cycle that sleeps has closed its session,
//! released its link and armed the wake timer exactly once.

use vstd::prelude::*;
use crate::connector::{ConnectAction, ConnectEvent, ConnectionState};
use crate::cycle::{
    CycleAction,
    CycleEvent,
    CycleState,
    DutyCycleController,
    SleepSchedule,
    SLEEP_SECONDS,
};
use crate::display::{line_of, DisplayCommand, PresentStage};
use crate::network::{
    all_acknowledged,
    channel_hint_of,
    AccessPoint,
    IpSettings,
    LinkInfo,
    LinkStatus,
    PingSummary,
};
use crate::sensor::{Measurement, Quantity, SensorReader};
use crate::telemetry::{message_of, PublishAction, PublishStage};

verus! {

/// Every action of the trace is one of the connector's.
pub open spec fn all_network(trace: Seq<CycleAction>) -> bool {
    forall|i: int| 0 <= i < trace.len() ==> (#[trigger] trace[i]) is Network
}

/// No action of the trace goes to the broker.
pub open spec fn no_broker(trace: Seq<CycleAction>) -> bool {
    forall|i: int| 0 <= i < trace.len() ==> !((#[trigger] trace[i]) is Broker)
}

/// The two actions on the sensor.
pub open spec fn sensor_course() -> Seq<CycleAction> {
    seq![CycleAction::InitializeSensor, CycleAction::ReadSensor]
}

/// Everything a cycle does once the link stands, for the snapshot it reads:
/// sensor, display, broker, teardown and sleep, fourteen actions in all.
pub open spec fn course_of(measurement: Measurement) -> Seq<CycleAction> {
    seq![
        CycleAction::InitializeSensor,
        CycleAction::ReadSensor,
        CycleAction::Display(DisplayCommand::Clear),
        CycleAction::Display(DisplayCommand::Draw(line_of(measurement, Quantity::Temperature))),
        CycleAction::Display(DisplayCommand::Draw(line_of(measurement, Quantity::Humidity))),
        CycleAction::Display(DisplayCommand::Draw(line_of(measurement, Quantity::Pressure))),
        CycleAction::Display(DisplayCommand::Flush),
        CycleAction::Broker(PublishAction::Open),
        CycleAction::Broker(PublishAction::Send(message_of(measurement, Quantity::Temperature))),
        CycleAction::Broker(PublishAction::Send(message_of(measurement, Quantity::Humidity))),
        CycleAction::Broker(PublishAction::Send(message_of(measurement, Quantity::Pressure))),
        CycleAction::Broker(PublishAction::Close),
        CycleAction::ReleaseLink,
        CycleAction::Sleep(SleepSchedule { duration_secs: SLEEP_SECONDS }),
    ]
}

/// The trace is a run of connector actions followed by the first `count`
/// actions of `course`.
pub open spec fn follows(trace: Seq<CycleAction>, course: Seq<CycleAction>, count: nat) -> bool {
    &&& count <= trace.len()
    &&& count <= course.len()
    &&& all_network(trace.take(trace.len() - count))
    &&& trace.skip(trace.len() - count) == course.take(count as int)
}

/// The trace is a run of connector actions followed by the whole course of
/// `measurement`.
pub open spec fn ran_course(trace: Seq<CycleAction>, measurement: Measurement) -> bool {
    follows(trace, course_of(measurement), 14)
}

impl CycleState {
    /// How many actions of the course have been asked for when this state
    /// is reached.
    pub open spec fn position(self) -> nat {
        match self {
            CycleState::Sensing { reader, .. } => if reader.initialized {
                2
            } else {
                1
            },
            CycleState::Presenting { stage, .. } => match stage {
                PresentStage::Clearing => 3,
                PresentStage::Drawing(quantity) => 4 + quantity.rank(),
                PresentStage::Flushing => 7,
                _ => 0,
            },
            CycleState::Publishing { session, .. } => match session {
                PublishStage::Opening => 8,
                PublishStage::Sending(quantity) => 9 + quantity.rank(),
                PublishStage::Closing => 12,
                PublishStage::Closed => 13,
                PublishStage::Failed(_) => 0,
            },
            CycleState::Sleeping => 14,
            _ => 0,
        }
    }

    /// What the actions asked for so far look like in this state.
    ///
    /// Up to the link there are only connector actions. From then on the
    /// trace follows the course of the snapshot as far as the state has
    /// come, and nothing goes to the broker before the frame is on the
    /// panel. A cycle that sleeps has run the whole course. An aborted one
    /// ends with the abort, and went to the broker only if publishing is
    /// what failed.
    pub open spec fn on_course(self, trace: Seq<CycleAction>) -> bool {
        match self {
            CycleState::Init => trace.len() == 0,
            CycleState::Connecting { .. } => all_network(trace),
            CycleState::Sensing { .. } => {
                &&& no_broker(trace)
                &&& follows(trace, sensor_course(), self.position())
            },
            CycleState::Presenting { measurement, stage, .. } => {
                &&& no_broker(trace)
                &&& !stage.terminal()
                &&& follows(trace, course_of(measurement), self.position())
            },
            CycleState::Publishing { measurement, session, .. } => {
                &&& !(session is Failed)
                &&& follows(trace, course_of(measurement), self.position())
            },
            CycleState::Sleeping => exists|measurement: Measurement| #[trigger]
                ran_course(trace, measurement),
            CycleState::Aborted { reason } => {
                &&& trace.len() > 0
                &&& trace.last() == CycleAction::Abort(reason)
                &&& (reason is Publish || no_broker(trace))
            },
        }
    }
}

/// A trace of connector actions begins to follow a course with its first
/// action.
proof fn lemma_course_begins(trace: Seq<CycleAction>, course: Seq<CycleAction>, action: CycleAction)
    requires
        all_network(trace),
        course.len() > 0,
        action == course[0],
    ensures
        follows(trace.push(action), course, 1),
{
    let longer = trace.push(action);
    assert(longer.take(longer.len() - 1) == trace);
    assert(longer.skip(longer.len() - 1) == course.take(1));
}

/// A trace that follows a course goes on following it with the next action
/// of the course.
proof fn lemma_course_goes_on(
    trace: Seq<CycleAction>,
    course: Seq<CycleAction>,
    count: nat,
    action: CycleAction,
)
    requires
        follows(trace, course, count),
        count < course.len(),
        action == course[count as int],
    ensures
        follows(trace.push(action), course, count + 1),
{
    let longer = trace.push(action);
    assert(longer.take(longer.len() - (count + 1)) == trace.take(trace.len() - count));
    assert(longer.skip(longer.len() - (count + 1)) == trace.skip(trace.len() - count).push(action));
    assert(course.take(count as int).push(course[count as int]) == course.take(count as int + 1));
}

/// Adding an action that does not go to the broker keeps a trace free of
/// broker actions.
proof fn lemma_still_no_broker(trace: Seq<CycleAction>, action: CycleAction)
    requires
        no_broker(trace),
        !(action is Broker),
    ensures
        no_broker(trace.push(action)),
{
    let longer = trace.push(action);
    assert forall|i: int| 0 <= i < longer.len() implies !((#[trigger] longer[i]) is Broker) by {
        if i < trace.len() {
            assert(longer[i] == trace[i]);
        }
    }
}

/// The trace with the action that one step issued, if it issued one.
pub open spec fn extended(trace: Seq<CycleAction>, action: Option<CycleAction>) -> Seq<CycleAction> {
    match action {
        Some(action) => trace.push(action),
        None => trace,
    }
}

/// One step keeps the trace on course.
proof fn lemma_step_stays_on_course(
    controller: DutyCycleController,
    state: CycleState,
    event: CycleEvent,
    trace: Seq<CycleAction>,
)
    requires
        state.on_course(trace),
    ensures
        controller.next_state(state, event).on_course(
            extended(trace, controller.issued(state, event)),
        ),
{
    if state.accepts(event) {
        let next = controller.next_state(state, event);
        let action = next.pending()->Some_0;
        let longer = trace.push(action);
        match state {
            CycleState::Init => {
                assert forall|i: int| 0 <= i < longer.len() implies (#[trigger] longer[i]) is Network by {}
            },
            CycleState::Connecting { .. } => {
                assert(no_broker(trace));
                if next is Sensing {
                    lemma_course_begins(trace, sensor_course(), action);
                    lemma_still_no_broker(trace, action);
                } else if next is Aborted {
                    lemma_still_no_broker(trace, action);
                } else {
                    if next.pending() is Some {
                        assert forall|i: int| 0 <= i < longer.len() implies (
                        #[trigger] longer[i]) is Network by {
                            if i < trace.len() {
                                assert(longer[i] == trace[i]);
                            }
                        }
                    }
                }
            },
            CycleState::Sensing { .. } => {
                lemma_still_no_broker(trace, action);
                match next {
                    CycleState::Sensing { .. } => {
                        lemma_course_goes_on(trace, sensor_course(), 1, action);
                    },
                    CycleState::Presenting { measurement, .. } => {
                        assert(sensor_course().take(2) == course_of(measurement).take(2));
                        lemma_course_goes_on(trace, course_of(measurement), 2, action);
                    },
                    _ => {},
                }
            },
            CycleState::Presenting { measurement, .. } => {
                if next is Aborted {
                    lemma_still_no_broker(trace, action);
                } else {
                    lemma_course_goes_on(trace, course_of(measurement), state.position(), action);
                    if next is Presenting {
                        lemma_still_no_broker(trace, action);
                    }
                }
            },
            CycleState::Publishing { measurement, .. } => {
                if !(next is Aborted) {
                    lemma_course_goes_on(trace, course_of(measurement), state.position(), action);
                    if next is Sleeping {
                        assert(ran_course(longer, measurement));
                    }
                }
            },
            _ => {},
        }
    }
}

/// Whatever is reported, the actions of a cycle stay on course.
pub proof fn lemma_cycle_stays_on_course(controller: DutyCycleController, events: Seq<CycleEvent>)
    ensures
        controller.run_from(CycleState::Init, events).on_course(
            controller.trace_from(CycleState::Init, events),
        ),
    decreases events.len(),
{
    if events.len() > 0 {
        lemma_cycle_stays_on_course(controller, events.drop_last());
        lemma_step_stays_on_course(
            controller,
            controller.run_from(CycleState::Init, events.drop_last()),
            events.last(),
            controller.trace_from(CycleState::Init, events.drop_last()),
        );
    }
}

/// A finished cycle stays as it is: no event changes it or asks for
/// anything more.
pub proof fn lemma_finished_cycle_is_final(
    controller: DutyCycleController,
    state: CycleState,
    events: Seq<CycleEvent>,
)
    requires
        state.terminal(),
    ensures
        controller.run_from(state, events) == state,
        controller.trace_from(state, events) == Seq::<CycleAction>::empty(),
    decreases events.len(),
{
    if events.len() > 0 {
        lemma_finished_cycle_is_final(controller, state, events.drop_last());
    }
}

/// Running over `first` and then over `second` is running over both in a
/// row.
pub proof fn lemma_cycle_in_two_parts(
    controller: DutyCycleController,
    start: CycleState,
    first: Seq<CycleEvent>,
    second: Seq<CycleEvent>,
)
    ensures
        controller.run_from(start, first + second) == controller.run_from(
            controller.run_from(start, first),
            second,
        ),
        controller.trace_from(start, first + second) == controller.trace_from(start, first)
            + controller.trace_from(controller.run_from(start, first), second),
    decreases second.len(),
{
    if second.len() == 0 {
        assert(first + second == first);
    } else {
        assert((first + second).drop_last() == first + second.drop_last());
        assert((first + second).last() == second.last());
        lemma_cycle_in_two_parts(controller, start, first, second.drop_last());
    }
}

/// Nothing reaches the broker before the frame is on the panel: whatever
/// is reported, a trace holds a broker transaction only if the cycle is
/// publishing, has gone to sleep or was aborted by the broker.
pub proof fn lemma_broker_only_after_frame(controller: DutyCycleController, events: Seq<CycleEvent>)
    ensures
        ({
            let end = controller.run_from(CycleState::Init, events);
            ||| no_broker(controller.trace_from(CycleState::Init, events))
            ||| end is Publishing
            ||| end is Sleeping
            ||| end matches CycleState::Aborted { reason } && reason is Publish
        }),
{
    lemma_cycle_stays_on_course(controller, events);
}

/// A cycle that was aborted by anything but the broker never asked for a
/// broker transaction, and the abort is the last thing it asked for.
pub proof fn lemma_abort_before_publishing_spares_broker(
    controller: DutyCycleController,
    events: Seq<CycleEvent>,
)
    requires
        controller.run_from(CycleState::Init, events) matches CycleState::Aborted { reason }
            && !(reason is Publish),
    ensures
        no_broker(controller.trace_from(CycleState::Init, events)),
        controller.trace_from(CycleState::Init, events).len() > 0,
        controller.run_from(CycleState::Init, events) matches CycleState::Aborted { reason }
            && controller.trace_from(CycleState::Init, events).last() == CycleAction::Abort(reason),
{
    lemma_cycle_stays_on_course(controller, events);
}

/// `event` reports that the sensor gave a fault instead of what was asked
/// of it.
pub open spec fn sensor_fault(event: CycleEvent) -> bool {
    ||| event matches CycleEvent::SensorInitialized(Err(_))
    ||| event matches CycleEvent::SensorSampled(Err(_))
}

/// A fault of the sensor aborts the cycle before any call reaches the
/// broker: when the sensor stage gets a fault in answer to what it asked
/// for, the cycle is aborted with a sensor error and stays so whatever is
/// reported later, and its whole trace holds no broker transaction.
pub proof fn lemma_sensor_fault_publishes_nothing(
    controller: DutyCycleController,
    events: Seq<CycleEvent>,
    fault: CycleEvent,
    later: Seq<CycleEvent>,
)
    requires
        controller.run_from(CycleState::Init, events) is Sensing,
        controller.run_from(CycleState::Init, events).accepts(fault),
        sensor_fault(fault),
    ensures
        controller.run_from(CycleState::Init, events.push(fault) + later) matches CycleState::Aborted {
            reason,
        } && reason is Sensor,
        no_broker(controller.trace_from(CycleState::Init, events.push(fault) + later)),
{
    let upto = events.push(fault);
    assert(upto.drop_last() == events);
    let aborted = controller.run_from(CycleState::Init, upto);
    assert(aborted is Aborted);
    lemma_cycle_in_two_parts(controller, CycleState::Init, upto, later);
    lemma_finished_cycle_is_final(controller, aborted, later);
    lemma_abort_before_publishing_spares_broker(controller, upto + later);
}

/// A cycle that reached its sleep has run the whole course: after the
/// connector's actions it initialized and read the sensor, cleared, drew
/// and flushed the frame, opened the session, sent the three messages,
/// closed the session, released the link and armed the wake timer.
pub proof fn lemma_sleeping_cycle_ran_its_course(
    controller: DutyCycleController,
    events: Seq<CycleEvent>,
)
    requires
        controller.run_from(CycleState::Init, events) is Sleeping,
    ensures
        exists|measurement: Measurement| #[trigger]
            ran_course(controller.trace_from(CycleState::Init, events), measurement),
{
    lemma_cycle_stays_on_course(controller, events);
}

/// A cycle that reached its sleep armed the wake timer exactly once, as the
/// last thing it did and for 60 seconds, and left nothing open behind: the
/// one broker session it opened was closed, and the radio link released,
/// before the timer was armed.
pub proof fn lemma_sleeping_cycle_slept_once(controller: DutyCycleController, events: Seq<CycleEvent>)
    requires
        controller.run_from(CycleState::Init, events) is Sleeping,
    ensures
        ({
            let trace = controller.trace_from(CycleState::Init, events);
            let n = trace.len() as int;
            &&& n >= 14
            &&& trace[n - 1] == CycleAction::Sleep(SleepSchedule { duration_secs: 60 })
            &&& (SleepSchedule { duration_secs: 60 }).micros_of() == 60_000_000
            &&& trace[n - 2] == CycleAction::ReleaseLink
            &&& trace[n - 3] == CycleAction::Broker(PublishAction::Close)
            &&& trace[n - 7] == CycleAction::Broker(PublishAction::Open)
            &&& forall|i: int| 0 <= i < n && (#[trigger] trace[i]) is Sleep ==> i == n - 1
            &&& forall|i: int| 0 <= i < n && (#[trigger] trace[i]) is ReleaseLink ==> i == n - 2
            &&& forall|i: int|
                0 <= i < n && #[trigger] trace[i] == CycleAction::Broker(PublishAction::Open) ==> i
                    == n - 7
            &&& forall|i: int|
                0 <= i < n && #[trigger] trace[i] == CycleAction::Broker(PublishAction::Close)
                    ==> i == n - 3
        }),
{
    lemma_cycle_stays_on_course(controller, events);
    let trace = controller.trace_from(CycleState::Init, events);
    let n = trace.len() as int;
    let measurement = choose|measurement: Measurement| #[trigger] ran_course(trace, measurement);
    let course = course_of(measurement);
    let head = trace.take(n - 14);
    let rest = trace.skip(n - 14);
    assert(rest == course.take(14));
    assert forall|i: int| 0 <= i < n implies (if i < n - 14 {
        (#[trigger] trace[i]) is Network
    } else {
        trace[i] == course[i - (n - 14)]
    }) by {
        if i < n - 14 {
            assert(head[i] == trace[i]);
        } else {
            assert(rest[i - (n - 14)] == trace[i]);
            assert(course.take(14)[i - (n - 14)] == course[i - (n - 14)]);
        }
    }
    assert(trace[n - 1] == course[13]);
    assert(trace[n - 2] == course[12]);
    assert(trace[n - 3] == course[11]);
    assert(trace[n - 7] == course[7]);
}

/// What a cycle is told up to the link when the radio does its part at
/// once: the scan returns, the configuration is taken, the first poll shows
/// the status and the gateway answers.
pub open spec fn smooth_link_events(
    scan: Vec<AccessPoint>,
    status: LinkStatus,
    elapsed_ms: u64,
    summary: PingSummary,
) -> Seq<CycleEvent> {
    seq![
        CycleEvent::Wake,
        CycleEvent::Network(ConnectEvent::ScanCompleted(scan)),
        CycleEvent::Network(ConnectEvent::ConfigurationApplied),
        CycleEvent::Network(ConnectEvent::StatusPolled { status, elapsed_ms }),
        CycleEvent::Network(ConnectEvent::PingCompleted(summary)),
    ]
}

/// What a cycle is told from the link on when sensor, display and broker do
/// their part: the sensor initializes and gives the snapshot, five display
/// commands and five broker transactions go through, and the link is
/// released.
pub open spec fn smooth_course_events(measurement: Measurement) -> Seq<CycleEvent> {
    seq![
        CycleEvent::SensorInitialized(Ok(())),
        CycleEvent::SensorSampled(Ok(measurement)),
        CycleEvent::DisplayDone(true),
        CycleEvent::DisplayDone(true),
        CycleEvent::DisplayDone(true),
        CycleEvent::DisplayDone(true),
        CycleEvent::DisplayDone(true),
        CycleEvent::BrokerDone(true),
        CycleEvent::BrokerDone(true),
        CycleEvent::BrokerDone(true),
        CycleEvent::BrokerDone(true),
        CycleEvent::BrokerDone(true),
        CycleEvent::LinkReleased,
    ]
}

/// One more event, one more step.
proof fn lemma_one_more_event(
    controller: DutyCycleController,
    start: CycleState,
    events: Seq<CycleEvent>,
    count: int,
)
    requires
        0 < count <= events.len(),
    ensures
        controller.run_from(start, events.take(count)) == controller.next_state(
            controller.run_from(start, events.take(count - 1)),
            events[count - 1],
        ),
        controller.trace_from(start, events.take(count)) == extended(
            controller.trace_from(start, events.take(count - 1)),
            controller.issued(controller.run_from(start, events.take(count - 1)), events[count - 1]),
        ),
{
    assert(events.take(count).drop_last() == events.take(count - 1));
}

/// With the radio doing its part at once, the link stands after one scan,
/// one configuration, one poll and one ping burst, and the sensor is next.
proof fn lemma_smooth_link(
    controller: DutyCycleController,
    scan: Vec<AccessPoint>,
    status: LinkStatus,
    elapsed_ms: u64,
    summary: PingSummary,
)
    requires
        status.accepted() is Some,
        all_acknowledged(summary),
    ensures
        controller.run_from(CycleState::Init, smooth_link_events(scan, status, elapsed_ms, summary))
            == (CycleState::Sensing {
            link: LinkInfo {
                local_ip: status.accepted()->Some_0.ip,
                gateway_ip: status.accepted()->Some_0.gateway,
            },
            reader: SensorReader { initialized: false },
        }),
        controller.trace_from(CycleState::Init, smooth_link_events(scan, status, elapsed_ms, summary))
            == seq![
            CycleAction::Network(ConnectAction::Scan),
            CycleAction::Network(
                ConnectAction::Configure {
                    hint: channel_hint_of(scan@, controller.connector.credentials.ssid@),
                },
            ),
            CycleAction::Network(ConnectAction::PollStatus),
            CycleAction::Network(ConnectAction::Ping { gateway: status.accepted()->Some_0.gateway }),
            CycleAction::InitializeSensor,
        ],
{
    let events = smooth_link_events(scan, status, elapsed_ms, summary);
    let start = CycleState::Init;
    assert(events.take(0) == Seq::<CycleEvent>::empty());
    lemma_one_more_event(controller, start, events, 1);
    lemma_one_more_event(controller, start, events, 2);
    lemma_one_more_event(controller, start, events, 3);
    lemma_one_more_event(controller, start, events, 4);
    lemma_one_more_event(controller, start, events, 5);
    assert(events.take(5) == events);
}

/// From the sensor to the first display command.
proof fn lemma_smooth_sensing(controller: DutyCycleController, link: LinkInfo, measurement: Measurement)
    ensures
        controller.run_from(
            CycleState::Sensing { link, reader: SensorReader { initialized: false } },
            smooth_course_events(measurement).take(2),
        ) == (CycleState::Presenting { link, measurement, stage: PresentStage::Clearing }),
        controller.trace_from(
            CycleState::Sensing { link, reader: SensorReader { initialized: false } },
            smooth_course_events(measurement).take(2),
        ) == course_of(measurement).subrange(1, 3),
{
    let events = smooth_course_events(measurement).take(2);
    let start = CycleState::Sensing { link, reader: SensorReader { initialized: false } };
    assert(events.take(0) == Seq::<CycleEvent>::empty());
    lemma_one_more_event(controller, start, events, 1);
    lemma_one_more_event(controller, start, events, 2);
    assert(events.take(2) == events);
}

/// From the first display command to the opening of the session.
proof fn lemma_smooth_presenting(
    controller: DutyCycleController,
    link: LinkInfo,
    measurement: Measurement,
)
    ensures
        controller.run_from(
            CycleState::Presenting { link, measurement, stage: PresentStage::Clearing },
            smooth_course_events(measurement).subrange(2, 7),
        ) == (CycleState::Publishing { link, measurement, session: PublishStage::Opening }),
        controller.trace_from(
            CycleState::Presenting { link, measurement, stage: PresentStage::Clearing },
            smooth_course_events(measurement).subrange(2, 7),
        ) == course_of(measurement).subrange(3, 8),
{
    let events = smooth_course_events(measurement).subrange(2, 7);
    let start = CycleState::Presenting { link, measurement, stage: PresentStage::Clearing };
    assert(events.take(0) == Seq::<CycleEvent>::empty());
    lemma_one_more_event(controller, start, events, 1);
    lemma_one_more_event(controller, start, events, 2);
    lemma_one_more_event(controller, start, events, 3);
    lemma_one_more_event(controller, start, events, 4);
    lemma_one_more_event(controller, start, events, 5);
    assert(events.take(5) == events);
}

/// From the opening of the session to the sleep.
proof fn lemma_smooth_publishing(
    controller: DutyCycleController,
    link: LinkInfo,
    measurement: Measurement,
)
    ensures
        controller.run_from(
            CycleState::Publishing { link, measurement, session: PublishStage::Opening },
            smooth_course_events(measurement).subrange(7, 13),
        ) == CycleState::Sleeping,
        controller.trace_from(
            CycleState::Publishing { link, measurement, session: PublishStage::Opening },
            smooth_course_events(measurement).subrange(7, 13),
        ) == course_of(measurement).subrange(8, 14),
{
    let events = smooth_course_events(measurement).subrange(7, 13);
    let start = CycleState::Publishing { link, measurement, session: PublishStage::Opening };
    assert(events.take(0) == Seq::<CycleEvent>::empty());
    lemma_one_more_event(controller, start, events, 1);
    lemma_one_more_event(controller, start, events, 2);
    lemma_one_more_event(controller, start, events, 3);
    lemma_one_more_event(controller, start, events, 4);
    lemma_one_more_event(controller, start, events, 5);
    lemma_one_more_event(controller, start, events, 6);
    assert(events.take(6) == events);
}

/// With every collaborator succeeding, a cycle runs from wake-up to sleep:
/// it scans, configures, polls once and pings, then runs the whole course of
/// the snapshot, which ends with the one arming of the wake timer.
pub proof fn lemma_smooth_cycle_reaches_sleep(
    controller: DutyCycleController,
    scan: Vec<AccessPoint>,
    status: LinkStatus,
    elapsed_ms: u64,
    summary: PingSummary,
    measurement: Measurement,
)
    requires
        status.accepted() is Some,
        all_acknowledged(summary),
    ensures
        controller.run_from(
            CycleState::Init,
            smooth_link_events(scan, status, elapsed_ms, summary) + smooth_course_events(
                measurement,
            ),
        ) == CycleState::Sleeping,
        controller.trace_from(
            CycleState::Init,
            smooth_link_events(scan, status, elapsed_ms, summary) + smooth_course_events(
                measurement,
            ),
        ) == seq![
            CycleAction::Network(ConnectAction::Scan),
            CycleAction::Network(
                ConnectAction::Configure {
                    hint: channel_hint_of(scan@, controller.connector.credentials.ssid@),
                },
            ),
            CycleAction::Network(ConnectAction::PollStatus),
            CycleAction::Network(ConnectAction::Ping { gateway: status.accepted()->Some_0.gateway }),
        ] + course_of(measurement),
{
    let radio = smooth_link_events(scan, status, elapsed_ms, summary);
    let course = smooth_course_events(measurement);
    let settings = status.accepted()->Some_0;
    let link = LinkInfo { local_ip: settings.ip, gateway_ip: settings.gateway };
    let sensing = CycleState::Sensing { link, reader: SensorReader { initialized: false } };
    let presenting = CycleState::Presenting { link, measurement, stage: PresentStage::Clearing };
    let publishing = CycleState::Publishing { link, measurement, session: PublishStage::Opening };
    lemma_smooth_link(controller, scan, status, elapsed_ms, summary);
    lemma_smooth_sensing(controller, link, measurement);
    lemma_smooth_presenting(controller, link, measurement);
    lemma_smooth_publishing(controller, link, measurement);
    lemma_cycle_in_two_parts(controller, CycleState::Init, radio, course);
    assert(course == course.take(2) + course.subrange(2, 13));
    lemma_cycle_in_two_parts(controller, sensing, course.take(2), course.subrange(2, 13));
    assert(course.subrange(2, 13) == course.subrange(2, 7) + course.subrange(7, 13));
    lemma_cycle_in_two_parts(controller, presenting, course.subrange(2, 7), course.subrange(7, 13));
    let actions = course_of(measurement);
    assert(controller.trace_from(sensing, course) == actions.subrange(1, 3) + (actions.subrange(3, 8)
        + actions.subrange(8, 14)));
    assert(actions.subrange(1, 3) + (actions.subrange(3, 8) + actions.subrange(8, 14))
        == actions.subrange(1, 14));
    assert(controller.trace_from(CycleState::Init, radio).drop_last() + actions == controller.trace_from(
        CycleState::Init,
        radio,
    ) + actions.subrange(1, 14));
}

/// Event `i` reports a poll that showed the accepted status with these
/// settings.
pub open spec fn link_accepted_at(events: Seq<CycleEvent>, i: int, settings: IpSettings) -> bool {
    &&& 0 <= i < events.len()
    &&& events[i] matches CycleEvent::Network(ConnectEvent::StatusPolled { status, .. })
    &&& status.accepted() == Some(settings)
}

/// Event `j` reports a ping burst of which every probe was acknowledged.
pub open spec fn gateway_answered_at(events: Seq<CycleEvent>, j: int) -> bool {
    &&& 0 <= j < events.len()
    &&& events[j] matches CycleEvent::Network(ConnectEvent::PingCompleted(summary))
    &&& all_acknowledged(summary)
}

/// The events hold what makes `link` a link that stands: a poll that showed
/// the accepted status with its addresses, and a later ping burst that was
/// acknowledged in full.
pub open spec fn link_stands(events: Seq<CycleEvent>, link: LinkInfo) -> bool {
    exists|i: int, j: int|
        i < j && link_accepted_at(
            events,
            i,
            IpSettings { ip: link.local_ip, gateway: link.gateway_ip },
        ) && gateway_answered_at(events, j)
}

impl CycleState {
    /// The link the cycle works over, from the sensor stage on.
    pub open spec fn link_of(self) -> Option<LinkInfo> {
        match self {
            CycleState::Sensing { link, .. } => Some(link),
            CycleState::Presenting { link, .. } => Some(link),
            CycleState::Publishing { link, .. } => Some(link),
            _ => None,
        }
    }

    /// The link this state relies on is borne out by the events.
    pub open spec fn linked_by(self, events: Seq<CycleEvent>) -> bool {
        match self {
            CycleState::Connecting {
                attempt: ConnectionState::AwaitingLink { probing: Some(settings) },
            } => exists|i: int| link_accepted_at(events, i, settings),
            CycleState::Sensing { link, .. } => link_stands(events, link),
            CycleState::Presenting { link, .. } => link_stands(events, link),
            CycleState::Publishing { link, .. } => link_stands(events, link),
            _ => true,
        }
    }
}

/// A link that the events bear out is still borne out with one more event.
proof fn lemma_link_still_stands(events: Seq<CycleEvent>, link: LinkInfo)
    requires
        events.len() > 0,
        link_stands(events.drop_last(), link),
    ensures
        link_stands(events, link),
{
    let earlier = events.drop_last();
    let settings = IpSettings { ip: link.local_ip, gateway: link.gateway_ip };
    let (i, j) = choose|i: int, j: int|
        i < j && link_accepted_at(earlier, i, settings) && gateway_answered_at(earlier, j);
    assert(events[i] == earlier[i]);
    assert(events[j] == earlier[j]);
    assert(i < j && link_accepted_at(events, i, settings) && gateway_answered_at(events, j));
}

/// Whatever is reported, the link a cycle relies on is borne out by the
/// events.
pub proof fn lemma_cycle_link_is_earned(controller: DutyCycleController, events: Seq<CycleEvent>)
    ensures
        controller.run_from(CycleState::Init, events).linked_by(events),
    decreases events.len(),
{
    if events.len() > 0 {
        let earlier = events.drop_last();
        let last = events.len() - 1;
        lemma_cycle_link_is_earned(controller, earlier);
        let before = controller.run_from(CycleState::Init, earlier);
        let after = controller.run_from(CycleState::Init, events);
        match after {
            CycleState::Connecting {
                attempt: ConnectionState::AwaitingLink { probing: Some(settings) },
            } => {
                if before == after {
                    let i = choose|i: int| link_accepted_at(earlier, i, settings);
                    assert(events[i] == earlier[i]);
                    assert(link_accepted_at(events, i, settings));
                } else {
                    assert(link_accepted_at(events, last, settings));
                }
            },
            CycleState::Sensing { link, .. } => {
                if before is Sensing {
                    lemma_link_still_stands(events, link);
                } else {
                    let settings = IpSettings { ip: link.local_ip, gateway: link.gateway_ip };
                    let i = choose|i: int| link_accepted_at(earlier, i, settings);
                    assert(events[i] == earlier[i]);
                    assert(i < last && link_accepted_at(events, i, settings) && gateway_answered_at(
                        events,
                        last,
                    ));
                }
            },
            CycleState::Presenting { link, .. } => {
                lemma_link_still_stands(events, link);
            },
            CycleState::Publishing { link, .. } => {
                lemma_link_still_stands(events, link);
            },
            _ => {},
        }
    }
}

/// A snapshot is only taken, shown and published over a link that stands:
/// from the sensor stage on, the events hold a poll that showed the accepted
/// status with the addresses of the link and a later ping burst that its
/// gateway acknowledged in full.
pub proof fn lemma_snapshot_needs_link(
    controller: DutyCycleController,
    events: Seq<CycleEvent>,
    link: LinkInfo,
)
    requires
        controller.run_from(CycleState::Init, events).link_of() == Some(link),
    ensures
        link_stands(events, link),
{
    lemma_cycle_link_is_earned(controller, events);
}

} // verus!
