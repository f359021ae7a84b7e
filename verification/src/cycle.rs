//! The duty cycle: wake, connect, sense, present, publish, sleep.
//!
//! [`DutyCycleController`] chains the stages. It never retries: the first
//! failure of any stage aborts the cycle on the spot. After the third message
//! went out it closes the broker session, releases the radio link and only
//! then arms the wake timer and sleeps.

use vstd::prelude::*;
use crate::connector::{ConnectAction, ConnectEvent, ConnectionState, NetworkConnector};
use crate::display::{DisplayCommand, DisplayError, PresentStage};
use crate::network::{ConnectError, LinkInfo};
use crate::sensor::{Measurement, SensorError, SensorFault, SensorReader};
use crate::telemetry::{PublishAction, PublishError, PublishStage};

verus! {

/// Length of the sleep between two cycles, in seconds.
pub const SLEEP_SECONDS: u32 = 60;

/// How long the node sleeps before the wake timer resets it.
#[derive(Clone, Copy, Debug, PartialEq, Eq)]
pub struct SleepSchedule {
    pub duration_secs: u32,
}

impl SleepSchedule {
    /// The duration as the wake timer takes it, in microseconds.
    pub open spec fn micros_of(self) -> nat {
        (self.duration_secs * 1_000_000) as nat
    }

    /// The schedule of every cycle: 60 seconds.
    pub fn fixed() -> (schedule: Self)
        ensures
            schedule == (SleepSchedule { duration_secs: SLEEP_SECONDS }),
            schedule.micros_of() == 60_000_000,
    {
        SleepSchedule { duration_secs: SLEEP_SECONDS }
    }

    /// The duration as the wake timer takes it, in microseconds.
    pub fn micros(&self) -> (micros: u64)
        ensures
            micros == self.micros_of(),
    {
        let seconds: u64 = self.duration_secs as u64;
        seconds * 1_000_000
    }
}

/// The failure that aborted a cycle, by the stage it came from.
#[derive(Clone, Copy, Debug, PartialEq, Eq)]
pub enum CycleError {
    Connect(ConnectError),
    Sensor(SensorError),
    Display(DisplayError),
    Publish(PublishError),
}

/// Where a duty cycle stands. `Sleeping` and `Aborted` are final.
///
/// A snapshot exists from `Presenting` on, and every state that holds one
/// also holds the link it will be published over.
#[derive(Debug, PartialEq, Eq)]
pub enum CycleState {
    Init,
    Connecting { attempt: ConnectionState },
    Sensing { link: LinkInfo, reader: SensorReader },
    Presenting { link: LinkInfo, measurement: Measurement, stage: PresentStage },
    /// The broker session runs through its stages; once it is `Closed`, the
    /// release of the radio link is outstanding.
    Publishing { link: LinkInfo, measurement: Measurement, session: PublishStage },
    Sleeping,
    Aborted { reason: CycleError },
}

/// What the caller reports back to the controller.
#[derive(Debug, PartialEq, Eq)]
pub enum CycleEvent {
    /// The node woke up.
    Wake,
    /// Something happened on the radio.
    Network(ConnectEvent),
    /// The one-time initialization of the sensor ended.
    SensorInitialized(Result<(), SensorFault>),
    /// The bus transaction for a snapshot ended.
    SensorSampled(Result<Measurement, SensorFault>),
    /// The outstanding display command ended, well or not.
    DisplayDone(bool),
    /// The outstanding broker transaction ended, well or not.
    BrokerDone(bool),
    /// The radio link was torn down.
    LinkReleased,
}

/// What the controller asks the caller to do next.
#[derive(Debug, PartialEq, Eq)]
pub enum CycleAction {
    Network(ConnectAction),
    InitializeSensor,
    ReadSensor,
    Display(DisplayCommand),
    Broker(PublishAction),
    /// Tear the radio link down.
    ReleaseLink,
    /// Arm the wake timer and enter deep sleep; this does not return.
    Sleep(SleepSchedule),
    /// Stop for good with this failure.
    Abort(CycleError),
}

/// A connector action as an action of the cycle.
pub open spec fn network_action(action: Option<ConnectAction>) -> Option<CycleAction> {
    match action {
        Some(action) => Some(CycleAction::Network(action)),
        None => None,
    }
}

/// A display command as an action of the cycle.
pub open spec fn display_action(command: Option<DisplayCommand>) -> Option<CycleAction> {
    match command {
        Some(command) => Some(CycleAction::Display(command)),
        None => None,
    }
}

/// A broker transaction as an action of the cycle.
pub open spec fn broker_action(action: Option<PublishAction>) -> Option<CycleAction> {
    match action {
        Some(action) => Some(CycleAction::Broker(action)),
        None => None,
    }
}

impl CycleState {
    /// The cycle is over.
    pub open spec fn terminal(self) -> bool {
        self is Sleeping || self is Aborted
    }

    /// The action that is outstanding in this state. The final states hold
    /// the one that ends the cycle.
    pub open spec fn pending(self) -> Option<CycleAction> {
        match self {
            CycleState::Init => None,
            CycleState::Connecting { attempt } => network_action(attempt.pending()),
            CycleState::Sensing { reader, .. } => if reader.initialized {
                Some(CycleAction::ReadSensor)
            } else {
                Some(CycleAction::InitializeSensor)
            },
            CycleState::Presenting { measurement, stage, .. } => display_action(
                stage.command_of(measurement),
            ),
            CycleState::Publishing { measurement, session, .. } => if session is Closed {
                Some(CycleAction::ReleaseLink)
            } else {
                broker_action(session.action_of(measurement))
            },
            CycleState::Sleeping => Some(
                CycleAction::Sleep(SleepSchedule { duration_secs: SLEEP_SECONDS }),
            ),
            CycleState::Aborted { reason } => Some(CycleAction::Abort(reason)),
        }
    }

    /// `event` answers what is outstanding in this state.
    pub open spec fn accepts(self, event: CycleEvent) -> bool {
        match self {
            CycleState::Init => event is Wake,
            CycleState::Connecting { attempt } => event matches CycleEvent::Network(inner)
                && attempt.accepts(inner),
            CycleState::Sensing { reader, .. } => if reader.initialized {
                event is SensorSampled
            } else {
                event is SensorInitialized
            },
            CycleState::Presenting { stage, .. } => event is DisplayDone && !stage.terminal(),
            CycleState::Publishing { session, .. } => match session {
                PublishStage::Closed => event is LinkReleased,
                PublishStage::Failed(_) => false,
                _ => event is BrokerDone,
            },
            CycleState::Sleeping => false,
            CycleState::Aborted { .. } => false,
        }
    }

    /// Whether the cycle is over.
    pub fn is_terminal(&self) -> (yes: bool)
        ensures
            yes == self.terminal(),
    {
        match self {
            CycleState::Sleeping => true,
            CycleState::Aborted { .. } => true,
            _ => false,
        }
    }
}

/// Sequences one duty cycle over the network the connector is set up for.
#[derive(Debug, PartialEq, Eq)]
pub struct DutyCycleController {
    pub connector: NetworkConnector,
}

impl DutyCycleController {
    /// A controller that joins the network of `connector` on every cycle.
    pub fn new(connector: NetworkConnector) -> (controller: Self)
        ensures
            controller.connector == connector,
    {
        DutyCycleController { connector }
    }

    /// The state that follows `state` on `event`. An event that does not
    /// answer the outstanding action changes nothing; a stage that ends
    /// well hands over to the next one; a stage that fails aborts the
    /// cycle.
    pub open spec fn next_state(&self, state: CycleState, event: CycleEvent) -> CycleState {
        if !state.accepts(event) {
            state
        } else {
            match (state, event) {
                (CycleState::Init, _) => CycleState::Connecting {
                    attempt: ConnectionState::Scanning,
                },
                (CycleState::Connecting { attempt }, CycleEvent::Network(inner)) => {
                    match self.connector.next_state(attempt, inner) {
                        ConnectionState::Connected { local_ip, gateway_ip } => CycleState::Sensing {
                            link: LinkInfo { local_ip, gateway_ip },
                            reader: SensorReader { initialized: false },
                        },
                        ConnectionState::Failed { reason } => CycleState::Aborted {
                            reason: CycleError::Connect(reason),
                        },
                        attempt => CycleState::Connecting { attempt },
                    }
                },
                (CycleState::Sensing { link, reader }, CycleEvent::SensorInitialized(outcome)) => {
                    match outcome {
                        Ok(_) => CycleState::Sensing {
                            link,
                            reader: reader.after_initialization(outcome),
                        },
                        Err(fault) => CycleState::Aborted {
                            reason: CycleError::Sensor(fault.error_of()),
                        },
                    }
                },
                (CycleState::Sensing { link, reader }, CycleEvent::SensorSampled(sample)) => {
                    match reader.read_result(sample) {
                        Ok(measurement) => CycleState::Presenting {
                            link,
                            measurement,
                            stage: PresentStage::Clearing,
                        },
                        Err(error) => CycleState::Aborted { reason: CycleError::Sensor(error) },
                    }
                },
                (
                    CycleState::Presenting { link, measurement, stage },
                    CycleEvent::DisplayDone(done),
                ) => {
                    match stage.after(done) {
                        PresentStage::Shown => CycleState::Publishing {
                            link,
                            measurement,
                            session: PublishStage::Opening,
                        },
                        PresentStage::Failed(fault) => CycleState::Aborted {
                            reason: CycleError::Display(fault),
                        },
                        stage => CycleState::Presenting { link, measurement, stage },
                    }
                },
                (
                    CycleState::Publishing { link, measurement, session },
                    CycleEvent::BrokerDone(done),
                ) => {
                    match session.after(done) {
                        PublishStage::Failed(error) => CycleState::Aborted {
                            reason: CycleError::Publish(error),
                        },
                        session => CycleState::Publishing { link, measurement, session },
                    }
                },
                (CycleState::Publishing { .. }, CycleEvent::LinkReleased) => CycleState::Sleeping,
                _ => state,
            }
        }
    }

    /// The action that `event` triggers in `state`: the one outstanding in
    /// the state that follows, or none where the event is not accepted.
    pub open spec fn issued(&self, state: CycleState, event: CycleEvent) -> Option<CycleAction> {
        if state.accepts(event) {
            self.next_state(state, event).pending()
        } else {
            None
        }
    }

    /// Advances the cycle by one reported event.
    pub fn step(&self, state: CycleState, event: &CycleEvent) -> (next: (
        CycleState,
        Option<CycleAction>,
    ))
        ensures
            next.0 == self.next_state(state, *event),
            next.1 == self.issued(state, *event),
    {
        match state {
            CycleState::Init => match event {
                CycleEvent::Wake => (
                    CycleState::Connecting { attempt: ConnectionState::Scanning },
                    Some(CycleAction::Network(ConnectAction::Scan)),
                ),
                _ => (state, None),
            },
            CycleState::Connecting { attempt } => match event {
                CycleEvent::Network(inner) => {
                    if attempt.is_terminal() {
                        return (state, None);
                    }
                    let (after, action) = self.connector.step(attempt, inner);
                    match after {
                        ConnectionState::Connected { local_ip, gateway_ip } => (
                            CycleState::Sensing {
                                link: LinkInfo { local_ip, gateway_ip },
                                reader: SensorReader::new(),
                            },
                            Some(CycleAction::InitializeSensor),
                        ),
                        ConnectionState::Failed { reason } => (
                            CycleState::Aborted { reason: CycleError::Connect(reason) },
                            Some(CycleAction::Abort(CycleError::Connect(reason))),
                        ),
                        _ => {
                            let action = match action {
                                Some(action) => Some(CycleAction::Network(action)),
                                None => None,
                            };
                            (CycleState::Connecting { attempt: after }, action)
                        },
                    }
                },
                _ => (state, None),
            },
            CycleState::Sensing { link, reader } => match event {
                CycleEvent::SensorInitialized(outcome) => {
                    if reader.initialized {
                        return (state, None);
                    }
                    match outcome {
                        Ok(_) => (
                            CycleState::Sensing { link, reader: SensorReader { initialized: true } },
                            Some(CycleAction::ReadSensor),
                        ),
                        Err(fault) => {
                            let reason = CycleError::Sensor(fault.error());
                            (CycleState::Aborted { reason }, Some(CycleAction::Abort(reason)))
                        },
                    }
                },
                CycleEvent::SensorSampled(sample) => {
                    if !reader.initialized {
                        return (state, None);
                    }
                    match sample {
                        Ok(measurement) => (
                            CycleState::Presenting {
                                link,
                                measurement: measurement.clone(),
                                stage: PresentStage::Clearing,
                            },
                            Some(CycleAction::Display(DisplayCommand::Clear)),
                        ),
                        Err(fault) => {
                            let reason = CycleError::Sensor(fault.error());
                            (CycleState::Aborted { reason }, Some(CycleAction::Abort(reason)))
                        },
                    }
                },
                _ => (state, None),
            },
            CycleState::Presenting { link, measurement, stage } => match event {
                CycleEvent::DisplayDone(done) => {
                    if stage.is_terminal() {
                        return (CycleState::Presenting { link, measurement, stage }, None);
                    }
                    let after = stage.advance(*done);
                    match after {
                        PresentStage::Shown => (
                            CycleState::Publishing {
                                link,
                                measurement,
                                session: PublishStage::Opening,
                            },
                            Some(CycleAction::Broker(PublishAction::Open)),
                        ),
                        PresentStage::Failed(fault) => {
                            let reason = CycleError::Display(fault);
                            (CycleState::Aborted { reason }, Some(CycleAction::Abort(reason)))
                        },
                        _ => {
                            let action = match after.command(&measurement) {
                                Some(command) => Some(CycleAction::Display(command)),
                                None => None,
                            };
                            (CycleState::Presenting { link, measurement, stage: after }, action)
                        },
                    }
                },
                _ => (CycleState::Presenting { link, measurement, stage }, None),
            },
            CycleState::Publishing { link, measurement, session } => match (session, event) {
                (PublishStage::Closed, CycleEvent::LinkReleased) => (
                    CycleState::Sleeping,
                    Some(CycleAction::Sleep(SleepSchedule::fixed())),
                ),
                (PublishStage::Closed, _) => (
                    CycleState::Publishing { link, measurement, session },
                    None,
                ),
                (PublishStage::Failed(_), _) => (
                    CycleState::Publishing { link, measurement, session },
                    None,
                ),
                (_, CycleEvent::BrokerDone(done)) => {
                    let after = session.advance(*done);
                    match after {
                        PublishStage::Failed(error) => {
                            let reason = CycleError::Publish(error);
                            (CycleState::Aborted { reason }, Some(CycleAction::Abort(reason)))
                        },
                        PublishStage::Closed => (
                            CycleState::Publishing { link, measurement, session: after },
                            Some(CycleAction::ReleaseLink),
                        ),
                        _ => {
                            let action = match after.action(&measurement) {
                                Some(action) => Some(CycleAction::Broker(action)),
                                None => None,
                            };
                            (CycleState::Publishing { link, measurement, session: after }, action)
                        },
                    }
                },
                _ => (CycleState::Publishing { link, measurement, session }, None),
            },
            CycleState::Sleeping => (state, None),
            CycleState::Aborted { .. } => (state, None),
        }
    }

    /// The state reached from `start` after `events`, in order.
    pub open spec fn run_from(&self, start: CycleState, events: Seq<CycleEvent>) -> CycleState
        decreases events.len(),
    {
        if events.len() == 0 {
            start
        } else {
            self.next_state(self.run_from(start, events.drop_last()), events.last())
        }
    }

    /// The actions issued from `start` over `events`, in order.
    pub open spec fn trace_from(&self, start: CycleState, events: Seq<CycleEvent>) -> Seq<CycleAction>
        decreases events.len(),
    {
        if events.len() == 0 {
            Seq::empty()
        } else {
            let earlier = self.trace_from(start, events.drop_last());
            match self.issued(self.run_from(start, events.drop_last()), events.last()) {
                Some(action) => earlier.push(action),
                None => earlier,
            }
        }
    }

    /// Feeds a recorded sequence of events to a fresh cycle and returns the
    /// state it ends in with every action it asked for.
    pub fn replay(&self, events: &Vec<CycleEvent>) -> (end: (CycleState, Vec<CycleAction>))
        ensures
            end.0 == self.run_from(CycleState::Init, events@),
            end.1@ == self.trace_from(CycleState::Init, events@),
    {
        let mut state = CycleState::Init;
        let mut actions: Vec<CycleAction> = Vec::new();
        let mut i: usize = 0;
        while i < events.len()
            invariant
                i <= events.len(),
                state == self.run_from(CycleState::Init, events@.take(i as int)),
                actions@ == self.trace_from(CycleState::Init, events@.take(i as int)),
            decreases events.len() - i,
        {
            proof {
                let upto = events@.take(i + 1);
                assert(upto.drop_last() == events@.take(i as int));
                assert(upto.last() == events@[i as int]);
            }
            let (next, action) = self.step(state, &events[i]);
            state = next;
            match action {
                Some(action) => actions.push(action),
                None => {},
            }
            i += 1;
        }
        proof {
            assert(events@.take(events.len() as int) == events@);
        }
        (state, actions)
    }
}

} // verus!
