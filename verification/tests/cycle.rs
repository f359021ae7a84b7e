use koda::cycle::{
    CycleAction, CycleError, CycleEvent, CycleState, DutyCycleController, SleepSchedule,
    SLEEP_SECONDS,
};
use koda::display::{DisplayCommand, DisplayError, PresentStage, TextLine};
use koda::connector::{ConnectAction, ConnectEvent, ConnectionState, NetworkConnector};
use koda::network::{
    AccessPoint, ApIpStatus, ApStatus, ClientConnectionStatus, ClientIpStatus, ClientStatus, ConnectError, IpSettings, Ipv4Address, LinkInfo, LinkStatus, NetworkCredentials, PingSummary,
};
use koda::sensor::{Measurement, Quantity, SensorError, SensorFault, SensorReader};
use koda::telemetry::{Delivery, OutboundMessage, PublishAction, PublishError, PublishStage};

const GATEWAY: Ipv4Address = Ipv4Address { bits: 0xC0A8_0101 };
const LOCAL: Ipv4Address = Ipv4Address { bits: 0xC0A8_0139 };

fn controller() -> DutyCycleController {
    DutyCycleController::new(NetworkConnector::new(
        NetworkCredentials { ssid: "home".to_string(), passphrase: "secret".to_string() },
        20_000,
    ))
}

fn measured() -> Measurement {
    Measurement {
        temperature: "21.5".to_string(),
        humidity: "40.25".to_string(),
        pressure: "101325".to_string(),
    }
}

fn link() -> LinkInfo {
    LinkInfo { local_ip: LOCAL, gateway_ip: GATEWAY }
}

fn link_is_up() -> LinkStatus {
    LinkStatus {
        client: ClientStatus::Started(ClientConnectionStatus::Connected(ClientIpStatus::Done(
            IpSettings { ip: LOCAL, gateway: GATEWAY },
        ))),
        access_point: ApStatus::Started(ApIpStatus::Done),
    }
}

fn radio_events() -> Vec<CycleEvent> {
    vec![
        CycleEvent::Wake,
        CycleEvent::Network(ConnectEvent::ScanCompleted(vec![AccessPoint {
            ssid: "home".to_string(),
            channel: 6,
        }])),
        CycleEvent::Network(ConnectEvent::ConfigurationApplied),
        CycleEvent::Network(ConnectEvent::StatusPolled { status: link_is_up(), elapsed_ms: 800 }),
        CycleEvent::Network(ConnectEvent::PingCompleted(PingSummary {
            transmitted: 5,
            received: 5,
        })),
    ]
}

fn radio_actions() -> Vec<CycleAction> {
    vec![
        CycleAction::Network(ConnectAction::Scan),
        CycleAction::Network(ConnectAction::Configure { hint: Some(6) }),
        CycleAction::Network(ConnectAction::PollStatus),
        CycleAction::Network(ConnectAction::Ping { gateway: GATEWAY }),
    ]
}

fn drawn(quantity: Quantity, value: &str) -> CycleAction {
    CycleAction::Display(DisplayCommand::Draw(TextLine { quantity, value: value.to_string() }))
}

fn sent(quantity: Quantity, payload: &str) -> CycleAction {
    CycleAction::Broker(PublishAction::Send(OutboundMessage {
        quantity,
        payload: payload.to_string(),
        delivery: Delivery::AtMostOnce,
        retain: false,
    }))
}

fn repeated(events: &mut Vec<CycleEvent>, count: usize, make: fn() -> CycleEvent) {
    for _ in 0..count {
        events.push(make());
    }
}

fn display_done() -> CycleEvent {
    CycleEvent::DisplayDone(true)
}

fn broker_done() -> CycleEvent {
    CycleEvent::BrokerDone(true)
}

/// Everything up to and including the snapshot.
fn events_up_to_the_frame() -> Vec<CycleEvent> {
    let mut events = radio_events();
    events.push(CycleEvent::SensorInitialized(Ok(())));
    events.push(CycleEvent::SensorSampled(Ok(measured())));
    events
}

fn is_broker(action: &CycleAction) -> bool {
    matches!(action, CycleAction::Broker(_))
}

#[test]
fn sleep_is_sixty_seconds_in_microseconds() {
    assert_eq!(SLEEP_SECONDS, 60);
    assert_eq!(SleepSchedule::fixed(), SleepSchedule { duration_secs: 60 });
    assert_eq!(SleepSchedule::fixed().micros(), 60_000_000);
    assert_eq!(SleepSchedule { duration_secs: 0 }.micros(), 0);
    assert_eq!(SleepSchedule { duration_secs: u32::MAX }.micros(), 4_294_967_295_000_000);
}

#[test]
fn full_cycle_ends_in_one_sleep_with_everything_released() {
    let mut events = events_up_to_the_frame();
    repeated(&mut events, 5, display_done);
    repeated(&mut events, 5, broker_done);
    events.push(CycleEvent::LinkReleased);
    let (state, actions) = controller().replay(&events);
    assert_eq!(state, CycleState::Sleeping);
    assert!(state.is_terminal());

    let mut expected = radio_actions();
    expected.extend(vec![
        CycleAction::InitializeSensor,
        CycleAction::ReadSensor,
        CycleAction::Display(DisplayCommand::Clear),
        drawn(Quantity::Temperature, "21.5"),
        drawn(Quantity::Humidity, "40.25"),
        drawn(Quantity::Pressure, "101325"),
        CycleAction::Display(DisplayCommand::Flush),
        CycleAction::Broker(PublishAction::Open),
        sent(Quantity::Temperature, "21.5"),
        sent(Quantity::Humidity, "40.25"),
        sent(Quantity::Pressure, "101325"),
        CycleAction::Broker(PublishAction::Close),
        CycleAction::ReleaseLink,
        CycleAction::Sleep(SleepSchedule { duration_secs: 60 }),
    ]);
    assert_eq!(actions, expected);

    let sleeps: Vec<&CycleAction> =
        actions.iter().filter(|action| matches!(action, CycleAction::Sleep(_))).collect();
    assert_eq!(sleeps, vec![&CycleAction::Sleep(SleepSchedule { duration_secs: 60 })]);
    let position = |wanted: &CycleAction| actions.iter().position(|action| action == wanted);
    let opened = position(&CycleAction::Broker(PublishAction::Open)).unwrap();
    let closed = position(&CycleAction::Broker(PublishAction::Close)).unwrap();
    let released = position(&CycleAction::ReleaseLink).unwrap();
    assert!(opened < closed && closed < released && released + 1 == actions.len() - 1);
    let opens = actions
        .iter()
        .filter(|action| **action == CycleAction::Broker(PublishAction::Open))
        .count();
    let closes = actions
        .iter()
        .filter(|action| **action == CycleAction::Broker(PublishAction::Close))
        .count();
    assert_eq!((opens, closes), (1, 1));
}

#[test]
fn cycle_advances_one_action_per_event() {
    let controller = controller();
    let (state, action) = controller.step(CycleState::Init, &CycleEvent::Wake);
    assert_eq!(state, CycleState::Connecting { attempt: ConnectionState::Scanning });
    assert_eq!(action, Some(CycleAction::Network(ConnectAction::Scan)));
    let (state, actions) = controller.replay(&radio_events());
    assert_eq!(state, CycleState::Sensing { link: link(), reader: SensorReader::new() });
    assert_eq!(actions.last(), Some(&CycleAction::InitializeSensor));
    let (state, action) = controller.step(state, &CycleEvent::SensorInitialized(Ok(())));
    assert_eq!(
        state,
        CycleState::Sensing { link: link(), reader: SensorReader { initialized: true } }
    );
    assert_eq!(action, Some(CycleAction::ReadSensor));
    let (state, action) = controller.step(state, &CycleEvent::SensorSampled(Ok(measured())));
    assert_eq!(
        state,
        CycleState::Presenting {
            link: link(),
            measurement: measured(),
            stage: PresentStage::Clearing
        }
    );
    assert_eq!(action, Some(CycleAction::Display(DisplayCommand::Clear)));
    let (state, action) = controller.step(state, &CycleEvent::DisplayDone(true));
    assert_eq!(action, Some(drawn(Quantity::Temperature, "21.5")));
    assert!(!state.is_terminal());
}

#[test]
fn link_release_comes_after_the_session_is_closed() {
    let controller = controller();
    let closing = CycleState::Publishing {
        link: link(),
        measurement: measured(),
        session: PublishStage::Closing,
    };
    let (state, action) = controller.step(closing, &CycleEvent::BrokerDone(true));
    assert_eq!(
        state,
        CycleState::Publishing {
            link: link(),
            measurement: measured(),
            session: PublishStage::Closed
        }
    );
    assert_eq!(action, Some(CycleAction::ReleaseLink));
    let (state, action) = controller.step(state, &CycleEvent::LinkReleased);
    assert_eq!(state, CycleState::Sleeping);
    assert_eq!(action, Some(CycleAction::Sleep(SleepSchedule { duration_secs: 60 })));
}

#[test]
fn sensor_fault_aborts_before_anything_is_published() {
    let mut events = radio_events();
    events.push(CycleEvent::SensorInitialized(Ok(())));
    events.push(CycleEvent::SensorSampled(Err(SensorFault::Bus)));
    // The caller may go on reporting; nothing is taken up any more.
    repeated(&mut events, 5, display_done);
    repeated(&mut events, 5, broker_done);
    events.push(CycleEvent::LinkReleased);
    let (state, actions) = controller().replay(&events);
    let reason = CycleError::Sensor(SensorError::BusFault);
    assert_eq!(state, CycleState::Aborted { reason });
    assert_eq!(actions.iter().filter(|action| is_broker(action)).count(), 0);
    let mut expected = radio_actions();
    expected.extend(vec![
        CycleAction::InitializeSensor,
        CycleAction::ReadSensor,
        CycleAction::Abort(reason),
    ]);
    assert_eq!(actions, expected);
}

#[test]
fn failed_sensor_initialization_aborts() {
    let mut events = radio_events();
    events.push(CycleEvent::SensorInitialized(Err(SensorFault::UnsupportedChip)));
    let (state, actions) = controller().replay(&events);
    let reason = CycleError::Sensor(SensorError::BusFault);
    assert_eq!(state, CycleState::Aborted { reason });
    assert_eq!(actions.last(), Some(&CycleAction::Abort(reason)));
    assert!(!actions.contains(&CycleAction::ReadSensor));
    assert!(!actions.iter().any(is_broker));
}

#[test]
fn missing_calibration_aborts_as_not_initialized() {
    let mut events = radio_events();
    events.push(CycleEvent::SensorInitialized(Ok(())));
    events.push(CycleEvent::SensorSampled(Err(SensorFault::NoCalibrationData)));
    let (state, _) = controller().replay(&events);
    assert_eq!(
        state,
        CycleState::Aborted { reason: CycleError::Sensor(SensorError::NotInitialized) }
    );
}

#[test]
fn connect_failure_aborts_the_cycle() {
    let events = vec![CycleEvent::Wake, CycleEvent::Network(ConnectEvent::ScanFailed)];
    let (state, actions) = controller().replay(&events);
    let reason = CycleError::Connect(ConnectError::ScanFailed);
    assert_eq!(state, CycleState::Aborted { reason });
    assert_eq!(
        actions,
        vec![CycleAction::Network(ConnectAction::Scan), CycleAction::Abort(reason)]
    );
}

#[test]
fn link_timeout_aborts_the_cycle() {
    let joining = LinkStatus {
        client: ClientStatus::Starting,
        access_point: ApStatus::Started(ApIpStatus::Done),
    };
    let mut events = radio_events();
    events.truncate(3);
    events.push(CycleEvent::Network(ConnectEvent::StatusPolled {
        status: joining,
        elapsed_ms: 5_000,
    }));
    events.push(CycleEvent::Network(ConnectEvent::StatusPolled {
        status: joining,
        elapsed_ms: 20_000,
    }));
    let (state, actions) = controller().replay(&events);
    let reason = CycleError::Connect(ConnectError::Timeout);
    assert_eq!(state, CycleState::Aborted { reason });
    assert_eq!(
        actions,
        vec![
            CycleAction::Network(ConnectAction::Scan),
            CycleAction::Network(ConnectAction::Configure { hint: Some(6) }),
            CycleAction::Network(ConnectAction::PollStatus),
            CycleAction::Network(ConnectAction::PollStatus),
            CycleAction::Abort(reason),
        ]
    );
}

#[test]
fn unreachable_gateway_aborts_the_cycle() {
    let mut events = radio_events();
    events.pop();
    events.push(CycleEvent::Network(ConnectEvent::PingCompleted(PingSummary {
        transmitted: 5,
        received: 4,
    })));
    let (state, actions) = controller().replay(&events);
    let reason = CycleError::Connect(ConnectError::GatewayUnreachable(GATEWAY));
    assert_eq!(state, CycleState::Aborted { reason });
    assert_eq!(actions.last(), Some(&CycleAction::Abort(reason)));
    assert!(!actions.contains(&CycleAction::InitializeSensor));
}

#[test]
fn render_fault_aborts_before_the_session_is_opened() {
    let mut events = events_up_to_the_frame();
    repeated(&mut events, 2, display_done);
    events.push(CycleEvent::DisplayDone(false));
    let (state, actions) = controller().replay(&events);
    let reason = CycleError::Display(DisplayError::RenderFault);
    assert_eq!(state, CycleState::Aborted { reason });
    assert_eq!(actions.last(), Some(&CycleAction::Abort(reason)));
    assert!(!actions.contains(&CycleAction::Display(DisplayCommand::Flush)));
    assert!(!actions.iter().any(is_broker));
}

#[test]
fn flush_fault_aborts_before_the_session_is_opened() {
    let mut events = events_up_to_the_frame();
    repeated(&mut events, 4, display_done);
    events.push(CycleEvent::DisplayDone(false));
    let (state, actions) = controller().replay(&events);
    assert_eq!(
        state,
        CycleState::Aborted { reason: CycleError::Display(DisplayError::FlushFault) }
    );
    assert!(!actions.iter().any(is_broker));
}

#[test]
fn refused_session_aborts_without_a_message() {
    let mut events = events_up_to_the_frame();
    repeated(&mut events, 5, display_done);
    events.push(CycleEvent::BrokerDone(false));
    let (state, actions) = controller().replay(&events);
    let reason = CycleError::Publish(PublishError::ConnectFailed);
    assert_eq!(state, CycleState::Aborted { reason });
    let broker: Vec<&CycleAction> = actions.iter().filter(|action| is_broker(action)).collect();
    assert_eq!(broker, vec![&CycleAction::Broker(PublishAction::Open)]);
    assert_eq!(actions.last(), Some(&CycleAction::Abort(reason)));
}

#[test]
fn failed_message_aborts_without_the_remaining_ones() {
    let mut events = events_up_to_the_frame();
    repeated(&mut events, 5, display_done);
    repeated(&mut events, 2, broker_done);
    events.push(CycleEvent::BrokerDone(false));
    repeated(&mut events, 3, broker_done);
    events.push(CycleEvent::LinkReleased);
    let (state, actions) = controller().replay(&events);
    let reason = CycleError::Publish(PublishError::SendFailed);
    assert_eq!(state, CycleState::Aborted { reason });
    let broker: Vec<&CycleAction> = actions.iter().filter(|action| is_broker(action)).collect();
    assert_eq!(
        broker,
        vec![
            &CycleAction::Broker(PublishAction::Open),
            &sent(Quantity::Temperature, "21.5"),
            &sent(Quantity::Humidity, "40.25"),
        ]
    );
    assert_eq!(actions.last(), Some(&CycleAction::Abort(reason)));
    assert!(!actions.contains(&CycleAction::ReleaseLink));
    assert!(!actions.iter().any(|action| matches!(action, CycleAction::Sleep(_))));
}

#[test]
fn reports_out_of_turn_are_ignored() {
    let controller = controller();
    assert_eq!(
        controller.step(CycleState::Init, &CycleEvent::LinkReleased),
        (CycleState::Init, None)
    );
    assert_eq!(
        controller.step(CycleState::Init, &CycleEvent::SensorSampled(Ok(measured()))),
        (CycleState::Init, None)
    );
    let connecting = || CycleState::Connecting { attempt: ConnectionState::Scanning };
    assert_eq!(controller.step(connecting(), &CycleEvent::Wake), (connecting(), None));
    assert_eq!(
        controller.step(connecting(), &CycleEvent::Network(ConnectEvent::ConfigurationApplied)),
        (connecting(), None)
    );
    let sensing = || CycleState::Sensing { link: link(), reader: SensorReader::new() };
    assert_eq!(
        controller.step(sensing(), &CycleEvent::SensorSampled(Ok(measured()))),
        (sensing(), None)
    );
    let ready =
        || CycleState::Sensing { link: link(), reader: SensorReader { initialized: true } };
    assert_eq!(
        controller.step(ready(), &CycleEvent::SensorInitialized(Ok(()))),
        (ready(), None)
    );
    let presenting = || CycleState::Presenting {
        link: link(),
        measurement: measured(),
        stage: PresentStage::Flushing,
    };
    assert_eq!(controller.step(presenting(), &CycleEvent::BrokerDone(true)), (presenting(), None));
    let publishing = || CycleState::Publishing {
        link: link(),
        measurement: measured(),
        session: PublishStage::Sending(Quantity::Humidity),
    };
    assert_eq!(controller.step(publishing(), &CycleEvent::LinkReleased), (publishing(), None));
    assert_eq!(
        controller.step(publishing(), &CycleEvent::DisplayDone(true)),
        (publishing(), None)
    );
    let closed = || CycleState::Publishing {
        link: link(),
        measurement: measured(),
        session: PublishStage::Closed,
    };
    assert_eq!(controller.step(closed(), &CycleEvent::BrokerDone(true)), (closed(), None));
}

#[test]
fn finished_cycles_take_nothing_more() {
    let controller = controller();
    let aborted = || CycleState::Aborted { reason: CycleError::Sensor(SensorError::BusFault) };
    for event in [CycleEvent::Wake, CycleEvent::LinkReleased, CycleEvent::BrokerDone(true)] {
        assert_eq!(controller.step(CycleState::Sleeping, &event), (CycleState::Sleeping, None));
        assert_eq!(controller.step(aborted(), &event), (aborted(), None));
    }
    assert!(aborted().is_terminal());
    assert!(!CycleState::Init.is_terminal());
}

#[test]
fn replay_of_nothing_leaves_the_cycle_at_init() {
    let (state, actions) = controller().replay(&Vec::new());
    assert_eq!(state, CycleState::Init);
    assert!(actions.is_empty());
}
