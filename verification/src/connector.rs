//! Joining the wireless network.
//!
//! The connector scans for the configured network, derives a channel hint,
//! applies a client profile together with a fallback access-point profile,
//! waits for the link to settle and finally probes the gateway. Every
//! decision is a transition of [`ConnectionState`]; the radio itself is
//! driven by the caller.

use vstd::prelude::*;
use crate::network::{
    all_acknowledged,
    channel_hint,
    channel_hint_of,
    check_reachability,
    fallback_channel,
    fallback_channel_of,
    fallback_ssid,
    AccessPoint,
    AccessPointProfile,
    ChannelHint,
    ClientProfile,
    ConnectError,
    IpSettings,
    Ipv4Address,
    LinkConfiguration,
    LinkInfo,
    LinkStatus,
    NetworkCredentials,
    PingSummary,
};

verus! {

/// Where a connection attempt stands.
///
/// `Connected` and `Failed` are final. While the link is awaited, `probing`
/// holds the settings of an accepted status whose gateway is being probed.
#[derive(Clone, Copy, Debug, PartialEq, Eq)]
pub enum ConnectionState {
    Idle,
    Scanning,
    Configuring { hint: ChannelHint },
    AwaitingLink { probing: Option<IpSettings> },
    Connected { local_ip: Ipv4Address, gateway_ip: Ipv4Address },
    Failed { reason: ConnectError },
}

/// What the caller reports back to the connector.
#[derive(Debug, PartialEq, Eq)]
pub enum ConnectEvent {
    /// The attempt is to start.
    Begin,
    /// The scan returned these access points, in the order it found them.
    ScanCompleted(Vec<AccessPoint>),
    /// The scan could not be carried out.
    ScanFailed,
    /// The radio took the configuration.
    ConfigurationApplied,
    /// The radio reported `status`, `elapsed_ms` after the wait began.
    StatusPolled { status: LinkStatus, elapsed_ms: u64 },
    /// The ping burst to the gateway ended with these counts.
    PingCompleted(PingSummary),
}

/// What the connector asks the caller to do next.
#[derive(Clone, Copy, Debug, PartialEq, Eq)]
pub enum ConnectAction {
    /// Scan for access points.
    Scan,
    /// Apply the dual-mode configuration for this hint
    /// (see [`NetworkConnector::configuration`]).
    Configure { hint: ChannelHint },
    /// Read the radio's status.
    PollStatus,
    /// Send the ping burst to this gateway.
    Ping { gateway: Ipv4Address },
}

impl ConnectionState {
    /// The attempt is over, one way or the other.
    pub open spec fn terminal(self) -> bool {
        self is Connected || self is Failed
    }

    /// The result of the attempt, once it is over.
    pub open spec fn outcome_of(self) -> Option<Result<LinkInfo, ConnectError>> {
        match self {
            ConnectionState::Connected { local_ip, gateway_ip } => Some(
                Ok(LinkInfo { local_ip, gateway_ip }),
            ),
            ConnectionState::Failed { reason } => Some(Err(reason)),
            _ => None,
        }
    }

    /// The action that is outstanding in this state.
    pub open spec fn pending(self) -> Option<ConnectAction> {
        match self {
            ConnectionState::Idle => None,
            ConnectionState::Scanning => Some(ConnectAction::Scan),
            ConnectionState::Configuring { hint } => Some(ConnectAction::Configure { hint }),
            ConnectionState::AwaitingLink { probing: None } => Some(ConnectAction::PollStatus),
            ConnectionState::AwaitingLink { probing: Some(settings) } => Some(
                ConnectAction::Ping { gateway: settings.gateway },
            ),
            ConnectionState::Connected { .. } => None,
            ConnectionState::Failed { .. } => None,
        }
    }

    /// `event` answers what is outstanding in this state.
    pub open spec fn accepts(self, event: ConnectEvent) -> bool {
        match self {
            ConnectionState::Idle => event is Begin,
            ConnectionState::Scanning => event is ScanCompleted || event is ScanFailed,
            ConnectionState::Configuring { .. } => event is ConfigurationApplied,
            ConnectionState::AwaitingLink { probing: None } => event is StatusPolled,
            ConnectionState::AwaitingLink { probing: Some(_) } => event is PingCompleted,
            ConnectionState::Connected { .. } => false,
            ConnectionState::Failed { .. } => false,
        }
    }

    /// Whether the attempt is over.
    pub fn is_terminal(&self) -> (yes: bool)
        ensures
            yes == self.terminal(),
    {
        match self {
            ConnectionState::Connected { .. } => true,
            ConnectionState::Failed { .. } => true,
            _ => false,
        }
    }

    /// The link on success, the reason on failure, `None` while the attempt
    /// is still running.
    pub fn outcome(&self) -> (result: Option<Result<LinkInfo, ConnectError>>)
        ensures
            result == self.outcome_of(),
    {
        match *self {
            ConnectionState::Connected { local_ip, gateway_ip } => Some(
                Ok(LinkInfo { local_ip, gateway_ip }),
            ),
            ConnectionState::Failed { reason } => Some(Err(reason)),
            _ => None,
        }
    }
}

/// The state after a poll that showed `status` at `elapsed_ms`, for a wait
/// bounded by `timeout_ms`.
///
/// A settled status is judged whenever it is seen; a transitional one ends
/// the attempt once the bound is reached.
pub open spec fn after_poll(status: LinkStatus, elapsed_ms: u64, timeout_ms: u64) -> ConnectionState {
    if status.transitional() {
        if elapsed_ms >= timeout_ms {
            ConnectionState::Failed { reason: ConnectError::Timeout }
        } else {
            ConnectionState::AwaitingLink { probing: None }
        }
    } else {
        match status.accepted() {
            Some(settings) => ConnectionState::AwaitingLink { probing: Some(settings) },
            None => ConnectionState::Failed { reason: ConnectError::UnexpectedStatus(status) },
        }
    }
}

/// The state after the ping burst to the gateway of `settings`.
pub open spec fn after_ping(settings: IpSettings, summary: PingSummary) -> ConnectionState {
    if all_acknowledged(summary) {
        ConnectionState::Connected { local_ip: settings.ip, gateway_ip: settings.gateway }
    } else {
        ConnectionState::Failed { reason: ConnectError::GatewayUnreachable(settings.gateway) }
    }
}

/// Brings the link up for one set of credentials within a bounded wait.
#[derive(Debug, PartialEq, Eq)]
pub struct NetworkConnector {
    pub credentials: NetworkCredentials,
    pub timeout_ms: u64,
}

impl NetworkConnector {
    /// A connector for these credentials that waits at most `timeout_ms`
    /// milliseconds for the status to settle.
    pub fn new(credentials: NetworkCredentials, timeout_ms: u64) -> (connector: Self)
        ensures
            connector.credentials == credentials,
            connector.timeout_ms == timeout_ms,
    {
        NetworkConnector { credentials, timeout_ms }
    }

    /// The client profile joins the configured network on the hinted
    /// channel; the access point is named `aptest` and sits on the hinted
    /// channel, or on channel 1 without a hint.
    pub open spec fn configures(&self, hint: ChannelHint, configuration: LinkConfiguration) -> bool {
        &&& configuration.client.ssid@ == self.credentials.ssid@
        &&& configuration.client.passphrase@ == self.credentials.passphrase@
        &&& configuration.client.channel == hint
        &&& configuration.access_point.ssid@ == fallback_ssid()
        &&& configuration.access_point.channel == fallback_channel_of(hint)
    }

    /// The dual-mode configuration for a channel hint.
    pub fn configuration(&self, hint: ChannelHint) -> (configuration: LinkConfiguration)
        ensures
            self.configures(hint, configuration),
    {
        LinkConfiguration {
            client: ClientProfile {
                ssid: self.credentials.ssid.clone(),
                passphrase: self.credentials.passphrase.clone(),
                channel: hint,
            },
            access_point: AccessPointProfile {
                ssid: String::from_str("aptest"),
                channel: fallback_channel(hint),
            },
        }
    }

    /// The state that follows `state` on `event`. An event that does not
    /// answer the outstanding action changes nothing.
    pub open spec fn next_state(&self, state: ConnectionState, event: ConnectEvent) -> ConnectionState {
        match (state, event) {
            (ConnectionState::Idle, ConnectEvent::Begin) => ConnectionState::Scanning,
            (ConnectionState::Scanning, ConnectEvent::ScanCompleted(scan)) => {
                ConnectionState::Configuring { hint: channel_hint_of(scan@, self.credentials.ssid@) }
            },
            (ConnectionState::Scanning, ConnectEvent::ScanFailed) => ConnectionState::Failed {
                reason: ConnectError::ScanFailed,
            },
            (
                ConnectionState::Configuring { .. },
                ConnectEvent::ConfigurationApplied,
            ) => ConnectionState::AwaitingLink { probing: None },
            (
                ConnectionState::AwaitingLink { probing: None },
                ConnectEvent::StatusPolled { status, elapsed_ms },
            ) => after_poll(status, elapsed_ms, self.timeout_ms),
            (
                ConnectionState::AwaitingLink { probing: Some(settings) },
                ConnectEvent::PingCompleted(summary),
            ) => after_ping(settings, summary),
            _ => state,
        }
    }

    /// The action that `event` triggers in `state`: the one outstanding in
    /// the state that follows, or none where the event is not accepted.
    pub open spec fn issued(&self, state: ConnectionState, event: ConnectEvent) -> Option<
        ConnectAction,
    > {
        if state.accepts(event) {
            self.next_state(state, event).pending()
        } else {
            None
        }
    }

    /// Advances the attempt by one reported event.
    pub fn step(&self, state: ConnectionState, event: &ConnectEvent) -> (next: (
        ConnectionState,
        Option<ConnectAction>,
    ))
        ensures
            next.0 == self.next_state(state, *event),
            next.1 == self.issued(state, *event),
    {
        match (state, event) {
            (ConnectionState::Idle, ConnectEvent::Begin) => (
                ConnectionState::Scanning,
                Some(ConnectAction::Scan),
            ),
            (ConnectionState::Scanning, ConnectEvent::ScanCompleted(scan)) => {
                let hint = channel_hint(scan, &self.credentials.ssid);
                (ConnectionState::Configuring { hint }, Some(ConnectAction::Configure { hint }))
            },
            (ConnectionState::Scanning, ConnectEvent::ScanFailed) => (
                ConnectionState::Failed { reason: ConnectError::ScanFailed },
                None,
            ),
            (ConnectionState::Configuring { .. }, ConnectEvent::ConfigurationApplied) => (
                ConnectionState::AwaitingLink { probing: None },
                Some(ConnectAction::PollStatus),
            ),
            (
                ConnectionState::AwaitingLink { probing: None },
                ConnectEvent::StatusPolled { status, elapsed_ms },
            ) => {
                if status.is_transitional() {
                    if *elapsed_ms >= self.timeout_ms {
                        (ConnectionState::Failed { reason: ConnectError::Timeout }, None)
                    } else {
                        (
                            ConnectionState::AwaitingLink { probing: None },
                            Some(ConnectAction::PollStatus),
                        )
                    }
                } else {
                    match status.accepted_settings() {
                        Some(settings) => (
                            ConnectionState::AwaitingLink { probing: Some(settings) },
                            Some(ConnectAction::Ping { gateway: settings.gateway }),
                        ),
                        None => (
                            ConnectionState::Failed {
                                reason: ConnectError::UnexpectedStatus(*status),
                            },
                            None,
                        ),
                    }
                }
            },
            (
                ConnectionState::AwaitingLink { probing: Some(settings) },
                ConnectEvent::PingCompleted(summary),
            ) => {
                match check_reachability(settings, *summary) {
                    Ok(link) => (
                        ConnectionState::Connected {
                            local_ip: link.local_ip,
                            gateway_ip: link.gateway_ip,
                        },
                        None,
                    ),
                    Err(reason) => (ConnectionState::Failed { reason }, None),
                }
            },
            _ => (state, None),
        }
    }

    /// The state reached from `start` after `events`, in order.
    pub open spec fn run_from(&self, start: ConnectionState, events: Seq<ConnectEvent>) -> ConnectionState
        decreases events.len(),
    {
        if events.len() == 0 {
            start
        } else {
            self.next_state(self.run_from(start, events.drop_last()), events.last())
        }
    }

    /// The actions issued from `start` over `events`, in order.
    pub open spec fn trace_from(&self, start: ConnectionState, events: Seq<ConnectEvent>) -> Seq<
        ConnectAction,
    >
        decreases events.len(),
    {
        if events.len() == 0 {
            Seq::empty()
        } else {
            let earlier = self.trace_from(start, events.drop_last());
            match self.issued(self.run_from(start, events.drop_last()), events.last()) {
                Some(action) => earlier.push(action),
                None => earlier,
            }
        }
    }

    /// Feeds a recorded sequence of events to a fresh attempt and returns
    /// the state it ends in with every action it asked for.
    pub fn replay(&self, events: &Vec<ConnectEvent>) -> (end: (ConnectionState, Vec<ConnectAction>))
        ensures
            end.0 == self.run_from(ConnectionState::Idle, events@),
            end.1@ == self.trace_from(ConnectionState::Idle, events@),
    {
        let mut state = ConnectionState::Idle;
        let mut actions: Vec<ConnectAction> = Vec::new();
        let mut i: usize = 0;
        while i < events.len()
            invariant
                i <= events.len(),
                state == self.run_from(ConnectionState::Idle, events@.take(i as int)),
                actions@ == self.trace_from(ConnectionState::Idle, events@.take(i as int)),
            decreases events.len() - i,
        {
            proof {
                let upto = events@.take(i + 1);
                assert(upto.drop_last() == events@.take(i as int));
                assert(upto.last() == events@[i as int]);
            }
            let (next, action) = self.step(state, &events[i]);
            state = next;
            match action {
                Some(action) => actions.push(action),
                None => {},
            }
            i += 1;
        }
        proof {
            assert(events@.take(events.len() as int) == events@);
        }
        (state, actions)
    }
}

/// A finished attempt stays as it is: no event changes it or asks for
/// anything more.
pub proof fn lemma_finished_attempt_is_final(
    connector: NetworkConnector,
    state: ConnectionState,
    events: Seq<ConnectEvent>,
)
    requires
        state.terminal(),
    ensures
        connector.run_from(state, events) == state,
        connector.trace_from(state, events) == Seq::<ConnectAction>::empty(),
    decreases events.len(),
{
    if events.len() > 0 {
        lemma_finished_attempt_is_final(connector, state, events.drop_last());
    }
}

/// Running over `first` and then over `second` is running over both in a
/// row.
pub proof fn lemma_run_in_two_parts(
    connector: NetworkConnector,
    start: ConnectionState,
    first: Seq<ConnectEvent>,
    second: Seq<ConnectEvent>,
)
    ensures
        connector.run_from(start, first + second) == connector.run_from(
            connector.run_from(start, first),
            second,
        ),
        connector.trace_from(start, first + second) == connector.trace_from(start, first)
            + connector.trace_from(connector.run_from(start, first), second),
    decreases second.len(),
{
    if second.len() == 0 {
        assert(first + second == first);
    } else {
        assert((first + second).drop_last() == first + second.drop_last());
        assert((first + second).last() == second.last());
        lemma_run_in_two_parts(connector, start, first, second.drop_last());
    }
}

/// `event` is a poll that shows a transitional status.
pub open spec fn unsettled_poll(event: ConnectEvent) -> bool {
    event matches ConnectEvent::StatusPolled { status, .. } && status.transitional()
}

/// `event` is a poll taken when the wait of `timeout_ms` had run out.
pub open spec fn expired_poll(event: ConnectEvent, timeout_ms: u64) -> bool {
    event matches ConnectEvent::StatusPolled { elapsed_ms, .. } && elapsed_ms >= timeout_ms
}

/// While every poll shows a transitional status the connector asks for
/// nothing but further polls, and it has failed with `Timeout` exactly when
/// one of the polls came after the wait had run out.
pub proof fn lemma_unsettled_polls_only_poll(connector: NetworkConnector, polls: Seq<ConnectEvent>)
    requires
        forall|i: int| 0 <= i < polls.len() ==> unsettled_poll(#[trigger] polls[i]),
    ensures
        (exists|i: int| 0 <= i < polls.len() && expired_poll(#[trigger] polls[i], connector.timeout_ms))
            ==> connector.run_from(ConnectionState::AwaitingLink { probing: None }, polls)
            == (ConnectionState::Failed { reason: ConnectError::Timeout }),
        !(exists|i: int| 0 <= i < polls.len() && expired_poll(#[trigger] polls[i], connector.timeout_ms))
            ==> connector.run_from(ConnectionState::AwaitingLink { probing: None }, polls)
            == (ConnectionState::AwaitingLink { probing: None }),
        forall|k: int|
            0 <= k < connector.trace_from(ConnectionState::AwaitingLink { probing: None }, polls).len()
                ==> #[trigger] connector.trace_from(
                ConnectionState::AwaitingLink { probing: None },
                polls,
            )[k] == ConnectAction::PollStatus,
    decreases polls.len(),
{
    if polls.len() > 0 {
        let earlier = polls.drop_last();
        lemma_unsettled_polls_only_poll(connector, earlier);
        assert(unsettled_poll(polls.last()));
        if exists|i: int| 0 <= i < earlier.len() && expired_poll(#[trigger] earlier[i], connector.timeout_ms) {
            let i = choose|i: int|
                0 <= i < earlier.len() && expired_poll(#[trigger] earlier[i], connector.timeout_ms);
            assert(expired_poll(polls[i], connector.timeout_ms));
        } else {
            if exists|i: int| 0 <= i < polls.len() && expired_poll(#[trigger] polls[i], connector.timeout_ms) {
                let i = choose|i: int|
                    0 <= i < polls.len() && expired_poll(#[trigger] polls[i], connector.timeout_ms);
                if i < earlier.len() {
                    assert(expired_poll(earlier[i], connector.timeout_ms));
                }
                assert(expired_poll(polls.last(), connector.timeout_ms));
            } else {
                assert(!expired_poll(polls[polls.len() - 1], connector.timeout_ms));
            }
        }
    }
}

/// A status that never leaves the transitional state within the wait makes
/// the attempt fail with `Timeout`: once the connector awaits the link,
/// polls that all show a transitional status, one of them taken after the
/// wait ran out, end in `Failed { Timeout }` whatever is reported later, and
/// from the start of the wait on nothing but polls was asked for.
pub proof fn lemma_unsettled_link_times_out(
    connector: NetworkConnector,
    before: Seq<ConnectEvent>,
    polls: Seq<ConnectEvent>,
    later: Seq<ConnectEvent>,
)
    requires
        connector.run_from(ConnectionState::Idle, before) == (ConnectionState::AwaitingLink {
            probing: None,
        }),
        forall|i: int| 0 <= i < polls.len() ==> unsettled_poll(#[trigger] polls[i]),
        exists|i: int| 0 <= i < polls.len() && expired_poll(#[trigger] polls[i], connector.timeout_ms),
    ensures
        connector.run_from(ConnectionState::Idle, before + polls + later) == (ConnectionState::Failed {
            reason: ConnectError::Timeout,
        }),
        connector.trace_from(ConnectionState::Idle, before + polls + later) == connector.trace_from(
            ConnectionState::Idle,
            before,
        ) + connector.trace_from(ConnectionState::AwaitingLink { probing: None }, polls),
        forall|k: int|
            0 <= k < connector.trace_from(ConnectionState::AwaitingLink { probing: None }, polls).len()
                ==> #[trigger] connector.trace_from(
                ConnectionState::AwaitingLink { probing: None },
                polls,
            )[k] == ConnectAction::PollStatus,
{
    let waiting = ConnectionState::AwaitingLink { probing: None };
    let failed = ConnectionState::Failed { reason: ConnectError::Timeout };
    lemma_unsettled_polls_only_poll(connector, polls);
    lemma_run_in_two_parts(connector, ConnectionState::Idle, before, polls);
    lemma_run_in_two_parts(connector, ConnectionState::Idle, before + polls, later);
    lemma_finished_attempt_is_final(connector, failed, later);
    assert(connector.trace_from(ConnectionState::Idle, before + polls) + Seq::<ConnectAction>::empty()
        == connector.trace_from(ConnectionState::Idle, before + polls));
}

/// Event `i` is a poll that showed the accepted status with these settings.
pub open spec fn accepted_at(events: Seq<ConnectEvent>, i: int, settings: IpSettings) -> bool {
    &&& 0 <= i < events.len()
    &&& events[i] matches ConnectEvent::StatusPolled { status, .. }
    &&& status.accepted() == Some(settings)
}

/// Event `j` is a ping burst of which every probe was acknowledged.
pub open spec fn acknowledged_at(events: Seq<ConnectEvent>, j: int) -> bool {
    &&& 0 <= j < events.len()
    &&& events[j] matches ConnectEvent::PingCompleted(summary)
    &&& all_acknowledged(summary)
}

/// What the events must have held for the attempt to stand where it stands:
/// a gateway is only probed after a poll showed the accepted status with
/// its settings, and the link only stands after a later ping burst to that
/// gateway was acknowledged in full.
pub open spec fn link_earned(state: ConnectionState, events: Seq<ConnectEvent>) -> bool {
    match state {
        ConnectionState::AwaitingLink { probing: Some(settings) } => exists|i: int|
            accepted_at(events, i, settings),
        ConnectionState::Connected { local_ip, gateway_ip } => exists|i: int, j: int|
            i < j && accepted_at(events, i, IpSettings { ip: local_ip, gateway: gateway_ip })
                && acknowledged_at(events, j),
        _ => true,
    }
}

/// However an attempt went, the link was earned.
pub proof fn lemma_link_is_earned(connector: NetworkConnector, events: Seq<ConnectEvent>)
    ensures
        link_earned(connector.run_from(ConnectionState::Idle, events), events),
    decreases events.len(),
{
    if events.len() > 0 {
        let earlier = events.drop_last();
        let last = events.len() - 1;
        lemma_link_is_earned(connector, earlier);
        let before = connector.run_from(ConnectionState::Idle, earlier);
        let after = connector.run_from(ConnectionState::Idle, events);
        match after {
            ConnectionState::AwaitingLink { probing: Some(settings) } => {
                if before == after {
                    let i = choose|i: int| accepted_at(earlier, i, settings);
                    assert(events[i] == earlier[i]);
                    assert(accepted_at(events, i, settings));
                } else {
                    assert(accepted_at(events, last, settings));
                }
            },
            ConnectionState::Connected { local_ip, gateway_ip } => {
                let settings = IpSettings { ip: local_ip, gateway: gateway_ip };
                if before == after {
                    let (i, j) = choose|i: int, j: int|
                        i < j && accepted_at(earlier, i, settings) && acknowledged_at(earlier, j);
                    assert(events[i] == earlier[i]);
                    assert(events[j] == earlier[j]);
                    assert(i < j && accepted_at(events, i, settings) && acknowledged_at(events, j));
                } else {
                    let i = choose|i: int| accepted_at(earlier, i, settings);
                    assert(events[i] == earlier[i]);
                    assert(i < last && accepted_at(events, i, settings) && acknowledged_at(
                        events,
                        last,
                    ));
                }
            },
            _ => {},
        }
    }
}

/// A link that stands carries the address and the gateway of a status that
/// was accepted, and that gateway answered a whole ping burst afterwards.
pub proof fn lemma_connected_link_was_probed(
    connector: NetworkConnector,
    events: Seq<ConnectEvent>,
    link: LinkInfo,
)
    requires
        connector.run_from(ConnectionState::Idle, events).outcome_of() == Some(
            Ok::<LinkInfo, ConnectError>(link),
        ),
    ensures
        exists|i: int, j: int|
            i < j && accepted_at(
                events,
                i,
                IpSettings { ip: link.local_ip, gateway: link.gateway_ip },
            ) && acknowledged_at(events, j),
{
    lemma_link_is_earned(connector, events);
    let settings = IpSettings { ip: link.local_ip, gateway: link.gateway_ip };
    let end = connector.run_from(ConnectionState::Idle, events);
    assert(end == (ConnectionState::Connected {
        local_ip: link.local_ip,
        gateway_ip: link.gateway_ip,
    }));
    let (i, j) = choose|i: int, j: int|
        i < j && accepted_at(events, i, settings) && acknowledged_at(events, j);
    assert(i < j && accepted_at(events, i, settings) && acknowledged_at(events, j));
}

} // verus!
