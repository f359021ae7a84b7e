//! What the radio reports and what it is told: scan entries, the channel
//! hint, the dual-mode configuration, the link status and the ping summary,
//! with the judgement passed on each.

use vstd::prelude::*;

verus! {

/// Channel of the fallback access point when the scan gave no hint.
pub const FALLBACK_CHANNEL: u8 = 1;

/// Network name of the fallback access point.
pub open spec fn fallback_ssid() -> Seq<char> {
    "aptest"@
}

/// An IPv4 address as its 32-bit value in network order.
#[derive(Clone, Copy, Debug, PartialEq, Eq)]
pub struct Ipv4Address {
    pub bits: u32,
}

/// Name and passphrase of the network to join.
#[derive(Debug, PartialEq, Eq)]
pub struct NetworkCredentials {
    pub ssid: String,
    pub passphrase: String,
}

impl Clone for NetworkCredentials {
    fn clone(&self) -> (copy: Self)
        ensures
            copy == *self,
    {
        NetworkCredentials { ssid: self.ssid.clone(), passphrase: self.passphrase.clone() }
    }
}

/// One entry of a scan: the name an access point announces and its channel.
#[derive(Debug, PartialEq, Eq)]
pub struct AccessPoint {
    pub ssid: String,
    pub channel: u8,
}

/// Radio channel taken from the scan; `None` lets the radio stack pick.
pub type ChannelHint = Option<u8>;

/// The channel of the first entry of `scan` that announces `ssid`.
pub open spec fn channel_hint_of(scan: Seq<AccessPoint>, ssid: Seq<char>) -> ChannelHint
    decreases scan.len(),
{
    if scan.len() == 0 {
        None
    } else if scan[0].ssid@ == ssid {
        Some(scan[0].channel)
    } else {
        channel_hint_of(scan.drop_first(), ssid)
    }
}

/// Entry `i` announces `ssid` and no earlier entry does.
pub open spec fn is_first_match(scan: Seq<AccessPoint>, ssid: Seq<char>, i: int) -> bool {
    &&& 0 <= i < scan.len()
    &&& scan[i].ssid@ == ssid
    &&& forall|j: int| 0 <= j < i ==> (#[trigger] scan[j]).ssid@ != ssid
}

/// Looks the target network up in the scan results.
///
/// Where several entries carry the name, the first one wins.
pub fn channel_hint(scan: &Vec<AccessPoint>, ssid: &String) -> (hint: ChannelHint)
    ensures
        hint == channel_hint_of(scan@, ssid@),
{
    let mut i: usize = 0;
    while i < scan.len()
        invariant
            i <= scan.len(),
            forall|j: int| 0 <= j < i ==> (#[trigger] scan@[j]).ssid@ != ssid@,
        decreases scan.len() - i,
    {
        if scan[i].ssid == *ssid {
            proof {
                lemma_hint_is_first_match(scan@, ssid@, i as int);
            }
            return Some(scan[i].channel);
        }
        i += 1;
    }
    proof {
        lemma_no_match_no_hint(scan@, ssid@);
    }
    None
}

/// The channel the fallback access point is put on.
pub open spec fn fallback_channel_of(hint: ChannelHint) -> u8 {
    match hint {
        Some(channel) => channel,
        None => FALLBACK_CHANNEL,
    }
}

/// The hinted channel, or the fixed fallback channel without a hint.
pub fn fallback_channel(hint: ChannelHint) -> (channel: u8)
    ensures
        channel == fallback_channel_of(hint),
{
    match hint {
        Some(channel) => channel,
        None => FALLBACK_CHANNEL,
    }
}

/// The hint is the channel of the first matching entry.
pub proof fn lemma_hint_is_first_match(scan: Seq<AccessPoint>, ssid: Seq<char>, i: int)
    requires
        is_first_match(scan, ssid, i),
    ensures
        channel_hint_of(scan, ssid) == Some(scan[i].channel),
    decreases i,
{
    if i > 0 {
        let rest = scan.drop_first();
        assert(scan[0].ssid@ != ssid);
        assert forall|j: int| 0 <= j < i - 1 implies (#[trigger] rest[j]).ssid@ != ssid by {
            assert(rest[j] == scan[j + 1]);
        }
        lemma_hint_is_first_match(rest, ssid, i - 1);
    }
}

/// Without a matching entry there is no hint.
pub proof fn lemma_no_match_no_hint(scan: Seq<AccessPoint>, ssid: Seq<char>)
    requires
        forall|j: int| 0 <= j < scan.len() ==> (#[trigger] scan[j]).ssid@ != ssid,
    ensures
        channel_hint_of(scan, ssid) is None,
    decreases scan.len(),
{
    if scan.len() > 0 {
        let rest = scan.drop_first();
        assert(scan[0].ssid@ != ssid);
        assert forall|j: int| 0 <= j < rest.len() implies (#[trigger] rest[j]).ssid@ != ssid by {
            assert(rest[j] == scan[j + 1]);
        }
        lemma_no_match_no_hint(rest, ssid);
    }
}

/// A scan that shows the target network on channel `channel`, with no
/// earlier entry of that name on another channel, yields that channel as the
/// hint, and the fallback access point is put on it too.
pub proof fn lemma_target_in_scan_gives_its_channel(
    scan: Seq<AccessPoint>,
    ssid: Seq<char>,
    channel: u8,
)
    requires
        exists|i: int|
            0 <= i < scan.len() && (#[trigger] scan[i]).ssid@ == ssid && scan[i].channel == channel
                && forall|j: int|
                0 <= j < i && (#[trigger] scan[j]).ssid@ == ssid ==> scan[j].channel == channel,
    ensures
        channel_hint_of(scan, ssid) == Some(channel),
        fallback_channel_of(channel_hint_of(scan, ssid)) == channel,
    decreases scan.len(),
{
    let i = choose|i: int|
        0 <= i < scan.len() && (#[trigger] scan[i]).ssid@ == ssid && scan[i].channel == channel
            && forall|j: int|
            0 <= j < i && (#[trigger] scan[j]).ssid@ == ssid ==> scan[j].channel == channel;
    if scan[0].ssid@ == ssid {
        assert(scan[0].channel == channel);
    } else {
        let rest = scan.drop_first();
        assert(rest[i - 1] == scan[i]);
        assert forall|j: int|
            0 <= j < i - 1 && (#[trigger] rest[j]).ssid@ == ssid implies rest[j].channel
            == channel by {
            assert(rest[j] == scan[j + 1]);
        }
        lemma_target_in_scan_gives_its_channel(rest, ssid, channel);
    }
}

/// A scan without the target network yields no hint, and the fallback
/// access point is put on channel 1.
pub proof fn lemma_target_not_in_scan_gives_fallback(scan: Seq<AccessPoint>, ssid: Seq<char>)
    requires
        forall|i: int| 0 <= i < scan.len() ==> (#[trigger] scan[i]).ssid@ != ssid,
    ensures
        channel_hint_of(scan, ssid) is None,
        fallback_channel_of(channel_hint_of(scan, ssid)) == 1,
{
    lemma_no_match_no_hint(scan, ssid);
}

/// The client side of the configuration: the network to join.
#[derive(Debug, PartialEq, Eq)]
pub struct ClientProfile {
    pub ssid: String,
    pub passphrase: String,
    pub channel: ChannelHint,
}

/// The access-point side of the configuration: the node's own network.
#[derive(Debug, PartialEq, Eq)]
pub struct AccessPointProfile {
    pub ssid: String,
    pub channel: u8,
}

/// Both profiles, applied together whatever becomes of the client side.
#[derive(Debug, PartialEq, Eq)]
pub struct LinkConfiguration {
    pub client: ClientProfile,
    pub access_point: AccessPointProfile,
}

/// Address and gateway that the client side was assigned.
#[derive(Clone, Copy, Debug, PartialEq, Eq)]
pub struct IpSettings {
    pub ip: Ipv4Address,
    pub gateway: Ipv4Address,
}

/// Address assignment on the client side.
#[derive(Clone, Copy, Debug, PartialEq, Eq)]
pub enum ClientIpStatus {
    Disabled,
    Waiting,
    Done(IpSettings),
}

/// Association of the client side with the access point.
#[derive(Clone, Copy, Debug, PartialEq, Eq)]
pub enum ClientConnectionStatus {
    Disconnected,
    Connecting,
    Connected(ClientIpStatus),
}

/// The client side of the radio.
#[derive(Clone, Copy, Debug, PartialEq, Eq)]
pub enum ClientStatus {
    Stopped,
    Starting,
    Started(ClientConnectionStatus),
}

/// Address service of the node's own access point.
#[derive(Clone, Copy, Debug, PartialEq, Eq)]
pub enum ApIpStatus {
    Disabled,
    Waiting,
    Done,
}

/// The access-point side of the radio.
#[derive(Clone, Copy, Debug, PartialEq, Eq)]
pub enum ApStatus {
    Stopped,
    Starting,
    Started(ApIpStatus),
}

/// What the radio reports of both sides at one instant.
#[derive(Clone, Copy, Debug, PartialEq, Eq)]
pub struct LinkStatus {
    pub client: ClientStatus,
    pub access_point: ApStatus,
}

impl ClientIpStatus {
    pub open spec fn transitional(self) -> bool {
        self is Waiting
    }
}

impl ClientConnectionStatus {
    pub open spec fn transitional(self) -> bool {
        match self {
            ClientConnectionStatus::Disconnected => false,
            ClientConnectionStatus::Connecting => true,
            ClientConnectionStatus::Connected(ip) => ip.transitional(),
        }
    }
}

impl ClientStatus {
    pub open spec fn transitional(self) -> bool {
        match self {
            ClientStatus::Stopped => false,
            ClientStatus::Starting => true,
            ClientStatus::Started(connection) => connection.transitional(),
        }
    }
}

impl ApIpStatus {
    pub open spec fn transitional(self) -> bool {
        self is Waiting
    }
}

impl ApStatus {
    pub open spec fn transitional(self) -> bool {
        match self {
            ApStatus::Stopped => false,
            ApStatus::Starting => true,
            ApStatus::Started(ip) => ip.transitional(),
        }
    }
}

impl LinkStatus {
    /// A change is still in progress on either side: neither success nor
    /// failure is confirmed yet.
    pub open spec fn transitional(self) -> bool {
        self.client.transitional() || self.access_point.transitional()
    }

    /// The one settled status that counts as a link: the client is
    /// connected and has its address, and the access point runs.
    pub open spec fn accepted(self) -> Option<IpSettings> {
        match (self.client, self.access_point) {
            (
                ClientStatus::Started(
                    ClientConnectionStatus::Connected(ClientIpStatus::Done(settings)),
                ),
                ApStatus::Started(ApIpStatus::Done),
            ) => Some(settings),
            _ => None,
        }
    }

    /// Whether a change is still in progress on either side.
    pub fn is_transitional(&self) -> (yes: bool)
        ensures
            yes == self.transitional(),
    {
        let client = match self.client {
            ClientStatus::Stopped => false,
            ClientStatus::Starting => true,
            ClientStatus::Started(ClientConnectionStatus::Disconnected) => false,
            ClientStatus::Started(ClientConnectionStatus::Connecting) => true,
            ClientStatus::Started(ClientConnectionStatus::Connected(ip)) => match ip {
                ClientIpStatus::Waiting => true,
                _ => false,
            },
        };
        let access_point = match self.access_point {
            ApStatus::Stopped => false,
            ApStatus::Starting => true,
            ApStatus::Started(ip) => match ip {
                ApIpStatus::Waiting => true,
                _ => false,
            },
        };
        client || access_point
    }

    /// The assigned settings if this status counts as a link.
    pub fn accepted_settings(&self) -> (settings: Option<IpSettings>)
        ensures
            settings == self.accepted(),
    {
        match (self.client, self.access_point) {
            (
                ClientStatus::Started(
                    ClientConnectionStatus::Connected(ClientIpStatus::Done(settings)),
                ),
                ApStatus::Started(ApIpStatus::Done),
            ) => Some(settings),
            _ => None,
        }
    }
}

/// An accepted status is settled.
pub proof fn lemma_accepted_is_settled(status: LinkStatus)
    requires
        status.accepted() is Some,
    ensures
        !status.transitional(),
{
}

/// Counts of a ping burst: probes sent and probes acknowledged.
#[derive(Clone, Copy, Debug, PartialEq, Eq)]
pub struct PingSummary {
    pub transmitted: u32,
    pub received: u32,
}

/// Why a connection attempt ended without a usable link.
#[derive(Clone, Copy, Debug, PartialEq, Eq)]
pub enum ConnectError {
    /// The scan itself failed.
    ScanFailed,
    /// The status was still transitional when the wait expired.
    Timeout,
    /// The status settled, but not as client connected and access point
    /// started.
    UnexpectedStatus(LinkStatus),
    /// Not every probe sent to this gateway was acknowledged.
    GatewayUnreachable(Ipv4Address),
}

/// The addresses of an established link.
#[derive(Clone, Copy, Debug, PartialEq, Eq)]
pub struct LinkInfo {
    pub local_ip: Ipv4Address,
    pub gateway_ip: Ipv4Address,
}

/// The gateway answered the whole burst.
pub open spec fn all_acknowledged(summary: PingSummary) -> bool {
    summary.transmitted == summary.received
}

/// Judges the ping burst sent to `gateway`: the link stands if and only if
/// every probe was acknowledged.
pub fn check_reachability(settings: IpSettings, summary: PingSummary) -> (result: Result<
    LinkInfo,
    ConnectError,
>)
    ensures
        all_acknowledged(summary) ==> result == Ok::<LinkInfo, ConnectError>(
            LinkInfo { local_ip: settings.ip, gateway_ip: settings.gateway },
        ),
        !all_acknowledged(summary) ==> result == Err::<LinkInfo, ConnectError>(
            ConnectError::GatewayUnreachable(settings.gateway),
        ),
{
    if summary.transmitted == summary.received {
        Ok(LinkInfo { local_ip: settings.ip, gateway_ip: settings.gateway })
    } else {
        Err(ConnectError::GatewayUnreachable(settings.gateway))
    }
}

} // verus!
