//! Decisions of the Wi-Fi station that streams runtime telemetry: when the
//! station must be (re)started, when the link is usable, and how a credential
//! validation attempt is reported.

use vstd::prelude::*;

verus! {

/// Station credentials.
#[derive(Clone, Debug)]
pub struct WifiCredentials {
    pub ssid: String,
    pub password: String,
}

/// Credentials as character sequences: `(ssid, password)`.
pub type CredentialsModel = (Seq<char>, Seq<char>);

impl View for WifiCredentials {
    type V = CredentialsModel;

    open spec fn view(&self) -> CredentialsModel {
        (self.ssid@, self.password@)
    }
}

/// Outcome of a credential validation attempt.
#[derive(Clone, Copy, Debug, PartialEq, Eq)]
pub enum WifiProbeResult {
    /// The station joined the network and obtained this IPv4 address.
    Success { ipv4_octets: [u8; 4] },
    /// The radio rejected the station configuration.
    ConfigurationRejected,
    /// The radio could not be started.
    StartFailed,
    /// Association with the access point failed.
    AssociationFailed,
    /// The station did not associate in time.
    AssociationTimedOut,
    /// No address was obtained in time.
    DhcpTimedOut,
}

/// The first station start-up step that failed, if any.
#[derive(Clone, Copy, Debug, PartialEq, Eq)]
pub enum StationStartFailure {
    SetConfiguration,
    Start,
    Connect,
}

/// How waiting for association ended.
#[derive(Clone, Copy, Debug, PartialEq, Eq)]
pub enum AssociationOutcome {
    Connected,
    /// Asking the radio for its connection state failed.
    Error,
    /// The wait ran out without a connection.
    TimedOut,
}

/// A DHCP client event.
#[derive(Clone, Copy, Debug, PartialEq, Eq)]
pub enum DhcpEvent {
    Configured { ipv4_octets: [u8; 4] },
    Deconfigured,
}

/// What to do with the station before streaming.
#[derive(Clone, Copy, Debug, PartialEq, Eq)]
pub enum StationPlan {
    /// No credentials: shut the station and listener down.
    Stop,
    /// Credentials differ from the ones applied: restart the station with them.
    Restart,
    /// The station already runs with these credentials.
    Keep,
}

/// The result a failed start-up step reports.
pub open spec fn start_failure_result(f: StationStartFailure) -> WifiProbeResult {
    match f {
        StationStartFailure::SetConfiguration => WifiProbeResult::ConfigurationRejected,
        StationStartFailure::Start => WifiProbeResult::StartFailed,
        StationStartFailure::Connect => WifiProbeResult::AssociationFailed,
    }
}

/// Reports a failed start-up step.
pub fn start_failure(f: StationStartFailure) -> (r: WifiProbeResult)
    ensures
        r == start_failure_result(f),
{
    match f {
        StationStartFailure::SetConfiguration => WifiProbeResult::ConfigurationRejected,
        StationStartFailure::Start => WifiProbeResult::StartFailed,
        StationStartFailure::Connect => WifiProbeResult::AssociationFailed,
    }
}

/// The report of a validation attempt: a failed start-up step, then a failed
/// or timed-out association, then a DHCP timeout, and otherwise success with
/// the address obtained.
pub open spec fn validation_result_spec(
    start: Option<StationStartFailure>,
    association: AssociationOutcome,
    address: Option<[u8; 4]>,
) -> WifiProbeResult {
    match start {
        Some(f) => start_failure_result(f),
        None => match association {
            AssociationOutcome::Error => WifiProbeResult::AssociationFailed,
            AssociationOutcome::TimedOut => WifiProbeResult::AssociationTimedOut,
            AssociationOutcome::Connected => match address {
                Some(ipv4_octets) => WifiProbeResult::Success { ipv4_octets },
                None => WifiProbeResult::DhcpTimedOut,
            },
        },
    }
}

/// Reports a validation attempt from how each of its phases ended.
pub fn validation_result(
    start: Option<StationStartFailure>,
    association: AssociationOutcome,
    address: Option<[u8; 4]>,
) -> (r: WifiProbeResult)
    ensures
        r == validation_result_spec(start, association, address),
{
    match start {
        Some(f) => start_failure(f),
        None => match association {
            AssociationOutcome::Error => WifiProbeResult::AssociationFailed,
            AssociationOutcome::TimedOut => WifiProbeResult::AssociationTimedOut,
            AssociationOutcome::Connected => match address {
                Some(ipv4_octets) => WifiProbeResult::Success { ipv4_octets },
                None => WifiProbeResult::DhcpTimedOut,
            },
        },
    }
}

/// The station state the streaming decisions depend on: the credentials the
/// station was last started with, and the IPv4 address DHCP gave it.
pub struct TelemetryLink {
    applied: Option<WifiCredentials>,
    ipv4_octets: Option<[u8; 4]>,
}

/// Link state: applied credentials and address.
pub struct LinkModel {
    pub applied: Option<CredentialsModel>,
    pub ipv4_octets: Option<[u8; 4]>,
}

impl View for TelemetryLink {
    type V = LinkModel;

    closed spec fn view(&self) -> LinkModel {
        LinkModel {
            applied: match self.applied {
                Some(c) => Some(c@),
                None => None,
            },
            ipv4_octets: self.ipv4_octets,
        }
    }
}

/// The station plan for the configured credentials.
pub open spec fn station_plan_spec(link: LinkModel, credentials: Option<CredentialsModel>) -> StationPlan {
    match credentials {
        None => StationPlan::Stop,
        Some(c) => if link.applied == Some(c) {
            StationPlan::Keep
        } else {
            StationPlan::Restart
        },
    }
}

impl TelemetryLink {
    /// A link with no station running.
    pub fn new() -> (l: Self)
        ensures
            l@.applied is None,
            l@.ipv4_octets is None,
    {
        TelemetryLink { applied: None, ipv4_octets: None }
    }

    /// The address obtained, if the link is usable.
    pub fn ipv4_octets(&self) -> (a: Option<[u8; 4]>)
        ensures
            a == self@.ipv4_octets,
    {
        self.ipv4_octets
    }

    /// Decides what to do with the station given the configured credentials.
    pub fn station_plan(&self, credentials: Option<&WifiCredentials>) -> (p: StationPlan)
        ensures
            p == station_plan_spec(
                self@,
                match credentials {
                    Some(c) => Some(c@),
                    None => None,
                },
            ),
    {
        match credentials {
            None => StationPlan::Stop,
            Some(c) => match &self.applied {
                Some(a) => if a.ssid == c.ssid && a.password == c.password {
                    StationPlan::Keep
                } else {
                    StationPlan::Restart
                },
                None => StationPlan::Restart,
            },
        }
    }

    /// The station, listener and address were shut down.
    pub fn on_stopped(&mut self)
        ensures
            final(self)@.applied is None,
            final(self)@.ipv4_octets is None,
    {
        self.applied = None;
        self.ipv4_octets = None;
    }

    /// The station was (re)started with `credentials`; starting always shuts
    /// the previous session down first, and only a successful start records
    /// the credentials.
    pub fn on_station_started(
        &mut self,
        credentials: &WifiCredentials,
        result: Result<(), StationStartFailure>,
    )
        ensures
            final(self)@.ipv4_octets is None,
            final(self)@.applied == (match result {
                Ok(()) => Some(credentials@),
                Err(_) => None::<CredentialsModel>,
            }),
    {
        self.on_stopped();
        if result.is_ok() {
            self.applied = Some(
                WifiCredentials {
                    ssid: credentials.ssid.clone(),
                    password: credentials.password.clone(),
                },
            );
        }
    }

    /// The connection check: a station that is not connected loses its
    /// address. Returns whether streaming may go on.
    pub fn on_connection_checked(&mut self, connected: bool) -> (go_on: bool)
        ensures
            go_on == connected,
            final(self)@.applied == old(self)@.applied,
            final(self)@.ipv4_octets == (if connected {
                old(self)@.ipv4_octets
            } else {
                None
            }),
    {
        if !connected {
            self.ipv4_octets = None;
        }
        connected
    }

    /// A DHCP client event (or none) after polling the interface.
    pub fn on_dhcp(&mut self, event: Option<DhcpEvent>)
        ensures
            final(self)@.applied == old(self)@.applied,
            final(self)@.ipv4_octets == (match event {
                Some(DhcpEvent::Configured { ipv4_octets }) => Some(ipv4_octets),
                Some(DhcpEvent::Deconfigured) => None,
                None => old(self)@.ipv4_octets,
            }),
    {
        match event {
            Some(DhcpEvent::Configured { ipv4_octets }) => self.ipv4_octets = Some(ipv4_octets),
            Some(DhcpEvent::Deconfigured) => self.ipv4_octets = None,
            None => {},
        }
    }
}

/// Validation succeeds exactly when the station started, associated and
/// obtained an address, and then reports that address.
pub proof fn lemma_validation_success(
    start: Option<StationStartFailure>,
    association: AssociationOutcome,
    address: Option<[u8; 4]>,
)
    ensures
        (validation_result_spec(start, association, address) is Success) == (start is None
            && association == AssociationOutcome::Connected && address is Some),
        validation_result_spec(start, association, address) matches WifiProbeResult::Success {
            ipv4_octets,
        } ==> address == Some(ipv4_octets),
{
}

/// Each report names the first phase that went wrong, in the order start-up,
/// association, DHCP: a failed start-up step is reported whatever came after
/// it; after a good start-up a failed or timed-out association is reported
/// whatever the address; DHCP is blamed only after the station started and
/// associated without obtaining an address.
pub proof fn lemma_validation_reports_first_failure(
    start: Option<StationStartFailure>,
    association: AssociationOutcome,
    address: Option<[u8; 4]>,
)
    ensures
        start == Some(StationStartFailure::SetConfiguration) ==> validation_result_spec(
            start,
            association,
            address,
        ) == WifiProbeResult::ConfigurationRejected,
        start == Some(StationStartFailure::Start) ==> validation_result_spec(start, association, address)
            == WifiProbeResult::StartFailed,
        start == Some(StationStartFailure::Connect) ==> validation_result_spec(
            start,
            association,
            address,
        ) == WifiProbeResult::AssociationFailed,
        start is None && association == AssociationOutcome::Error ==> validation_result_spec(
            start,
            association,
            address,
        ) == WifiProbeResult::AssociationFailed,
        start is None && association == AssociationOutcome::TimedOut ==> validation_result_spec(
            start,
            association,
            address,
        ) == WifiProbeResult::AssociationTimedOut,
        (validation_result_spec(start, association, address) == WifiProbeResult::DhcpTimedOut) == (
        start is None && association == AssociationOutcome::Connected && address is None),
        (validation_result_spec(start, association, address) == WifiProbeResult::AssociationTimedOut)
            == (start is None && association == AssociationOutcome::TimedOut),
        (validation_result_spec(start, association, address) == WifiProbeResult::StartFailed) == (
        start == Some(StationStartFailure::Start)),
        (validation_result_spec(start, association, address)
            == WifiProbeResult::ConfigurationRejected) == (start == Some(
            StationStartFailure::SetConfiguration,
        )),
        (validation_result_spec(start, association, address) == WifiProbeResult::AssociationFailed)
            == (start == Some(StationStartFailure::Connect) || (start is None && association
            == AssociationOutcome::Error)),
{
}

/// Unchanged credentials never restart a station that runs with them, and
/// changed credentials always do.
pub proof fn lemma_restart_only_on_change(link: LinkModel, c: CredentialsModel)
    ensures
        link.applied == Some(c) ==> station_plan_spec(link, Some(c)) == StationPlan::Keep,
        link.applied != Some(c) ==> station_plan_spec(link, Some(c)) == StationPlan::Restart,
        station_plan_spec(link, None) == StationPlan::Stop,
{
}

} // verus!
