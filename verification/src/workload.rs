//! Connecting to signet's workload listener with a SPIFFE identity.
//!
//! A fresh workload may be asked for its identity before it is issued, so the
//! identity is asked for again for a while. This module decides how often, in
//! which order a connection is prepared, and what each failure means; whoever
//! talks to the Workload API and the server performs the actions and hands the
//! events back.
use crate::address::host_of;
use crate::client::{check_endpoint, uri_of, ClientError};
use crate::duration::Duration;
use vstd::prelude::*;

verus! {

/// The seconds to wait before each retry of the identity probe.
pub const WORKLOAD_DIAL_BACKOFF_SECS: [u64; 4] = [1, 2, 4, 8];

/// The number of retries of the identity probe.
pub const WORKLOAD_DIAL_RETRIES: usize = 4;

/// The number of identity probes before giving up: the first and the retries.
pub const WORKLOAD_DIAL_MAX_ATTEMPTS: usize = WORKLOAD_DIAL_RETRIES + 1;

/// The seconds to wait before the retry that follows `failures` earlier ones:
/// one, and twice as long each time.
pub open spec fn retry_pause(failures: nat) -> nat
    decreases failures,
{
    if failures == 0 {
        1
    } else {
        2 * retry_pause((failures - 1) as nat)
    }
}

/// The waits before the retries of the identity probe.
pub fn workload_dial_backoff() -> (waits: Vec<Duration>)
    ensures
        waits.len() == WORKLOAD_DIAL_RETRIES,
        forall|i: int|
            0 <= i < waits.len() ==> (#[trigger] waits[i])@ == retry_pause(i as nat) * 1_000_000_000,
        waits.len() == 4,
        waits[0]@ == 1_000_000_000,
        waits[1]@ == 2_000_000_000,
        waits[2]@ == 4_000_000_000,
        waits[3]@ == 8_000_000_000,
{
    let mut waits: Vec<Duration> = Vec::new();
    let mut i: usize = 0;
    while i < WORKLOAD_DIAL_RETRIES
        invariant
            i <= WORKLOAD_DIAL_RETRIES,
            waits.len() == i,
            forall|k: int|
                0 <= k < waits.len() ==> (#[trigger] waits[k])@ == retry_pause(k as nat)
                    * 1_000_000_000,
        decreases WORKLOAD_DIAL_RETRIES - i,
    {
        proof {
            reveal_with_fuel(retry_pause, 5);
        }
        waits.push(Duration::from_secs(WORKLOAD_DIAL_BACKOFF_SECS[i]));
        i = i + 1;
    }
    proof {
        reveal_with_fuel(retry_pause, 5);
    }
    waits
}

/// What asking the Workload API for an identity gives.
#[derive(Clone, Debug)]
pub enum ProbeOutcome {
    /// An identity is issued.
    Issued,
    /// No identity is issued, with the message that says so.
    NoIdentityIssued(String),
    /// Asking failed for another reason, with its message.
    Failed(String),
}

/// What comes of a probe.
#[derive(Debug)]
pub enum RetryStep {
    /// The identity is issued.
    Issued,
    /// Probe again after this time.
    RetryAfter(Duration),
    /// Give up with this error.
    Fail(ClientError),
}

/// A [`RetryStep`] over the views of its parts.
pub ghost enum RetryStepView {
    Issued,
    RetryAfter(nat),
    Fail(crate::client::ClientErrorView),
}

impl View for RetryStep {
    type V = RetryStepView;

    open spec fn view(&self) -> RetryStepView {
        match self {
            RetryStep::Issued => RetryStepView::Issued,
            RetryStep::RetryAfter(wait) => RetryStepView::RetryAfter(wait@),
            RetryStep::Fail(error) => RetryStepView::Fail(error@),
        }
    }
}

/// The probes of one Workload API for an identity.
pub struct IdentityRetry {
    socket: String,
    failures: usize,
}

/// The state of an [`IdentityRetry`].
#[verifier::ext_equal]
pub ghost struct RetryView {
    /// The socket of the Workload API.
    pub socket: Seq<char>,
    /// The number of retries so far.
    pub failures: nat,
}

impl View for IdentityRetry {
    type V = RetryView;

    closed spec fn view(&self) -> RetryView {
        RetryView { socket: self.socket@, failures: self.failures as nat }
    }
}

/// What comes of a probe. Only "no identity issued" is retried, after a
/// growing wait, until there are no retries left; every other failure is final
/// at once.
pub open spec fn retry_step(retry: RetryView, outcome: ProbeOutcome) -> RetryStepView {
    match outcome {
        ProbeOutcome::Issued => RetryStepView::Issued,
        ProbeOutcome::Failed(message) => RetryStepView::Fail(
            crate::client::ClientErrorView::WorkloadProbe {
                socket: retry.socket,
                source: message@,
            },
        ),
        ProbeOutcome::NoIdentityIssued(message) => if retry.failures < WORKLOAD_DIAL_RETRIES {
            RetryStepView::RetryAfter(retry_pause(retry.failures) * 1_000_000_000)
        } else {
            RetryStepView::Fail(
                crate::client::ClientErrorView::WorkloadNoIdentityIssued {
                    socket: retry.socket,
                    attempts: WORKLOAD_DIAL_MAX_ATTEMPTS,
                    source: message@,
                },
            )
        },
    }
}

/// The probes after one more.
pub open spec fn retry_after(retry: RetryView, outcome: ProbeOutcome) -> RetryView {
    if retry_step(retry, outcome) is RetryAfter {
        RetryView { failures: retry.failures + 1, ..retry }
    } else {
        retry
    }
}

/// Begins to probe the Workload API at `socket` until an identity is issued.
pub fn retry_until_identity_issued(socket: &str) -> (retry: IdentityRetry)
    ensures
        retry@ == (RetryView { socket: socket@, failures: 0 }),
{
    IdentityRetry { socket: socket.to_string(), failures: 0 }
}

impl IdentityRetry {
    /// Takes in what a probe gave and says what comes of it.
    pub fn on_probed(&mut self, outcome: ProbeOutcome) -> (step: RetryStep)
        ensures
            step@ == retry_step(old(self)@, outcome),
            final(self)@ == retry_after(old(self)@, outcome),
            outcome is Issued <==> step is Issued,
            outcome matches ProbeOutcome::Failed(message) ==> (step matches RetryStep::Fail(
                ClientError::WorkloadProbe { socket, source },
            ) && socket@ == old(self)@.socket && source@ == message@),
            outcome is NoIdentityIssued ==> (step is RetryAfter <==> old(self)@.failures < 4),
            old(self)@.failures >= 4 ==> (outcome matches ProbeOutcome::NoIdentityIssued(message)
                ==> (step matches RetryStep::Fail(
                ClientError::WorkloadNoIdentityIssued { socket, attempts, source },
            ) && socket@ == old(self)@.socket && attempts == 5 && source@ == message@)),
            final(self)@.socket == old(self)@.socket,
            final(self)@.failures == old(self)@.failures + (if step is RetryAfter {
                1int
            } else {
                0int
            }),
            step matches RetryStep::RetryAfter(wait) ==> {
                &&& old(self)@.failures == 0 ==> wait@ == 1_000_000_000
                &&& old(self)@.failures == 1 ==> wait@ == 2_000_000_000
                &&& old(self)@.failures == 2 ==> wait@ == 4_000_000_000
                &&& old(self)@.failures == 3 ==> wait@ == 8_000_000_000
            },
    {
        proof {
            reveal_with_fuel(retry_pause, 5);
        }
        match outcome {
            ProbeOutcome::Issued => RetryStep::Issued,
            ProbeOutcome::Failed(source) => RetryStep::Fail(
                ClientError::WorkloadProbe { socket: self.socket.clone(), source },
            ),
            ProbeOutcome::NoIdentityIssued(source) => {
                if self.failures < WORKLOAD_DIAL_RETRIES {
                    proof {
                        reveal_with_fuel(retry_pause, 5);
                    }
                    let wait = Duration::from_secs(WORKLOAD_DIAL_BACKOFF_SECS[self.failures]);
                    self.failures = self.failures + 1;
                    RetryStep::RetryAfter(wait)
                } else {
                    RetryStep::Fail(
                        ClientError::WorkloadNoIdentityIssued {
                            socket: self.socket.clone(),
                            attempts: WORKLOAD_DIAL_MAX_ATTEMPTS,
                            source,
                        },
                    )
                }
            },
        }
    }
}

/// Whether a text is a SPIFFE trust domain: nothing where it is, or the
/// message of the error.
pub uninterp spec fn trust_domain_outcome(text: Seq<char>) -> Result<(), Seq<char>>;

/// `spiffe::TrustDomain`'s `TryFrom<&str>`.
///
/// Whether it accepts a text, and its message where it does not, is a function
/// of the text.
#[verifier::external_body]
fn check_trust_domain(text: &str) -> (checked: Result<(), String>)
    ensures
        crate::text::outcome_view(checked) == trust_domain_outcome(text@),
{
    spiffe::TrustDomain::try_from(text).map(|_| ()).map_err(|e| e.to_string())
}

/// Whether a host can be the server name of a TLS connection.
pub uninterp spec fn is_server_name(host: Seq<char>) -> bool;

/// `rustls::pki_types::ServerName`'s `TryFrom<String>`.
///
/// Whether it accepts a host is a function of the host.
#[verifier::external_body]
fn server_name_accepts(host: &str) -> (accepted: bool)
    ensures
        accepted == is_server_name(host@),
{
    rustls::pki_types::ServerName::try_from(host.to_string()).is_ok()
}

/// How far a connection has come.
#[derive(Clone, Copy, Debug, PartialEq, Eq, Structural)]
pub enum DialStage {
    /// The identity is asked for.
    Probing,
    /// The source of the identity is being opened.
    OpeningSource,
    /// The TLS configuration is being built.
    BuildingTls,
    /// The connection is being opened.
    Connecting,
    /// The connection is open, or was given up.
    Ended,
}

/// What happens to a connection that is being prepared.
#[derive(Clone, Debug)]
pub enum DialEvent {
    /// A probe for the identity came back.
    Probed(ProbeOutcome),
    /// The source of the identity is open.
    SourceOpened,
    /// The source of the identity could not be opened.
    SourceFailed(String),
    /// The TLS configuration is built.
    TlsBuilt,
    /// The TLS configuration could not be built.
    TlsFailed(String),
    /// The connection is open.
    Connected,
    /// The connection could not be opened.
    ConnectFailed(String),
}

/// What to do for a connection that is being prepared.
#[derive(Debug)]
pub enum DialAction {
    /// Wait this long, then probe for the identity.
    ProbeAfter(Duration),
    /// Open the source of the identity.
    OpenSource,
    /// Build the TLS configuration for members of the trust domain.
    BuildTls { trust_domain: String },
    /// Connect to this endpoint, with this server name in the handshake.
    Connect { uri: String, server_name: String },
    /// Hand the connection out.
    Done,
    /// Give up with this error.
    Fail(ClientError),
    /// Nothing: the event does not belong to this stage.
    Ignore,
}

/// A [`DialAction`] over the views of its parts.
pub ghost enum DialActionView {
    ProbeAfter(nat),
    OpenSource,
    BuildTls { trust_domain: Seq<char> },
    Connect { uri: Seq<char>, server_name: Seq<char> },
    Done,
    Fail(crate::client::ClientErrorView),
    Ignore,
}

impl View for DialAction {
    type V = DialActionView;

    open spec fn view(&self) -> DialActionView {
        match self {
            DialAction::ProbeAfter(wait) => DialActionView::ProbeAfter(wait@),
            DialAction::OpenSource => DialActionView::OpenSource,
            DialAction::BuildTls { trust_domain } => DialActionView::BuildTls {
                trust_domain: trust_domain@,
            },
            DialAction::Connect { uri, server_name } => DialActionView::Connect {
                uri: uri@,
                server_name: server_name@,
            },
            DialAction::Done => DialActionView::Done,
            DialAction::Fail(error) => DialActionView::Fail(error@),
            DialAction::Ignore => DialActionView::Ignore,
        }
    }
}

/// A connection to the workload listener that is being prepared.
pub struct WorkloadDial {
    addr: String,
    trust_domain: String,
    retry: IdentityRetry,
    stage: DialStage,
}

/// The state of a [`WorkloadDial`].
#[verifier::ext_equal]
pub ghost struct DialView {
    /// The address of the listener.
    pub addr: Seq<char>,
    /// The trust domain that the server has to be a member of.
    pub trust_domain: Seq<char>,
    /// The probes for the identity.
    pub retry: RetryView,
    /// How far the connection has come.
    pub stage: DialStage,
}

impl View for WorkloadDial {
    type V = DialView;

    closed spec fn view(&self) -> DialView {
        DialView {
            addr: self.addr@,
            trust_domain: self.trust_domain@,
            retry: self.retry@,
            stage: self.stage,
        }
    }
}

/// The state of a connection to `addr` that begins to be prepared.
pub open spec fn new_dial(
    addr: Seq<char>,
    socket: Seq<char>,
    trust_domain: Seq<char>,
) -> DialView {
    DialView {
        addr,
        trust_domain,
        retry: RetryView { socket, failures: 0 },
        stage: DialStage::Probing,
    }
}

/// What to do once it is known whether the host is a server name and the URI
/// an endpoint. The URI is a plaintext one: the connector does the handshake
/// itself.
pub open spec fn connect_action(
    addr: Seq<char>,
    host: Seq<char>,
    named: bool,
    outcome: Result<(), Seq<char>>,
) -> DialActionView {
    if !named {
        DialActionView::Fail(crate::client::ClientErrorView::InvalidWorkloadAddress(addr))
    } else {
        match outcome {
            Ok(_) => DialActionView::Connect {
                uri: crate::client::endpoint_uri(addr, false),
                server_name: host,
            },
            Err(message) => DialActionView::Fail(
                crate::client::ClientErrorView::InvalidEndpoint { addr, source: message },
            ),
        }
    }
}

/// What an event asks for of a connection.
pub open spec fn dial_action(dial: DialView, event: DialEvent) -> DialActionView {
    match (dial.stage, event) {
        (DialStage::Probing, DialEvent::Probed(outcome)) => match retry_step(dial.retry, outcome) {
            RetryStepView::Issued => DialActionView::OpenSource,
            RetryStepView::RetryAfter(wait) => DialActionView::ProbeAfter(wait),
            RetryStepView::Fail(error) => DialActionView::Fail(error),
        },
        (DialStage::OpeningSource, DialEvent::SourceOpened) => DialActionView::BuildTls {
            trust_domain: dial.trust_domain,
        },
        (DialStage::OpeningSource, DialEvent::SourceFailed(message)) => DialActionView::Fail(
            crate::client::ClientErrorView::WorkloadApi {
                socket: dial.retry.socket,
                source: message@,
            },
        ),
        (DialStage::BuildingTls, DialEvent::TlsBuilt) => {
            let host = crate::address::host_text(dial.addr, crate::address::socket_ip(dial.addr));
            connect_action(
                dial.addr,
                host,
                is_server_name(host),
                crate::client::endpoint_outcome(crate::client::endpoint_uri(dial.addr, false)),
            )
        },
        (DialStage::BuildingTls, DialEvent::TlsFailed(message)) => DialActionView::Fail(
            crate::client::ClientErrorView::SpiffeTls(message@),
        ),
        (DialStage::Connecting, DialEvent::Connected) => DialActionView::Done,
        (DialStage::Connecting, DialEvent::ConnectFailed(message)) => DialActionView::Fail(
            crate::client::ClientErrorView::Connect { addr: dial.addr, source: message@ },
        ),
        _ => DialActionView::Ignore,
    }
}

/// The stage that an action leads to.
pub open spec fn stage_after(stage: DialStage, action: DialActionView) -> DialStage {
    match action {
        DialActionView::ProbeAfter(_) => DialStage::Probing,
        DialActionView::OpenSource => DialStage::OpeningSource,
        DialActionView::BuildTls { .. } => DialStage::BuildingTls,
        DialActionView::Connect { .. } => DialStage::Connecting,
        DialActionView::Done => DialStage::Ended,
        DialActionView::Fail(_) => DialStage::Ended,
        DialActionView::Ignore => stage,
    }
}

/// The connection after an event.
pub open spec fn dial_after(dial: DialView, event: DialEvent) -> DialView {
    DialView {
        retry: match (dial.stage, event) {
            (DialStage::Probing, DialEvent::Probed(outcome)) => retry_after(dial.retry, outcome),
            _ => dial.retry,
        },
        stage: stage_after(dial.stage, dial_action(dial, event)),
        ..dial
    }
}

/// The connection after events, in order.
pub open spec fn dial_after_all(dial: DialView, events: Seq<DialEvent>) -> DialView
    decreases events.len(),
{
    if events.len() == 0 {
        dial
    } else {
        dial_after(dial_after_all(dial, events.drop_last()), events.last())
    }
}

/// A connection that begins to be prepared, or the error instead of it, over
/// views, given whether the trust domain is one.
pub open spec fn dial_start(
    addr: Seq<char>,
    socket: Seq<char>,
    trust_domain: Seq<char>,
    outcome: Result<(), Seq<char>>,
) -> Result<DialView, crate::client::ClientErrorView> {
    match outcome {
        Ok(_) => Ok(new_dial(addr, socket, trust_domain)),
        Err(message) => Err(
            crate::client::ClientErrorView::InvalidTrustDomain(trust_domain, message),
        ),
    }
}

/// A connection, or the error instead of it, over views.
pub open spec fn dial_result_view(dial: Result<WorkloadDial, ClientError>) -> Result<
    DialView,
    crate::client::ClientErrorView,
> {
    match dial {
        Ok(dial) => Ok(dial@),
        Err(error) => Err(error@),
    }
}

/// Begins to prepare a connection, given whether the trust domain is one; see
/// [`dial_workload`].
pub fn dial_given(
    addr: &str,
    socket_path: &str,
    trust_domain: &str,
    checked: Result<(), String>,
) -> (dial: Result<WorkloadDial, ClientError>)
    ensures
        dial_result_view(dial) == dial_start(
            addr@,
            socket_path@,
            trust_domain@,
            crate::text::outcome_view(checked),
        ),
{
    match checked {
        Ok(_) => Ok(
            WorkloadDial {
                addr: addr.to_string(),
                trust_domain: trust_domain.to_string(),
                retry: retry_until_identity_issued(socket_path),
                stage: DialStage::Probing,
            },
        ),
        Err(message) => Err(ClientError::InvalidTrustDomain(trust_domain.to_string(), message)),
    }
}

/// Begins to prepare a connection to signet's workload listener at `addr`. The
/// first thing to do is to probe the Workload API at `socket_path` for the
/// identity.
///
/// The server has to be a member of `trust_domain`. A text that is no trust
/// domain is refused here, before anything is asked of the Workload API. Only
/// a Workload API that has issued no identity yet is asked again; every other
/// failure is final at once, so that a misconfiguration is never taken for a
/// passing one.
pub fn dial_workload(addr: &str, socket_path: &str, trust_domain: &str) -> (dial: Result<
    WorkloadDial,
    ClientError,
>)
    ensures
        dial_result_view(dial) == dial_start(
            addr@,
            socket_path@,
            trust_domain@,
            trust_domain_outcome(trust_domain@),
        ),
{
    dial_given(addr, socket_path, trust_domain, check_trust_domain(trust_domain))
}

/// What to do once it is known whether the host is a server name and the URI
/// an endpoint.
pub fn connect_given(
    addr: &str,
    host: String,
    named: bool,
    checked: Result<(), String>,
) -> (action: DialAction)
    ensures
        action@ == connect_action(addr@, host@, named, crate::text::outcome_view(checked)),
{
    if !named {
        return DialAction::Fail(ClientError::InvalidWorkloadAddress(addr.to_string()));
    }
    match checked {
        Ok(_) => DialAction::Connect { uri: uri_of(addr, false), server_name: host },
        Err(source) => DialAction::Fail(
            ClientError::InvalidEndpoint { addr: addr.to_string(), source },
        ),
    }
}

impl WorkloadDial {
    fn prepare_connect(&self) -> (action: DialAction)
        ensures
            ({
                let host = crate::address::host_text(
                    self@.addr,
                    crate::address::socket_ip(self@.addr),
                );
                action@ == connect_action(
                    self@.addr,
                    host,
                    is_server_name(host),
                    crate::client::endpoint_outcome(crate::client::endpoint_uri(self@.addr, false)),
                )
            }),
    {
        let host = host_of(self.addr.as_str());
        let named: bool = server_name_accepts(host.as_str());
        let uri = uri_of(self.addr.as_str(), false);
        connect_given(self.addr.as_str(), host, named, check_endpoint(uri.as_str()))
    }

    fn decide(&mut self, event: DialEvent) -> (action: DialAction)
        ensures
            action@ == dial_action(old(self)@, event),
            final(self)@ == (DialView {
                retry: dial_after(old(self)@, event).retry,
                ..old(self)@
            }),
    {
        match self.stage {
            DialStage::Probing => match event {
                DialEvent::Probed(outcome) => match self.retry.on_probed(outcome) {
                    RetryStep::Issued => DialAction::OpenSource,
                    RetryStep::RetryAfter(wait) => DialAction::ProbeAfter(wait),
                    RetryStep::Fail(error) => DialAction::Fail(error),
                },
                _ => DialAction::Ignore,
            },
            DialStage::OpeningSource => match event {
                DialEvent::SourceOpened => DialAction::BuildTls {
                    trust_domain: self.trust_domain.clone(),
                },
                DialEvent::SourceFailed(source) => DialAction::Fail(
                    ClientError::WorkloadApi { socket: self.retry.socket.clone(), source },
                ),
                _ => DialAction::Ignore,
            },
            DialStage::BuildingTls => match event {
                DialEvent::TlsBuilt => self.prepare_connect(),
                DialEvent::TlsFailed(message) => DialAction::Fail(ClientError::SpiffeTls(message)),
                _ => DialAction::Ignore,
            },
            DialStage::Connecting => match event {
                DialEvent::Connected => DialAction::Done,
                DialEvent::ConnectFailed(source) => DialAction::Fail(
                    ClientError::Connect { addr: self.addr.clone(), source },
                ),
                _ => DialAction::Ignore,
            },
            DialStage::Ended => DialAction::Ignore,
        }
    }

    /// Takes in an event and says what to do.
    pub fn on_event(&mut self, event: DialEvent) -> (action: DialAction)
        ensures
            action@ == dial_action(old(self)@, event),
            final(self)@ == dial_after(old(self)@, event),
            action is OpenSource <==> old(self)@.stage == DialStage::Probing && event
                == DialEvent::Probed(ProbeOutcome::Issued),
            action is BuildTls <==> old(self)@.stage == DialStage::OpeningSource && event
                is SourceOpened,
            action matches DialAction::BuildTls { trust_domain } ==> trust_domain@
                == old(self)@.trust_domain,
            action matches DialAction::Connect { uri, server_name } ==> uri@ == "http://"@
                + old(self)@.addr && server_name@ == crate::address::host_text(
                old(self)@.addr,
                crate::address::socket_ip(old(self)@.addr),
            ),
            action is Done <==> old(self)@.stage == DialStage::Connecting && event is Connected,
            final(self)@.addr == old(self)@.addr,
            final(self)@.trust_domain == old(self)@.trust_domain,
    {
        proof {
            law_dial_actions(old(self)@, event);
        }
        let action = self.decide(event);
        match &action {
            DialAction::ProbeAfter(_) => {
                self.stage = DialStage::Probing;
            },
            DialAction::OpenSource => {
                self.stage = DialStage::OpeningSource;
            },
            DialAction::BuildTls { .. } => {
                self.stage = DialStage::BuildingTls;
            },
            DialAction::Connect { .. } => {
                self.stage = DialStage::Connecting;
            },
            DialAction::Done => {
                self.stage = DialStage::Ended;
            },
            DialAction::Fail(_) => {
                self.stage = DialStage::Ended;
            },
            DialAction::Ignore => {},
        }
        action
    }
}

/// What happens to a transport connection to the workload listener.
#[derive(Clone, Debug)]
pub enum TransportEvent {
    /// The address resolved to so many socket addresses.
    Resolved { addresses: usize },
    /// The address could not be resolved.
    ResolveFailed(String),
    /// The TCP connection to the first socket address is open.
    TcpConnected,
    /// The TCP connection could not be opened.
    TcpFailed(String),
    /// The TLS handshake is done.
    TlsEstablished,
    /// The TLS handshake failed.
    TlsFailed(String),
}

/// What to do for a transport connection to the workload listener.
#[derive(Debug)]
pub enum TransportAction {
    /// Open a TCP connection to the first socket address.
    ConnectTcp,
    /// Do the TLS handshake.
    Handshake,
    /// Hand the stream out.
    Done,
    /// Give up with this error.
    Fail(ClientError),
}

/// What an event asks for of a transport connection to `addr`.
pub open spec fn is_transport_action(
    addr: Seq<char>,
    event: TransportEvent,
    action: TransportAction,
) -> bool {
    match event {
        TransportEvent::Resolved { addresses } => if addresses == 0 {
            action matches TransportAction::Fail(error) && error@
                == crate::client::ClientErrorView::InvalidWorkloadAddress(addr)
        } else {
            action is ConnectTcp
        },
        TransportEvent::TcpConnected => action is Handshake,
        TransportEvent::TlsEstablished => action is Done,
        TransportEvent::ResolveFailed(message) => fails_to_connect(addr, message@, action),
        TransportEvent::TcpFailed(message) => fails_to_connect(addr, message@, action),
        TransportEvent::TlsFailed(message) => fails_to_connect(addr, message@, action),
    }
}

/// Whether an action gives up because the connection to `addr` failed.
pub open spec fn fails_to_connect(
    addr: Seq<char>,
    message: Seq<char>,
    action: TransportAction,
) -> bool {
    action matches TransportAction::Fail(error) && error@
        == (crate::client::ClientErrorView::WorkloadConnect { addr, source: message })
}

/// Takes in an event of a transport connection to the workload listener at
/// `target_addr` and says what to do.
pub fn on_transport_event(target_addr: &str, event: TransportEvent) -> (action: TransportAction)
    ensures
        is_transport_action(target_addr@, event, action),
{
    match event {
        TransportEvent::Resolved { addresses } => {
            if addresses == 0 {
                TransportAction::Fail(ClientError::InvalidWorkloadAddress(target_addr.to_string()))
            } else {
                TransportAction::ConnectTcp
            }
        },
        TransportEvent::TcpConnected => TransportAction::Handshake,
        TransportEvent::TlsEstablished => TransportAction::Done,
        TransportEvent::ResolveFailed(source) => TransportAction::Fail(
            ClientError::WorkloadConnect { addr: target_addr.to_string(), source },
        ),
        TransportEvent::TcpFailed(source) => TransportAction::Fail(
            ClientError::WorkloadConnect { addr: target_addr.to_string(), source },
        ),
        TransportEvent::TlsFailed(source) => TransportAction::Fail(
            ClientError::WorkloadConnect { addr: target_addr.to_string(), source },
        ),
    }
}

/// The seconds of the waits before the first `retries` retries together.
pub open spec fn waited(retries: nat) -> nat
    decreases retries,
{
    if retries == 0 {
        0
    } else {
        waited((retries - 1) as nat) + retry_pause((retries - 1) as nat)
    }
}

/// All waits together are fifteen seconds.
pub proof fn law_waits_are_bounded(retries: nat)
    requires
        retries <= WORKLOAD_DIAL_RETRIES,
    ensures
        waited(retries) <= 15,
        waited(WORKLOAD_DIAL_RETRIES as nat) == 15,
        waited(retries) + 1 == retry_pause(retries),
{
    reveal_with_fuel(waited, 6);
    reveal_with_fuel(retry_pause, 6);
}

/// The probes after outcomes, in order.
pub open spec fn retry_after_all(retry: RetryView, outcomes: Seq<ProbeOutcome>) -> RetryView
    decreases outcomes.len(),
{
    if outcomes.len() == 0 {
        retry
    } else {
        retry_after(retry_after_all(retry, outcomes.drop_last()), outcomes.last())
    }
}

/// While no identity is issued, the probe is retried four times and then given
/// up, so there are at most five probes.
pub proof fn law_missing_identity_is_probed_five_times(
    socket: Seq<char>,
    outcomes: Seq<ProbeOutcome>,
    next: ProbeOutcome,
)
    requires
        outcomes.len() < WORKLOAD_DIAL_MAX_ATTEMPTS,
        forall|i: int| 0 <= i < outcomes.len() ==> #[trigger] outcomes[i] is NoIdentityIssued,
        next is NoIdentityIssued,
    ensures
        ({
            let retry = retry_after_all(RetryView { socket, failures: 0 }, outcomes);
            &&& retry.failures == outcomes.len()
            &&& retry_step(retry, next) is RetryAfter <==> outcomes.len() + 1
                < WORKLOAD_DIAL_MAX_ATTEMPTS
            &&& outcomes.len() + 1 == WORKLOAD_DIAL_MAX_ATTEMPTS ==> retry_step(retry, next)
                == RetryStepView::Fail(
                crate::client::ClientErrorView::WorkloadNoIdentityIssued {
                    socket,
                    attempts: WORKLOAD_DIAL_MAX_ATTEMPTS,
                    source: next->NoIdentityIssued_0@,
                },
            )
        }),
    decreases outcomes.len(),
{
    let start = RetryView { socket, failures: 0 };
    if outcomes.len() > 0 {
        assert(outcomes[outcomes.len() - 1] is NoIdentityIssued);
        let before = outcomes.drop_last();
        assert forall|i: int| 0 <= i < before.len() implies #[trigger] before[i]
            is NoIdentityIssued by {
            assert(outcomes[i] == before[i]);
        }
        law_missing_identity_is_probed_five_times(socket, before, outcomes.last());
    }
    lemma_socket_stays(start, outcomes);
}

proof fn lemma_socket_stays(retry: RetryView, outcomes: Seq<ProbeOutcome>)
    ensures
        retry_after_all(retry, outcomes).socket == retry.socket,
    decreases outcomes.len(),
{
    if outcomes.len() > 0 {
        lemma_socket_stays(retry, outcomes.drop_last());
    }
}

/// A failure other than "no identity issued" is never retried, however many
/// probes came before it.
pub proof fn law_other_failures_are_final(retry: RetryView, message: String)
    ensures
        retry_step(retry, ProbeOutcome::Failed(message)) == RetryStepView::Fail(
            crate::client::ClientErrorView::WorkloadProbe {
                socket: retry.socket,
                source: message@,
            },
        ),
{
}

/// Nothing is connected to before the identity is issued, its source is open
/// and the TLS configuration is built, in this order.
pub proof fn law_connection_follows_identity(
    addr: Seq<char>,
    socket: Seq<char>,
    trust_domain: Seq<char>,
    events: Seq<DialEvent>,
)
    ensures
        ({
            let stage = dial_after_all(new_dial(addr, socket, trust_domain), events).stage;
            &&& stage == DialStage::OpeningSource ==> is_reached(events, 1)
            &&& stage == DialStage::BuildingTls ==> is_reached(events, 2)
            &&& stage == DialStage::Connecting ==> is_reached(events, 3)
        }),
    decreases events.len(),
{
    if events.len() > 0 {
        let before = events.drop_last();
        law_connection_follows_identity(addr, socket, trust_domain, before);
        assert forall|depth: nat| #[trigger] is_reached(before, depth) implies is_reached(
            events,
            depth,
        ) by {
            lemma_reached_stays(events, depth);
        }
        let last = events.len() - 1;
        assert(events.take(last) =~= before);
        assert forall|depth: nat|
            depth > 0 && is_milestone(depth, events[last]) && is_reached(
                before,
                (depth - 1) as nat,
            ) implies #[trigger] is_reached(events, depth) by {}
    }
}

/// Whether the first `depth` of these happened in this order: the identity is
/// issued, its source is open, the TLS configuration is built.
pub open spec fn is_reached(events: Seq<DialEvent>, depth: nat) -> bool
    decreases depth,
{
    if depth == 0 {
        true
    } else {
        exists|i: int|
            0 <= i < events.len() && is_milestone(depth, #[trigger] events[i]) && is_reached(
                events.take(i),
                (depth - 1) as nat,
            )
    }
}

/// Whether an event is the one that a connection has to pass at `depth`.
pub open spec fn is_milestone(depth: nat, event: DialEvent) -> bool {
    ||| depth == 1 && event == DialEvent::Probed(ProbeOutcome::Issued)
    ||| depth == 2 && event == DialEvent::SourceOpened
    ||| depth == 3 && event == DialEvent::TlsBuilt
}

proof fn lemma_reached_stays(events: Seq<DialEvent>, depth: nat)
    requires
        events.len() > 0,
        is_reached(events.drop_last(), depth),
    ensures
        is_reached(events, depth),
{
    let before = events.drop_last();
    if depth > 0 {
        let i = choose|i: int|
            0 <= i < before.len() && is_milestone(depth, #[trigger] before[i]) && is_reached(
                before.take(i),
                (depth - 1) as nat,
            );
        assert(events[i] == before[i]);
        assert(events.take(i) =~= before.take(i));
    }
}

/// An identity that is issued is taken, however many probes found none before:
/// after any run of outcomes, an issued identity ends the probing with it, and
/// the dial goes on to open its source.
pub proof fn law_issued_identity_is_taken(
    dial: DialView,
    outcomes: Seq<ProbeOutcome>,
    events: Seq<DialEvent>,
)
    ensures
        retry_step(retry_after_all(dial.retry, outcomes), ProbeOutcome::Issued)
            == RetryStepView::Issued,
        dial_after_all(dial, events).stage == DialStage::Probing ==> dial_action(
            dial_after_all(dial, events),
            DialEvent::Probed(ProbeOutcome::Issued),
        ) == DialActionView::OpenSource,
{
}

/// What a probe comes to in every state: an issued identity, and nothing else,
/// succeeds; "no identity issued", and nothing else, is retried, while fewer
/// than four retries were made; each error names the socket, and carries the
/// message of the last probe.
pub proof fn law_probe_outcomes(retry: RetryView, outcome: ProbeOutcome)
    ensures
        retry_step(retry, outcome) is Issued <==> outcome is Issued,
        retry_step(retry, outcome) is RetryAfter <==> outcome is NoIdentityIssued && retry.failures
            < 4,
        outcome matches ProbeOutcome::Failed(message) ==> retry_step(retry, outcome)
            == RetryStepView::Fail(
            crate::client::ClientErrorView::WorkloadProbe {
                socket: retry.socket,
                source: message@,
            },
        ),
        retry.failures >= 4 ==> (outcome matches ProbeOutcome::NoIdentityIssued(message)
            ==> retry_step(retry, outcome) == RetryStepView::Fail(
            crate::client::ClientErrorView::WorkloadNoIdentityIssued {
                socket: retry.socket,
                attempts: 5,
                source: message@,
            },
        )),
        retry_after(retry, outcome).socket == retry.socket,
        retry_after(retry, outcome).failures == retry.failures + (if outcome is NoIdentityIssued
            && retry.failures < 4 {
            1int
        } else {
            0int
        }),
{
}

/// The waits before the retries are one second and then twice as long each time.
pub proof fn law_waits_double(failures: nat, outcome: ProbeOutcome, socket: Seq<char>)
    requires
        failures < 4,
        outcome is NoIdentityIssued,
    ensures
        ({
            let wait = retry_step(RetryView { socket, failures }, outcome)->RetryAfter_0;
            &&& failures == 0 ==> wait == 1_000_000_000
            &&& failures > 0 ==> wait == 2 * retry_step(
                RetryView { socket, failures: (failures - 1) as nat },
                outcome,
            )->RetryAfter_0
        }),
{
    reveal_with_fuel(retry_pause, 6);
}

/// What each event comes to at each stage of a dial, and that other events come
/// to nothing. The endpoint is a plaintext one, since the handshake is done by
/// the connector, and its server name is the host of the address.
pub proof fn law_dial_actions(dial: DialView, event: DialEvent)
    ensures
        ({
            let action = dial_action(dial, event);
            let host = crate::address::host_text(dial.addr, crate::address::socket_ip(dial.addr));
            let endpoint = crate::client::endpoint_outcome("http://"@ + dial.addr);
            &&& dial.stage == DialStage::Probing ==> match event {
                DialEvent::Probed(ProbeOutcome::Issued) => action is OpenSource,
                DialEvent::Probed(outcome) => match retry_step(dial.retry, outcome) {
                    RetryStepView::RetryAfter(wait) => action == DialActionView::ProbeAfter(wait),
                    RetryStepView::Fail(error) => action == DialActionView::Fail(error),
                    RetryStepView::Issued => false,
                },
                _ => action is Ignore,
            }
            &&& dial.stage == DialStage::OpeningSource ==> match event {
                DialEvent::SourceOpened => action == (DialActionView::BuildTls {
                    trust_domain: dial.trust_domain,
                }),
                DialEvent::SourceFailed(message) => action == DialActionView::Fail(
                    crate::client::ClientErrorView::WorkloadApi {
                        socket: dial.retry.socket,
                        source: message@,
                    },
                ),
                _ => action is Ignore,
            }
            &&& dial.stage == DialStage::BuildingTls ==> match event {
                DialEvent::TlsBuilt => if !is_server_name(host) {
                    action == DialActionView::Fail(
                        crate::client::ClientErrorView::InvalidWorkloadAddress(dial.addr),
                    )
                } else if endpoint is Err {
                    action == DialActionView::Fail(
                        crate::client::ClientErrorView::InvalidEndpoint {
                            addr: dial.addr,
                            source: endpoint->Err_0,
                        },
                    )
                } else {
                    action == (DialActionView::Connect {
                        uri: "http://"@ + dial.addr,
                        server_name: host,
                    })
                },
                DialEvent::TlsFailed(message) => action == DialActionView::Fail(
                    crate::client::ClientErrorView::SpiffeTls(message@),
                ),
                _ => action is Ignore,
            }
            &&& dial.stage == DialStage::Connecting ==> match event {
                DialEvent::Connected => action is Done,
                DialEvent::ConnectFailed(message) => action == DialActionView::Fail(
                    crate::client::ClientErrorView::Connect { addr: dial.addr, source: message@ },
                ),
                _ => action is Ignore,
            }
            &&& dial.stage == DialStage::Ended ==> action is Ignore
        }),
{
    crate::client::law_scheme_follows_the_transport(dial.addr);
}

/// The stage of a dial follows what it is to do next, and everything else of it
/// stays but for the probes that are made.
pub proof fn law_dial_stages(dial: DialView, event: DialEvent)
    ensures
        ({
            let action = dial_action(dial, event);
            let later = dial_after(dial, event);
            &&& action is ProbeAfter ==> later.stage == DialStage::Probing
            &&& action is OpenSource ==> later.stage == DialStage::OpeningSource
            &&& action is BuildTls ==> later.stage == DialStage::BuildingTls
            &&& action is Connect ==> later.stage == DialStage::Connecting
            &&& action is Done || action is Fail ==> later.stage == DialStage::Ended
            &&& action is Ignore ==> later == dial
            &&& later.addr == dial.addr && later.trust_domain == dial.trust_domain
            &&& later.retry.socket == dial.retry.socket
            &&& later.retry.failures == dial.retry.failures + (if action is ProbeAfter {
                1int
            } else {
                0int
            })
        }),
{
}

/// A dial begins by probing for the identity at its socket, with no probe made
/// yet; with a text that is no trust domain it does not begin at all.
pub proof fn law_dial_begins_with_a_trust_domain(
    addr: Seq<char>,
    socket: Seq<char>,
    trust_domain: Seq<char>,
    message: Seq<char>,
)
    ensures
        dial_start(addr, socket, trust_domain, Ok(())) matches Ok(dial) && dial.addr == addr
            && dial.trust_domain == trust_domain && dial.retry.socket == socket
            && dial.retry.failures == 0 && dial.stage == DialStage::Probing,
        dial_start(addr, socket, trust_domain, Err(message)) == Err::<
            DialView,
            crate::client::ClientErrorView,
        >(crate::client::ClientErrorView::InvalidTrustDomain(trust_domain, message)),
{
}

/// What is done once the host and the endpoint are judged: a host that is no
/// server name is found first, then a URI that is no endpoint.
pub proof fn law_connection_is_judged_in_order(
    addr: Seq<char>,
    host: Seq<char>,
    message: Seq<char>,
    outcome: Result<(), Seq<char>>,
)
    ensures
        connect_action(addr, host, false, outcome) == DialActionView::Fail(
            crate::client::ClientErrorView::InvalidWorkloadAddress(addr),
        ),
        connect_action(addr, host, true, Err(message)) == DialActionView::Fail(
            crate::client::ClientErrorView::InvalidEndpoint { addr, source: message },
        ),
        connect_action(addr, host, true, Ok(())) == (DialActionView::Connect {
            uri: "http://"@ + addr,
            server_name: host,
        }),
{
    crate::client::law_scheme_follows_the_transport(addr);
}

/// A transport connection resolves, connects and shakes hands in turn; an
/// address that resolves to nothing is no address, and every other failure says
/// that the connection failed, and why.
pub proof fn law_transport_steps(addr: Seq<char>, event: TransportEvent, action: TransportAction)
    requires
        is_transport_action(addr, event, action),
    ensures
        action is ConnectTcp <==> (event matches TransportEvent::Resolved { addresses } && addresses
            > 0),
        action is Handshake <==> event is TcpConnected,
        action is Done <==> event is TlsEstablished,
        event matches TransportEvent::Resolved { addresses } && addresses == 0 ==> (
        action matches TransportAction::Fail(error) && error@
            == crate::client::ClientErrorView::InvalidWorkloadAddress(addr)),
        event matches TransportEvent::ResolveFailed(message) ==> (
        action matches TransportAction::Fail(error) && error@ == (
        crate::client::ClientErrorView::WorkloadConnect { addr, source: message@ })),
        event matches TransportEvent::TcpFailed(message) ==> (
        action matches TransportAction::Fail(error) && error@ == (
        crate::client::ClientErrorView::WorkloadConnect { addr, source: message@ })),
        event matches TransportEvent::TlsFailed(message) ==> (
        action matches TransportAction::Fail(error) && error@ == (
        crate::client::ClientErrorView::WorkloadConnect { addr, source: message@ })),
{
}

/// The views of steps, actions and dials keep what they hold.
pub proof fn law_views_are_faithful(
    a: String,
    b: String,
    wait: Duration,
    error: ClientError,
    dial: WorkloadDial,
)
    ensures
        RetryStep::Issued@ == RetryStepView::Issued,
        RetryStep::RetryAfter(wait)@ == RetryStepView::RetryAfter(wait@),
        RetryStep::Fail(error)@ == RetryStepView::Fail(error@),
        DialAction::ProbeAfter(wait)@ == DialActionView::ProbeAfter(wait@),
        DialAction::OpenSource@ == DialActionView::OpenSource,
        (DialAction::BuildTls { trust_domain: a })@ == (DialActionView::BuildTls {
            trust_domain: a@,
        }),
        (DialAction::Connect { uri: a, server_name: b })@ == (DialActionView::Connect {
            uri: a@,
            server_name: b@,
        }),
        DialAction::Done@ == DialActionView::Done,
        DialAction::Fail(error)@ == DialActionView::Fail(error@),
        DialAction::Ignore@ == DialActionView::Ignore,
        dial_result_view(Ok(dial)) == Ok::<DialView, crate::client::ClientErrorView>(dial@),
        dial_result_view(Err(error)) == Err::<DialView, crate::client::ClientErrorView>(error@),
{
}

/// An identity that is issued at one of the five probes is taken: after fewer
/// than five probes that all found none, an issued identity ends the probing,
/// and the dial, which is still probing, opens its source.
pub proof fn law_identity_issued_in_time_is_taken(
    addr: Seq<char>,
    socket: Seq<char>,
    trust_domain: Seq<char>,
    outcomes: Seq<ProbeOutcome>,
)
    requires
        outcomes.len() < WORKLOAD_DIAL_MAX_ATTEMPTS,
        forall|i: int| 0 <= i < outcomes.len() ==> #[trigger] outcomes[i] is NoIdentityIssued,
    ensures
        WORKLOAD_DIAL_MAX_ATTEMPTS == 5,
        ({
            let retry = retry_after_all(RetryView { socket, failures: 0 }, outcomes);
            let dial = dial_after_all(
                (DialView {
                    addr,
                    trust_domain,
                    retry: RetryView { socket, failures: 0 },
                    stage: DialStage::Probing,
                }),
                outcomes.map_values(|outcome: ProbeOutcome| DialEvent::Probed(outcome)),
            );
            let issued = DialEvent::Probed(ProbeOutcome::Issued);
            &&& retry == (RetryView { socket, failures: outcomes.len() })
            &&& retry_step(retry, ProbeOutcome::Issued) == RetryStepView::Issued
            &&& dial.stage == DialStage::Probing
            &&& dial.retry == retry
            &&& dial_action(dial, issued) == DialActionView::OpenSource
            &&& dial_after(dial, issued).stage == DialStage::OpeningSource
        }),
    decreases outcomes.len(),
{
    if outcomes.len() > 0 {
        let before = outcomes.drop_last();
        let f = |outcome: ProbeOutcome| DialEvent::Probed(outcome);
        assert forall|i: int| 0 <= i < before.len() implies #[trigger] before[i]
            is NoIdentityIssued by {
            assert(outcomes[i] == before[i]);
        }
        assert(outcomes[outcomes.len() - 1] is NoIdentityIssued);
        law_identity_issued_in_time_is_taken(addr, socket, trust_domain, before);
        assert(outcomes.map_values(f).drop_last() =~= before.map_values(f));
        assert(outcomes.map_values(f).last() == DialEvent::Probed(outcomes.last()));
    }
}

}
