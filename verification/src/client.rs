//! Connecting to signet's admin listener with a bearer token.
//!
//! What a connection needs is decided here: the transport, from the address
//! and the caller's overrides, the endpoint, and the credential that goes with
//! every call. Opening the connection is left to the caller.
use crate::address::is_local_address;
use crate::text::{joined, quote, trim};
use vstd::prelude::*;

verus! {

/// Errors of the connection helpers.
#[derive(Debug)]
pub enum ClientError {
    /// The token is empty or white space only.
    EmptyToken,
    /// A CA PEM bundle holds no certificate.
    InvalidCaPem,
    /// Both `force_tls` and `plaintext` are set, which ask for opposite
    /// transports.
    ForceTlsPlaintextConflict,
    /// `plaintext` is set and a CA PEM bundle is given: without TLS there is
    /// nothing to verify against it.
    PlaintextCaPemConflict,
    /// A CA PEM bundle cannot be parsed.
    CaPemParse(String),
    /// The address makes no valid endpoint URI.
    InvalidEndpoint { addr: String, source: String },
    /// The transport connection could not be established.
    Connect { addr: String, source: String },
    /// A CA bundle could not be read from disk.
    ReadCaFile { path: String, source: String },
    /// The SPIFFE Workload API could not be connected to.
    WorkloadApi { socket: String, source: String },
    /// The SPIFFE Workload API issued no identity, however often it was
    /// asked.
    WorkloadNoIdentityIssued { socket: String, attempts: usize, source: String },
    /// Asking the SPIFFE Workload API for an identity failed for another
    /// reason than that none is issued.
    WorkloadProbe { socket: String, source: String },
    /// The trust domain is no valid SPIFFE trust domain.
    InvalidTrustDomain(String, String),
    /// The configuration for SPIFFE mTLS could not be built.
    SpiffeTls(String),
    /// The address is no valid `host:port` pair.
    InvalidWorkloadAddress(String),
    /// The TCP connection or the TLS handshake to the workload listener
    /// failed.
    WorkloadConnect { addr: String, source: String },
}

/// A [`ClientError`] over sequences of characters.
pub ghost enum ClientErrorView {
    EmptyToken,
    InvalidCaPem,
    ForceTlsPlaintextConflict,
    PlaintextCaPemConflict,
    CaPemParse(Seq<char>),
    InvalidEndpoint { addr: Seq<char>, source: Seq<char> },
    Connect { addr: Seq<char>, source: Seq<char> },
    ReadCaFile { path: Seq<char>, source: Seq<char> },
    WorkloadApi { socket: Seq<char>, source: Seq<char> },
    WorkloadNoIdentityIssued { socket: Seq<char>, attempts: usize, source: Seq<char> },
    WorkloadProbe { socket: Seq<char>, source: Seq<char> },
    InvalidTrustDomain(Seq<char>, Seq<char>),
    SpiffeTls(Seq<char>),
    InvalidWorkloadAddress(Seq<char>),
    WorkloadConnect { addr: Seq<char>, source: Seq<char> },
}

impl View for ClientError {
    type V = ClientErrorView;

    open spec fn view(&self) -> ClientErrorView {
        match self {
            ClientError::EmptyToken => ClientErrorView::EmptyToken,
            ClientError::InvalidCaPem => ClientErrorView::InvalidCaPem,
            ClientError::ForceTlsPlaintextConflict => ClientErrorView::ForceTlsPlaintextConflict,
            ClientError::PlaintextCaPemConflict => ClientErrorView::PlaintextCaPemConflict,
            ClientError::CaPemParse(cause) => ClientErrorView::CaPemParse(cause@),
            ClientError::InvalidEndpoint { addr, source } => ClientErrorView::InvalidEndpoint {
                addr: addr@,
                source: source@,
            },
            ClientError::Connect { addr, source } => ClientErrorView::Connect {
                addr: addr@,
                source: source@,
            },
            ClientError::ReadCaFile { path, source } => ClientErrorView::ReadCaFile {
                path: path@,
                source: source@,
            },
            ClientError::WorkloadApi { socket, source } => ClientErrorView::WorkloadApi {
                socket: socket@,
                source: source@,
            },
            ClientError::WorkloadNoIdentityIssued { socket, attempts, source } => {
                ClientErrorView::WorkloadNoIdentityIssued {
                    socket: socket@,
                    attempts: *attempts,
                    source: source@,
                }
            },
            ClientError::WorkloadProbe { socket, source } => ClientErrorView::WorkloadProbe {
                socket: socket@,
                source: source@,
            },
            ClientError::InvalidTrustDomain(domain, cause) => ClientErrorView::InvalidTrustDomain(
                domain@,
                cause@,
            ),
            ClientError::SpiffeTls(cause) => ClientErrorView::SpiffeTls(cause@),
            ClientError::InvalidWorkloadAddress(addr) => ClientErrorView::InvalidWorkloadAddress(
                addr@,
            ),
            ClientError::WorkloadConnect { addr, source } => ClientErrorView::WorkloadConnect {
                addr: addr@,
                source: source@,
            },
        }
    }
}

/// A message that names something in quotes and says why: `before`, the name,
/// a colon and the cause.
pub open spec fn named_message(
    before: Seq<char>,
    name: Seq<char>,
    cause: Seq<char>,
) -> Seq<char> {
    before + crate::text::debug_quoted(name) + ": "@ + cause
}

fn name_message(before: &str, name: &str, cause: &str) -> (message: String)
    ensures
        message@ == named_message(before@, name@, cause@),
{
    let mut message = joined(before, quote(name).as_str());
    message.append(": ");
    message.append(cause);
    message
}

impl ClientError {
    /// What the error says.
    pub open spec fn message(&self) -> Seq<char> {
        match self {
            ClientError::EmptyToken => "token must not be empty"@,
            ClientError::InvalidCaPem => "invalid CA PEM bundle: no certificates found"@,
            ClientError::ForceTlsPlaintextConflict => {
                "force_tls and plaintext are mutually exclusive"@
            },
            ClientError::PlaintextCaPemConflict => "plaintext and ca_pem are mutually exclusive"@,
            ClientError::CaPemParse(cause) => "invalid CA PEM bundle: "@ + cause@,
            ClientError::InvalidEndpoint { addr, source } => named_message(
                "invalid address "@,
                addr@,
                source@,
            ),
            ClientError::Connect { addr, source } => named_message(
                "connect to "@,
                addr@,
                source@,
            ),
            ClientError::ReadCaFile { path, source } => named_message(
                "read CA file "@,
                path@,
                source@,
            ),
            ClientError::WorkloadApi { socket, source } => named_message(
                "connect to SPIFFE Workload API at "@,
                socket@,
                source@,
            ),
            ClientError::WorkloadNoIdentityIssued { socket, attempts, source } => named_message(
                "connect to SPIFFE workload API at "@,
                socket@,
                "no identity issued after "@ + crate::text::decimal(*attempts as nat)
                    + " attempts: "@ + source@,
            ),
            ClientError::WorkloadProbe { socket, source } => named_message(
                "connect to SPIFFE workload API at "@,
                socket@,
                source@,
            ),
            ClientError::InvalidTrustDomain(domain, cause) => named_message(
                "invalid trust domain "@,
                domain@,
                cause@,
            ),
            ClientError::SpiffeTls(cause) => "build SPIFFE mTLS client config: "@ + cause@,
            ClientError::InvalidWorkloadAddress(addr) => named_message(
                "invalid workload address "@,
                addr@,
                "expected host:port"@,
            ),
            ClientError::WorkloadConnect { addr, source } => named_message(
                "connect to "@,
                addr@,
                source@,
            ),
        }
    }

    /// What the error says.
    pub fn to_string(&self) -> (text: String)
        ensures
            text@ == self.message(),
    {
        match self {
            ClientError::EmptyToken => "token must not be empty".to_string(),
            ClientError::InvalidCaPem => "invalid CA PEM bundle: no certificates found".to_string(),
            ClientError::ForceTlsPlaintextConflict => {
                "force_tls and plaintext are mutually exclusive".to_string()
            },
            ClientError::PlaintextCaPemConflict => {
                "plaintext and ca_pem are mutually exclusive".to_string()
            },
            ClientError::CaPemParse(cause) => joined("invalid CA PEM bundle: ", cause.as_str()),
            ClientError::InvalidEndpoint { addr, source } => {
                name_message("invalid address ", addr.as_str(), source.as_str())
            },
            ClientError::Connect { addr, source } => {
                name_message("connect to ", addr.as_str(), source.as_str())
            },
            ClientError::ReadCaFile { path, source } => {
                name_message("read CA file ", path.as_str(), source.as_str())
            },
            ClientError::WorkloadApi { socket, source } => {
                name_message(
                    "connect to SPIFFE Workload API at ",
                    socket.as_str(),
                    source.as_str(),
                )
            },
            ClientError::WorkloadNoIdentityIssued { socket, attempts, source } => {
                let mut cause = "no identity issued after ".to_string();
                crate::text::push_decimal(&mut cause, *attempts as u64);
                cause.append(" attempts: ");
                cause.append(source.as_str());
                name_message("connect to SPIFFE workload API at ", socket.as_str(), cause.as_str())
            },
            ClientError::WorkloadProbe { socket, source } => {
                name_message(
                    "connect to SPIFFE workload API at ",
                    socket.as_str(),
                    source.as_str(),
                )
            },
            ClientError::InvalidTrustDomain(domain, cause) => {
                name_message("invalid trust domain ", domain.as_str(), cause.as_str())
            },
            ClientError::SpiffeTls(cause) => {
                joined("build SPIFFE mTLS client config: ", cause.as_str())
            },
            ClientError::InvalidWorkloadAddress(addr) => {
                name_message("invalid workload address ", addr.as_str(), "expected host:port")
            },
            ClientError::WorkloadConnect { addr, source } => {
                name_message("connect to ", addr.as_str(), source.as_str())
            },
        }
    }
}

/// What the certificates of a TLS server are verified against.
#[derive(Debug)]
pub enum TrustRoots {
    /// The trust store of the system.
    System,
    /// The certificates of this PEM bundle.
    Pem(Vec<u8>),
}

/// How to speak to a server.
#[derive(Debug)]
pub enum TransportDecision {
    /// Without TLS.
    Plaintext,
    /// With TLS.
    Tls(TrustRoots),
}

/// A [`TransportDecision`] over sequences of bytes.
pub ghost enum TransportView {
    Plaintext,
    TlsSystem,
    TlsPem(Seq<u8>),
}

impl View for TransportDecision {
    type V = TransportView;

    open spec fn view(&self) -> TransportView {
        match self {
            TransportDecision::Plaintext => TransportView::Plaintext,
            TransportDecision::Tls(TrustRoots::System) => TransportView::TlsSystem,
            TransportDecision::Tls(TrustRoots::Pem(pem)) => TransportView::TlsPem(pem@),
        }
    }
}

impl TransportDecision {
    /// Whether the transport is TLS.
    pub fn requires_tls(&self) -> (tls: bool)
        ensures
            tls == !(self@ is Plaintext),
    {
        match self {
            TransportDecision::Plaintext => false,
            TransportDecision::Tls(_) => true,
        }
    }
}

/// The outcomes of checks, each with its message taken as characters.
pub open spec fn outcomes_view(outcomes: Seq<Result<(), String>>) -> Seq<Result<(), Seq<char>>> {
    outcomes.map_values(|outcome: Result<(), String>| crate::text::outcome_view(outcome))
}

/// What reading the certificates of a PEM bundle gives, one after the other:
/// a certificate, or the message of an error.
pub uninterp spec fn pem_certificates(pem: Seq<u8>) -> Seq<Result<(), Seq<char>>>;

/// `rustls_pemfile::certs`, to its end.
///
/// What it gives is a function of the bundle.
#[verifier::external_body]
fn read_certificates(pem: &[u8]) -> (items: Vec<Result<(), String>>)
    ensures
        outcomes_view(items@) == pem_certificates(pem@),
{
    let mut reader = std::io::BufReader::new(pem);
    rustls_pemfile::certs(&mut reader)
        .map(|item| item.map(|_| ()).map_err(|e| e.to_string()))
        .collect()
}

/// What is wrong with a CA bundle whose certificates read like this: the first
/// error among them, or that there is none at all.
pub open spec fn ca_pem_fault(items: Seq<Result<(), Seq<char>>>) -> Option<ClientErrorView> {
    if exists|i: int| is_first_error(items, i) {
        Some(
            ClientErrorView::CaPemParse(items[choose|i: int| is_first_error(items, i)]->Err_0),
        )
    } else if items.len() == 0 {
        Some(ClientErrorView::InvalidCaPem)
    } else {
        None
    }
}

/// Whether the first error among outcomes is the one at `i`.
pub open spec fn is_first_error(items: Seq<Result<(), Seq<char>>>, i: int) -> bool {
    0 <= i < items.len() && items[i] is Err && forall|j: int| 0 <= j < i ==> #[trigger] items[j] is Ok
}

/// Accepts a CA bundle whose certificates read like this where there is at
/// least one and no error among them.
pub fn judge_certificates(items: &Vec<Result<(), String>>) -> (checked: Result<(), ClientError>)
    ensures
        match ca_pem_fault(outcomes_view(items@)) {
            Some(fault) => checked matches Err(error) && error@ == fault,
            None => checked is Ok,
        },
{
    let ghost outcomes = outcomes_view(items@);
    let mut i: usize = 0;
    while i < items.len()
        invariant
            i <= items.len(),
            outcomes == outcomes_view(items@),
            forall|j: int| 0 <= j < i ==> #[trigger] outcomes[j] is Ok,
        decreases items.len() - i,
    {
        assert(outcomes[i as int] == crate::text::outcome_view(items@[i as int]));
        if let Err(message) = &items[i] {
            proof {
                assert(is_first_error(outcomes, i as int));
                let k = choose|k: int| is_first_error(outcomes, k);
                if k < i {
                    assert(outcomes[k] is Ok);
                } else if i < k {
                    assert(outcomes[i as int] is Ok);
                }
            }
            return Err(ClientError::CaPemParse(message.clone()));
        }
        i = i + 1;
    }
    proof {
        assert forall|k: int| !is_first_error(outcomes, k) by {
            if is_first_error(outcomes, k) {
                assert(outcomes[k] is Ok);
            }
        }
    }
    if items.len() == 0 {
        return Err(ClientError::InvalidCaPem);
    }
    Ok(())
}

/// Accepts a CA bundle that holds at least one certificate and nothing that
/// cannot be parsed.
pub fn validate_ca_pem(pem: &[u8]) -> (checked: Result<(), ClientError>)
    ensures
        match ca_pem_fault(pem_certificates(pem@)) {
            Some(fault) => checked matches Err(error) && error@ == fault,
            None => checked is Ok,
        },
{
    judge_certificates(&read_certificates(pem))
}

/// The bytes of an optional CA bundle; none and an empty one are the same.
pub open spec fn ca_bytes(ca_pem: Option<&[u8]>) -> Seq<u8> {
    match ca_pem {
        Some(pem) => pem@,
        None => Seq::empty(),
    }
}

/// How to speak to a server, given whether its address is one of the local
/// machine. Without overrides a local server is spoken to in plaintext and
/// every other one with TLS; a CA bundle asks for TLS too.
pub open spec fn transport(
    local: bool,
    ca: Seq<u8>,
    force_tls: bool,
    plaintext: bool,
) -> Result<TransportView, ClientErrorView> {
    if plaintext && force_tls {
        Err(ClientErrorView::ForceTlsPlaintextConflict)
    } else if plaintext && ca.len() > 0 {
        Err(ClientErrorView::PlaintextCaPemConflict)
    } else if plaintext || (!force_tls && ca.len() == 0 && local) {
        Ok(TransportView::Plaintext)
    } else if ca.len() == 0 {
        Ok(TransportView::TlsSystem)
    } else {
        match ca_pem_fault(pem_certificates(ca)) {
            Some(fault) => Err(fault),
            None => Ok(TransportView::TlsPem(ca)),
        }
    }
}

/// A decision, or the error instead of it, over views.
pub open spec fn transport_view(decision: Result<TransportDecision, ClientError>) -> Result<
    TransportView,
    ClientErrorView,
> {
    match decision {
        Ok(decision) => Ok(decision@),
        Err(error) => Err(error@),
    }
}

/// Decides how to speak to a server, given whether its address is one of the
/// local machine; see [`admin_transport_decision`].
pub fn transport_given(
    local: bool,
    ca_pem: Option<&[u8]>,
    force_tls: bool,
    plaintext: bool,
) -> (decision: Result<TransportDecision, ClientError>)
    ensures
        transport_view(decision) == transport(local, ca_bytes(ca_pem), force_tls, plaintext),
{
    let ca_given: bool = match ca_pem {
        Some(pem) => pem.len() > 0,
        None => false,
    };
    if plaintext && force_tls {
        return Err(ClientError::ForceTlsPlaintextConflict);
    }
    if plaintext && ca_given {
        return Err(ClientError::PlaintextCaPemConflict);
    }
    if plaintext {
        return Ok(TransportDecision::Plaintext);
    }
    if !force_tls && !ca_given && local {
        return Ok(TransportDecision::Plaintext);
    }
    match ca_pem {
        Some(pem) => {
            if pem.len() == 0 {
                Ok(TransportDecision::Tls(TrustRoots::System))
            } else {
                match validate_ca_pem(pem) {
                    Ok(_) => Ok(
                        TransportDecision::Tls(TrustRoots::Pem(vstd::slice::slice_to_vec(pem))),
                    ),
                    Err(error) => Err(error),
                }
            }
        },
        None => Ok(TransportDecision::Tls(TrustRoots::System)),
    }
}

/// Whether the host of `addr` is the local machine.
pub open spec fn local_address(addr: Seq<char>) -> bool {
    let host = crate::address::host_text(addr, crate::address::socket_ip(addr));
    crate::address::is_local(host, crate::address::ip_loopback(host))
}

/// Decides how to speak to the admin listener at `addr`.
///
/// Addresses of the local machine default to plaintext, as a port-forward
/// makes them; every other address is upgraded to TLS, verified against the
/// certificates in `ca_pem`, or against the trust store of the system where
/// there are none. `force_tls` asks for TLS to a local address too;
/// `plaintext` asks for plaintext to any address, for a listener inside a
/// cluster that does not terminate TLS. The two exclude each other, and
/// `plaintext` excludes a CA bundle.
pub fn admin_transport_decision(
    addr: &str,
    ca_pem: Option<&[u8]>,
    force_tls: bool,
    plaintext: bool,
) -> (decision: Result<TransportDecision, ClientError>)
    ensures
        transport_view(decision) == transport(
            local_address(addr@),
            ca_bytes(ca_pem),
            force_tls,
            plaintext,
        ),
        crate::address::is_loopback_address(addr@) && ca_bytes(ca_pem).len() == 0 && !force_tls
            ==> decision matches Ok(TransportDecision::Plaintext),
        (crate::address::is_other_name_address(addr@) || crate::address::is_other_ip_address(addr@))
            && ca_bytes(ca_pem).len() == 0 && !plaintext ==> decision matches Ok(
            TransportDecision::Tls(TrustRoots::System),
        ),
{
    transport_given(is_local_address(addr), ca_pem, force_tls, plaintext)
}

/// Without overrides, speaking in plaintext and speaking to a local server are
/// the same; TLS is never given up for it but by asking for it.
pub proof fn law_plaintext_is_local_or_asked_for(
    local: bool,
    ca: Seq<u8>,
    force_tls: bool,
    plaintext: bool,
)
    ensures
        transport(local, ca, force_tls, plaintext) == Ok::<TransportView, ClientErrorView>(
            TransportView::Plaintext,
        ) <==> (plaintext && !force_tls && ca.len() == 0) || (!plaintext && !force_tls && ca.len()
            == 0 && local),
{
}

/// A CA bundle is never ignored: where one is given, the transport is TLS
/// verified against it, or there is an error.
pub proof fn law_ca_bundle_is_honoured(
    local: bool,
    ca: Seq<u8>,
    force_tls: bool,
    plaintext: bool,
)
    requires
        ca.len() > 0,
    ensures
        transport(local, ca, force_tls, plaintext) matches Ok(decided) ==> decided
            == TransportView::TlsPem(ca),
{
}

/// `force_tls` never gives plaintext, and `plaintext` never gives TLS.
pub proof fn law_overrides_are_honoured(local: bool, ca: Seq<u8>, force_tls: bool, plaintext: bool)
    ensures
        force_tls ==> (transport(local, ca, force_tls, plaintext) matches Ok(decided) ==> !(decided
            is Plaintext)),
        plaintext ==> (transport(local, ca, force_tls, plaintext) matches Ok(decided) ==> decided
            is Plaintext),
{
}

/// Whether a text can be a metadata value: it has no ASCII control character
/// but the tab.
pub open spec fn is_metadata_text(text: Seq<char>) -> bool {
    forall|i: int|
        0 <= i < text.len() ==> (#[trigger] text[i] >= '\u{20}' && text[i] != '\u{7f}') || text[i]
            == '\u{9}'
}

/// `tonic`'s `FromStr` of an ASCII `MetadataValue`.
///
/// It accepts the texts whose UTF-8 bytes are all 32 or more and not 127, or
/// tabs.
#[verifier::external_body]
fn metadata_accepts(text: &str) -> (accepted: bool)
    ensures
        accepted == is_metadata_text(text@),
{
    text.parse::<tonic::metadata::MetadataValue<tonic::metadata::Ascii>>().is_ok()
}

/// The credential of every call: `Authorization: Bearer <token>`.
#[derive(Clone)]
pub struct TokenInterceptor {
    header_value: String,
}

impl View for TokenInterceptor {
    type V = Seq<char>;

    closed spec fn view(&self) -> Seq<char> {
        self.header_value@
    }
}

impl TokenInterceptor {
    /// The credential for `token`; `None` where the token cannot stand in a
    /// metadata value.
    pub fn new(token: &str) -> (interceptor: Option<TokenInterceptor>)
        ensures
            interceptor is Some <==> is_metadata_text("Bearer "@ + token@),
            interceptor matches Some(interceptor) ==> interceptor@ == "Bearer "@ + token@,
    {
        let header_value = joined("Bearer ", token);
        if metadata_accepts(header_value.as_str()) {
            Some(TokenInterceptor { header_value })
        } else {
            None
        }
    }

    /// The value of the `authorization` metadata of every call.
    pub fn header_value(&self) -> (value: String)
        ensures
            value@ == self@,
    {
        self.header_value.clone()
    }
}

/// What making an endpoint of a URI gives: nothing where it can be made, or
/// the message of the error.
pub uninterp spec fn endpoint_outcome(uri: Seq<char>) -> Result<(), Seq<char>>;

/// `tonic`'s `Endpoint::from_shared`.
///
/// Whether it accepts a URI, and its message where it does not, is a function
/// of the URI.
#[verifier::external_body]
pub(crate) fn check_endpoint(uri: &str) -> (checked: Result<(), String>)
    ensures
        crate::text::outcome_view(checked) == endpoint_outcome(uri@),
{
    tonic::transport::Endpoint::from_shared(uri.to_string()).map(|_| ()).map_err(|e| e.to_string())
}

/// What a connection to the admin listener is opened with.
#[derive(Debug)]
pub struct AdminDial {
    /// The address that was asked for.
    pub addr: String,
    /// The URI of the endpoint.
    pub uri: String,
    /// How to speak to it.
    pub transport: TransportDecision,
    /// The token, without white space round it.
    pub token: String,
}

/// The URI of an endpoint at `addr`.
pub open spec fn endpoint_uri(addr: Seq<char>, tls: bool) -> Seq<char> {
    (if tls {
        "https"@
    } else {
        "http"@
    }) + "://"@ + addr
}

/// The URI of an endpoint at `addr`.
pub fn uri_of(addr: &str, tls: bool) -> (uri: String)
    ensures
        uri@ == endpoint_uri(addr@, tls),
        tls ==> uri@ == "https://"@ + addr@,
        !tls ==> uri@ == "http://"@ + addr@,
{
    proof {
        law_scheme_follows_the_transport(addr@);
    }
    let scheme = if tls { "https" } else { "http" };
    let mut uri = joined(scheme, "://");
    uri.append(addr);
    uri
}

/// What is wrong with what `dial_admin` is asked, in the order in which it is
/// found: the token, the transport, the address.
pub open spec fn admin_dial_fault(
    addr: Seq<char>,
    token: Seq<char>,
    decision: Result<TransportView, ClientErrorView>,
) -> Option<ClientErrorView> {
    if crate::text::trimmed(token).len() == 0 {
        Some(ClientErrorView::EmptyToken)
    } else {
        match decision {
            Err(error) => Some(error),
            Ok(decided) => match endpoint_outcome(endpoint_uri(addr, !(decided is Plaintext))) {
                Err(message) => Some(
                    ClientErrorView::InvalidEndpoint { addr, source: message },
                ),
                Ok(_) => None,
            },
        }
    }
}

/// Prepares a connection to signet's admin listener at `addr` that carries
/// `token` in every call.
///
/// The transport is chosen as [`admin_transport_decision`] does. A token that
/// is empty or white space only is refused before anything else.
pub fn dial_admin(
    addr: &str,
    token: &str,
    ca_pem: Option<&[u8]>,
    force_tls: bool,
    plaintext: bool,
) -> (dial: Result<AdminDial, ClientError>)
    ensures
        ({
            let decision = transport(
                local_address(addr@),
                ca_bytes(ca_pem),
                force_tls,
                plaintext,
            );
            match admin_dial_fault(addr@, token@, decision) {
                Some(fault) => dial matches Err(error) && error@ == fault,
                None => dial matches Ok(dial) && dial.addr@ == addr@ && dial.uri@ == endpoint_uri(
                    addr@,
                    !(decision->Ok_0 is Plaintext),
                ) && dial.transport@ == decision->Ok_0 && dial.token@ == crate::text::trimmed(
                    token@,
                ),
            }
        }),
        dial matches Ok(dial) ==> match dial.transport {
            TransportDecision::Tls(_) => dial.uri@ == "https://"@ + addr@,
            TransportDecision::Plaintext => dial.uri@ == "http://"@ + addr@,
        },
{
    let token = trim(token);
    if token.as_str().is_empty() {
        return Err(ClientError::EmptyToken);
    }
    let transport = match admin_transport_decision(addr, ca_pem, force_tls, plaintext) {
        Ok(transport) => transport,
        Err(error) => return Err(error),
    };
    let uri = uri_of(addr, transport.requires_tls());
    match check_endpoint(uri.as_str()) {
        Ok(_) => Ok(AdminDial { addr: addr.to_string(), uri, transport, token }),
        Err(source) => Err(ClientError::InvalidEndpoint { addr: addr.to_string(), source }),
    }
}

/// What comes of opening a connection to the admin listener.
#[derive(Debug)]
pub enum AdminEvent {
    /// The endpoint does not accept the transport.
    EndpointRefused(String),
    /// The connection could not be established.
    ConnectFailed(String),
    /// The connection is open.
    Connected,
}

impl AdminDial {
    /// Takes in what came of opening the connection. Gives the credential that
    /// goes with every call on it, which is `None` where the token cannot
    /// stand in a metadata value, or the error.
    pub fn on_event(&self, event: AdminEvent) -> (opened: Result<
        Option<TokenInterceptor>,
        ClientError,
    >)
        ensures
            match event {
                AdminEvent::EndpointRefused(message) => opened matches Err(error) && error@
                    == (ClientErrorView::InvalidEndpoint {
                    addr: self.addr@,
                    source: message@,
                }),
                AdminEvent::ConnectFailed(message) => opened matches Err(error) && error@
                    == (ClientErrorView::Connect { addr: self.addr@, source: message@ }),
                AdminEvent::Connected => opened matches Ok(credential) && (credential is Some
                    <==> is_metadata_text("Bearer "@ + self.token@)) && (credential matches Some(
                    interceptor,
                ) ==> interceptor@ == "Bearer "@ + self.token@),
            },
    {
        match event {
            AdminEvent::EndpointRefused(source) => Err(
                ClientError::InvalidEndpoint { addr: self.addr.clone(), source },
            ),
            AdminEvent::ConnectFailed(source) => Err(
                ClientError::Connect { addr: self.addr.clone(), source },
            ),
            AdminEvent::Connected => Ok(TokenInterceptor::new(self.token.as_str())),
        }
    }
}

/// A token that is empty or white space only, and no other, is refused as
/// empty, whatever else is asked.
pub proof fn law_blank_token_is_refused(
    addr: Seq<char>,
    token: Seq<char>,
    ca: Seq<u8>,
    force_tls: bool,
    plaintext: bool,
)
    ensures
        admin_dial_fault(
            addr,
            token,
            transport(local_address(addr), ca, force_tls, plaintext),
        ) == Some(ClientErrorView::EmptyToken) <==> forall|i: int|
            0 <= i < token.len() ==> crate::text::is_white_space(#[trigger] token[i]),
{
    crate::text::law_only_white_space_trims_to_nothing(token);
}

/// The URI of an endpoint is the address behind `https://` with TLS, and behind
/// `http://` without.
pub proof fn law_scheme_follows_the_transport(addr: Seq<char>)
    ensures
        endpoint_uri(addr, true) == "https://"@ + addr,
        endpoint_uri(addr, false) == "http://"@ + addr,
{
    reveal_strlit("https://");
    reveal_strlit("http://");
    reveal_strlit("https");
    reveal_strlit("http");
    reveal_strlit("://");
    assert("https"@ + "://"@ =~= "https://"@);
    assert("http"@ + "://"@ =~= "http://"@);
}

/// The host of an address, and nothing else of it, says whether it is local:
/// `localhost` in lower case, or a loopback IP address.
pub proof fn law_locality_is_that_of_the_host(addr: Seq<char>)
    ensures
        ({
            let host = crate::address::host_text(addr, crate::address::socket_ip(addr));
            local_address(addr) <==> host.map_values(|c: char| crate::text::ascii_lower(c))
                == "localhost"@ || crate::address::ip_loopback(host) == Some(true)
        }),
{
    let host = crate::address::host_text(addr, crate::address::socket_ip(addr));
    crate::address::law_local_is_localhost_or_loopback(host, crate::address::ip_loopback(host));
}

/// A CA bundle is at fault exactly where an error is among its certificates,
/// and then it is the first one, or where it has none at all.
pub proof fn law_ca_bundle_faults(items: Seq<Result<(), Seq<char>>>, i: int)
    ensures
        items.len() == 0 ==> ca_pem_fault(items) == Some(ClientErrorView::InvalidCaPem),
        items.len() > 0 && (forall|j: int| 0 <= j < items.len() ==> #[trigger] items[j] is Ok)
            ==> ca_pem_fault(items) is None,
        0 <= i < items.len() && items[i] is Err && (forall|j: int|
            0 <= j < i ==> #[trigger] items[j] is Ok) ==> ca_pem_fault(items) == Some(
            ClientErrorView::CaPemParse(items[i]->Err_0),
        ),
{
    if exists|k: int| is_first_error(items, k) {
        let k = choose|k: int| is_first_error(items, k);
        assert(items[k] is Err);
        if k < i {
            assert(items[k] is Err);
        } else if 0 <= i < k {
            assert(items[i] is Ok);
        }
    }
    if 0 <= i < items.len() && items[i] is Err && (forall|j: int|
        0 <= j < i ==> #[trigger] items[j] is Ok) {
        assert(is_first_error(items, i));
    }
}

/// The outcomes of reading certificates are seen one by one, each as it is.
pub proof fn law_outcomes_are_seen_as_they_are(items: Seq<Result<(), String>>, i: int)
    ensures
        outcomes_view(items).len() == items.len(),
        0 <= i < items.len() && items[i] is Ok ==> outcomes_view(items)[i] == Ok::<(), Seq<char>>(
            (),
        ),
        0 <= i < items.len() ==> (items[i] matches Err(message) ==> outcomes_view(items)[i] == Err::<
            (),
            Seq<char>,
        >(message@)),
{
}

/// The transport for every combination of what is asked. The two overrides
/// exclude each other, and plaintext excludes a CA bundle; plaintext is for
/// those who ask for it, and else for local addresses without an override or a
/// bundle; everything else is TLS, verified against the bundle where there is
/// one and it is not at fault.
pub proof fn law_transport_is_decided(local: bool, ca: Seq<u8>, force_tls: bool, plaintext: bool)
    ensures
        ({
            let decided = transport(local, ca, force_tls, plaintext);
            let fault = ca_pem_fault(pem_certificates(ca));
            &&& plaintext && force_tls ==> decided == Err::<TransportView, ClientErrorView>(
                ClientErrorView::ForceTlsPlaintextConflict,
            )
            &&& plaintext && !force_tls && ca.len() > 0 ==> decided == Err::<
                TransportView,
                ClientErrorView,
            >(ClientErrorView::PlaintextCaPemConflict)
            &&& plaintext && !force_tls && ca.len() == 0 ==> decided == Ok::<
                TransportView,
                ClientErrorView,
            >(TransportView::Plaintext)
            &&& !plaintext && ca.len() == 0 && (force_tls || !local) ==> decided == Ok::<
                TransportView,
                ClientErrorView,
            >(TransportView::TlsSystem)
            &&& !plaintext && ca.len() == 0 && !force_tls && local ==> decided == Ok::<
                TransportView,
                ClientErrorView,
            >(TransportView::Plaintext)
            &&& !plaintext && ca.len() > 0 && fault is None ==> decided == Ok::<
                TransportView,
                ClientErrorView,
            >(TransportView::TlsPem(ca))
            &&& !plaintext && ca.len() > 0 && fault is Some ==> decided == Err::<
                TransportView,
                ClientErrorView,
            >(fault->Some_0)
        }),
{
}

/// What is wrong with a dial is found in order: a blank token, then the
/// transport, then the endpoint, whose URI follows the transport; where nothing
/// is, there is no fault.
pub proof fn law_dial_faults_come_in_order(
    addr: Seq<char>,
    token: Seq<char>,
    decided: TransportView,
    refused: ClientErrorView,
)
    ensures
        ({
            let blank = forall|i: int|
                0 <= i < token.len() ==> crate::text::is_white_space(#[trigger] token[i]);
            let uri = if decided is Plaintext {
                "http://"@ + addr
            } else {
                "https://"@ + addr
            };
            let ok = Ok::<TransportView, ClientErrorView>(decided);
            let err = Err::<TransportView, ClientErrorView>(refused);
            &&& blank ==> admin_dial_fault(addr, token, ok) == Some(ClientErrorView::EmptyToken)
            &&& blank ==> admin_dial_fault(addr, token, err) == Some(ClientErrorView::EmptyToken)
            &&& !blank ==> admin_dial_fault(addr, token, err) == Some(refused)
            &&& !blank && endpoint_outcome(uri) is Ok ==> admin_dial_fault(addr, token, ok) is None
            &&& !blank && endpoint_outcome(uri) is Err ==> admin_dial_fault(addr, token, ok) == Some(
                ClientErrorView::InvalidEndpoint { addr, source: endpoint_outcome(uri)->Err_0 },
            )
        }),
{
    law_scheme_follows_the_transport(addr);
    crate::text::law_only_white_space_trims_to_nothing(token);
}

/// The views of transports, decisions and CA bundles keep what they hold.
pub proof fn law_transport_views_are_faithful(
    pem: Vec<u8>,
    ca: &[u8],
    decision: TransportDecision,
    error: ClientError,
)
    ensures
        TransportDecision::Plaintext@ == TransportView::Plaintext,
        TransportDecision::Tls(TrustRoots::System)@ == TransportView::TlsSystem,
        TransportDecision::Tls(TrustRoots::Pem(pem))@ == TransportView::TlsPem(pem@),
        transport_view(Ok(decision)) == Ok::<TransportView, ClientErrorView>(decision@),
        transport_view(Err(error)) == Err::<TransportView, ClientErrorView>(error@),
        ca_bytes(Some(ca)) == ca@,
        ca_bytes(None).len() == 0,
{
}

/// The view of an error is the error of the same kind with the same texts.
pub proof fn law_error_views_are_faithful(a: String, b: String, n: usize)
    ensures
        ClientError::EmptyToken@ == ClientErrorView::EmptyToken,
        ClientError::InvalidCaPem@ == ClientErrorView::InvalidCaPem,
        ClientError::ForceTlsPlaintextConflict@ == ClientErrorView::ForceTlsPlaintextConflict,
        ClientError::PlaintextCaPemConflict@ == ClientErrorView::PlaintextCaPemConflict,
        ClientError::CaPemParse(a)@ == ClientErrorView::CaPemParse(a@),
        (ClientError::InvalidEndpoint { addr: a, source: b })@ == (
        ClientErrorView::InvalidEndpoint { addr: a@, source: b@ }),
        (ClientError::Connect { addr: a, source: b })@ == (ClientErrorView::Connect {
            addr: a@,
            source: b@,
        }),
        (ClientError::ReadCaFile { path: a, source: b })@ == (ClientErrorView::ReadCaFile {
            path: a@,
            source: b@,
        }),
        (ClientError::WorkloadApi { socket: a, source: b })@ == (ClientErrorView::WorkloadApi {
            socket: a@,
            source: b@,
        }),
        (ClientError::WorkloadNoIdentityIssued { socket: a, attempts: n, source: b })@ == (
        ClientErrorView::WorkloadNoIdentityIssued { socket: a@, attempts: n, source: b@ }),
        (ClientError::WorkloadProbe { socket: a, source: b })@ == (
        ClientErrorView::WorkloadProbe { socket: a@, source: b@ }),
        ClientError::InvalidTrustDomain(a, b)@ == ClientErrorView::InvalidTrustDomain(a@, b@),
        ClientError::SpiffeTls(a)@ == ClientErrorView::SpiffeTls(a@),
        ClientError::InvalidWorkloadAddress(a)@ == ClientErrorView::InvalidWorkloadAddress(a@),
        (ClientError::WorkloadConnect { addr: a, source: b })@ == (
        ClientErrorView::WorkloadConnect { addr: a@, source: b@ }),
{
}

/// What each error says: fixed words, with the names that it is about in quotes
/// and the cause behind a colon.
pub proof fn law_error_texts(a: String, b: String, n: usize)
    ensures
        ClientError::EmptyToken.message() == "token must not be empty"@,
        ClientError::InvalidCaPem.message() == "invalid CA PEM bundle: no certificates found"@,
        ClientError::ForceTlsPlaintextConflict.message()
            == "force_tls and plaintext are mutually exclusive"@,
        ClientError::PlaintextCaPemConflict.message()
            == "plaintext and ca_pem are mutually exclusive"@,
        ClientError::CaPemParse(a).message() == "invalid CA PEM bundle: "@ + a@,
        (ClientError::InvalidEndpoint { addr: a, source: b }).message() == "invalid address "@
            + crate::text::debug_quoted(a@) + ": "@ + b@,
        (ClientError::Connect { addr: a, source: b }).message() == "connect to "@
            + crate::text::debug_quoted(a@) + ": "@ + b@,
        (ClientError::ReadCaFile { path: a, source: b }).message() == "read CA file "@
            + crate::text::debug_quoted(a@) + ": "@ + b@,
        (ClientError::WorkloadApi { socket: a, source: b }).message()
            == "connect to SPIFFE Workload API at "@ + crate::text::debug_quoted(a@) + ": "@ + b@,
        (ClientError::WorkloadNoIdentityIssued { socket: a, attempts: n, source: b }).message()
            == "connect to SPIFFE workload API at "@ + crate::text::debug_quoted(a@) + ": "@ + (
        "no identity issued after "@ + crate::text::decimal(n as nat) + " attempts: "@ + b@),
        (ClientError::WorkloadProbe { socket: a, source: b }).message()
            == "connect to SPIFFE workload API at "@ + crate::text::debug_quoted(a@) + ": "@ + b@,
        ClientError::InvalidTrustDomain(a, b).message() == "invalid trust domain "@
            + crate::text::debug_quoted(a@) + ": "@ + b@,
        ClientError::SpiffeTls(a).message() == "build SPIFFE mTLS client config: "@ + a@,
        ClientError::InvalidWorkloadAddress(a).message() == "invalid workload address "@
            + crate::text::debug_quoted(a@) + ": "@ + "expected host:port"@,
        (ClientError::WorkloadConnect { addr: a, source: b }).message() == "connect to "@
            + crate::text::debug_quoted(a@) + ": "@ + b@,
{
}

}
