//! A connection attempt, step by step.
//!
//! The library decides what is done next; the caller does it and hands the
//! outcome back. The address is judged before any file is asked for, the
//! certificate comes before the macaroon, and the first step that fails
//! ends the attempt: no client is handed out for an attempt that failed at
//! any step.

use vstd::prelude::*;
use vstd::utf8::encode_utf8;
use crate::address::{
    address_of,
    endpoint_uri,
    parse_endpoint,
    parsed_view,
    Address,
    AddressView,
    UriParts,
    UriPartsView,
};
use crate::channel::{tls_view, Channel, ChannelView};
use crate::client::{clients_of, Client, ClientView, Service, ServiceClient, ServiceClientView};
use crate::error::{
    read_view,
    ConnectFailure,
    ErrorKind,
    LndConnectError,
    LndInternalConnectError,
};
use crate::interceptor::MacaroonInterceptor;
use crate::macaroon::{hex_encoding, load_macaroon};
use crate::tls::{
    config,
    config_from_memory,
    pem_certificates,
    pinned_config,
    pinned_from,
    pinned_from_file,
    PinnedTlsConfig,
    TlsConfigView,
};

verus! {

/// Where the node's certificates come from.
#[derive(Debug)]
pub enum CertSource {
    /// A PEM file, by its path.
    File(String),
    /// A PEM text.
    Memory(String),
}

/// A certificate source as a mathematical value.
pub enum CertSourceView {
    File(Seq<char>),
    Memory(Seq<char>),
}

impl View for CertSource {
    type V = CertSourceView;

    open spec fn view(&self) -> CertSourceView {
        match self {
            CertSource::File(path) => CertSourceView::File(path@),
            CertSource::Memory(pem) => CertSourceView::Memory(pem@),
        }
    }
}

/// A certificate source that may be missing, as a mathematical value.
pub open spec fn cert_view(cert: Option<CertSource>) -> Option<CertSourceView> {
    match cert {
        Some(source) => Some(source@),
        None => None,
    }
}

/// Where the macaroon comes from.
#[derive(Debug)]
pub enum MacaroonSource {
    /// A file that holds the raw macaroon, by its path.
    File(String),
    /// The macaroon in hexadecimal.
    Memory(String),
}

/// A macaroon source as a mathematical value.
pub enum MacaroonSourceView {
    File(Seq<char>),
    Memory(Seq<char>),
}

impl View for MacaroonSource {
    type V = MacaroonSourceView;

    open spec fn view(&self) -> MacaroonSourceView {
        match self {
            MacaroonSource::File(path) => MacaroonSourceView::File(path@),
            MacaroonSource::Memory(macaroon) => MacaroonSourceView::Memory(macaroon@),
        }
    }
}

/// An attempt that waits for the certificate file, as a mathematical
/// value: what it has, and what it still needs.
pub struct AwaitingCertView {
    pub address: AddressView,
    pub path: Seq<char>,
    pub macaroon: MacaroonSourceView,
}

/// An attempt that waits for the macaroon file, as a mathematical value.
pub struct AwaitingMacaroonView {
    pub address: AddressView,
    pub tls: Option<TlsConfigView>,
    pub path: Seq<char>,
}

/// An attempt that waits for the channel, as a mathematical value.
pub struct AwaitingChannelView {
    pub channel: ChannelView,
    pub macaroon: Seq<char>,
}

/// A step as a mathematical value.
pub enum StepView {
    ReadCert(AwaitingCertView),
    ReadMacaroon(AwaitingMacaroonView),
    Connect(AwaitingChannelView),
    Failed(ConnectFailure),
}

/// The step after the transport security is settled: the macaroon file is
/// read, or, with the macaroon at hand, the channel is made.
pub open spec fn after_cert(
    address: AddressView,
    tls: Option<TlsConfigView>,
    macaroon: MacaroonSourceView,
) -> StepView {
    match macaroon {
        MacaroonSourceView::File(path) => StepView::ReadMacaroon(
            AwaitingMacaroonView { address, tls, path },
        ),
        MacaroonSourceView::Memory(macaroon) => StepView::Connect(
            AwaitingChannelView { channel: ChannelView { address, tls }, macaroon },
        ),
    }
}

/// The step after the certificates were loaded, or could not be: the
/// attempt fails with the failure to load, and else goes on over TLS with
/// what was loaded pinned.
pub open spec fn after_load(
    address: AddressView,
    pinned: Result<Seq<Seq<u8>>, ConnectFailure>,
    macaroon: MacaroonSourceView,
) -> StepView {
    match pinned {
        Ok(certs) => after_cert(address, Some(pinned_config(certs)), macaroon),
        Err(failure) => StepView::Failed(failure),
    }
}

/// The first step of an attempt, given what its address stands for. With
/// no address the attempt fails at once. Without a certificate source the
/// channel will work in the clear.
pub open spec fn after_address(
    address: Result<AddressView, ConnectFailure>,
    cert: Option<CertSourceView>,
    macaroon: MacaroonSourceView,
) -> StepView {
    match address {
        Err(failure) => StepView::Failed(failure),
        Ok(address) => match cert {
            None => after_cert(address, None, macaroon),
            Some(CertSourceView::File(path)) => StepView::ReadCert(
                AwaitingCertView { address, path, macaroon },
            ),
            Some(CertSourceView::Memory(pem)) => after_load(
                address,
                pinned_from(Seq::empty(), pem_certificates(encode_utf8(pem))),
                macaroon,
            ),
        },
    }
}

/// The step after the certificate file was read, or could not be.
pub open spec fn after_cert_read(
    awaiting: AwaitingCertView,
    read: Result<Seq<u8>, Seq<char>>,
) -> StepView {
    after_load(awaiting.address, pinned_from_file(awaiting.path, read), awaiting.macaroon)
}

/// The step after the macaroon file was read, or could not be.
pub open spec fn after_macaroon_read(
    awaiting: AwaitingMacaroonView,
    read: Result<Seq<u8>, Seq<char>>,
) -> StepView {
    match read {
        Ok(contents) => StepView::Connect(
            AwaitingChannelView {
                channel: ChannelView { address: awaiting.address, tls: awaiting.tls },
                macaroon: hex_encoding(contents),
            },
        ),
        Err(cause) => StepView::Failed(
            ConnectFailure::ReadFile { file: awaiting.path, error: cause },
        ),
    }
}

/// The end of an attempt, given the outcome of making the channel.
pub open spec fn after_channel(
    awaiting: AwaitingChannelView,
    outcome: Result<(), TransportFailure>,
) -> Result<ClientView, ConnectFailure> {
    match outcome {
        Ok(()) => Ok(clients_of(awaiting.channel, awaiting.macaroon)),
        Err(failure) => Err(transport_failure(awaiting, failure)),
    }
}

/// The error for a channel that could not be made. A failure to connect
/// names the address.
pub open spec fn transport_failure(
    awaiting: AwaitingChannelView,
    failure: TransportFailure,
) -> ConnectFailure {
    match failure {
        TransportFailure::TlsConfig(cause) => ConnectFailure::TlsConfig { error: cause@ },
        TransportFailure::Connect(cause) => ConnectFailure::Connect {
            address: awaiting.channel.address.text,
            error: cause@,
        },
    }
}

/// An attempt on a text that is no address fails for the address, whatever
/// the sources of certificate and macaroon are: its first step asks for no
/// file, so no file is touched for it, and no certificate is parsed.
pub proof fn lemma_no_file_is_read_for_a_malformed_address(
    text: Seq<char>,
    parsed: Result<UriPartsView, Seq<char>>,
    cert: Option<CertSourceView>,
    macaroon: MacaroonSourceView,
)
    requires
        address_of(text, parsed) is Err,
    ensures
        after_address(address_of(text, parsed), cert, macaroon) matches StepView::Failed(failure)
            && failure.kind() == ErrorKind::InvalidAddress && failure.subject() == text,
        !(after_address(address_of(text, parsed), cert, macaroon) is ReadCert),
        !(after_address(address_of(text, parsed), cert, macaroon) is ReadMacaroon),
{
}

/// An attempt without a certificate source never asks for a certificate
/// file and never parses a PEM text: it goes on to the macaroon, with a
/// channel in the clear.
pub proof fn lemma_no_certificate_means_cleartext(
    address: AddressView,
    macaroon: MacaroonSourceView,
)
    ensures
        after_address(Ok(address), None, macaroon) == after_cert(address, None, macaroon),
        match after_address(Ok(address), None, macaroon) {
            StepView::ReadMacaroon(awaiting) => awaiting.tls is None,
            StepView::Connect(awaiting) => awaiting.channel.tls is None,
            _ => false,
        },
{
}

/// The first step that fails ends the attempt with its own failure: a
/// certificate file that cannot be read or parsed is reported, and the
/// macaroon file is not asked for.
pub proof fn lemma_certificate_failure_ends_the_attempt(
    awaiting: AwaitingCertView,
    read: Result<Seq<u8>, Seq<char>>,
)
    requires
        pinned_from_file(awaiting.path, read) is Err,
    ensures
        after_cert_read(awaiting, read) == StepView::Failed(
            pinned_from_file(awaiting.path, read)->Err_0,
        ),
        pinned_from_file(awaiting.path, read)->Err_0.subject() == awaiting.path,
        pinned_from_file(awaiting.path, read)->Err_0.kind() == ErrorKind::ReadFile
            || pinned_from_file(awaiting.path, read)->Err_0.kind() == ErrorKind::ParseCert,
{
}

/// The attempt waits for the contents of the certificate file.
#[derive(Debug)]
pub struct AwaitingCert {
    address: Address,
    path: String,
    macaroon: MacaroonSource,
}

impl View for AwaitingCert {
    type V = AwaitingCertView;

    closed spec fn view(&self) -> AwaitingCertView {
        AwaitingCertView { address: self.address@, path: self.path@, macaroon: self.macaroon@ }
    }
}

/// The attempt waits for the contents of the macaroon file.
#[derive(Debug)]
pub struct AwaitingMacaroon {
    address: Address,
    tls: Option<PinnedTlsConfig>,
    path: String,
}

impl View for AwaitingMacaroon {
    type V = AwaitingMacaroonView;

    closed spec fn view(&self) -> AwaitingMacaroonView {
        AwaitingMacaroonView { address: self.address@, tls: tls_view(self.tls), path: self.path@ }
    }
}

/// The attempt waits for the channel to be made.
#[derive(Debug)]
pub struct AwaitingChannel {
    channel: Channel,
    interceptor: MacaroonInterceptor,
}

impl View for AwaitingChannel {
    type V = AwaitingChannelView;

    closed spec fn view(&self) -> AwaitingChannelView {
        AwaitingChannelView { channel: self.channel@, macaroon: self.interceptor@ }
    }
}

/// What the caller does next.
#[derive(Debug)]
pub enum Step {
    /// Read the certificate file and resume with what reading gave.
    ReadCert(AwaitingCert),
    /// Read the macaroon file and resume with what reading gave.
    ReadMacaroon(AwaitingMacaroon),
    /// Make the channel and resume with the outcome.
    Connect(AwaitingChannel),
    /// Nothing: the attempt has failed.
    Failed(LndConnectError),
}

impl View for Step {
    type V = StepView;

    open spec fn view(&self) -> StepView {
        match self {
            Step::ReadCert(awaiting) => StepView::ReadCert(awaiting@),
            Step::ReadMacaroon(awaiting) => StepView::ReadMacaroon(awaiting@),
            Step::Connect(awaiting) => StepView::Connect(awaiting@),
            Step::Failed(error) => StepView::Failed(error@),
        }
    }
}

/// Why no channel could be made.
#[derive(Debug)]
pub enum TransportFailure {
    /// The TLS layer refused the configuration; the text says why.
    TlsConfig(String),
    /// The node could not be reached; the text says why.
    Connect(String),
}

/// Pairs the channel to `address` with the interceptor for `macaroon`. With
/// a TLS configuration the channel works over TLS, without one in the
/// clear.
pub fn do_connect(address: Address, tls_config: Option<PinnedTlsConfig>, macaroon: &str) -> (awaiting:
    AwaitingChannel)
    ensures
        awaiting@ == (AwaitingChannelView {
            channel: ChannelView { address: address@, tls: tls_view(tls_config) },
            macaroon: macaroon@,
        }),
{
    AwaitingChannel {
        channel: Channel::new(address, tls_config),
        interceptor: MacaroonInterceptor::new(String::from_str(macaroon)),
    }
}

fn with_tls(address: Address, tls: Option<PinnedTlsConfig>, macaroon: MacaroonSource) -> (step:
    Step)
    ensures
        step@ == after_cert(address@, tls_view(tls), macaroon@),
{
    match macaroon {
        MacaroonSource::File(path) => Step::ReadMacaroon(AwaitingMacaroon { address, tls, path }),
        MacaroonSource::Memory(macaroon) => Step::Connect(
            do_connect(address, tls, macaroon.as_str()),
        ),
    }
}

/// Begins an attempt with what the URI parser made of the address `text`:
/// fails where the parser refused the text or the URI has a fault, and else
/// turns to the certificate source.
pub fn start_with(
    text: &str,
    parsed: Result<UriParts, String>,
    cert: Option<CertSource>,
    macaroon: MacaroonSource,
) -> (step: Step)
    ensures
        step@ == after_address(address_of(text@, parsed_view(parsed)), cert_view(cert), macaroon@),
{
    match Address::from_parsed(text, parsed) {
        Err(error) => Step::Failed(error),
        Ok(address) => match cert {
            None => with_tls(address, None, macaroon),
            Some(CertSource::File(path)) => Step::ReadCert(
                AwaitingCert { address, path, macaroon },
            ),
            Some(CertSource::Memory(pem)) => match config_from_memory(pem.as_str()) {
                Ok(tls) => with_tls(address, Some(tls), macaroon),
                Err(error) => Step::Failed(error),
            },
        },
    }
}

/// Begins an attempt to connect to the node at `address`.
///
/// The address is judged first: for a text that is no address the attempt
/// fails before any file is asked for. Then the certificates are taken
/// from their source, if there is one, then the macaroon from its.
pub fn start(address: &str, cert: Option<CertSource>, macaroon: MacaroonSource) -> (step: Step)
    ensures
        step@ == after_address(
            address_of(address@, endpoint_uri(address@)),
            cert_view(cert),
            macaroon@,
        ),
{
    start_with(address, parse_endpoint(address), cert, macaroon)
}

/// Connects to LND using given address and credentials.
///
/// Certificate and macaroon are read from the files named; the address must
/// begin with `https://` or `http://`. This is the recommended way to
/// connect: the node changes these files now and then.
pub fn connect(address: &str, cert_file: &str, macaroon_file: &str) -> (step: Step)
    ensures
        step@ == after_address(
            address_of(address@, endpoint_uri(address@)),
            Some(CertSourceView::File(cert_file@)),
            MacaroonSourceView::File(macaroon_file@),
        ),
{
    start(
        address,
        Some(CertSource::File(String::from_str(cert_file))),
        MacaroonSource::File(String::from_str(macaroon_file)),
    )
}

/// The outcome of an attempt from memory, as a step.
pub open spec fn ready_view(ready: Result<AwaitingChannel, LndConnectError>) -> StepView {
    match ready {
        Ok(awaiting) => StepView::Connect(awaiting@),
        Err(error) => StepView::Failed(error@),
    }
}

/// Connects to LND using in-memory cert and macaroon (not file paths).
///
/// `cert_pem` is a PEM text, `macaroon` is in hexadecimal. These
/// credentials can get out of date: no file is read, so what the node has
/// changed since they were read goes unnoticed. With both at hand the
/// attempt is at once ready for the channel to be made, or has failed.
pub fn unreliable_connect_from_memory(address: &str, cert_pem: &str, macaroon: &str) -> (ready:
    Result<AwaitingChannel, LndConnectError>)
    ensures
        ready_view(ready) == after_address(
            address_of(address@, endpoint_uri(address@)),
            Some(CertSourceView::Memory(cert_pem@)),
            MacaroonSourceView::Memory(macaroon@),
        ),
{
    match Address::parse(address) {
        Err(error) => Err(error),
        Ok(address) => match config_from_memory(cert_pem) {
            Err(error) => Err(error),
            Ok(tls) => Ok(do_connect(address, Some(tls), macaroon)),
        },
    }
}

impl AwaitingCert {
    /// The path of the certificate file.
    pub fn path(&self) -> (path: &str)
        ensures
            path@ == self@.path,
    {
        self.path.as_str()
    }

    /// Goes on with what reading the certificate file gave: its contents,
    /// or the text of the error.
    pub fn resume(self, read: Result<Vec<u8>, String>) -> (step: Step)
        ensures
            step@ == after_cert_read(self@, read_view(read)),
    {
        match config(self.path.as_str(), read) {
            Ok(tls) => with_tls(self.address, Some(tls), self.macaroon),
            Err(error) => Step::Failed(error),
        }
    }
}

impl AwaitingMacaroon {
    /// The path of the macaroon file.
    pub fn path(&self) -> (path: &str)
        ensures
            path@ == self@.path,
    {
        self.path.as_str()
    }

    /// Goes on with what reading the macaroon file gave: its contents, or
    /// the text of the error.
    pub fn resume(self, read: Result<Vec<u8>, String>) -> (step: Step)
        ensures
            step@ == after_macaroon_read(self@, read_view(read)),
    {
        match load_macaroon(self.path.as_str(), read) {
            Ok(macaroon) => Step::Connect(do_connect(self.address, self.tls, macaroon.as_str())),
            Err(error) => Step::Failed(error),
        }
    }
}

impl AwaitingChannel {
    /// The channel to make.
    pub fn channel(&self) -> (channel: &Channel)
        ensures
            channel@ == self@.channel,
    {
        &self.channel
    }

    /// The interceptor that every call will pass.
    pub fn interceptor(&self) -> (interceptor: &MacaroonInterceptor)
        ensures
            interceptor@ == self@.macaroon,
    {
        &self.interceptor
    }

    /// Ends the attempt for a channel that was made: the clients of all
    /// services, each on this channel and with this macaroon.
    pub fn connected(self) -> (client: Client)
        ensures
            client@ == clients_of(self@.channel, self@.macaroon),
    {
        Client::new(self.channel, self.interceptor)
    }

    /// Ends the attempt for a channel that was made, for a caller that
    /// needs one service only: the client of that service, on this channel
    /// and with this macaroon.
    pub fn connected_to(self, service: Service) -> (client: ServiceClient)
        ensures
            client@ == (ServiceClientView {
                service,
                channel: self@.channel,
                macaroon: self@.macaroon,
            }),
    {
        ServiceClient::with_interceptor(service, self.channel, self.interceptor)
    }

    /// Ends the attempt for a channel that could not be made. A failure to
    /// connect names the address.
    pub fn failed(self, failure: TransportFailure) -> (error: LndConnectError)
        ensures
            error@ == transport_failure(self@, failure),
    {
        match failure {
            TransportFailure::TlsConfig(cause) => LndConnectError::from(
                LndInternalConnectError::TlsConfig(cause),
            ),
            TransportFailure::Connect(cause) => LndConnectError::from(
                LndInternalConnectError::Connect {
                    address: String::from_str(self.channel.address().as_str()),
                    error: cause,
                },
            ),
        }
    }

    /// Ends the attempt with the outcome of making the channel: the
    /// clients of all services where it was made, the error where it was
    /// not.
    pub fn resume(self, outcome: Result<(), TransportFailure>) -> (connected: Result<
        Client,
        LndConnectError,
    >)
        ensures
            match connected {
                Ok(client) => after_channel(self@, outcome) == Ok::<ClientView, ConnectFailure>(
                    client@,
                ),
                Err(error) => after_channel(self@, outcome) == Err::<ClientView, ConnectFailure>(
                    error@,
                ),
            },
    {
        match outcome {
            Ok(()) => Ok(self.connected()),
            Err(failure) => Err(self.failed(failure)),
        }
    }
}

} // verus!
