//! Certificate pinning: the node's certificates, byte for byte, in place of
//! a chain of trust.

use vstd::prelude::*;
use crate::error::{read_view, ConnectFailure, LndConnectError, LndInternalConnectError};
use crate::text::{decimal, decimal_string};

verus! {

/// Why a presented chain was refused.
#[derive(Clone, Copy, Debug, PartialEq, Eq, Structural)]
pub enum PinningError {
    /// The server presented another number of certificates than are pinned.
    LengthMismatch { expected: usize, presented: usize },
    /// The certificate at `position` is not the pinned one; all before it
    /// are.
    CertificateMismatch { position: usize },
}

/// A refusal as a mathematical value, free of machine limits.
pub enum Refusal {
    LengthMismatch { expected: nat, presented: nat },
    CertificateMismatch { position: nat },
}

impl View for PinningError {
    type V = Refusal;

    open spec fn view(&self) -> Refusal {
        match self {
            PinningError::LengthMismatch { expected, presented } => Refusal::LengthMismatch {
                expected: *expected as nat,
                presented: *presented as nat,
            },
            PinningError::CertificateMismatch { position } => Refusal::CertificateMismatch {
                position: *position as nat,
            },
        }
    }
}

impl Refusal {
    /// The line handed to the TLS layer as the reason of the refusal.
    pub open spec fn message(self) -> Seq<char> {
        match self {
            Refusal::LengthMismatch { expected, presented } => {
                "Mismatched number of certificates (Expected: "@ + decimal(expected)
                    + ", Presented: "@ + decimal(presented) + ")"@
            },
            Refusal::CertificateMismatch { position } => {
                "Server certificates do not match ours (Position: "@ + decimal(position) + ")"@
            },
        }
    }
}

impl PinningError {
    /// The line handed to the TLS layer as the reason of the refusal. It
    /// tells a wrong number of certificates from a wrong certificate, and
    /// names the position of the latter.
    pub fn message(&self) -> (text: String)
        ensures
            text@ == self@.message(),
    {
        match self {
            PinningError::LengthMismatch { expected, presented } => {
                let text = String::from_str("Mismatched number of certificates (Expected: ");
                let text = text.concat(decimal_string(*expected).as_str());
                let text = text.concat(", Presented: ");
                let text = text.concat(decimal_string(*presented).as_str());
                text.concat(")")
            },
            PinningError::CertificateMismatch { position } => {
                let text = String::from_str("Server certificates do not match ours (Position: ");
                let text = text.concat(decimal_string(*position).as_str());
                text.concat(")")
            },
        }
    }
}

/// The first position at which two chains of one length differ.
pub open spec fn first_difference(pinned: Seq<Seq<u8>>, presented: Seq<Seq<u8>>) -> int
    recommends
        pinned.len() == presented.len(),
        pinned != presented,
{
    choose|i: int|
        0 <= i < pinned.len() && pinned[i] != presented[i] && forall|j: int|
            0 <= j < i ==> pinned[j] == presented[j]
}

/// The pinning policy: a chain is accepted when it is the pinned chain,
/// certificate by certificate and byte by byte. The lengths are compared
/// first; of two chains of one length the first difference is reported.
pub open spec fn pinning_verdict(pinned: Seq<Seq<u8>>, presented: Seq<Seq<u8>>) -> Result<
    (),
    Refusal,
> {
    if pinned.len() != presented.len() {
        Err(Refusal::LengthMismatch { expected: pinned.len(), presented: presented.len() })
    } else if pinned == presented {
        Ok(())
    } else {
        Err(Refusal::CertificateMismatch { position: first_difference(pinned, presented) as nat })
    }
}

/// Two chains of one length that are not equal differ at a first position.
pub proof fn lemma_first_difference(pinned: Seq<Seq<u8>>, presented: Seq<Seq<u8>>)
    requires
        pinned.len() == presented.len(),
        pinned != presented,
    ensures
        0 <= first_difference(pinned, presented) < pinned.len(),
        pinned[first_difference(pinned, presented)] != presented[first_difference(
            pinned,
            presented,
        )],
        forall|j: int|
            0 <= j < first_difference(pinned, presented) ==> pinned[j] == presented[j],
{
    if forall|i: int| 0 <= i < pinned.len() ==> pinned[i] == presented[i] {
        assert(pinned =~= presented);
    }
    let some = choose|i: int| 0 <= i < pinned.len() && pinned[i] != presented[i];
    lemma_least_difference(pinned, presented, some);
}

proof fn lemma_least_difference(pinned: Seq<Seq<u8>>, presented: Seq<Seq<u8>>, bound: int)
    requires
        pinned.len() == presented.len(),
        0 <= bound < pinned.len(),
        pinned[bound] != presented[bound],
    ensures
        exists|i: int|
            0 <= i <= bound && pinned[i] != presented[i] && forall|j: int|
                0 <= j < i ==> pinned[j] == presented[j],
    decreases bound,
{
    if exists|k: int| 0 <= k < bound && pinned[k] != presented[k] {
        let k = choose|k: int| 0 <= k < bound && pinned[k] != presented[k];
        lemma_least_difference(pinned, presented, k);
    } else {
        assert(pinned[bound] != presented[bound] && forall|j: int|
            0 <= j < bound ==> pinned[j] == presented[j]);
    }
}

/// A chain of another length than the pinned one is refused for its
/// length, whatever it holds: never for a certificate in it.
pub proof fn lemma_length_is_judged_first(pinned: Seq<Seq<u8>>, presented: Seq<Seq<u8>>)
    requires
        pinned.len() != presented.len(),
    ensures
        pinning_verdict(pinned, presented) == Err::<(), Refusal>(
            Refusal::LengthMismatch { expected: pinned.len(), presented: presented.len() },
        ),
{
}

/// A chain of the pinned length in which any certificate differs from the
/// pinned one at its position is refused for a certificate, and the
/// position reported is the first that differs, wherever the others are.
pub proof fn lemma_any_difference_is_refused(
    pinned: Seq<Seq<u8>>,
    presented: Seq<Seq<u8>>,
    position: int,
)
    requires
        pinned.len() == presented.len(),
        0 <= position < pinned.len(),
        pinned[position] != presented[position],
    ensures
        pinning_verdict(pinned, presented) matches Err(Refusal::CertificateMismatch { position: first })
            && first <= position && pinned[first as int] != presented[first as int] && forall|j: int|
            0 <= j < first ==> pinned[j] == presented[j],
{
    lemma_first_difference(pinned, presented);
    let first = first_difference(pinned, presented);
    if position < first {
        assert(pinned[position] == presented[position]);
    }
}

/// A chain is accepted exactly when it is the pinned chain.
pub proof fn lemma_accepts_the_pinned_chain_only(pinned: Seq<Seq<u8>>, presented: Seq<Seq<u8>>)
    ensures
        pinning_verdict(pinned, presented) is Ok <==> presented == pinned,
{
}

/// What `rustls_pemfile::certs` makes of a PEM text: the certificates that
/// it finds, each as the bytes that its section decodes to, in the order
/// of the sections; or, where it fails on the text, its error written out.
pub uninterp spec fn pem_certificates(pem: Seq<u8>) -> Result<Seq<Seq<u8>>, Seq<char>>;

/// What a PEM parser gave, as a mathematical value.
pub open spec fn parsed_certs(parsed: Result<Vec<Vec<u8>>, String>) -> Result<
    Seq<Seq<u8>>,
    Seq<char>,
> {
    match parsed {
        Ok(certs) => Ok(chain(certs@)),
        Err(cause) => Err(cause@),
    }
}

/// Calls `rustls_pemfile::certs` on a reader over the given bytes, and
/// writes an error out as text. The reader is a slice in memory, so the
/// call fails only on what the bytes hold, and the same bytes always give
/// the same outcome: the decoded `CERTIFICATE` sections in their order, or
/// the error for a section that does not start, end or decode as it should.
/// Nothing else is claimed of the outcome.
#[verifier::external_body]
fn pem_certs(pem: &[u8]) -> (parsed: Result<Vec<Vec<u8>>, String>)
    ensures
        parsed_certs(parsed) == pem_certificates(pem@),
{
    let mut reader = pem;
    rustls_pemfile::certs(&mut reader).map_err(|error| error.to_string())
}

/// The certificates to pin, given what a PEM parser made of the source
/// named `file`: those that it found, be they none, or else the failure to
/// parse that source, with the parser's error as its cause.
pub open spec fn pinned_from(file: Seq<char>, parsed: Result<Seq<Seq<u8>>, Seq<char>>) -> Result<
    Seq<Seq<u8>>,
    ConnectFailure,
> {
    match parsed {
        Ok(certs) => Ok(certs),
        Err(cause) => Err(ConnectFailure::ParseCert { file, error: cause }),
    }
}

/// The certificates to pin, given what reading the file `path` gave: the
/// failure to read it, or else what the PEM parser makes of its contents.
pub open spec fn pinned_from_file(path: Seq<char>, read: Result<Seq<u8>, Seq<char>>) -> Result<
    Seq<Seq<u8>>,
    ConnectFailure,
> {
    match read {
        Ok(contents) => pinned_from(path, pem_certificates(contents)),
        Err(cause) => Err(ConnectFailure::ReadFile { file: path, error: cause }),
    }
}

/// Where the parser finds certificates in a text, be they many or none,
/// loading the text succeeds and pins exactly those: as many entries as the
/// text holds certificates, each with the bytes of its certificate, in
/// their order.
pub proof fn lemma_every_certificate_is_pinned(
    file: Seq<char>,
    pem: Seq<u8>,
    certs: Seq<Seq<u8>>,
)
    requires
        pem_certificates(pem) == Ok::<Seq<Seq<u8>>, Seq<char>>(certs),
    ensures
        pinned_from(file, pem_certificates(pem)) == Ok::<Seq<Seq<u8>>, ConnectFailure>(certs),
        pinned_from(file, pem_certificates(pem))->Ok_0.len() == certs.len(),
{
}

/// The outcome of loading certificates, as a mathematical value.
pub open spec fn loaded_view(loaded: Result<CertVerifier, LndConnectError>) -> Result<
    Seq<Seq<u8>>,
    ConnectFailure,
> {
    match loaded {
        Ok(verifier) => Ok(verifier@),
        Err(error) => Err(error@),
    }
}

/// A presented chain as the sequence of its certificates' bytes.
pub open spec fn chain(certs: Seq<Vec<u8>>) -> Seq<Seq<u8>> {
    Seq::new(certs.len(), |i: int| certs[i]@)
}

/// A verdict as a mathematical value.
pub open spec fn verdict_view(verdict: Result<(), PinningError>) -> Result<(), Refusal> {
    match verdict {
        Ok(()) => Ok(()),
        Err(error) => Err(error@),
    }
}

fn same_bytes(left: &[u8], right: &[u8]) -> (same: bool)
    ensures
        same == (left@ == right@),
{
    if left.len() != right.len() {
        return false;
    }
    let mut i: usize = 0;
    while i < left.len()
        invariant
            i <= left.len(),
            left.len() == right.len(),
            forall|j: int| 0 <= j < i ==> left@[j] == right@[j],
        decreases left.len() - i,
    {
        if left[i] != right[i] {
            return false;
        }
        i += 1;
    }
    assert(left@ =~= right@);
    true
}

/// Verifier of the server's certificates that accepts the pinned chain and
/// no other. It looks at no name, no date and no signature.
#[derive(Debug)]
pub struct CertVerifier {
    certs: Vec<Vec<u8>>,
}

impl View for CertVerifier {
    type V = Seq<Seq<u8>>;

    closed spec fn view(&self) -> Seq<Seq<u8>> {
        chain(self.certs@)
    }
}

impl Clone for CertVerifier {
    fn clone(&self) -> (copy: Self)
        ensures
            copy@ == self@,
    {
        let mut certs: Vec<Vec<u8>> = Vec::new();
        let mut i: usize = 0;
        while i < self.certs.len()
            invariant
                i <= self.certs.len(),
                certs.len() == i,
                forall|j: int| 0 <= j < i ==> certs@[j]@ == self.certs@[j]@,
            decreases self.certs.len() - i,
        {
            certs.push(vstd::slice::slice_to_vec(self.certs[i].as_slice()));
            i += 1;
        }
        assert(chain(certs@) =~= chain(self.certs@));
        CertVerifier { certs }
    }
}

impl CertVerifier {
    /// Pins the given certificates, each in DER, in their order.
    pub fn new(certs: Vec<Vec<u8>>) -> (verifier: Self)
        ensures
            verifier@ == chain(certs@),
    {
        CertVerifier { certs }
    }

    /// Pins what a PEM parser made of the source named `file`: the
    /// certificates that it found, or else the failure to parse that source,
    /// with the parser's error as its cause.
    pub fn from_parsed(file: &str, parsed: Result<Vec<Vec<u8>>, String>) -> (loaded: Result<
        Self,
        LndConnectError,
    >)
        ensures
            loaded_view(loaded) == pinned_from(file@, parsed_certs(parsed)),
    {
        match parsed {
            Ok(certs) => Ok(CertVerifier::new(certs)),
            Err(cause) => Err(
                LndConnectError::from(
                    LndInternalConnectError::ParseCert {
                        file: String::from_str(file),
                        error: cause,
                    },
                ),
            ),
        }
    }

    /// Pins the certificates of a PEM text that was read from the source
    /// named `file`. A text without any certificate gives an empty set,
    /// which accepts the empty chain only.
    pub fn do_load(file: &str, cert_bytes: &[u8]) -> (loaded: Result<Self, LndConnectError>)
        ensures
            loaded_view(loaded) == pinned_from(file@, pem_certificates(cert_bytes@)),
    {
        CertVerifier::from_parsed(file, pem_certs(cert_bytes))
    }

    /// Pins the certificates of a PEM text held in memory. A failure names
    /// the empty path.
    pub fn load_from_memory(cert_pem: &str) -> (loaded: Result<Self, LndConnectError>)
        ensures
            loaded_view(loaded) == pinned_from(
                Seq::empty(),
                pem_certificates(vstd::utf8::encode_utf8(cert_pem@)),
            ),
    {
        proof {
            reveal_strlit("");
            assert(""@ =~= Seq::<char>::empty());
        }
        CertVerifier::do_load("", cert_pem.as_bytes())
    }

    /// Pins the certificates of the file `path`, given what reading it
    /// gave: its contents, or the text of the error.
    pub fn load(path: &str, read: Result<Vec<u8>, String>) -> (loaded: Result<Self, LndConnectError>)
        ensures
            loaded_view(loaded) == pinned_from_file(path@, read_view(read)),
    {
        match read {
            Ok(contents) => CertVerifier::do_load(path, contents.as_slice()),
            Err(cause) => Err(
                LndConnectError::from(
                    LndInternalConnectError::ReadFile { file: String::from_str(path), error: cause },
                ),
            ),
        }
    }

    /// The number of pinned certificates.
    pub fn len(&self) -> (len: usize)
        ensures
            len == self@.len(),
    {
        self.certs.len()
    }

    /// The pinned certificates, each in DER, in their order.
    pub fn certs(&self) -> (certs: &Vec<Vec<u8>>)
        ensures
            chain(certs@) == self@,
    {
        &self.certs
    }

    /// Judges the chain that a server presents in a handshake.
    ///
    /// The chain is accepted when it has as many certificates as are pinned
    /// and each is, byte for byte, the pinned one at its position. A chain
    /// of another length is refused for its length; otherwise the first
    /// certificate that differs is reported.
    pub fn verify_server_cert(&self, presented_certs: &[Vec<u8>]) -> (verdict: Result<
        (),
        PinningError,
    >)
        ensures
            verdict_view(verdict) == pinning_verdict(self@, chain(presented_certs@)),
    {
        let count = self.certs.len();
        if count != presented_certs.len() {
            return Err(
                PinningError::LengthMismatch { expected: count, presented: presented_certs.len() },
            );
        }
        let ghost pinned = self@;
        let ghost presented = chain(presented_certs@);
        let mut i: usize = 0;
        while i < count
            invariant
                i <= count,
                count == self.certs.len(),
                count == presented_certs.len(),
                pinned == chain(self.certs@),
                presented == chain(presented_certs@),
                forall|j: int| 0 <= j < i ==> pinned[j] == presented[j],
            decreases count - i,
        {
            if !same_bytes(self.certs[i].as_slice(), presented_certs[i].as_slice()) {
                proof {
                    assert(pinned[i as int] != presented[i as int]);
                    lemma_first_difference(pinned, presented);
                    let first = first_difference(pinned, presented);
                    if first < i {
                        assert(pinned[first] == presented[first]);
                    }
                }
                return Err(PinningError::CertificateMismatch { position: i });
            }
            i += 1;
        }
        assert(pinned =~= presented);
        Ok(())
    }
}

/// The one protocol that may be negotiated in the handshake: `h2`.
pub open spec fn alpn_h2() -> Seq<u8> {
    seq![0x68u8, 0x32u8]
}

/// A TLS configuration as a mathematical value.
pub struct TlsConfigView {
    pub pinned: Seq<Seq<u8>>,
    pub protocols: Seq<Seq<u8>>,
}

/// The TLS configuration that pins the given certificates: trust is
/// decided by the pinning policy alone, and `h2` is the only protocol
/// offered.
pub open spec fn pinned_config(pinned: Seq<Seq<u8>>) -> TlsConfigView {
    TlsConfigView { pinned, protocols: seq![alpn_h2()] }
}

/// How the client side of TLS is set up: who judges the server's
/// certificates, and which protocols are offered in the handshake.
#[derive(Debug)]
pub struct PinnedTlsConfig {
    verifier: CertVerifier,
    protocols: Vec<Vec<u8>>,
}

impl View for PinnedTlsConfig {
    type V = TlsConfigView;

    closed spec fn view(&self) -> TlsConfigView {
        TlsConfigView { pinned: self.verifier@, protocols: chain(self.protocols@) }
    }
}

impl PinnedTlsConfig {
    /// The verifier that judges the server's certificates.
    pub fn cert_verifier(&self) -> (pinned: &CertVerifier)
        ensures
            pinned@ == self@.pinned,
    {
        &self.verifier
    }

    /// The protocols offered in the handshake, in their order.
    pub fn protocols(&self) -> (protocols: &Vec<Vec<u8>>)
        ensures
            chain(protocols@) == self@.protocols,
    {
        &self.protocols
    }
}

impl Clone for PinnedTlsConfig {
    fn clone(&self) -> (copy: Self)
        ensures
            copy@ == self@,
    {
        let mut protocols: Vec<Vec<u8>> = Vec::new();
        let mut i: usize = 0;
        while i < self.protocols.len()
            invariant
                i <= self.protocols.len(),
                protocols.len() == i,
                forall|j: int| 0 <= j < i ==> protocols@[j]@ == self.protocols@[j]@,
            decreases self.protocols.len() - i,
        {
            protocols.push(vstd::slice::slice_to_vec(self.protocols[i].as_slice()));
            i += 1;
        }
        assert(chain(protocols@) =~= chain(self.protocols@));
        PinnedTlsConfig { verifier: self.verifier.clone(), protocols }
    }
}

/// The TLS configuration for an outcome of loading certificates: what was
/// loaded is pinned, and a failure to load stays that failure.
pub open spec fn configured(pinned: Result<Seq<Seq<u8>>, ConnectFailure>) -> Result<
    TlsConfigView,
    ConnectFailure,
> {
    match pinned {
        Ok(certs) => Ok(pinned_config(certs)),
        Err(failure) => Err(failure),
    }
}

/// The outcome of setting up TLS, as a mathematical value.
pub open spec fn config_view(config: Result<PinnedTlsConfig, LndConnectError>) -> Result<
    TlsConfigView,
    ConnectFailure,
> {
    match config {
        Ok(config) => Ok(config@),
        Err(error) => Err(error@),
    }
}

/// Sets up TLS around a verifier: the verifier alone decides on the
/// server's certificates, and `h2` is the only protocol offered. This
/// never fails.
pub fn do_config(cv: CertVerifier) -> (config: Result<PinnedTlsConfig, LndConnectError>)
    ensures
        config_view(config) == Ok::<TlsConfigView, ConnectFailure>(pinned_config(cv@)),
{
    let mut h2: Vec<u8> = Vec::new();
    h2.push(0x68u8);
    h2.push(0x32u8);
    let mut protocols: Vec<Vec<u8>> = Vec::new();
    protocols.push(h2);
    assert(h2@ =~= alpn_h2());
    assert(chain(protocols@) =~= seq![alpn_h2()]);
    Ok(PinnedTlsConfig { verifier: cv, protocols })
}

/// Sets up TLS for the certificates of a PEM text held in memory.
pub fn config_from_memory(cert_pem: &str) -> (config: Result<PinnedTlsConfig, LndConnectError>)
    ensures
        config_view(config) == configured(
            pinned_from(Seq::empty(), pem_certificates(vstd::utf8::encode_utf8(cert_pem@))),
        ),
{
    match CertVerifier::load_from_memory(cert_pem) {
        Ok(verifier) => do_config(verifier),
        Err(error) => Err(error),
    }
}

/// Sets up TLS for the certificates of the file `path`, given what reading
/// it gave: its contents, or the text of the error.
pub fn config(path: &str, read: Result<Vec<u8>, String>) -> (config: Result<
    PinnedTlsConfig,
    LndConnectError,
>)
    ensures
        config_view(config) == configured(pinned_from_file(path@, read_view(read))),
{
    match CertVerifier::load(path, read) {
        Ok(verifier) => do_config(verifier),
        Err(error) => Err(error),
    }
}

} // verus!
