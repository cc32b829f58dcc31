//! The address of the node: a URI with a scheme, a host and, where one is
//! written, a port.

use vstd::prelude::*;
use crate::error::{ConnectFailure, LndConnectError, LndInternalConnectError};
use crate::text::{chars_of, same_text};

verus! {

/// What the URI parser found in an address. The host is the authority
/// without user information and port; the port is there where the text
/// after the authority's last colon is a number below 65536.
#[derive(Debug)]
pub struct UriParts {
    pub scheme: Option<String>,
    pub authority: Option<String>,
    pub host: Option<String>,
    pub port: Option<u16>,
}

/// The parts of a URI as a mathematical value.
pub struct UriPartsView {
    pub scheme: Option<Seq<char>>,
    pub authority: Option<Seq<char>>,
    pub host: Option<Seq<char>>,
    pub port: Option<u16>,
}

/// A text that may be missing, as a mathematical value.
pub open spec fn text_view(text: Option<String>) -> Option<Seq<char>> {
    match text {
        Some(text) => Some(text@),
        None => None,
    }
}

impl View for UriParts {
    type V = UriPartsView;

    open spec fn view(&self) -> UriPartsView {
        UriPartsView {
            scheme: text_view(self.scheme),
            authority: text_view(self.authority),
            host: text_view(self.host),
            port: self.port,
        }
    }
}

/// What `tonic::transport::Endpoint::from_shared` makes of an address: the
/// parts of the URI that it parsed, or, where it refuses the text, its
/// error written out.
pub uninterp spec fn endpoint_uri(address: Seq<char>) -> Result<UriPartsView, Seq<char>>;

/// What the URI parser made of a text, as a mathematical value.
pub open spec fn parsed_view(parsed: Result<UriParts, String>) -> Result<UriPartsView, Seq<char>> {
    match parsed {
        Ok(parts) => Ok(parts@),
        Err(cause) => Err(cause@),
    }
}

/// Calls `tonic::transport::Endpoint::from_shared`, which parses the
/// address as a URI, and reads the parts of that URI by its methods
/// `scheme_str`, `authority`, `host` and `port_u16`; an error is written
/// out as text. The parser looks at the text alone, so one text always
/// gives the same parts, or is always refused with the same error. Nothing
/// else is claimed of the outcome.
#[verifier::external_body]
pub(crate) fn parse_endpoint(address: &str) -> (parsed: Result<UriParts, String>)
    ensures
        parsed_view(parsed) == endpoint_uri(address@),
{
    match tonic::transport::Endpoint::from_shared(address.to_string()) {
        Ok(endpoint) => Ok(
            UriParts {
                scheme: endpoint.uri().scheme_str().map(|scheme| scheme.to_string()),
                authority: endpoint.uri().authority().map(|part| part.as_str().to_string()),
                host: endpoint.uri().host().map(|host| host.to_string()),
                port: endpoint.uri().port_u16(),
            },
        ),
        Err(error) => Err(error.to_string()),
    }
}

/// The scheme of an address.
#[derive(Clone, Copy, Debug, PartialEq, Eq, Structural)]
pub enum Scheme {
    Http,
    Https,
}

impl Scheme {
    /// The scheme as it is written in a URI.
    pub open spec fn text(self) -> Seq<char> {
        match self {
            Scheme::Http => "http"@,
            Scheme::Https => "https"@,
        }
    }

    /// The scheme as it is written in a URI.
    pub fn as_str(&self) -> (text: &'static str)
        ensures
            text@ == self.text(),
    {
        match self {
            Scheme::Http => "http",
            Scheme::Https => "https",
        }
    }
}

/// What is wrong with a URI as the address of a node.
#[derive(Clone, Copy, Debug, PartialEq, Eq, Structural)]
pub enum AddressFault {
    /// No scheme is written.
    NoScheme,
    /// The scheme is neither `http` nor `https`.
    UnknownScheme,
    /// No host is written.
    NoHost,
    /// Something follows the host that is no port number.
    BadPort,
}

impl AddressFault {
    /// The fault in words.
    pub open spec fn text(self) -> Seq<char> {
        match self {
            AddressFault::NoScheme => "the address has no scheme"@,
            AddressFault::UnknownScheme => "the scheme is neither http nor https"@,
            AddressFault::NoHost => "the address has no host"@,
            AddressFault::BadPort => "the port is not a number below 65536"@,
        }
    }

    /// The fault in words.
    pub fn as_str(&self) -> (text: &'static str)
        ensures
            text@ == self.text(),
    {
        match self {
            AddressFault::NoScheme => "the address has no scheme",
            AddressFault::UnknownScheme => "the scheme is neither http nor https",
            AddressFault::NoHost => "the address has no host",
            AddressFault::BadPort => "the port is not a number below 65536",
        }
    }
}

/// Whether `text` ends with `tail`.
pub open spec fn ends_with(text: Seq<char>, tail: Seq<char>) -> bool {
    tail.len() <= text.len() && text.subrange(text.len() - tail.len(), text.len() as int) == tail
}

/// Whether an authority ends with its host, so that no port is written:
/// the authority is the host, or the host stands right after the `@` of the
/// user information.
pub open spec fn ends_with_host(authority: Seq<char>, host: Seq<char>) -> bool {
    authority == host || ends_with(authority, seq!['@'] + host)
}

/// The first fault of a parsed URI, `None` where it names a node: its
/// scheme is `http` or `https`, it has a host, and what follows the host in
/// the authority, if anything, is a port number.
pub open spec fn fault_of(parts: UriPartsView) -> Option<AddressFault> {
    if parts.scheme is None {
        Some(AddressFault::NoScheme)
    } else if parts.scheme->0 != Scheme::Http.text() && parts.scheme->0 != Scheme::Https.text() {
        Some(AddressFault::UnknownScheme)
    } else if parts.authority is None || parts.host is None || parts.host->0.len() == 0 {
        Some(AddressFault::NoHost)
    } else if parts.port is None && !ends_with_host(parts.authority->0, parts.host->0) {
        Some(AddressFault::BadPort)
    } else {
        None
    }
}

/// An address as a mathematical value.
pub struct AddressView {
    /// The address as it was written.
    pub text: Seq<char>,
    pub scheme: Scheme,
    /// Host and port, with the user information where there is any.
    pub authority: Seq<char>,
}

/// The address that a text stands for, given what the URI parser made of
/// the text. Where the parser refused the text, or the URI has a fault,
/// the text is no address, and the failure says why: with the parser's
/// error, or with the fault in words.
pub open spec fn address_of(text: Seq<char>, parsed: Result<UriPartsView, Seq<char>>) -> Result<
    AddressView,
    ConnectFailure,
> {
    match parsed {
        Err(cause) => Err(ConnectFailure::InvalidAddress { address: text, error: cause }),
        Ok(parts) => match fault_of(parts) {
            Some(fault) => Err(
                ConnectFailure::InvalidAddress { address: text, error: fault.text() },
            ),
            None => Ok(
                AddressView {
                    text,
                    scheme: if parts.scheme->0 == Scheme::Https.text() {
                        Scheme::Https
                    } else {
                        Scheme::Http
                    },
                    authority: parts.authority->0,
                },
            ),
        },
    }
}

/// The outcome of judging an address, as a mathematical value.
pub open spec fn address_view(address: Result<Address, LndConnectError>) -> Result<
    AddressView,
    ConnectFailure,
> {
    match address {
        Ok(address) => Ok(address@),
        Err(error) => Err(error@),
    }
}

/// The address of a node, parsed and found fit.
#[derive(Debug)]
pub struct Address {
    text: String,
    scheme: Scheme,
    authority: String,
}

impl View for Address {
    type V = AddressView;

    closed spec fn view(&self) -> AddressView {
        AddressView { text: self.text@, scheme: self.scheme, authority: self.authority@ }
    }
}

impl Clone for Address {
    fn clone(&self) -> (copy: Self)
        ensures
            copy@ == self@,
    {
        Address {
            text: self.text.clone(),
            scheme: self.scheme,
            authority: self.authority.clone(),
        }
    }
}

fn text_ends_with(text: &str, tail: &str) -> (ends: bool)
    ensures
        ends == ends_with(text@, tail@),
{
    let a = chars_of(text);
    let b = chars_of(tail);
    if b.len() > a.len() {
        return false;
    }
    let skip = a.len() - b.len();
    let ghost end = a@.subrange(skip as int, a@.len() as int);
    let mut i: usize = 0;
    while i < b.len()
        invariant
            i <= b.len(),
            skip + b.len() == a.len(),
            a@ == text@,
            b@ == tail@,
            end == a@.subrange(skip as int, a@.len() as int),
            forall|j: int| 0 <= j < i ==> end[j] == b@[j],
        decreases b.len() - i,
    {
        if a[skip + i] != b[i] {
            assert(end[i as int] != b@[i as int]);
            return false;
        }
        i += 1;
    }
    assert(end =~= b@);
    true
}

fn has_host_last(authority: &str, host: &str) -> (last: bool)
    ensures
        last == ends_with_host(authority@, host@),
{
    if same_text(authority, host) {
        return true;
    }
    proof {
        reveal_strlit("@");
        assert("@"@ =~= seq!['@']);
    }
    let after_user = String::from_str("@").concat(host);
    text_ends_with(authority, after_user.as_str())
}

fn find_fault(parts: &UriParts) -> (fault: Option<AddressFault>)
    ensures
        fault == fault_of(parts@),
{
    match &parts.scheme {
        None => Some(AddressFault::NoScheme),
        Some(scheme) => {
            if !same_text(scheme.as_str(), Scheme::Http.as_str()) && !same_text(
                scheme.as_str(),
                Scheme::Https.as_str(),
            ) {
                return Some(AddressFault::UnknownScheme);
            }
            match (&parts.authority, &parts.host) {
                (Some(authority), Some(host)) => {
                    if host.as_str().unicode_len() == 0 {
                        Some(AddressFault::NoHost)
                    } else if parts.port.is_none() && !has_host_last(
                        authority.as_str(),
                        host.as_str(),
                    ) {
                        Some(AddressFault::BadPort)
                    } else {
                        None
                    }
                },
                _ => Some(AddressFault::NoHost),
            }
        },
    }
}

impl Address {
    /// Judges what the URI parser made of the address `text`: an address
    /// where it parsed a URI without a fault, else the error that names the
    /// text and gives the parser's error or the fault as the cause.
    pub fn from_parsed(text: &str, parsed: Result<UriParts, String>) -> (address: Result<
        Self,
        LndConnectError,
    >)
        ensures
            address_view(address) == address_of(text@, parsed_view(parsed)),
    {
        match parsed {
            Err(cause) => Err(
                LndConnectError::from(
                    LndInternalConnectError::InvalidAddress {
                        address: String::from_str(text),
                        error: cause,
                    },
                ),
            ),
            Ok(parts) => match find_fault(&parts) {
                Some(fault) => Err(
                    LndConnectError::from(
                        LndInternalConnectError::InvalidAddress {
                            address: String::from_str(text),
                            error: String::from_str(fault.as_str()),
                        },
                    ),
                ),
                None => {
                    let secure = same_text(
                        parts.scheme.as_ref().unwrap().as_str(),
                        Scheme::Https.as_str(),
                    );
                    Ok(
                        Address {
                            text: String::from_str(text),
                            scheme: if secure {
                                Scheme::Https
                            } else {
                                Scheme::Http
                            },
                            authority: parts.authority.unwrap(),
                        },
                    )
                },
            },
        }
    }

    /// Parses the address of a node. The text must be a URI with the
    /// scheme `http` or `https` and a host; a port is optional.
    pub fn parse(text: &str) -> (address: Result<Self, LndConnectError>)
        ensures
            address_view(address) == address_of(text@, endpoint_uri(text@)),
    {
        Address::from_parsed(text, parse_endpoint(text))
    }

    /// The address as it was written.
    pub fn as_str(&self) -> (text: &str)
        ensures
            text@ == self@.text,
    {
        self.text.as_str()
    }

    /// The scheme of the address.
    pub fn scheme(&self) -> (scheme: Scheme)
        ensures
            scheme == self@.scheme,
    {
        self.scheme
    }

    /// Host and port, as they stand in the address.
    pub fn authority(&self) -> (authority: &str)
        ensures
            authority@ == self@.authority,
    {
        self.authority.as_str()
    }
}

} // verus!
