//! The channel to the node: where every request goes, and how the
//! transport is secured.

use vstd::prelude::*;
use crate::address::{text_view, Address, AddressView, Scheme};
use crate::tls::{PinnedTlsConfig, TlsConfigView};

verus! {

/// A TLS configuration that may be missing, as a mathematical value.
pub open spec fn tls_view(tls: Option<PinnedTlsConfig>) -> Option<TlsConfigView> {
    match tls {
        Some(config) => Some(config@),
        None => None,
    }
}

/// A channel as a mathematical value.
pub struct ChannelView {
    pub address: AddressView,
    /// The TLS configuration; `None` for a channel in the clear.
    pub tls: Option<TlsConfigView>,
}

/// The target of a request: scheme and authority, where they are set, and
/// the path with its query.
#[derive(Debug)]
pub struct RequestTarget {
    pub scheme: Option<String>,
    pub authority: Option<String>,
    pub path_and_query: String,
}

/// The target of a request as a mathematical value.
pub struct RequestTargetView {
    pub scheme: Option<Seq<char>>,
    pub authority: Option<Seq<char>>,
    pub path_and_query: Seq<char>,
}

impl View for RequestTarget {
    type V = RequestTargetView;

    open spec fn view(&self) -> RequestTargetView {
        RequestTargetView {
            scheme: text_view(self.scheme),
            authority: text_view(self.authority),
            path_and_query: self.path_and_query@,
        }
    }
}

/// The target that a request has on a channel: the channel's scheme and
/// authority, whatever the request named, and the request's own path and
/// query.
pub open spec fn rewritten(channel: ChannelView, target: RequestTargetView) -> RequestTargetView {
    RequestTargetView {
        scheme: Some(channel.address.scheme.text()),
        authority: Some(channel.address.authority),
        path_and_query: target.path_and_query,
    }
}

/// On a channel it makes no difference which scheme and authority a request
/// named, and a target that was rewritten stays as it is.
pub proof fn lemma_rewritten_is_fixed(
    channel: ChannelView,
    target: RequestTargetView,
    other: RequestTargetView,
)
    requires
        target.path_and_query == other.path_and_query,
    ensures
        rewritten(channel, target) == rewritten(channel, other),
        rewritten(channel, rewritten(channel, target)) == rewritten(channel, target),
{
}

/// The channel to one node. It is bound to the address it was made for and
/// works either in the clear or over TLS with pinned certificates; which of
/// the two is fixed when it is made. Both carry HTTP/2 only.
#[derive(Debug)]
pub struct Channel {
    address: Address,
    tls: Option<PinnedTlsConfig>,
}

impl View for Channel {
    type V = ChannelView;

    closed spec fn view(&self) -> ChannelView {
        ChannelView { address: self.address@, tls: tls_view(self.tls) }
    }
}

impl Clone for Channel {
    fn clone(&self) -> (copy: Self)
        ensures
            copy@ == self@,
    {
        let tls = match &self.tls {
            Some(config) => Some(config.clone()),
            None => None,
        };
        Channel { address: self.address.clone(), tls }
    }
}

impl Channel {
    /// A channel to `address`: over TLS with the given configuration, in
    /// the clear without one.
    pub fn new(address: Address, tls: Option<PinnedTlsConfig>) -> (channel: Self)
        ensures
            channel@ == (ChannelView { address: address@, tls: tls_view(tls) }),
    {
        Channel { address, tls }
    }

    /// The address that the channel is bound to.
    pub fn address(&self) -> (address: &Address)
        ensures
            address@ == self@.address,
    {
        &self.address
    }

    /// The TLS configuration; `None` for a channel in the clear.
    pub fn tls(&self) -> (tls: Option<&PinnedTlsConfig>)
        ensures
            match tls {
                Some(config) => self@.tls == Some(config@),
                None => self@.tls is None,
            },
    {
        self.tls.as_ref()
    }

    /// Whether the channel works over TLS.
    pub fn is_secure(&self) -> (secure: bool)
        ensures
            secure == self@.tls is Some,
    {
        self.tls.is_some()
    }

    /// Directs a request to the node of this channel: scheme and authority
    /// become the channel's, path and query stay.
    pub fn rewrite(&self, target: RequestTarget) -> (sent: RequestTarget)
        ensures
            sent@ == rewritten(self@, target@),
    {
        RequestTarget {
            scheme: Some(String::from_str(self.address.scheme().as_str())),
            authority: Some(String::from_str(self.address.authority())),
            path_and_query: target.path_and_query,
        }
    }
}

} // verus!
