//! The clients of the node's services, all on one channel and with one
//! macaroon.

use vstd::prelude::*;
use crate::channel::{rewritten, Channel, ChannelView, RequestTarget, RequestTargetView};
use crate::interceptor::{is_header_value, macaroon_key, MacaroonInterceptor, Metadata};

verus! {

/// A service of the node.
#[derive(Clone, Copy, Debug, PartialEq, Eq, Structural)]
pub enum Service {
    Lightning,
    WalletKit,
    Signer,
    Peers,
    Versioner,
}

/// The client of one service as a mathematical value.
pub struct ServiceClientView {
    pub service: Service,
    pub channel: ChannelView,
    pub macaroon: Seq<char>,
}

/// The client of one service: a channel paired with an interceptor. It
/// shares no state with the clients of the other services.
#[derive(Debug)]
pub struct ServiceClient {
    service: Service,
    channel: Channel,
    interceptor: MacaroonInterceptor,
}

impl View for ServiceClient {
    type V = ServiceClientView;

    closed spec fn view(&self) -> ServiceClientView {
        ServiceClientView {
            service: self.service,
            channel: self.channel@,
            macaroon: self.interceptor@,
        }
    }
}

impl Clone for ServiceClient {
    fn clone(&self) -> (copy: Self)
        ensures
            copy@ == self@,
    {
        ServiceClient {
            service: self.service,
            channel: self.channel.clone(),
            interceptor: self.interceptor.clone(),
        }
    }
}

/// What a client sends for a call: where it goes, and with which metadata.
#[derive(Debug)]
pub struct Outgoing {
    pub target: RequestTarget,
    pub metadata: Metadata,
}

impl ServiceClient {
    /// The client of `service` on a channel, with the interceptor that
    /// every call passes.
    pub fn with_interceptor(
        service: Service,
        channel: Channel,
        interceptor: MacaroonInterceptor,
    ) -> (client: Self)
        ensures
            client@ == (ServiceClientView {
                service,
                channel: channel@,
                macaroon: interceptor@,
            }),
    {
        ServiceClient { service, channel, interceptor }
    }

    /// The service that this is the client of.
    pub fn service(&self) -> (service: Service)
        ensures
            service == self@.service,
    {
        self.service
    }

    /// The channel that the calls go through.
    pub fn channel(&self) -> (channel: &Channel)
        ensures
            channel@ == self@.channel,
    {
        &self.channel
    }

    /// The interceptor that every call passes.
    pub fn interceptor(&self) -> (interceptor: &MacaroonInterceptor)
        ensures
            interceptor@ == self@.macaroon,
    {
        &self.interceptor
    }

    /// Makes a call ready to send: the macaroon is entered in its metadata,
    /// and the call is directed to the node of the channel. Path, query and
    /// the other metadata stay as the caller gave them.
    pub fn prepare(&self, target: RequestTarget, metadata: Metadata) -> (outgoing: Outgoing)
        requires
            is_header_value(self@.macaroon),
        ensures
            outgoing.target@ == rewritten(self@.channel, target@),
            outgoing.metadata@ == metadata@.insert(macaroon_key(), self@.macaroon),
    {
        Outgoing {
            target: self.channel.rewrite(target),
            metadata: self.interceptor.call(metadata),
        }
    }
}

/// A client as a mathematical value: the clients of its five services.
pub struct ClientView {
    pub lightning: ServiceClientView,
    pub wallet: ServiceClientView,
    pub signer: ServiceClientView,
    pub peers: ServiceClientView,
    pub version: ServiceClientView,
}

/// The clients that one channel and one macaroon give: one for each
/// service, each on that channel and with that macaroon.
pub open spec fn clients_of(channel: ChannelView, macaroon: Seq<char>) -> ClientView {
    ClientView {
        lightning: ServiceClientView { service: Service::Lightning, channel, macaroon },
        wallet: ServiceClientView { service: Service::WalletKit, channel, macaroon },
        signer: ServiceClientView { service: Service::Signer, channel, macaroon },
        peers: ServiceClientView { service: Service::Peers, channel, macaroon },
        version: ServiceClientView { service: Service::Versioner, channel, macaroon },
    }
}

/// The client returned by a connection attempt that succeeded.
///
/// This is a convenience type which you most likely want to use instead of
/// the client of a single service.
#[derive(Debug)]
pub struct Client {
    lightning: ServiceClient,
    wallet: ServiceClient,
    signer: ServiceClient,
    peers: ServiceClient,
    version: ServiceClient,
}

impl View for Client {
    type V = ClientView;

    closed spec fn view(&self) -> ClientView {
        ClientView {
            lightning: self.lightning@,
            wallet: self.wallet@,
            signer: self.signer@,
            peers: self.peers@,
            version: self.version@,
        }
    }
}

impl Clone for Client {
    fn clone(&self) -> (copy: Self)
        ensures
            copy@ == self@,
    {
        Client {
            lightning: self.lightning.clone(),
            wallet: self.wallet.clone(),
            signer: self.signer.clone(),
            peers: self.peers.clone(),
            version: self.version.clone(),
        }
    }
}

impl Client {
    /// The clients of all services on one channel: each gets a copy of the
    /// channel and a copy of the interceptor.
    pub fn new(channel: Channel, interceptor: MacaroonInterceptor) -> (client: Self)
        ensures
            client@ == clients_of(channel@, interceptor@),
    {
        Client {
            lightning: ServiceClient::with_interceptor(
                Service::Lightning,
                channel.clone(),
                interceptor.clone(),
            ),
            wallet: ServiceClient::with_interceptor(
                Service::WalletKit,
                channel.clone(),
                interceptor.clone(),
            ),
            peers: ServiceClient::with_interceptor(
                Service::Peers,
                channel.clone(),
                interceptor.clone(),
            ),
            version: ServiceClient::with_interceptor(
                Service::Versioner,
                channel.clone(),
                interceptor.clone(),
            ),
            signer: ServiceClient::with_interceptor(Service::Signer, channel, interceptor),
        }
    }

    /// Returns the lightning client.
    pub fn lightning(&mut self) -> (client: &mut ServiceClient)
        ensures
            client@ == old(self)@.lightning,
            final(self)@ == (ClientView { lightning: final(client)@, ..old(self)@ }),
    {
        &mut self.lightning
    }

    /// Returns the wallet client.
    pub fn wallet(&mut self) -> (client: &mut ServiceClient)
        ensures
            client@ == old(self)@.wallet,
            final(self)@ == (ClientView { wallet: final(client)@, ..old(self)@ }),
    {
        &mut self.wallet
    }

    /// Returns the signer client.
    pub fn signer(&mut self) -> (client: &mut ServiceClient)
        ensures
            client@ == old(self)@.signer,
            final(self)@ == (ClientView { signer: final(client)@, ..old(self)@ }),
    {
        &mut self.signer
    }

    /// Returns the versioner client.
    pub fn versioner(&mut self) -> (client: &mut ServiceClient)
        ensures
            client@ == old(self)@.version,
            final(self)@ == (ClientView { version: final(client)@, ..old(self)@ }),
    {
        &mut self.version
    }

    /// Returns the peers client.
    pub fn peers(&mut self) -> (client: &mut ServiceClient)
        ensures
            client@ == old(self)@.peers,
            final(self)@ == (ClientView { peers: final(client)@, ..old(self)@ }),
    {
        &mut self.peers
    }
}

} // verus!
