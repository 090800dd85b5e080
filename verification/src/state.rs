use vstd::prelude::*;

use crate::msg::{Coin, CoinView};
use crate::store::{entry_views, listing, lists, SequenceMap};

verus! {

/// One end of a channel: a port and the channel's name on that side.
#[derive(Clone, Debug, PartialEq, Eq)]
pub struct IbcEndpoint {
    pub port_id: String,
    pub channel_id: String,
}

/// The mathematical value of an [`IbcEndpoint`].
pub struct IbcEndpointView {
    pub port_id: Seq<char>,
    pub channel_id: Seq<char>,
}

impl View for IbcEndpoint {
    type V = IbcEndpointView;

    open spec fn view(&self) -> IbcEndpointView {
        IbcEndpointView { port_id: self.port_id@, channel_id: self.channel_id@ }
    }
}

/// What is kept of the connected channel. It does not change while the
/// channel lives.
#[derive(Clone, Debug, PartialEq, Eq)]
pub struct ChannelInfo {
    /// The channel's name on this side.
    pub id: String,
    /// The remote port and channel.
    pub counterparty_endpoint: IbcEndpoint,
    /// The connection that the channel runs over.
    pub connection_id: String,
}

/// The mathematical value of a [`ChannelInfo`].
pub struct ChannelInfoView {
    pub id: Seq<char>,
    pub counterparty_endpoint: IbcEndpointView,
    pub connection_id: Seq<char>,
}

impl View for ChannelInfo {
    type V = ChannelInfoView;

    open spec fn view(&self) -> ChannelInfoView {
        ChannelInfoView {
            id: self.id@,
            counterparty_endpoint: self.counterparty_endpoint@,
            connection_id: self.connection_id@,
        }
    }
}

/// Which inbound event carries the answer to a query.
#[derive(Clone, Copy, Debug, PartialEq, Eq, Structural)]
pub enum DeliveryMode {
    /// The answer rides the acknowledgement of the query packet.
    Acknowledgement,
    /// The answer comes as a packet of its own.
    Receive,
}

/// The answers and the failures on record, each under the sequence number
/// of the packet it belongs to.
pub struct ResponseStore {
    results: SequenceMap<Coin>,
    errors: SequenceMap<String>,
}

/// The mathematical value of a [`ResponseStore`].
pub struct ResponseStoreView {
    pub results: Map<u64, CoinView>,
    pub errors: Map<u64, Seq<char>>,
}

impl ResponseStoreView {
    /// A store with nothing on record.
    pub open spec fn empty() -> ResponseStoreView {
        ResponseStoreView { results: Map::empty(), errors: Map::empty() }
    }

    /// The store once `coin` is on record as the answer to packet `sequence`.
    pub open spec fn put_result(self, sequence: u64, coin: CoinView) -> ResponseStoreView {
        ResponseStoreView { results: self.results.insert(sequence, coin), ..self }
    }

    /// The store once `message` is on record as the failure of packet
    /// `sequence`.
    pub open spec fn put_error(self, sequence: u64, message: Seq<char>) -> ResponseStoreView {
        ResponseStoreView { errors: self.errors.insert(sequence, message), ..self }
    }
}

impl View for ResponseStore {
    type V = ResponseStoreView;

    closed spec fn view(&self) -> ResponseStoreView {
        ResponseStoreView { results: self.results@, errors: self.errors@ }
    }
}

impl ResponseStore {
    /// A store with nothing on record.
    pub fn new() -> (r: Self)
        ensures
            r@ == ResponseStoreView::empty(),
    {
        ResponseStore { results: SequenceMap::new(), errors: SequenceMap::new() }
    }

    /// Records `coin` as the answer to packet `sequence`, in place of an
    /// answer recorded for it before.
    pub fn put_result(&mut self, sequence: u64, coin: Coin)
        ensures
            final(self)@ == old(self)@.put_result(sequence, coin@),
    {
        self.results.put(sequence, coin);
    }

    /// Records `message` as the failure of packet `sequence`, in place of a
    /// failure recorded for it before.
    pub fn put_error(&mut self, sequence: u64, message: String)
        ensures
            final(self)@ == old(self)@.put_error(sequence, message@),
    {
        self.errors.put(sequence, message);
    }

    /// The answers on record, by ascending sequence number.
    pub fn list_results(&self) -> (r: &Vec<(u64, Coin)>)
        ensures
            lists(entry_views(r@), self@.results),
            entry_views(r@) == listing(self@.results),
    {
        self.results.entries()
    }

    /// The failures on record, by ascending sequence number.
    pub fn list_errors(&self) -> (r: &Vec<(u64, String)>)
        ensures
            lists(entry_views(r@), self@.errors),
            entry_views(r@) == listing(self@.errors),
    {
        self.errors.entries()
    }

    /// The answer on record for packet `sequence`, if there is one.
    pub fn result(&self, sequence: u64) -> (r: Option<&Coin>)
        ensures
            match r {
                Some(coin) => self@.results.contains_key(sequence) && self@.results[sequence]
                    == coin@,
                None => !self@.results.contains_key(sequence),
            },
    {
        self.results.get(sequence)
    }

    /// The failure on record for packet `sequence`, if there is one.
    pub fn error(&self, sequence: u64) -> (r: Option<&String>)
        ensures
            match r {
                Some(message) => self@.errors.contains_key(sequence) && self@.errors[sequence]
                    == message@,
                None => !self@.errors.contains_key(sequence),
            },
    {
        self.errors.get(sequence)
    }
}

/// All that the protocol keeps between two events: the delivery mode it was
/// set up with, the connected channel if there is one, and the record of
/// answers.
pub struct IcqState {
    pub mode: DeliveryMode,
    pub channel_info: Option<ChannelInfo>,
    pub responses: ResponseStore,
}

/// The mathematical value of an [`IcqState`].
pub struct IcqStateView {
    pub mode: DeliveryMode,
    pub channel_info: Option<ChannelInfoView>,
    pub responses: ResponseStoreView,
}

impl View for IcqState {
    type V = IcqStateView;

    open spec fn view(&self) -> IcqStateView {
        IcqStateView {
            mode: self.mode,
            channel_info: match self.channel_info {
                Some(info) => Some(info@),
                None => None,
            },
            responses: self.responses@,
        }
    }
}

impl IcqStateView {
    /// The state before any channel: nothing connected, nothing on record.
    pub open spec fn initial(mode: DeliveryMode) -> IcqStateView {
        IcqStateView { mode, channel_info: None, responses: ResponseStoreView::empty() }
    }
}

impl IcqState {
    /// The state before any channel: nothing connected, nothing on record.
    pub fn new(mode: DeliveryMode) -> (r: Self)
        ensures
            r@ == IcqStateView::initial(mode),
    {
        IcqState { mode, channel_info: None, responses: ResponseStore::new() }
    }
}

} // verus!
