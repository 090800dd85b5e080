use vstd::prelude::*;

use crate::ack::AckView;
use crate::contract::dispatch_outcome;
use crate::error::ContractErrorView;
use crate::ibc::{
    ack_outcome, first_coin, handshake_verdict, ibc_version, payload_to_decode, IbcChannelView,
    IbcOrder,
};
use crate::msg::{BalanceQueryView, BalanceResponseView, CoinView};
use crate::response::{ResponseView, Timestamp};
use crate::state::{DeliveryMode, IcqStateView, ResponseStoreView};

verus! {

/// One step in the life of the protocol, as the state sees it.
pub enum Event {
    /// A first step of the handshake proposes a channel.
    ChannelOpen { channel: IbcChannelView, counterparty_version: Option<Seq<char>> },
    /// A last step of the handshake proposes a channel.
    ChannelConnect { channel: IbcChannelView, counterparty_version: Option<Seq<char>> },
    /// The channel is closed.
    ChannelClose,
    /// A caller asks for a balance.
    SendQueryBalance { now: Timestamp, query: BalanceQueryView },
    /// A packet comes in, whose data decoded to `payload`.
    PacketReceive { sequence: u64, payload: Result<BalanceResponseView, Seq<char>> },
    /// The acknowledgement of a query packet comes in, whose bytes decoded
    /// to `read`, and the payload of its result to `payload`.
    PacketAck {
        sequence: u64,
        read: Option<AckView>,
        payload: Result<BalanceResponseView, Seq<char>>,
    },
    /// A query packet expired.
    PacketTimeout,
}

impl Event {
    /// The event is a last step of the handshake that passes.
    pub open spec fn connects(self) -> bool {
        match self {
            Event::ChannelConnect { channel, counterparty_version } => handshake_verdict(
                channel,
                counterparty_version,
            ) is Ok,
            _ => false,
        }
    }
}

impl IcqStateView {
    /// The state after one event.
    pub open spec fn after(self, event: Event) -> IcqStateView {
        match event {
            Event::ChannelOpen { .. } => self,
            Event::ChannelConnect { channel, counterparty_version } => self.after_connect(
                channel,
                counterparty_version,
            ),
            Event::ChannelClose => self.after_close(),
            Event::SendQueryBalance { .. } => self,
            Event::PacketReceive { sequence, payload } => self.after_receive(sequence, payload),
            Event::PacketAck { sequence, read, payload } => self.after_ack(sequence, read, payload),
            Event::PacketTimeout => self,
        }
    }

    /// The state after a run of events, the first of them first.
    pub open spec fn after_all(self, events: Seq<Event>) -> IcqStateView
        decreases events.len(),
    {
        if events.len() == 0 {
            self
        } else {
            self.after_all(events.drop_last()).after(events.last())
        }
    }
}

/// An ordered channel is refused at every step of the handshake, whatever
/// its versions, and the state is left as it was.
pub proof fn lemma_ordered_channel_is_refused(
    state: IcqStateView,
    channel: IbcChannelView,
    counterparty_version: Option<Seq<char>>,
)
    requires
        channel.order != IbcOrder::Unordered,
    ensures
        handshake_verdict(channel, counterparty_version) == Err::<(), ContractErrorView>(
            ContractErrorView::OnlyUnorderedChannel,
        ),
        state.after(Event::ChannelOpen { channel, counterparty_version }) == state,
        state.after(Event::ChannelConnect { channel, counterparty_version }) == state,
{
}

/// On an unordered channel a version other than the protocol's is refused
/// at every step of the handshake, be it the channel's own or the
/// counterparty's where that is known. The error names the offending
/// version, the channel's own first, and the protocol's as the expected
/// one. The state is left as it was.
pub proof fn lemma_wrong_version_is_refused(
    state: IcqStateView,
    channel: IbcChannelView,
    counterparty_version: Option<Seq<char>>,
)
    requires
        channel.order == IbcOrder::Unordered,
        channel.version != ibc_version() || (counterparty_version matches Some(theirs) && theirs
            != ibc_version()),
    ensures
        handshake_verdict(channel, counterparty_version) == Err::<(), ContractErrorView>(
            ContractErrorView::InvalidVersion {
                actual: if channel.version != ibc_version() {
                    channel.version
                } else {
                    counterparty_version->Some_0
                },
                expected: ibc_version(),
            },
        ),
        state.after(Event::ChannelOpen { channel, counterparty_version }) == state,
        state.after(Event::ChannelConnect { channel, counterparty_version }) == state,
{
}

/// A channel passes the handshake exactly when it is unordered and every
/// version that the step knows is the protocol's.
pub proof fn lemma_handshake_passes_iff(
    channel: IbcChannelView,
    counterparty_version: Option<Seq<char>>,
)
    ensures
        handshake_verdict(channel, counterparty_version) is Ok <==> {
            &&& channel.order == IbcOrder::Unordered
            &&& channel.version == ibc_version()
            &&& counterparty_version matches Some(theirs) ==> theirs == ibc_version()
        },
{
}

/// Once a channel has passed the last steps of the handshake, a query is
/// sent, and sent on that channel.
pub proof fn lemma_dispatch_after_connect(
    state: IcqStateView,
    channel: IbcChannelView,
    counterparty_version: Option<Seq<char>>,
    now: Timestamp,
    query: BalanceQueryView,
)
    requires
        handshake_verdict(channel, counterparty_version) is Ok,
    ensures
        dispatch_outcome(state.after_connect(channel, counterparty_version), now, query) is Ok,
        dispatch_outcome(
            state.after_connect(channel, counterparty_version),
            now,
            query,
        )->Ok_0.messages.len() == 1,
        dispatch_outcome(
            state.after_connect(channel, counterparty_version),
            now,
            query,
        )->Ok_0.messages[0]->channel_id == channel.endpoint.channel_id,
        dispatch_outcome(
            state.after_connect(channel, counterparty_version),
            now,
            query,
        )->Ok_0.messages[0]->data == query,
{
}

/// As long as no last step of the handshake has passed, no channel is
/// connected and every query is turned down.
pub proof fn lemma_no_dispatch_before_connect(
    mode: DeliveryMode,
    events: Seq<Event>,
    now: Timestamp,
    query: BalanceQueryView,
)
    requires
        forall|i: int| 0 <= i < events.len() ==> !(#[trigger] events[i]).connects(),
    ensures
        IcqStateView::initial(mode).after_all(events).channel_info is None,
        dispatch_outcome(IcqStateView::initial(mode).after_all(events), now, query) == Err::<
            ResponseView,
            ContractErrorView,
        >(ContractErrorView::ChannelNotEstablished),
    decreases events.len(),
{
    if events.len() > 0 {
        lemma_no_dispatch_before_connect(mode, events.drop_last(), now, query);
    }
}

/// In the run of events a last step of the handshake passed, and the
/// channel was not closed since.
pub open spec fn connected_at_the_end(events: Seq<Event>) -> bool {
    exists|i: int|
        0 <= i < events.len() && (#[trigger] events[i]).connects() && forall|j: int|
            i < j < events.len() ==> !(#[trigger] events[j] is ChannelClose)
}

/// A channel is connected exactly when a last step of the handshake has
/// passed and the channel has not been closed since.
pub proof fn lemma_connected_iff(mode: DeliveryMode, events: Seq<Event>)
    ensures
        IcqStateView::initial(mode).after_all(events).channel_info is Some
            <==> connected_at_the_end(events),
    decreases events.len(),
{
    if events.len() > 0 {
        let earlier = events.drop_last();
        let last = events.last();
        lemma_connected_iff(mode, earlier);
        if last.connects() {
            assert(events[events.len() - 1].connects());
        } else if last is ChannelClose {
            assert(events[events.len() - 1] is ChannelClose);
        } else {
            // The last event changes nothing about the channel, and the
            // witness for the one run serves for the other.
            if connected_at_the_end(earlier) {
                let i = choose|i: int|
                    0 <= i < earlier.len() && (#[trigger] earlier[i]).connects() && forall|j: int|
                        i < j < earlier.len() ==> !(#[trigger] earlier[j] is ChannelClose);
                assert(events[i].connects());
                assert forall|j: int| i < j < events.len() implies !(#[trigger] events[j]
                    is ChannelClose) by {
                    if j < earlier.len() {
                        assert(earlier[j] == events[j]);
                    }
                }
            }
            if connected_at_the_end(events) {
                let i = choose|i: int|
                    0 <= i < events.len() && (#[trigger] events[i]).connects() && forall|j: int|
                        i < j < events.len() ==> !(#[trigger] events[j] is ChannelClose);
                assert(earlier[i].connects());
                assert forall|j: int| i < j < earlier.len() implies !(#[trigger] earlier[j]
                    is ChannelClose) by {
                    assert(earlier[j] == events[j]);
                }
            }
        }
    }
}

/// After the channel is closed every query is turned down, and the answers
/// and failures on record are those that were on record before.
pub proof fn lemma_close_keeps_record(state: IcqStateView, now: Timestamp, query: BalanceQueryView)
    ensures
        state.after_close().responses == state.responses,
        dispatch_outcome(state.after_close(), now, query) == Err::<
            ResponseView,
            ContractErrorView,
        >(ContractErrorView::ChannelNotEstablished),
{
}

/// Recording the same answer for the same packet a second time changes
/// nothing.
pub proof fn lemma_put_result_twice(store: ResponseStoreView, sequence: u64, coin: CoinView)
    ensures
        store.put_result(sequence, coin).put_result(sequence, coin) == store.put_result(
            sequence,
            coin,
        ),
{
    assert(store.results.insert(sequence, coin).insert(sequence, coin) =~= store.results.insert(
        sequence,
        coin,
    ));
}

/// Recording the same failure for the same packet a second time changes
/// nothing.
pub proof fn lemma_put_error_twice(store: ResponseStoreView, sequence: u64, message: Seq<char>)
    ensures
        store.put_error(sequence, message).put_error(sequence, message) == store.put_error(
            sequence,
            message,
        ),
{
    assert(store.errors.insert(sequence, message).insert(sequence, message)
        =~= store.errors.insert(sequence, message));
}

/// Handling the same inbound event twice leaves the state that handling it
/// once leaves: a redelivered packet or acknowledgement does no harm.
pub proof fn lemma_redelivery_changes_nothing(state: IcqStateView, event: Event)
    requires
        event is PacketReceive || event is PacketAck || event is PacketTimeout,
    ensures
        state.after(event).after(event) == state.after(event),
{
    match event {
        Event::PacketReceive { sequence, payload } => {
            if let Ok(coin) = first_coin(payload) {
                lemma_put_result_twice(state.responses, sequence, coin);
            }
        },
        Event::PacketAck { sequence, read, payload } => {
            if let Ok(coin) = first_coin(payload) {
                lemma_put_result_twice(state.responses, sequence, coin);
            }
            if let Some(AckView::Error(message)) = read {
                lemma_put_error_twice(state.responses, sequence, message);
            }
        },
        _ => {},
    }
}

/// No event changes the delivery mode, and none takes an answer or a
/// failure off the record.
pub proof fn lemma_record_only_grows(state: IcqStateView, event: Event)
    ensures
        state.after(event).mode == state.mode,
        state.responses.results.dom().subset_of(state.after(event).responses.results.dom()),
        state.responses.errors.dom().subset_of(state.after(event).responses.errors.dom()),
{
}

/// An event leaves every packet's record alone but that of the packet it is
/// about.
pub proof fn lemma_other_records_stay(state: IcqStateView, event: Event, other: u64)
    requires
        event matches Event::PacketReceive { sequence, .. } ==> sequence != other,
        event matches Event::PacketAck { sequence, .. } ==> sequence != other,
    ensures
        state.after(event).responses.results.contains_key(other)
            == state.responses.results.contains_key(other),
        state.after(event).responses.results.contains_key(other) ==> state.after(
            event,
        ).responses.results[other] == state.responses.results[other],
        state.after(event).responses.errors.contains_key(other)
            == state.responses.errors.contains_key(other),
        state.after(event).responses.errors.contains_key(other) ==> state.after(
            event,
        ).responses.errors[other] == state.responses.errors[other],
{
}

/// A packet that expired, a query that was sent and a first step of the
/// handshake leave the state as it was.
pub proof fn lemma_observations_change_nothing(state: IcqStateView, event: Event)
    requires
        event is PacketTimeout || event is SendQueryBalance || event is ChannelOpen,
    ensures
        state.after(event) == state,
{
}

/// The two delivery modes differ in nothing but the inbound event that
/// they take answers from: where answers ride acknowledgements an inbound
/// packet changes nothing, and where they come as packets an
/// acknowledgement changes nothing.
pub proof fn lemma_one_event_is_authoritative(state: IcqStateView, event: Event)
    ensures
        state.mode == DeliveryMode::Acknowledgement && event is PacketReceive ==> state.after(event)
            == state,
        state.mode == DeliveryMode::Receive && event is PacketAck ==> state.after(event) == state,
{
}

/// The channel's life and the sending of queries do not depend on the
/// delivery mode.
pub proof fn lemma_modes_share_the_channel(
    state: IcqStateView,
    other: DeliveryMode,
    event: Event,
    now: Timestamp,
    query: BalanceQueryView,
)
    requires
        event is ChannelOpen || event is ChannelConnect || event is ChannelClose,
    ensures
        (IcqStateView { mode: other, ..state }).after(event) == (IcqStateView {
            mode: other,
            ..state.after(event)
        }),
        dispatch_outcome(IcqStateView { mode: other, ..state }, now, query) == dispatch_outcome(
            state,
            now,
            query,
        ),
{
}

/// Where no bytes of an acknowledgement are to be decoded, the payload
/// that the acknowledgement handler is given makes no difference.
pub proof fn lemma_unread_payload_is_ignored(
    state: IcqStateView,
    sequence: u64,
    read: Option<AckView>,
    one: Result<BalanceResponseView, Seq<char>>,
    other: Result<BalanceResponseView, Seq<char>>,
)
    requires
        payload_to_decode(state.mode, read) is None,
    ensures
        state.after_ack(sequence, read, one) == state.after_ack(sequence, read, other),
        ack_outcome(state.mode, sequence, read, one) == ack_outcome(
            state.mode,
            sequence,
            read,
            other,
        ),
{
}

/// An event that is turned down leaves the state as it was: a handshake
/// step that fails keeps no channel, an acknowledgement that is an error to
/// the handler leaves no record, and neither does a packet that is answered
/// with an error acknowledgement.
pub proof fn lemma_failure_changes_nothing(
    state: IcqStateView,
    channel: IbcChannelView,
    counterparty_version: Option<Seq<char>>,
    sequence: u64,
    read: Option<AckView>,
    payload: Result<BalanceResponseView, Seq<char>>,
)
    ensures
        handshake_verdict(channel, counterparty_version) is Err ==> state.after_connect(
            channel,
            counterparty_version,
        ) == state,
        ack_outcome(state.mode, sequence, read, payload) is Err ==> state.after_ack(
            sequence,
            read,
            payload,
        ) == state,
        first_coin(payload) is Err ==> state.after_receive(sequence, payload) == state,
{
}

} // verus!
