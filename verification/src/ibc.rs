use vstd::prelude::*;
use vstd::string::StringExecFns;

use crate::ack::{
    ack_decoding, ack_encoding, make_ack_fail, make_ack_success, plain_success, Ack, AckView,
};
use crate::error::{result_view, ContractError, ContractErrorView};
use crate::msg::{BalanceResponse, BalanceResponseView, Coin, CoinView};
use crate::response::{
    attr, one_attribute, three_attributes, two_attributes, AttributeViews, IbcBasicResponse,
    IbcReceiveResponse, IbcReceiveResponseView,
};
use crate::state::{
    ChannelInfo, ChannelInfoView, DeliveryMode, IbcEndpoint, IbcEndpointView, IcqState,
    IcqStateView,
};
use crate::text::{decimal, to_decimal};

verus! {

/// The one protocol version this side speaks.
pub const IBC_VERSION: &'static str = "icq-1";

/// The characters of [`IBC_VERSION`].
pub open spec fn ibc_version() -> Seq<char> {
    seq!['i', 'c', 'q', '-', '1']
}

/// How a channel delivers its packets.
#[derive(Clone, Copy, Debug, PartialEq, Eq, Structural)]
pub enum IbcOrder {
    Unordered,
    Ordered,
}

/// A channel as a handshake step proposes it.
#[derive(Clone, Debug, PartialEq, Eq)]
pub struct IbcChannel {
    pub endpoint: IbcEndpoint,
    pub counterparty_endpoint: IbcEndpoint,
    pub order: IbcOrder,
    pub version: String,
    pub connection_id: String,
}

/// The mathematical value of an [`IbcChannel`].
pub struct IbcChannelView {
    pub endpoint: IbcEndpointView,
    pub counterparty_endpoint: IbcEndpointView,
    pub order: IbcOrder,
    pub version: Seq<char>,
    pub connection_id: Seq<char>,
}

impl View for IbcChannel {
    type V = IbcChannelView;

    open spec fn view(&self) -> IbcChannelView {
        IbcChannelView {
            endpoint: self.endpoint@,
            counterparty_endpoint: self.counterparty_endpoint@,
            order: self.order,
            version: self.version@,
            connection_id: self.connection_id@,
        }
    }
}

impl IbcChannelView {
    /// What is kept of the channel once it is connected.
    pub open spec fn info(self) -> ChannelInfoView {
        ChannelInfoView {
            id: self.endpoint.channel_id,
            counterparty_endpoint: self.counterparty_endpoint,
            connection_id: self.connection_id,
        }
    }
}

/// The characters of the counterparty's version, where it is known.
pub open spec fn version_view(version: Option<&str>) -> Option<Seq<char>> {
    match version {
        Some(v) => Some(v@),
        None => None,
    }
}

/// What a handshake step decides for a proposed channel, and for the
/// counterparty's version where it is known already. The order is judged
/// first, then the channel's own version, then the counterparty's.
pub open spec fn handshake_verdict(
    channel: IbcChannelView,
    counterparty_version: Option<Seq<char>>,
) -> Result<(), ContractErrorView> {
    if channel.order != IbcOrder::Unordered {
        Err(ContractErrorView::OnlyUnorderedChannel)
    } else if !(channel.version =~= ibc_version()) {
        Err(ContractErrorView::InvalidVersion { actual: channel.version, expected: ibc_version() })
    } else if counterparty_version is Some && !(counterparty_version->Some_0
        =~= ibc_version()) {
        Err(
            ContractErrorView::InvalidVersion {
                actual: counterparty_version->Some_0,
                expected: ibc_version(),
            },
        )
    } else {
        Ok(())
    }
}

/// Tests one version string of a handshake against [`IBC_VERSION`].
fn check_version(version: &str) -> (r: Result<(), ContractError>)
    ensures
        result_view(r) == if version@ == ibc_version() {
            Ok::<(), ContractErrorView>(())
        } else {
            Err(ContractErrorView::InvalidVersion { actual: version@, expected: ibc_version() })
        },
{
    proof {
        reveal_strlit("icq-1");
    }
    let expected = String::from_str(IBC_VERSION);
    assert(expected@ =~= ibc_version());
    let actual = String::from_str(version);
    if actual == expected {
        Ok(())
    } else {
        Err(ContractError::InvalidVersion { actual, expected })
    }
}

/// Decides whether a proposed channel is one this protocol can run on: it
/// must be unordered and of version [`IBC_VERSION`], and so must the
/// counterparty's version be where the step knows it.
pub fn validate_order_and_version(channel: &IbcChannel, counterparty_version: Option<&str>) -> (r:
    Result<(), ContractError>)
    ensures
        result_view(r) == handshake_verdict(channel@, version_view(counterparty_version)),
{
    // An ordered channel stops for good when one packet is lost, and a
    // query that went unanswered must not hold up the next.
    match channel.order {
        IbcOrder::Unordered => {},
        IbcOrder::Ordered => {
            return Err(ContractError::OnlyUnorderedChannel);
        },
    }
    match check_version(channel.version.as_str()) {
        Ok(_) => {},
        Err(e) => {
            return Err(e);
        },
    }
    // Each side learns the other's version at a different step of the
    // handshake. It is tested at the step that knows it.
    match counterparty_version {
        Some(theirs) => check_version(theirs),
        None => Ok(()),
    }
}

/// The first steps of the handshake: the channel is judged and nothing is
/// kept. `Ok(None)` accepts it without proposing another version, since
/// there is only one.
pub fn ibc_channel_open(channel: &IbcChannel, counterparty_version: Option<&str>) -> (r: Result<
    Option<String>,
    ContractError,
>)
    ensures
        match handshake_verdict(channel@, version_view(counterparty_version)) {
            Ok(_) => r is Ok && r->Ok_0 is None,
            Err(e) => r is Err && r->Err_0@ == e,
        },
{
    match validate_order_and_version(channel, counterparty_version) {
        Ok(_) => Ok(None),
        Err(e) => Err(e),
    }
}

impl IcqStateView {
    /// The state after the closing steps of the handshake for `channel`: it
    /// is the connected channel if it passes, and nothing changes if not.
    pub open spec fn after_connect(
        self,
        channel: IbcChannelView,
        counterparty_version: Option<Seq<char>>,
    ) -> IcqStateView {
        if handshake_verdict(channel, counterparty_version) is Ok {
            IcqStateView { channel_info: Some(channel.info()), ..self }
        } else {
            self
        }
    }

    /// The state after the channel is closed: no channel is connected, and
    /// the record of answers is as it was.
    pub open spec fn after_close(self) -> IcqStateView {
        IcqStateView { channel_info: None, ..self }
    }

    /// The state once `coin` is on record as the answer to packet
    /// `sequence`.
    pub open spec fn with_result(self, sequence: u64, coin: CoinView) -> IcqStateView {
        IcqStateView { responses: self.responses.put_result(sequence, coin), ..self }
    }

    /// The state once `message` is on record as the failure of packet
    /// `sequence`.
    pub open spec fn with_error(self, sequence: u64, message: Seq<char>) -> IcqStateView {
        IcqStateView { responses: self.responses.put_error(sequence, message), ..self }
    }

    /// The state after a payload was taken as the answer to packet
    /// `sequence`: its first coin is on record, or nothing changes where it
    /// has none to give.
    pub open spec fn after_answer(
        self,
        sequence: u64,
        payload: Result<BalanceResponseView, Seq<char>>,
    ) -> IcqStateView {
        match first_coin(payload) {
            Ok(coin) => self.with_result(sequence, coin),
            Err(_) => self,
        }
    }

    /// The state after an acknowledgement was taken as the last word on
    /// packet `sequence`, `payload` being what a result's payload decoded
    /// to.
    pub open spec fn after_verdict(
        self,
        sequence: u64,
        ack: AckView,
        payload: Result<BalanceResponseView, Seq<char>>,
    ) -> IcqStateView {
        match ack {
            AckView::Result(_) => self.after_answer(sequence, payload),
            AckView::Error(message) => self.with_error(sequence, message),
        }
    }

    /// The state after an inbound packet with number `sequence`, whose data
    /// decoded to `payload`.
    pub open spec fn after_receive(
        self,
        sequence: u64,
        payload: Result<BalanceResponseView, Seq<char>>,
    ) -> IcqStateView {
        match self.mode {
            DeliveryMode::Receive => self.after_answer(sequence, payload),
            DeliveryMode::Acknowledgement => self,
        }
    }

    /// The state after the acknowledgement of packet `sequence` came in,
    /// `read` being what its bytes decoded to.
    pub open spec fn after_ack(
        self,
        sequence: u64,
        read: Option<AckView>,
        payload: Result<BalanceResponseView, Seq<char>>,
    ) -> IcqStateView {
        match (self.mode, read) {
            (DeliveryMode::Acknowledgement, Some(ack)) => {
                self.after_verdict(sequence, ack, payload)
            },
            _ => self,
        }
    }
}

/// The last steps of the handshake: the channel is judged once more, and
/// kept as the connected channel if it passes. A channel that was connected
/// before is replaced whole.
pub fn ibc_channel_connect(
    state: &mut IcqState,
    channel: IbcChannel,
    counterparty_version: Option<&str>,
) -> (r: Result<IbcBasicResponse, ContractError>)
    ensures
        final(state)@ == old(state)@.after_connect(channel@, version_view(counterparty_version)),
        result_view(r) == match handshake_verdict(channel@, version_view(counterparty_version)) {
            Ok(_) => Ok::<AttributeViews, ContractErrorView>(Seq::empty()),
            Err(e) => Err(e),
        },
{
    match validate_order_and_version(&channel, counterparty_version) {
        Ok(_) => {},
        Err(e) => {
            return Err(e);
        },
    }
    let info = ChannelInfo {
        id: channel.endpoint.channel_id,
        counterparty_endpoint: channel.counterparty_endpoint,
        connection_id: channel.connection_id,
    };
    state.channel_info = Some(info);
    let response = IbcBasicResponse { attributes: Vec::new() };
    assert(response@ =~= Seq::empty());
    Ok(response)
}

/// What closing a channel answers: the handler's name, and the name of the
/// channel that was closed.
pub open spec fn close_attributes(channel: IbcChannelView) -> AttributeViews {
    seq![("method"@, "ibc_channel_close"@), ("channel"@, channel.endpoint.channel_id)]
}

/// Closes the channel: whatever was connected is forgotten. The answers on
/// record stay.
pub fn ibc_channel_close(state: &mut IcqState, channel: &IbcChannel) -> (r: Result<
    IbcBasicResponse,
    ContractError,
>)
    ensures
        final(state)@ == old(state)@.after_close(),
        result_view(r) == Ok::<AttributeViews, ContractErrorView>(
            close_attributes(channel@),
        ),
{
    state.channel_info = None;
    Ok(
        IbcBasicResponse {
            attributes: two_attributes(
                attr("method", String::from_str("ibc_channel_close")),
                attr("channel", channel.endpoint.channel_id.clone()),
            ),
        },
    )
}

/// The coin that a decoded payload gives for the record: the first one it
/// lists. A payload that could not be decoded gives none, and neither does
/// an answer with an empty list.
pub open spec fn first_coin(payload: Result<BalanceResponseView, Seq<char>>) -> Result<
    CoinView,
    ContractErrorView,
> {
    match payload {
        Ok(response) => if response.coins.len() == 0 {
            Err(ContractErrorView::EmptyBalance)
        } else {
            Ok(response.coins[0])
        },
        Err(reason) => Err(ContractErrorView::MalformedBalance { reason }),
    }
}

/// Takes the first coin out of a decoded payload.
pub fn take_first_coin(payload: Result<BalanceResponse, String>) -> (r: Result<Coin, ContractError>)
    ensures
        result_view(r) == first_coin(result_view(payload)),
{
    match payload {
        Ok(response) => {
            let mut coins = response.balances.coins;
            if coins.len() == 0 {
                Err(ContractError::EmptyBalance)
            } else {
                Ok(coins.swap_remove(0))
            }
        },
        Err(reason) => Err(ContractError::MalformedBalance { reason }),
    }
}

/// What the receiving handler answers when the answer went on record: the
/// plain success acknowledgement, the handler's name and the packet's
/// number.
pub open spec fn received_response(sequence: u64) -> IbcReceiveResponseView {
    IbcReceiveResponseView {
        acknowledgement: ack_encoding(plain_success()),
        attributes: seq![
            ("method"@, "ibc_packet_receive"@),
            ("sequence"@, decimal(sequence as nat)),
        ],
    }
}

/// What the receiving handler answers when nothing went on record: an error
/// acknowledgement with the reason, which the attributes repeat.
pub open spec fn rejected_response(reason: Seq<char>) -> IbcReceiveResponseView {
    IbcReceiveResponseView {
        acknowledgement: ack_encoding(AckView::Error(reason)),
        attributes: seq![
            ("action"@, "ibc_packet_receive"@),
            ("success"@, "false"@),
            ("error"@, reason),
        ],
    }
}

/// Answers an inbound packet that cannot be taken, for the given reason.
pub fn reject_packet(reason: String) -> (r: IbcReceiveResponse)
    ensures
        r@ == rejected_response(reason@),
{
    IbcReceiveResponse {
        acknowledgement: make_ack_fail(reason.clone()),
        attributes: three_attributes(
            attr("action", String::from_str("ibc_packet_receive")),
            attr("success", String::from_str("false")),
            attr("error", reason),
        ),
    }
}

/// What the receiving handler answers where answers ride acknowledgements
/// and an inbound packet carries nothing: the plain success
/// acknowledgement and the handler's name.
pub open spec fn ignored_response() -> IbcReceiveResponseView {
    IbcReceiveResponseView {
        acknowledgement: ack_encoding(plain_success()),
        attributes: seq![("method"@, "ibc_packet_receive"@)],
    }
}

/// What the receiving handler answers to an inbound packet.
pub open spec fn receive_response(
    mode: DeliveryMode,
    sequence: u64,
    payload: Result<BalanceResponseView, Seq<char>>,
) -> IbcReceiveResponseView {
    match mode {
        DeliveryMode::Acknowledgement => ignored_response(),
        DeliveryMode::Receive => match first_coin(payload) {
            Ok(_) => received_response(sequence),
            Err(e) => rejected_response(e.message()),
        },
    }
}

/// Takes a decoded payload as the answer to packet `sequence`: its first
/// coin goes on record under that number. Where it has no coin to give,
/// nothing is recorded and the reason is returned.
pub fn do_ibc_packet_receive(
    state: &mut IcqState,
    sequence: u64,
    payload: Result<BalanceResponse, String>,
) -> (r: Result<IbcReceiveResponse, ContractError>)
    ensures
        final(state)@ == old(state)@.after_answer(sequence, result_view(payload)),
        result_view(r) == match first_coin(result_view(payload)) {
            Ok(_) => Ok::<IbcReceiveResponseView, ContractErrorView>(received_response(sequence)),
            Err(e) => Err(e),
        },
{
    let coin = match take_first_coin(payload) {
        Ok(coin) => coin,
        Err(e) => {
            return Err(e);
        },
    };
    state.responses.put_result(sequence, coin);
    Ok(
        IbcReceiveResponse {
            acknowledgement: make_ack_success(),
            attributes: two_attributes(
                attr("method", String::from_str("ibc_packet_receive")),
                attr("sequence", to_decimal(sequence)),
            ),
        },
    )
}

/// Handles an inbound packet with number `sequence`, `payload` being what
/// its data decoded to. It never fails: what speaks against the packet goes
/// back to the sender in an error acknowledgement, and the channel stays
/// usable.
pub fn ibc_packet_receive(
    state: &mut IcqState,
    sequence: u64,
    payload: Result<BalanceResponse, String>,
) -> (r: IbcReceiveResponse)
    ensures
        final(state)@ == old(state)@.after_receive(sequence, result_view(payload)),
        r@ == receive_response(old(state)@.mode, sequence, result_view(payload)),
{
    match state.mode {
        DeliveryMode::Acknowledgement => IbcReceiveResponse {
            acknowledgement: make_ack_success(),
            attributes: one_attribute(attr("method", String::from_str("ibc_packet_receive"))),
        },
        DeliveryMode::Receive => match do_ibc_packet_receive(state, sequence, payload) {
            Ok(response) => response,
            Err(e) => reject_packet(e.message()),
        },
    }
}

/// The bytes of an acknowledgement that are to be decoded as a balance
/// answer before the acknowledgement is handled: the payload of a result,
/// where answers ride acknowledgements.
pub open spec fn payload_to_decode(mode: DeliveryMode, read: Option<AckView>) -> Option<Seq<u8>> {
    match (mode, read) {
        (DeliveryMode::Acknowledgement, Some(AckView::Result(payload))) => Some(payload),
        _ => None,
    }
}

/// Tells the caller which bytes of an acknowledgement to decode as a
/// balance answer, for [`ibc_packet_ack`] to take the outcome. With `None`
/// that handler does not look at the payload it is given.
pub fn ack_payload(state: &IcqState, acknowledgement: &[u8]) -> (r: Option<Vec<u8>>)
    ensures
        match payload_to_decode(state@.mode, ack_decoding(acknowledgement@)) {
            Some(payload) => r is Some && r->Some_0@ == payload,
            None => r is None,
        },
{
    match state.mode {
        DeliveryMode::Receive => None,
        DeliveryMode::Acknowledgement => match Ack::decode(acknowledgement) {
            Ok(Ack::Result(payload)) => Some(payload),
            _ => None,
        },
    }
}

/// What the acknowledgement handler answers to an acknowledgement that was
/// read, where answers ride acknowledgements.
pub open spec fn verdict_outcome(
    sequence: u64,
    ack: AckView,
    payload: Result<BalanceResponseView, Seq<char>>,
) -> Result<AttributeViews, ContractErrorView> {
    match ack {
        AckView::Result(_) => match first_coin(payload) {
            Ok(_) => Ok(
                seq![("method"@, "ibc_packet_ack"@), ("sequence"@, decimal(sequence as nat))],
            ),
            Err(e) => Err(e),
        },
        AckView::Error(message) => Ok(
            seq![
                ("method"@, "ibc_packet_ack"@),
                ("sequence"@, decimal(sequence as nat)),
                ("error"@, message),
            ],
        ),
    }
}

/// What the acknowledgement handler answers, `read` being what the
/// acknowledgement's bytes decoded to.
pub open spec fn ack_outcome(
    mode: DeliveryMode,
    sequence: u64,
    read: Option<AckView>,
    payload: Result<BalanceResponseView, Seq<char>>,
) -> Result<AttributeViews, ContractErrorView> {
    match mode {
        DeliveryMode::Receive => Ok(seq![("method"@, "ibc_packet_ack"@)]),
        DeliveryMode::Acknowledgement => match read {
            Some(ack) => verdict_outcome(sequence, ack, payload),
            None => Err(ContractErrorView::MalformedAck),
        },
    }
}

/// Takes an acknowledgement as the last word on packet `sequence`. Of a
/// result, the first coin of its payload goes on record, `payload` being
/// what the result's bytes decoded to; a payload with no coin to give is an
/// error and leaves no record. Of an error, the message goes on record as
/// the packet's failure, which is an outcome like any other and no fault of
/// the handler.
pub fn do_ibc_packet_ack(
    state: &mut IcqState,
    sequence: u64,
    ack: Ack,
    payload: Result<BalanceResponse, String>,
) -> (r: Result<IbcBasicResponse, ContractError>)
    ensures
        final(state)@ == old(state)@.after_verdict(sequence, ack@, result_view(payload)),
        result_view(r) == verdict_outcome(sequence, ack@, result_view(payload)),
{
    match ack {
        Ack::Result(_) => {
            let coin = match take_first_coin(payload) {
                Ok(coin) => coin,
                Err(e) => {
                    return Err(e);
                },
            };
            state.responses.put_result(sequence, coin);
            Ok(
                IbcBasicResponse {
                    attributes: two_attributes(
                        attr("method", String::from_str("ibc_packet_ack")),
                        attr("sequence", to_decimal(sequence)),
                    ),
                },
            )
        },
        Ack::Error(message) => {
            state.responses.put_error(sequence, message.clone());
            Ok(
                IbcBasicResponse {
                    attributes: three_attributes(
                        attr("method", String::from_str("ibc_packet_ack")),
                        attr("sequence", to_decimal(sequence)),
                        attr("error", message),
                    ),
                },
            )
        },
    }
}

/// Handles the acknowledgement of the query packet with number `sequence`.
/// Where answers ride acknowledgements its bytes are decoded and the outcome
/// goes on record; bytes that are no acknowledgement are an error, as there
/// is nobody left to answer to. Where answers come as packets of their own
/// an acknowledgement only confirms delivery, and is not even read.
pub fn ibc_packet_ack(
    state: &mut IcqState,
    sequence: u64,
    acknowledgement: &[u8],
    payload: Result<BalanceResponse, String>,
) -> (r: Result<IbcBasicResponse, ContractError>)
    ensures
        final(state)@ == old(state)@.after_ack(
            sequence,
            ack_decoding(acknowledgement@),
            result_view(payload),
        ),
        result_view(r) == ack_outcome(
            old(state)@.mode,
            sequence,
            ack_decoding(acknowledgement@),
            result_view(payload),
        ),
{
    match state.mode {
        DeliveryMode::Receive => Ok(
            IbcBasicResponse {
                attributes: one_attribute(attr("method", String::from_str("ibc_packet_ack"))),
            },
        ),
        DeliveryMode::Acknowledgement => match Ack::decode(acknowledgement) {
            Ok(ack) => do_ibc_packet_ack(state, sequence, ack, payload),
            Err(e) => Err(e),
        },
    }
}

/// Notes that a query packet expired unanswered. Nothing is recorded: a
/// packet that timed out is known by its absence from the record.
pub fn ibc_packet_timeout() -> (r: Result<IbcBasicResponse, ContractError>)
    ensures
        result_view(r) == Ok::<AttributeViews, ContractErrorView>(
            seq![("method"@, "ibc_packet_timeout"@)],
        ),
{
    Ok(
        IbcBasicResponse {
            attributes: one_attribute(attr("method", String::from_str("ibc_packet_timeout"))),
        },
    )
}

} // verus!
