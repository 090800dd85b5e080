use vstd::prelude::*;
use vstd::string::StringExecFns;

use crate::error::{result_view, ContractError, ContractErrorView};
use crate::msg::{
    BalanceQueryView, Coin, CoinView, ExecuteMsg, IbcRegisterBalanceQuery, InstantiateMsg,
    QueryBalanceMsg, QueryMsg,
};
use crate::response::{
    attr, one_attribute, two_attributes, IbcMsg, IbcMsgView, Response, ResponseView, Timestamp,
};
use crate::state::{DeliveryMode, IcqState, IcqStateView};
use crate::store::{entry_views, listing};

verus! {

/// How long a query packet may stay unanswered before it is given up, in
/// seconds.
pub const PACKET_LIFETIME_SECONDS: u64 = 120;

/// The point in time at which a packet sent at `now` is given up.
pub open spec fn deadline(now: Timestamp) -> int {
    now.nanos + PACKET_LIFETIME_SECONDS * 1_000_000_000
}

/// Sets the protocol up with its delivery mode: no channel is connected and
/// nothing is on record.
pub fn instantiate(mode: DeliveryMode, _msg: InstantiateMsg) -> (r: Result<
    (IcqState, Response),
    ContractError,
>)
    ensures
        result_view(r) == Ok::<(IcqStateView, ResponseView), ContractErrorView>(
            (
                IcqStateView::initial(mode),
                ResponseView {
                    messages: Seq::empty(),
                    attributes: seq![("method"@, "instantiate"@)],
                },
            ),
        ),
{
    let response = Response {
        messages: Vec::new(),
        attributes: one_attribute(attr("method", String::from_str("instantiate"))),
    };
    assert(response@.messages =~= Seq::empty());
    Ok((IcqState::new(mode), response))
}

/// Calls `cosmwasm_std::Timestamp::plus_seconds` on the timestamp of
/// `time.nanos` nanoseconds. Trusted: the result is `seconds` times a
/// thousand million nanoseconds later. The call panics where that is more
/// than a `u64` holds, which the precondition leaves out.
#[verifier::external_body]
fn timestamp_plus_seconds(time: Timestamp, seconds: u64) -> (r: Timestamp)
    requires
        time.nanos + seconds * 1_000_000_000 <= u64::MAX,
    ensures
        r.nanos == time.nanos + seconds * 1_000_000_000,
{
    let later = cosmwasm_std::Timestamp::from_nanos(time.nanos).plus_seconds(seconds);
    Timestamp { nanos: later.nanos() }
}

/// What a query request is answered with: with a channel connected, one
/// packet for it that carries the three fields of the query as they came
/// and is given up at the deadline, and the channel's name as an attribute.
pub open spec fn dispatch_outcome(
    state: IcqStateView,
    now: Timestamp,
    query: BalanceQueryView,
) -> Result<ResponseView, ContractErrorView> {
    match state.channel_info {
        Some(info) => Ok(
            ResponseView {
                messages: seq![
                    IbcMsgView::SendPacket {
                        channel_id: info.id,
                        data: query,
                        timeout: Timestamp { nanos: deadline(now) as u64 },
                    },
                ],
                attributes: seq![("method"@, "send_query_balance"@), ("channel"@, info.id)],
            },
        ),
        None => Err(ContractErrorView::ChannelNotEstablished),
    }
}

/// The name of the connected channel.
pub fn get_channel_id(state: &IcqState) -> (r: Result<String, ContractError>)
    ensures
        result_view(r) == match state@.channel_info {
            Some(info) => Ok(info.id),
            None => Err(ContractErrorView::ChannelNotEstablished),
        },
{
    match &state.channel_info {
        Some(info) => Ok(info.id.clone()),
        None => Err(ContractError::ChannelNotEstablished),
    }
}

/// Builds the packet that asks the remote chain for a balance. `now` is the
/// time of the block in which the request is handled. The fields of the
/// query are not examined: that is the remote side's business.
pub fn send_query_balance(state: &IcqState, now: Timestamp, msg: QueryBalanceMsg) -> (r: Result<
    Response,
    ContractError,
>)
    requires
        state@.channel_info is Some ==> deadline(now) <= u64::MAX,
    ensures
        result_view(r) == dispatch_outcome(state@, now, msg@),
{
    let channel_id = match get_channel_id(state) {
        Ok(id) => id,
        Err(e) => {
            return Err(e);
        },
    };
    let packet_data = IbcRegisterBalanceQuery {
        chain_id: msg.chain_id,
        addr: msg.addr,
        denom: msg.denom,
    };
    let timeout = timestamp_plus_seconds(now, PACKET_LIFETIME_SECONDS);
    let ibc_msg = IbcMsg::SendPacket { channel_id: channel_id.clone(), data: packet_data, timeout };
    let mut messages: Vec<IbcMsg> = Vec::new();
    messages.push(ibc_msg);
    let response = Response {
        messages,
        attributes: two_attributes(
            attr("method", String::from_str("send_query_balance")),
            attr("channel", channel_id),
        ),
    };
    assert(response@.messages =~= seq![ibc_msg@]);
    Ok(response)
}

/// Handles a caller's request.
pub fn execute(state: &IcqState, now: Timestamp, msg: ExecuteMsg) -> (r: Result<
    Response,
    ContractError,
>)
    requires
        state@.channel_info is Some ==> deadline(now) <= u64::MAX,
    ensures
        result_view(r) == match msg {
            ExecuteMsg::SendQueryBalance(query) => dispatch_outcome(state@, now, query@),
        },
{
    match msg {
        ExecuteMsg::SendQueryBalance(msg) => send_query_balance(state, now, msg),
    }
}

/// The answers on record, by ascending sequence number.
pub fn query_all_balances(state: &IcqState) -> (r: &Vec<(u64, Coin)>)
    ensures
        entry_views(r@) == listing(state@.responses.results),
{
    state.responses.list_results()
}

/// The bytes that `cosmwasm_std::to_json_binary` gives for a list of pairs
/// of a sequence number and a `cosmwasm_std::Coin`, or `None` where it
/// reports an error.
pub uninterp spec fn balances_json(entries: Seq<(u64, CoinView)>) -> Option<Seq<u8>>;

/// Calls `cosmwasm_std::to_json_binary` on the entries, each coin written
/// as a `cosmwasm_std::Coin`. Trusted: what comes back depends on the
/// entries alone.
#[verifier::external_body]
fn balances_to_json_binary(entries: &Vec<(u64, Coin)>) -> (r: Option<Vec<u8>>)
    ensures
        match r {
            Some(bytes) => balances_json(entry_views(entries@)) == Some(bytes@),
            None => balances_json(entry_views(entries@)) is None,
        },
{
    let listing: Vec<(u64, cosmwasm_std::Coin)> = entries.iter().map(
        |entry| (entry.0, cosmwasm_std::Coin::new(entry.1.amount, entry.1.denom.clone())),
    ).collect();
    match cosmwasm_std::to_json_binary(&listing) {
        Ok(bytes) => Some(bytes.into()),
        Err(_) => None,
    }
}

/// What a read request is answered with, given what writing the listing
/// out gave.
pub open spec fn written_or_error(written: Option<Seq<u8>>) -> Result<Seq<u8>, ContractErrorView> {
    match written {
        Some(bytes) => Ok(bytes),
        None => Err(ContractErrorView::Unserializable),
    }
}

/// Turns what writing the listing out gave into the answer to the read
/// request.
pub fn binary_or_error(written: Option<Vec<u8>>) -> (r: Result<Vec<u8>, ContractError>)
    ensures
        match written {
            Some(bytes) => r == Ok::<Vec<u8>, ContractError>(bytes),
            None => r is Err && r->Err_0 is Unserializable,
        },
{
    match written {
        Some(bytes) => Ok(bytes),
        None => Err(ContractError::Unserializable),
    }
}

/// Handles a read request: the answers on record by ascending sequence
/// number, written out as JSON.
pub fn query(state: &IcqState, msg: QueryMsg) -> (r: Result<Vec<u8>, ContractError>)
    ensures
        result_view(r) == match msg {
            QueryMsg::AllBalances {  } => written_or_error(
                balances_json(listing(state@.responses.results)),
            ),
        },
{
    match msg {
        QueryMsg::AllBalances {  } => binary_or_error(
            balances_to_json_binary(query_all_balances(state)),
        ),
    }
}

} // verus!
