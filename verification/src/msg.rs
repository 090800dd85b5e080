use vstd::prelude::*;

verus! {

/// An amount of one denomination, as a remote chain reports it.
#[derive(Clone, Debug, PartialEq, Eq)]
pub struct Coin {
    pub denom: String,
    pub amount: u128,
}

/// The mathematical value of a [`Coin`].
pub struct CoinView {
    pub denom: Seq<char>,
    pub amount: u128,
}

impl View for Coin {
    type V = CoinView;

    open spec fn view(&self) -> CoinView {
        CoinView { denom: self.denom@, amount: self.amount }
    }
}

/// The views of a list of coins, in the same order.
pub open spec fn coin_views(coins: Seq<Coin>) -> Seq<CoinView> {
    coins.map_values(|c: Coin| c@)
}

/// Nothing is configured when the contract is set up.
#[derive(Clone, Debug, PartialEq, Eq)]
pub struct InstantiateMsg {}

/// What a caller can ask the contract to do.
#[derive(Clone, Debug, PartialEq, Eq)]
pub enum ExecuteMsg {
    SendQueryBalance(QueryBalanceMsg),
}

/// A caller's request for the balance of one address on a remote chain.
#[derive(Clone, Debug, PartialEq, Eq)]
pub struct QueryBalanceMsg {
    pub chain_id: String,
    pub addr: String,
    pub denom: String,
}

/// What a caller can read from the contract.
#[derive(Clone, Debug, PartialEq, Eq)]
pub enum QueryMsg {
    AllBalances {},
}

/// The payload of an outbound query packet.
#[derive(Clone, Debug, PartialEq, Eq)]
pub struct IbcRegisterBalanceQuery {
    pub chain_id: String,
    pub addr: String,
    pub denom: String,
}

/// The three fields of a balance query as mathematical values. It is the
/// view of a [`QueryBalanceMsg`] and of the [`IbcRegisterBalanceQuery`]
/// built from it.
pub struct BalanceQueryView {
    pub chain_id: Seq<char>,
    pub addr: Seq<char>,
    pub denom: Seq<char>,
}

impl View for QueryBalanceMsg {
    type V = BalanceQueryView;

    open spec fn view(&self) -> BalanceQueryView {
        BalanceQueryView { chain_id: self.chain_id@, addr: self.addr@, denom: self.denom@ }
    }
}

impl View for IbcRegisterBalanceQuery {
    type V = BalanceQueryView;

    open spec fn view(&self) -> BalanceQueryView {
        BalanceQueryView { chain_id: self.chain_id@, addr: self.addr@, denom: self.denom@ }
    }
}

/// The coins of a balance answer.
#[derive(Clone, Debug, PartialEq, Eq)]
pub struct Balances {
    pub coins: Vec<Coin>,
}

/// A remote chain's answer to a balance query, with the height at which it
/// was last submitted there.
#[derive(Clone, Debug, PartialEq, Eq)]
pub struct BalanceResponse {
    pub balances: Balances,
    pub last_submitted_local_height: u64,
}

/// The mathematical value of a [`BalanceResponse`].
pub struct BalanceResponseView {
    pub coins: Seq<CoinView>,
    pub last_submitted_local_height: u64,
}

impl View for Balances {
    type V = Seq<CoinView>;

    open spec fn view(&self) -> Seq<CoinView> {
        coin_views(self.coins@)
    }
}

impl View for BalanceResponse {
    type V = BalanceResponseView;

    open spec fn view(&self) -> BalanceResponseView {
        BalanceResponseView {
            coins: self.balances@,
            last_submitted_local_height: self.last_submitted_local_height,
        }
    }
}

} // verus!
