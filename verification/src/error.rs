use vstd::prelude::*;
use vstd::string::StringExecFns;

verus! {

/// Why a handshake step, a dispatch or an inbound event was turned down.
#[derive(Clone, Debug, PartialEq, Eq)]
pub enum ContractError {
    /// The proposed channel is ordered; queries need an unordered one.
    OnlyUnorderedChannel,
    /// A version string of the handshake is not the protocol's version.
    InvalidVersion { actual: String, expected: String },
    /// No channel is connected: none was yet, or it has been closed.
    ChannelNotEstablished,
    /// The acknowledgement is neither a result nor an error envelope.
    MalformedAck,
    /// The payload could not be read as a balance answer; `reason` is what
    /// the decoder said.
    MalformedBalance { reason: String },
    /// The balance answer was read, and lists no coin.
    EmptyBalance,
    /// The listing of answers could not be written out.
    Unserializable,
}

/// The mathematical value of a [`ContractError`].
pub enum ContractErrorView {
    OnlyUnorderedChannel,
    InvalidVersion { actual: Seq<char>, expected: Seq<char> },
    ChannelNotEstablished,
    MalformedAck,
    MalformedBalance { reason: Seq<char> },
    EmptyBalance,
    Unserializable,
}

impl View for ContractError {
    type V = ContractErrorView;

    open spec fn view(&self) -> ContractErrorView {
        match self {
            ContractError::OnlyUnorderedChannel => ContractErrorView::OnlyUnorderedChannel,
            ContractError::InvalidVersion { actual, expected } => {
                ContractErrorView::InvalidVersion { actual: actual@, expected: expected@ }
            },
            ContractError::ChannelNotEstablished => ContractErrorView::ChannelNotEstablished,
            ContractError::MalformedAck => ContractErrorView::MalformedAck,
            ContractError::MalformedBalance { reason } => ContractErrorView::MalformedBalance {
                reason: reason@,
            },
            ContractError::EmptyBalance => ContractErrorView::EmptyBalance,
            ContractError::Unserializable => ContractErrorView::Unserializable,
        }
    }
}

impl ContractErrorView {
    /// The error in words, as it is shown to a caller or sent back to the
    /// counterparty.
    pub open spec fn message(self) -> Seq<char> {
        match self {
            ContractErrorView::OnlyUnorderedChannel => "Only supports unordered channels"@,
            ContractErrorView::InvalidVersion { actual, expected } => {
                "Invalid IBC channel version. Got ("@ + actual + "), expected ("@ + expected + ")"@
            },
            ContractErrorView::ChannelNotEstablished => "Channel to ICQ module is not setup"@,
            ContractErrorView::MalformedAck => "Malformed acknowledgement"@,
            ContractErrorView::MalformedBalance { reason } => reason,
            ContractErrorView::EmptyBalance => "Balance response holds no coin"@,
            ContractErrorView::Unserializable => "Balances cannot be serialized"@,
        }
    }
}

/// The view of what a fallible step gave: the view of its value, or the
/// view of its error.
pub open spec fn result_view<T: View, E: View>(r: Result<T, E>) -> Result<T::V, E::V> {
    match r {
        Ok(value) => Ok(value@),
        Err(e) => Err(e@),
    }
}

impl ContractError {
    /// The error in words.
    pub fn message(&self) -> (r: String)
        ensures
            r@ == self@.message(),
    {
        match self {
            ContractError::OnlyUnorderedChannel => String::from_str(
                "Only supports unordered channels",
            ),
            ContractError::InvalidVersion { actual, expected } => {
                let mut r = String::from_str("Invalid IBC channel version. Got (");
                r.append(actual.as_str());
                r.append("), expected (");
                r.append(expected.as_str());
                r.append(")");
                r
            },
            ContractError::ChannelNotEstablished => String::from_str(
                "Channel to ICQ module is not setup",
            ),
            ContractError::MalformedAck => String::from_str("Malformed acknowledgement"),
            ContractError::MalformedBalance { reason } => reason.clone(),
            ContractError::EmptyBalance => String::from_str("Balance response holds no coin"),
            ContractError::Unserializable => String::from_str("Balances cannot be serialized"),
        }
    }
}

} // verus!
