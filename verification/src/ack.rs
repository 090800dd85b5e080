use vstd::prelude::*;

use crate::error::{result_view, ContractError, ContractErrorView};

verus! {

/// What the receiving side says of a packet: the payload of its answer, or
/// the reason why it has none.
#[derive(Clone, Debug, PartialEq, Eq)]
pub enum Ack {
    Result(Vec<u8>),
    Error(String),
}

/// The mathematical value of an [`Ack`].
pub enum AckView {
    Result(Seq<u8>),
    Error(Seq<char>),
}

impl View for Ack {
    type V = AckView;

    open spec fn view(&self) -> AckView {
        match self {
            Ack::Result(payload) => AckView::Result(payload@),
            Ack::Error(message) => AckView::Error(message@),
        }
    }
}

/// The payload of the success acknowledgement that carries no answer: the
/// one byte `1`.
pub open spec fn plain_success() -> AckView {
    AckView::Result(seq![0x31u8])
}

/// The bytes that `cosmwasm_std::StdAck::to_binary` gives for an
/// acknowledgement: its JSON envelope.
pub uninterp spec fn ack_encoding(ack: AckView) -> Seq<u8>;

/// What `cosmwasm_std::from_json` reads from `data` as a
/// `cosmwasm_std::StdAck`, or `None` where it reports an error.
pub uninterp spec fn ack_decoding(data: Seq<u8>) -> Option<AckView>;

/// Calls `cosmwasm_std::StdAck::to_binary` on the acknowledgement, written
/// as a `StdAck`. Trusted: the bytes that come back depend on the
/// acknowledgement alone.
#[verifier::external_body]
fn std_ack_to_binary(ack: &Ack) -> (out: Vec<u8>)
    ensures
        out@ == ack_encoding(ack@),
{
    let std_ack = match ack {
        Ack::Result(payload) => cosmwasm_std::StdAck::Success(
            cosmwasm_std::Binary::new(payload.clone()),
        ),
        Ack::Error(message) => cosmwasm_std::StdAck::Error(message.clone()),
    };
    std_ack.to_binary().into()
}

/// Calls `cosmwasm_std::from_json` to read a `cosmwasm_std::StdAck` from
/// `data`. Trusted: what comes back depends on the bytes alone.
#[verifier::external_body]
fn std_ack_from_json(data: &[u8]) -> (r: Option<Ack>)
    ensures
        match r {
            Some(ack) => ack_decoding(data@) == Some(ack@),
            None => ack_decoding(data@) is None,
        },
{
    match cosmwasm_std::from_json::<cosmwasm_std::StdAck>(data) {
        Ok(cosmwasm_std::StdAck::Success(payload)) => Some(Ack::Result(payload.into())),
        Ok(cosmwasm_std::StdAck::Error(message)) => Some(Ack::Error(message)),
        Err(_) => None,
    }
}

/// What decoding answers, given what was read from the bytes: the
/// acknowledgement, or [`ContractError::MalformedAck`] where there is none.
pub open spec fn decoded_or_malformed(read: Option<AckView>) -> Result<AckView, ContractErrorView> {
    match read {
        Some(ack) => Ok(ack),
        None => Err(ContractErrorView::MalformedAck),
    }
}

/// Turns what was read from an acknowledgement's bytes into the outcome of
/// decoding them.
pub fn ack_or_malformed(read: Option<Ack>) -> (r: Result<Ack, ContractError>)
    ensures
        match read {
            Some(ack) => r == Ok::<Ack, ContractError>(ack),
            None => r is Err && r->Err_0 is MalformedAck,
        },
{
    match read {
        Some(ack) => Ok(ack),
        None => Err(ContractError::MalformedAck),
    }
}

impl Ack {
    /// The bytes that go over the channel for this acknowledgement.
    pub fn encode(&self) -> (out: Vec<u8>)
        ensures
            out@ == ack_encoding(self@),
    {
        std_ack_to_binary(self)
    }

    /// Reads an acknowledgement from the bytes that came over the channel.
    /// Bytes that hold neither of the two shapes are turned down with
    /// [`ContractError::MalformedAck`].
    pub fn decode(data: &[u8]) -> (r: Result<Ack, ContractError>)
        ensures
            result_view(r) == decoded_or_malformed(ack_decoding(data@)),
    {
        ack_or_malformed(std_ack_from_json(data))
    }
}

/// The bytes of the success acknowledgement that carries no answer.
pub fn make_ack_success() -> (out: Vec<u8>)
    ensures
        out@ == ack_encoding(plain_success()),
{
    let mut payload: Vec<u8> = Vec::new();
    payload.push(0x31u8);
    Ack::Result(payload).encode()
}

/// The bytes of the error acknowledgement with the given reason.
pub fn make_ack_fail(err: String) -> (out: Vec<u8>)
    ensures
        out@ == ack_encoding(AckView::Error(err@)),
{
    Ack::Error(err).encode()
}

} // verus!
