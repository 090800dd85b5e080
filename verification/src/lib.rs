//! Interchain balance queries over an IBC channel.
//!
//! A contract asks the query module of a remote chain for the balance of an
//! address and keeps what comes back. This crate is the protocol without
//! the chain around it: the rules of the channel handshake, the packet that
//! carries a query, the handling of what comes in, and the record of
//! answers under the sequence numbers of their packets. Every function is
//! verified against a contract over the mathematical value of the state,
//! [`state::IcqStateView`], and [`protocol`] proves what holds of every run
//! of events.
//!
//! The state is a plain value that the caller keeps: [`state::IcqState`]
//! holds the delivery mode, the connected channel if there is one, and the
//! record. A handler takes it by reference and says in its contract what it
//! is afterwards.
//!
//! The payloads of inbound packets are JSON that only the caller can read
//! into a [`msg::BalanceResponse`], so the handlers take the outcome of that
//! reading: the response, or the decoder's words. The envelope of an
//! acknowledgement is that of `cosmwasm_std::StdAck`, and is written and
//! read here by calls into `cosmwasm_std`; [`ack`] names what those calls
//! give. So does [`contract`] for the time a packet is given up and for the
//! listing of answers as JSON.

pub mod ack;
pub mod contract;
pub mod error;
pub mod ibc;
pub mod msg;
pub mod protocol;
pub mod response;
pub mod state;
pub mod store;
pub mod text;
