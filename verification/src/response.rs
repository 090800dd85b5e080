use vstd::prelude::*;
use vstd::string::StringExecFns;

use crate::msg::{BalanceQueryView, IbcRegisterBalanceQuery};

verus! {

/// A key and a value that a handler attaches to its answer, for whoever
/// audits what happened.
#[derive(Clone, Debug, PartialEq, Eq)]
pub struct Attribute {
    pub key: String,
    pub value: String,
}

impl View for Attribute {
    type V = (Seq<char>, Seq<char>);

    open spec fn view(&self) -> (Seq<char>, Seq<char>) {
        (self.key@, self.value@)
    }
}

/// A list of attributes as a mathematical value: keys and values in order.
pub type AttributeViews = Seq<(Seq<char>, Seq<char>)>;

/// The views of a list of attributes, in the same order.
pub open spec fn attribute_views(attributes: Seq<Attribute>) -> AttributeViews {
    attributes.map_values(|a: Attribute| a@)
}

/// An attribute with the given key and value.
pub fn attr(key: &str, value: String) -> (r: Attribute)
    ensures
        r@ == (key@, value@),
{
    Attribute { key: String::from_str(key), value }
}

/// A list of one attribute.
pub fn one_attribute(first: Attribute) -> (r: Vec<Attribute>)
    ensures
        attribute_views(r@) == seq![first@],
{
    let mut r: Vec<Attribute> = Vec::new();
    r.push(first);
    r
}

/// A list of two attributes.
pub fn two_attributes(first: Attribute, second: Attribute) -> (r: Vec<Attribute>)
    ensures
        attribute_views(r@) == seq![first@, second@],
{
    let mut r: Vec<Attribute> = Vec::new();
    r.push(first);
    r.push(second);
    r
}

/// A list of three attributes.
pub fn three_attributes(first: Attribute, second: Attribute, third: Attribute) -> (r: Vec<
    Attribute,
>)
    ensures
        attribute_views(r@) == seq![first@, second@, third@],
{
    let mut r: Vec<Attribute> = Vec::new();
    r.push(first);
    r.push(second);
    r.push(third);
    r
}

/// A point in time, in nanoseconds since the epoch.
#[derive(Clone, Copy, Debug, PartialEq, Eq, Structural)]
pub struct Timestamp {
    pub nanos: u64,
}

/// What a handler asks the chain to do once it has returned.
#[derive(Clone, Debug, PartialEq, Eq)]
pub enum IbcMsg {
    /// Send `data` over the channel `channel_id`; the packet is given up
    /// when `timeout` has passed.
    SendPacket { channel_id: String, data: IbcRegisterBalanceQuery, timeout: Timestamp },
}

/// The mathematical value of an [`IbcMsg`].
pub enum IbcMsgView {
    SendPacket { channel_id: Seq<char>, data: BalanceQueryView, timeout: Timestamp },
}

impl View for IbcMsg {
    type V = IbcMsgView;

    open spec fn view(&self) -> IbcMsgView {
        match self {
            IbcMsg::SendPacket { channel_id, data, timeout } => IbcMsgView::SendPacket {
                channel_id: channel_id@,
                data: data@,
                timeout: *timeout,
            },
        }
    }
}

/// The views of a list of messages, in the same order.
pub open spec fn message_views(messages: Seq<IbcMsg>) -> Seq<IbcMsgView> {
    messages.map_values(|m: IbcMsg| m@)
}

/// The answer to a caller's request: messages for the chain, and
/// attributes.
#[derive(Clone, Debug, PartialEq, Eq)]
pub struct Response {
    pub messages: Vec<IbcMsg>,
    pub attributes: Vec<Attribute>,
}

/// The mathematical value of a [`Response`].
pub struct ResponseView {
    pub messages: Seq<IbcMsgView>,
    pub attributes: AttributeViews,
}

impl View for Response {
    type V = ResponseView;

    open spec fn view(&self) -> ResponseView {
        ResponseView {
            messages: message_views(self.messages@),
            attributes: attribute_views(self.attributes@),
        }
    }
}

/// The answer to a channel or packet event that needs no acknowledgement:
/// attributes only. Its view is the list of their views.
#[derive(Clone, Debug, PartialEq, Eq)]
pub struct IbcBasicResponse {
    pub attributes: Vec<Attribute>,
}

impl View for IbcBasicResponse {
    type V = AttributeViews;

    open spec fn view(&self) -> AttributeViews {
        attribute_views(self.attributes@)
    }
}

/// The answer to an inbound packet: the acknowledgement that goes back to
/// the sender, and attributes.
#[derive(Clone, Debug, PartialEq, Eq)]
pub struct IbcReceiveResponse {
    pub acknowledgement: Vec<u8>,
    pub attributes: Vec<Attribute>,
}

/// The mathematical value of an [`IbcReceiveResponse`].
pub struct IbcReceiveResponseView {
    pub acknowledgement: Seq<u8>,
    pub attributes: AttributeViews,
}

impl View for IbcReceiveResponse {
    type V = IbcReceiveResponseView;

    open spec fn view(&self) -> IbcReceiveResponseView {
        IbcReceiveResponseView {
            acknowledgement: self.acknowledgement@,
            attributes: attribute_views(self.attributes@),
        }
    }
}

} // verus!
