//! The values that travel between connections and the hub.

use vstd::prelude::*;

verus! {

/// Handle that addresses one connection. The embedding program gives every
/// connection a number of its own, so that two handles are equal exactly
/// when they address the same connection.
pub type Client = u64;

/// A text on its way from the hub to one connection.
#[derive(Clone, Debug, PartialEq, Eq)]
pub struct ChatMessage(pub String);

/// A text that a connection asks the hub to broadcast.
#[derive(Clone, Debug, PartialEq, Eq)]
pub struct SendMessage(pub String);

/// The request of a connection to become a member of the hub.
#[derive(Clone, Copy, Debug, PartialEq, Eq)]
pub struct Register(pub Client);

/// One text that the hub hands out for one connection.
#[derive(Clone, Debug, PartialEq, Eq)]
pub struct Delivery {
    /// The connection that is to get the text.
    pub to: Client,
    /// The text, as that connection will see it.
    pub msg: ChatMessage,
}

/// What a [`Delivery`] stands for: a connection and the text sent to it.
pub ghost struct DeliveryView {
    pub to: Client,
    pub text: Seq<char>,
}

impl View for ChatMessage {
    type V = Seq<char>;

    open spec fn view(&self) -> Seq<char> {
        self.0@
    }
}

impl View for SendMessage {
    type V = Seq<char>;

    open spec fn view(&self) -> Seq<char> {
        self.0@
    }
}

impl View for Delivery {
    type V = DeliveryView;

    open spec fn view(&self) -> DeliveryView {
        DeliveryView { to: self.to, text: self.msg@ }
    }
}

impl DeepView for Delivery {
    type V = DeliveryView;

    open spec fn deep_view(&self) -> DeliveryView {
        self@
    }
}

} // verus!
