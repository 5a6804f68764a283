//! The handler of one connection: what it asks of the hub, and what it
//! writes to its own connection.

use crate::message::{ChatMessage, Client, Register, SendMessage};
use vstd::prelude::*;

verus! {

/// What arrives on a connection.
#[derive(Clone, Debug, PartialEq, Eq)]
pub enum Frame {
    /// A complete text message.
    Text(String),
    /// The peer closes the connection.
    Close,
    /// Anything else that the transport knows of.
    Other,
}

/// What the handler wants done in answer to a frame.
#[derive(Clone, Debug, PartialEq, Eq)]
pub enum Command {
    /// Pass the request on to the hub, and send the peer no reply.
    Issue(SendMessage),
    /// End the connection's local state.
    Stop,
    /// Do nothing.
    Ignore,
}

/// The handler of one connection. It keeps no state of its own.
#[derive(Clone, Copy, Debug)]
pub struct Ws;

impl Ws {
    /// The request to broadcast `msg`, with the text as it was given.
    pub fn send_message(&self, msg: &str) -> (request: SendMessage)
        ensures
            request@ == msg@,
    {
        SendMessage(msg.to_owned())
    }

    /// The handler starts: it asks the hub to make `me`, the handle of its own
    /// connection, a member.
    pub fn started(&self, me: Client) -> (request: Register)
        ensures
            request.0 == me,
    {
        Register(me)
    }

    /// Answers one frame. A text becomes a request to broadcast it, unchanged;
    /// a close ends the handler; anything else is passed over.
    pub fn handle(&mut self, msg: Frame) -> (command: Command)
        ensures
            match msg {
                Frame::Text(text) => command matches Command::Issue(request) && request@ == text@,
                Frame::Close => command == Command::Stop,
                Frame::Other => command == Command::Ignore,
            },
    {
        match msg {
            Frame::Text(text) => Command::Issue(self.send_message(text.as_str())),
            Frame::Close => Command::Stop,
            Frame::Other => Command::Ignore,
        }
    }

    /// A text arrives from the hub: it is written to the connection as it is.
    pub fn handle_chat_message(&mut self, msg: ChatMessage) -> (outbound: String)
        ensures
            outbound@ == msg@,
    {
        let ChatMessage(text) = msg;
        text
    }
}

} // verus!
