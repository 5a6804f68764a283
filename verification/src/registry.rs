//! The hub: who is a member, and what a broadcast hands out.

use crate::message::{ChatMessage, Client, Delivery, Register, SendMessage};
use crate::model::{is_fan_out, recipients};
use std::collections::HashSet;
use vstd::prelude::*;
use vstd::std_specs::hash::*;
use vstd::std_specs::iter::IteratorSpec;

verus! {

/// The shared registry of connections. Its view is the set of members.
pub struct WsChatServer {
    clients: HashSet<Client>,
}

impl View for WsChatServer {
    type V = Set<Client>;

    closed spec fn view(&self) -> Set<Client> {
        self.clients@
    }
}

impl WsChatServer {
    /// A hub without members.
    pub fn new() -> (server: Self)
        ensures
            server@ == Set::<Client>::empty(),
    {
        WsChatServer { clients: HashSet::new() }
    }

    /// Makes `client` a member. Registering a member again changes nothing.
    pub fn register_client(&mut self, client: Client) -> (done: Option<()>)
        ensures
            final(self)@ == old(self)@.insert(client),
            done == Some(()),
    {
        broadcast use group_hash_axioms;
        self.clients.insert(client);
        Some(())
    }

    /// Hands out `msg` once for every member, the sender included.
    pub fn send_chat_message(&self, msg: &str) -> (plan: Vec<Delivery>)
        ensures
            is_fan_out(self@, msg@, plan.deep_view()),
            plan.len() == self@.len(),
    {
        broadcast use group_hash_axioms;
        let ghost keys: Seq<&Client> = spec_hash_keys_iter(&self.clients).remaining();
        let mut plan: Vec<Delivery> = Vec::new();
        for client in it: self.clients.iter()
            invariant
                it.seq() == keys,
                plan.len() == it.index(),
                forall|i: int|
                    0 <= i < plan.len() ==> (#[trigger] plan[i]).to == *keys[i] && plan[i].msg@
                        == msg@,
        {
            plan.push(Delivery { to: *client, msg: ChatMessage(msg.to_owned()) });
        }
        assert(recipients(plan.deep_view()) =~= keys.unref());
        plan
    }

    /// Takes note of what became of one delivery. A connection that took the
    /// text stays a member; one that could not be reached is dropped, so that
    /// later broadcasts pass it by. No other member is touched.
    pub fn note_delivery(&mut self, to: Client, delivered: bool)
        ensures
            delivered ==> final(self)@ == old(self)@,
            !delivered ==> final(self)@ == old(self)@.remove(to),
    {
        broadcast use group_hash_axioms;
        if !delivered {
            self.clients.remove(&to);
        }
    }

    /// Serves a [`Register`] request: the connection that it names becomes a
    /// member.
    pub fn handle_register(&mut self, msg: Register)
        ensures
            final(self)@ == old(self)@.insert(msg.0),
    {
        let Register(client) = msg;
        self.register_client(client);
    }

    /// Serves a [`SendMessage`] request: its text is handed out once for every
    /// member.
    pub fn handle_send_message(&self, msg: SendMessage) -> (plan: Vec<Delivery>)
        ensures
            is_fan_out(self@, msg@, plan.deep_view()),
            plan.len() == self@.len(),
    {
        let SendMessage(content) = msg;
        self.send_chat_message(content.as_str())
    }

    /// The members of a hub are finitely many.
    pub proof fn lemma_members_finite(&self)
        ensures
            self@.finite(),
    {
        broadcast use group_hash_axioms;
        let keys = spec_hash_keys_iter(&self.clients).remaining().unref();
        vstd::seq_lib::seq_to_set_is_finite(keys);
    }

    /// Whether `client` is a member.
    pub fn is_registered(&self, client: Client) -> (found: bool)
        ensures
            found == self@.contains(client),
    {
        broadcast use group_hash_axioms;
        self.clients.contains(&client)
    }

    /// The number of members.
    pub fn client_count(&self) -> (count: usize)
        ensures
            count == self@.len(),
    {
        broadcast use group_hash_axioms;
        self.clients.len()
    }
}

impl Default for WsChatServer {
    fn default() -> (server: Self)
        ensures
            server@ == Set::<Client>::empty(),
    {
        WsChatServer::new()
    }
}

} // verus!
