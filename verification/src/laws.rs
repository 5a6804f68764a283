//! What holds of every broadcast, proved over the model.

use crate::message::{Client, DeliveryView};
use crate::model::{accepted, inbox, is_fan_out, recipients};
use vstd::prelude::*;

verus! {

/// A log that addresses no connection twice still does so without its last
/// delivery.
proof fn lemma_unique_without_last(log: Seq<DeliveryView>)
    requires
        log.len() > 0,
        recipients(log).no_duplicates(),
    ensures
        recipients(log.drop_last()).no_duplicates(),
        forall|i: int| 0 <= i < log.len() - 1 ==> (#[trigger] log[i]).to != log.last().to,
{
    let rest = log.drop_last();
    assert forall|i: int, j: int| 0 <= i < j < rest.len() implies recipients(rest)[i]
        != recipients(rest)[j] by {
        assert(recipients(log)[i] != recipients(log)[j]);
    }
    assert forall|i: int| 0 <= i < log.len() - 1 implies (#[trigger] log[i]).to
        != log.last().to by {
        assert(recipients(log)[i] != recipients(log)[log.len() - 1]);
    }
}

/// In a log that addresses no connection twice, a connection's inbox holds
/// the one text addressed to it, or nothing.
proof fn lemma_inbox_of_unique(log: Seq<DeliveryView>, who: Client)
    requires
        recipients(log).no_duplicates(),
    ensures
        forall|i: int|
            0 <= i < log.len() && (#[trigger] log[i]).to == who ==> inbox(log, who) == seq![
                log[i].text,
            ],
        (forall|i: int| 0 <= i < log.len() ==> (#[trigger] log[i]).to != who) ==> inbox(log, who)
            == Seq::<Seq<char>>::empty(),
    decreases log.len(),
{
    reveal(Seq::filter);
    if log.len() > 0 {
        let rest = log.drop_last();
        lemma_unique_without_last(log);
        lemma_inbox_of_unique(rest, who);
        if log.last().to == who {
            assert forall|i: int| 0 <= i < rest.len() implies (#[trigger] rest[i]).to != who by {
                assert(rest[i] == log[i]);
            }
            assert(inbox(rest, who) == Seq::<Seq<char>>::empty());
            assert(inbox(log, who) == seq![log.last().text]);
        } else {
            assert(inbox(log, who) == inbox(rest, who));
            assert forall|i: int| 0 <= i < log.len() && (#[trigger] log[i]).to == who implies inbox(
                log,
                who,
            ) == seq![log[i].text] by {
                assert(rest[i].to == who);
            }
        }
    }
}

/// Leaving deliveries out of a log that addresses no connection twice gives
/// such a log again, and it holds the deliveries that were kept, no others.
proof fn lemma_accepted_of_unique(plan: Seq<DeliveryView>, live: Set<Client>)
    requires
        recipients(plan).no_duplicates(),
    ensures
        recipients(accepted(plan, live)).no_duplicates(),
        forall|d: DeliveryView|
            #[trigger] accepted(plan, live).contains(d) <==> plan.contains(d) && live.contains(d.to),
    decreases plan.len(),
{
    reveal(Seq::filter);
    if plan.len() > 0 {
        let rest = plan.drop_last();
        let last = plan.last();
        let got = accepted(plan, live);
        let before = accepted(rest, live);
        lemma_unique_without_last(plan);
        lemma_accepted_of_unique(rest, live);
        assert forall|d: DeliveryView| #[trigger] got.contains(d) <==> plan.contains(d)
            && live.contains(d.to) by {
            if got.contains(d) && d != last {
                assert(before.contains(d));
                let m = choose|m: int| 0 <= m < rest.len() && rest[m] == d;
                assert(plan[m] == d);
            }
            if plan.contains(d) && live.contains(d.to) {
                let m = choose|m: int| 0 <= m < plan.len() && plan[m] == d;
                if m == plan.len() - 1 {
                    assert(got.last() == d);
                } else {
                    assert(rest[m] == d);
                    assert(before.contains(d));
                    let k = choose|k: int| 0 <= k < before.len() && before[k] == d;
                    assert(got[k] == d);
                }
            }
        }
        if live.contains(last.to) {
            assert forall|i: int, j: int| 0 <= i < j < got.len() implies recipients(got)[i]
                != recipients(got)[j] by {
                if j == got.len() - 1 {
                    assert(before.contains(before[i]));
                    let m = choose|m: int| 0 <= m < rest.len() && rest[m] == before[i];
                    assert(plan[m].to != last.to);
                } else {
                    assert(recipients(before)[i] != recipients(before)[j]);
                }
            }
        }
    }
}

/// One broadcast gives every member exactly one delivery, which carries the
/// text that was sent, and gives nothing to a connection that is no member.
pub proof fn lemma_fan_out_complete(
    members: Set<Client>,
    text: Seq<char>,
    plan: Seq<DeliveryView>,
    who: Client,
)
    requires
        is_fan_out(members, text, plan),
    ensures
        plan.len() == members.len(),
        members.contains(who) ==> inbox(plan, who) == seq![text],
        !members.contains(who) ==> inbox(plan, who) == Seq::<Seq<char>>::empty(),
{
    recipients(plan).unique_seq_to_set();
    lemma_inbox_of_unique(plan, who);
    if members.contains(who) {
        let i = choose|i: int| 0 <= i < plan.len() && recipients(plan)[i] == who;
        assert(plan[i].to == who);
    } else {
        assert forall|i: int| 0 <= i < plan.len() implies (#[trigger] plan[i]).to != who by {
            assert(recipients(plan).to_set().contains(recipients(plan)[i]));
        }
    }
}

/// A member that sends a text is itself among those to whom the broadcast of
/// that text hands it out.
pub proof fn lemma_self_echo(
    members: Set<Client>,
    sender: Client,
    text: Seq<char>,
    plan: Seq<DeliveryView>,
)
    requires
        members.contains(sender),
        is_fan_out(members, text, plan),
    ensures
        plan.contains(DeliveryView { to: sender, text }),
        inbox(plan, sender) == seq![text],
{
    lemma_fan_out_complete(members, text, plan, sender);
    let i = choose|i: int| 0 <= i < plan.len() && recipients(plan)[i] == sender;
    assert(plan[i] == DeliveryView { to: sender, text });
}

/// The inbox of a connection over two logs in a row is its inbox over the
/// first followed by its inbox over the second.
pub proof fn lemma_inbox_concat(first: Seq<DeliveryView>, second: Seq<DeliveryView>, who: Client)
    ensures
        inbox(first + second, who) == inbox(first, who) + inbox(second, who),
{
    Seq::filter_distributes_over_add(first, second, |d: DeliveryView| d.to == who);
}

/// Of two broadcasts made one after the other, every connection that is a
/// member at both sees the text of the first before the text of the second,
/// and each once.
pub proof fn lemma_per_sender_order(
    first_members: Set<Client>,
    first_text: Seq<char>,
    first_plan: Seq<DeliveryView>,
    second_members: Set<Client>,
    second_text: Seq<char>,
    second_plan: Seq<DeliveryView>,
    who: Client,
)
    requires
        is_fan_out(first_members, first_text, first_plan),
        is_fan_out(second_members, second_text, second_plan),
        first_members.contains(who),
        second_members.contains(who),
    ensures
        inbox(first_plan + second_plan, who) == seq![first_text, second_text],
{
    lemma_fan_out_complete(first_members, first_text, first_plan, who);
    lemma_fan_out_complete(second_members, second_text, second_plan, who);
    lemma_inbox_concat(first_plan, second_plan, who);
}

/// When only the connections in `live` still take a write, every live member
/// gets the text of a broadcast exactly once, as if all had been live, and a
/// connection that is gone gets nothing: what arrives is a fan-out to the
/// live members.
pub proof fn lemma_dead_recipient_isolation(
    members: Set<Client>,
    text: Seq<char>,
    plan: Seq<DeliveryView>,
    live: Set<Client>,
    who: Client,
)
    requires
        is_fan_out(members, text, plan),
    ensures
        is_fan_out(members.intersect(live), text, accepted(plan, live)),
        members.contains(who) && live.contains(who) ==> inbox(accepted(plan, live), who) == seq![
            text,
        ],
        !(members.contains(who) && live.contains(who)) ==> inbox(accepted(plan, live), who)
            == Seq::<Seq<char>>::empty(),
{
    let got = accepted(plan, live);
    lemma_accepted_of_unique(plan, live);
    assert forall|i: int| 0 <= i < got.len() implies (#[trigger] got[i]).text == text by {
        assert(got.contains(got[i]));
        let m = choose|m: int| 0 <= m < plan.len() && plan[m] == got[i];
        assert(plan[m].text == text);
    }
    assert forall|c: Client| recipients(got).to_set().contains(c) <==> members.intersect(
        live,
    ).contains(c) by {
        if recipients(got).to_set().contains(c) {
            let k = choose|k: int| 0 <= k < got.len() && recipients(got)[k] == c;
            assert(got.contains(got[k]));
            let m = choose|m: int| 0 <= m < plan.len() && plan[m] == got[k];
            assert(recipients(plan)[m] == c);
        }
        if members.intersect(live).contains(c) {
            let m = choose|m: int| 0 <= m < plan.len() && recipients(plan)[m] == c;
            assert(plan.contains(plan[m]));
            assert(got.contains(plan[m]));
            let k = choose|k: int| 0 <= k < got.len() && got[k] == plan[m];
            assert(recipients(got)[k] == c);
        }
    }
    assert(recipients(got).to_set() == members.intersect(live));
    lemma_fan_out_complete(members.intersect(live), text, got, who);
}

/// Once a member that could not be reached has been dropped, a broadcast
/// passes it by and still gives every other member its one delivery.
pub proof fn lemma_dropped_member_is_passed_by(
    members: Set<Client>,
    gone: Client,
    text: Seq<char>,
    plan: Seq<DeliveryView>,
    who: Client,
)
    requires
        is_fan_out(members.remove(gone), text, plan),
    ensures
        inbox(plan, gone) == Seq::<Seq<char>>::empty(),
        members.contains(who) && who != gone ==> inbox(plan, who) == seq![text],
{
    lemma_fan_out_complete(members.remove(gone), text, plan, gone);
    lemma_fan_out_complete(members.remove(gone), text, plan, who);
}

/// A broadcast addresses no connection twice, so that no connection gets
/// more than one copy of a text, and a member gets exactly one.
pub proof fn lemma_no_duplicate_delivery(
    members: Set<Client>,
    text: Seq<char>,
    plan: Seq<DeliveryView>,
    who: Client,
)
    requires
        is_fan_out(members, text, plan),
    ensures
        forall|i: int, j: int|
            0 <= i < plan.len() && 0 <= j < plan.len() && i != j ==> (#[trigger] plan[i]).to != (
            #[trigger] plan[j]).to,
        inbox(plan, who).len() <= 1,
        members.contains(who) ==> inbox(plan, who).len() == 1,
{
    lemma_fan_out_complete(members, text, plan, who);
    assert forall|i: int, j: int|
        0 <= i < plan.len() && 0 <= j < plan.len() && i != j implies (#[trigger] plan[i]).to != (
    #[trigger] plan[j]).to by {
        assert(recipients(plan)[i] != recipients(plan)[j]);
    }
}

} // verus!
