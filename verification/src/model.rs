//! The mathematical model of a broadcast: which texts reach which connection.

use crate::message::{Client, DeliveryView};
use vstd::prelude::*;

verus! {

/// The connections that a sequence of deliveries addresses, in order.
pub open spec fn recipients(log: Seq<DeliveryView>) -> Seq<Client> {
    log.map_values(|d: DeliveryView| d.to)
}

/// The texts that `log` holds for the connection `who`, in the order in which
/// they were handed out.
pub open spec fn inbox(log: Seq<DeliveryView>, who: Client) -> Seq<Seq<char>> {
    log.filter(|d: DeliveryView| d.to == who).map_values(|d: DeliveryView| d.text)
}

/// `plan` is a fan-out of `text` to `members`: it addresses every member, no
/// connection twice and none that is no member, and every delivery carries
/// `text`. The order of the deliveries is left open.
pub open spec fn is_fan_out(members: Set<Client>, text: Seq<char>, plan: Seq<DeliveryView>) -> bool {
    &&& recipients(plan).no_duplicates()
    &&& recipients(plan).to_set() == members
    &&& forall|i: int| 0 <= i < plan.len() ==> (#[trigger] plan[i]).text == text
}

/// The deliveries of `plan` that arrive when only the connections in `live`
/// still take a write.
pub open spec fn accepted(plan: Seq<DeliveryView>, live: Set<Client>) -> Seq<DeliveryView> {
    plan.filter(|d: DeliveryView| live.contains(d.to))
}

} // verus!
