//! What is read off the channels.
use vstd::prelude::*;

use crate::error::{Error, ErrorKind};
use crate::sync;
use crate::sync::{tell, Answer, Next, Polled};

verus! {

/// The items among some answers are all of them that are items, in order.
pub proof fn law_items_are_all_items<T>(polls: Seq<Next<T>>)
    ensures
        sync::items(polls) == polls.filter_map(
            |answer: Next<T>|
                match answer {
                    Next::Item(item) => Some(item),
                    _ => None,
                },
        ),
    decreases polls.len(),
{
    let pick = |answer: Next<T>|
        match answer {
            Next::Item(item) => Some(item),
            _ => None,
        };
    if polls.len() > 0 {
        law_items_are_all_items(polls.drop_last());
        assert(sync::items(polls) =~= polls.filter_map(pick));
    } else {
        assert(sync::items(polls) =~= polls.filter_map(pick));
    }
}

/// The accepted items among some offers are all that were answered so, in order.
pub proof fn law_accepted_are_all_accepted<T>(offers: Seq<(T, Answer)>)
    ensures
        sync::accepted(offers) == offers.filter_map(
            |offer: (T, Answer)|
                if offer.1 == Answer::Accepted {
                    Some(offer.0)
                } else {
                    None
                },
        ),
    decreases offers.len(),
{
    let pick = |offer: (T, Answer)|
        if offer.1 == Answer::Accepted {
            Some(offer.0)
        } else {
            None
        };
    if offers.len() > 0 {
        law_accepted_are_all_accepted(offers.drop_last());
        assert(sync::accepted(offers) =~= offers.filter_map(pick));
    } else {
        assert(sync::accepted(offers) =~= offers.filter_map(pick));
    }
}

/// A caller is told what the channel answered: the item as it is, the end as an error with
/// the given text, and nothing else.
pub proof fn law_caller_is_told_the_answer<T>(answer: Next<T>, message: &str, r: Polled<T>)
    requires
        call_ensures(tell::<T>, (answer, message), r),
    ensures
        answer matches Next::Item(item) ==> r == Polled::Ready(Ok::<T, Error>(item)),
        answer is Ended ==> (r matches Polled::Ready(Err(error)) && error.kind
            == ErrorKind::UnexpectedEof && error.message@ == message@),
        answer is Pending ==> r is Pending,
{
}

} // verus!
