//! The channel on which workers report the animations that they start.
//!
//! The receiving end belongs to the animation scheduler. The sending end is
//! std's `Sender`, which this crate hands from the seed to every worker.

use crate::animation::Animation;
use std::sync::mpsc::Sender;
use vstd::prelude::*;

verus! {

/// std's `std::sync::mpsc::Sender`, the sending end of a channel. It is
/// carried as it is.
#[verifier::external_type_specification]
#[verifier::external_body]
#[verifier::reject_recursive_types(T)]
pub struct ExSender<T>(Sender<T>);

/// The channel that a sender feeds. It is fixed when the channel is made, and
/// std documents that a clone of a sender sends to the same channel; no more
/// than that is known of it.
pub uninterp spec fn sender_channel(sender: Sender<Animation>) -> int;

/// Calls `Sender::clone`. std documents that the clone sends to the same
/// channel as the sender it was made from, and that is all the contract
/// says. The call does not fail.
#[verifier::external_body]
pub(crate) fn clone_sender(sender: &Sender<Animation>) -> (clone: Sender<Animation>)
    ensures
        sender_channel(clone) == sender_channel(*sender),
{
    sender.clone()
}

/// Calls `Sender::send`, which never blocks, and tells whether it returned
/// `Ok`. It returns an error when the receiver is gone, which depends on the
/// other end of the channel, so nothing is claimed of the result.
#[verifier::external_body]
pub(crate) fn send_on(sender: &Sender<Animation>, animation: Animation) -> (accepted: bool) {
    sender.send(animation).is_ok()
}

} // verus!
