//! What a receiving contract says to tokens that are handed to it.

use vstd::prelude::*;

verus! {

/// What a contract answers when it is asked whether it accepts tokens.
#[derive(Clone, Debug)]
pub enum Reply {
    /// It accepts them.
    Accepted,
    /// It does not, or does not know the question.
    Refused,
    /// It fails with a message.
    RefusedBecause(String),
}

} // verus!
