use vstd::prelude::*;

verus! {

/// The percentage by which a rejected fee bid is raised, expressed as a divisor:
/// a bid grows by `bid / FEE_ESCALATION_DIVISOR`, i.e. by ten percent rounded down.
pub const FEE_ESCALATION_DIVISOR: u128 = 10;

/// The bid that replaces `fee` after an underpriced rejection.
pub open spec fn escalated(fee: int) -> int {
    fee + fee / 10
}

/// A bid can be raised without leaving the 128-bit range.
pub open spec fn can_escalate(fee: u128) -> bool {
    escalated(fee as int) <= u128::MAX
}

/// Raises a fee bid by ten percent, rounding the increase down.
pub fn escalate(fee: u128) -> (r: u128)
    requires
        can_escalate(fee),
    ensures
        r == escalated(fee as int),
        r >= fee,
        fee >= 10 ==> r > fee,
{
    fee + fee / FEE_ESCALATION_DIVISOR
}

} // verus!
