use vstd::prelude::*;
use vstd::string::StringExecFns;

verus! {

/// The subscription plan under which every application is settled
/// individually, never covered at creation time.
pub open spec fn spec_pay_per_use_plan() -> Seq<char> {
    "paynuse"@
}

/// Whether an application created at ledger time `now` is covered by the
/// company's subscription: any plan other than the pay-per-use baseline
/// grants entitlement while the subscription is still valid.
pub open spec fn spec_entitled(plan: Seq<char>, valid_till: u64, now: u64) -> bool {
    plan != spec_pay_per_use_plan() && now < valid_till
}

/// The settlement time recorded at creation: the subscription's own purchase
/// time when entitlement applies (the record notes that it is covered, not a
/// specific charge), and zero otherwise.
pub open spec fn spec_settlement(plan: Seq<char>, purchased_at: u64, valid_till: u64, now: u64) -> u64 {
    if spec_entitled(plan, valid_till, now) {
        purchased_at
    } else {
        0
    }
}

/// Decides whether an application is "paid for" at creation time and what
/// its settlement time is.
///
/// The pay-per-use baseline plan never grants entitlement, regardless of the
/// timestamps; any other plan grants it exactly while `now` is before the
/// subscription's expiry.  The paid amount always stays zero at creation:
/// creation-time entitlement is a coverage flag, not a ledger of money, and
/// an amount is only ever recorded by the privileged payment update.
pub fn compute_entitlement(plan: &String, purchased_at: u64, valid_till: u64, now: u64) -> (r: (
    bool,
    u64,
))
    ensures
        r.0 == spec_entitled(plan@, valid_till, now),
        r.1 == spec_settlement(plan@, purchased_at, valid_till, now),
{
    let baseline = String::from_str("paynuse");
    let is_paid = if !(*plan == baseline) {
        now < valid_till
    } else {
        false
    };
    let settlement_at = if is_paid {
        purchased_at
    } else {
        0
    };
    (is_paid, settlement_at)
}

} // verus!
