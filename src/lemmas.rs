//! Properties that hold across the operations, proved over their contracts.
use vstd::prelude::*;
use crate::custody::{register_applied, register_error, Register};
use crate::fee::{fee_fits, fee_of, MAX_FEE_BPS};
use crate::keys::is_zero;
use crate::tip::{tip_applied, tip_error, tip_fee, tip_total, Tip};

verus! {

/// For a positive amount and an accepted fee rate, the fee is the exact
/// basis-point share rounded up to the next whole unit: ten thousand times
/// the fee lies in `[amount * fee_bps, amount * fee_bps + 10000)`. It always
/// fits, and it is zero exactly when the rate is zero.
pub proof fn lemma_fee_rounds_up(amount: u64, fee_bps: u16)
    requires
        amount > 0,
        fee_bps <= MAX_FEE_BPS,
    ensures
        fee_fits(amount as int, fee_bps as int),
        amount * fee_bps <= fee_of(amount as int, fee_bps as int) * 10000 < amount * fee_bps + 10000,
        (fee_of(amount as int, fee_bps as int) == 0) <==> (fee_bps == 0),
{
    let a = amount as int;
    let b = fee_bps as int;
    let f = fee_of(a, b);
    if b > 0 {
        let n = a * b;
        assert(n >= 1) by (nonlinear_arith)
            requires a >= 1, b >= 1, n == a * b;
        assert(f == (n + 9999) / 10000);
        assert(n <= f * 10000 < n + 10000) by (nonlinear_arith)
            requires f == (n + 9999) / 10000, n >= 0;
        assert(f >= 1) by (nonlinear_arith)
            requires f == (n + 9999) / 10000, n >= 1;
        assert(n <= 100 * a) by (nonlinear_arith)
            requires n == a * b, b <= 100, a >= 0;
        assert(f <= a) by (nonlinear_arith)
            requires f * 10000 < n + 10000, n <= 100 * a, a >= 1;
    }
}

/// A successful tip spends the sender's allowance by principal plus fee,
/// which it never overdraws.
pub proof fn lemma_tip_spends_principal_and_fee(c: Tip, n: Tip, program_id: Seq<u8>, amount: u64, recipient: Seq<u8>)
    requires
        tip_error(c, program_id, amount, recipient) is None,
        tip_applied(c, n, program_id, amount, recipient),
    ensures
        c.sender_allowance.remaining >= amount + tip_fee(c, amount),
        n.sender_allowance.remaining == c.sender_allowance.remaining - (amount + tip_fee(c, amount)),
        n.sender_allowance.remaining >= 0,
        n.sender_allowance.cap == c.sender_allowance.cap,
{
}

/// A tip whose principal plus fee exceeds the remaining allowance is
/// refused (and a refused tip changes no account).
pub proof fn lemma_overdrawn_tip_refused(c: Tip, program_id: Seq<u8>, amount: u64, recipient: Seq<u8>)
    requires
        amount + tip_fee(c, amount) > c.sender_allowance.remaining,
    ensures
        tip_error(c, program_id, amount, recipient) is Some,
{
}

/// Once a tip has bound a recipient vault to an identity, a later tip that
/// names another identity for that vault is refused.
pub proof fn lemma_bound_recipient_refuses_other_identity(
    c1: Tip,
    n1: Tip,
    c2: Tip,
    program_id: Seq<u8>,
    amount1: u64,
    recipient1: Seq<u8>,
    amount2: u64,
    recipient2: Seq<u8>,
)
    requires
        tip_error(c1, program_id, amount1, recipient1) is None,
        tip_applied(c1, n1, program_id, amount1, recipient1),
        c2.recipient_vault == n1.recipient_vault,
        recipient2 != recipient1,
    ensures
        n1.recipient_vault.hashed_discord_id@ == recipient1,
        tip_error(c2, program_id, amount2, recipient2) is Some,
{
}

/// Once a tip has bound a recipient vault to an identity, later tips that
/// succeed leave that vault as it is.
pub proof fn lemma_bound_recipient_unchanged(
    c1: Tip,
    n1: Tip,
    c2: Tip,
    n2: Tip,
    program_id: Seq<u8>,
    amount1: u64,
    recipient1: Seq<u8>,
    amount2: u64,
    recipient2: Seq<u8>,
)
    requires
        tip_error(c1, program_id, amount1, recipient1) is None,
        tip_applied(c1, n1, program_id, amount1, recipient1),
        c2.recipient_vault == n1.recipient_vault,
        tip_error(c2, program_id, amount2, recipient2) is None,
        tip_applied(c2, n2, program_id, amount2, recipient2),
    ensures
        n2.recipient_vault == n1.recipient_vault,
{
}

/// Once a registration has given a vault to an authority, a registration
/// of that vault by anyone else is refused: its authority is never
/// silently reassigned.
pub proof fn lemma_registered_vault_not_reassigned(
    c1: Register,
    n1: Register,
    c2: Register,
    program_id: Seq<u8>,
    hashed_id1: Seq<u8>,
    hashed_id2: Seq<u8>,
)
    requires
        register_error(c1, program_id, hashed_id1) is None,
        register_applied(c1, n1, hashed_id1),
        !is_zero(c1.authority@),
        c2.vault == n1.vault,
        c2.authority@ != c1.authority@,
    ensures
        register_error(c2, program_id, hashed_id2) is Some,
{
}

} // verus!
