use crate::Error;
use vstd::prelude::*;

verus! {

/// Amounts are counted in billionths of a whole coin.
pub const AMOUNT_SCALE: u64 = 1_000_000_000;

/// Largest accepted gap between recipient and sender totals: 0.01 of a coin.
pub const AMOUNT_TOLERANCE: u64 = 10_000_000;

/// One party of a disbursement.
pub struct TransferInstruction {
    pub address: String,
    /// Quantity in billionths of a whole coin.
    pub amount: u64,
    pub coin: String,
}

/// A whole disbursement request.
pub struct MultisendInstruction {
    pub recipients: Vec<TransferInstruction>,
    pub senders: Vec<TransferInstruction>,
}

/// Sum of the amounts of a list of entries.
pub open spec fn total(s: Seq<TransferInstruction>) -> nat
    decreases s.len(),
{
    if s.len() == 0 {
        0
    } else {
        total(s.drop_last()) + s.last().amount as nat
    }
}

pub open spec fn abs_diff(a: nat, b: nat) -> nat {
    if a >= b {
        (a - b) as nat
    } else {
        (b - a) as nat
    }
}

/// Recipient and sender totals agree within the tolerance.
pub open spec fn amounts_balanced(data: MultisendInstruction) -> bool {
    abs_diff(total(data.recipients@), total(data.senders@)) <= AMOUNT_TOLERANCE
}

proof fn lemma_total_bound(s: Seq<TransferInstruction>)
    ensures
        total(s) <= s.len() * (u64::MAX as nat),
    decreases s.len(),
{
    if s.len() > 0 {
        lemma_total_bound(s.drop_last());
        assert(total(s) <= s.len() * (u64::MAX as nat)) by (nonlinear_arith)
            requires
                total(s) == total(s.drop_last()) + s.last().amount,
                total(s.drop_last()) <= s.drop_last().len() * (u64::MAX as nat),
                s.last().amount <= u64::MAX,
                s.drop_last().len() + 1 == s.len(),
        ;
    }
}

/// Sum of the amounts of `v`, which cannot overflow 128 bits.
pub fn sum_amounts(v: &Vec<TransferInstruction>) -> (r: u128)
    ensures
        r == total(v@),
{
    let mut acc: u128 = 0;
    let mut i: usize = 0;
    while i < v.len()
        invariant
            i <= v@.len(),
            acc == total(v@.subrange(0, i as int)),
        decreases v@.len() - i,
    {
        proof {
            let s = v@.subrange(0, i as int + 1);
            assert(s.drop_last() =~= v@.subrange(0, i as int));
            lemma_total_bound(s);
            assert(s.len() * (u64::MAX as nat) <= usize::MAX as nat * (u64::MAX as nat))
                by (nonlinear_arith)
                requires
                    s.len() <= usize::MAX,
            ;
        }
        acc = acc + v[i].amount as u128;
        i = i + 1;
    }
    assert(v@.subrange(0, v@.len() as int) =~= v@);
    acc
}

/// Checks that what the recipients get matches what the senders give, within the tolerance.
pub fn validate_tx_amounts(data: &MultisendInstruction) -> (r: Result<bool, Error>)
    ensures
        r is Ok <==> amounts_balanced(*data),
        r is Ok ==> r->Ok_0,
        !amounts_balanced(*data) ==> r == Err::<bool, Error>(
            Error::AmountMismatch {
                recipients_total: total(data.recipients@) as u128,
                senders_total: total(data.senders@) as u128,
            },
        ),
{
    let recipients_total = sum_amounts(&data.recipients);
    let senders_total = sum_amounts(&data.senders);
    let gap = if recipients_total >= senders_total {
        recipients_total - senders_total
    } else {
        senders_total - recipients_total
    };
    if gap > AMOUNT_TOLERANCE as u128 {
        return Err(Error::AmountMismatch { recipients_total, senders_total });
    }
    Ok(true)
}

} // verus!
