use crate::chains::{address_ok, addresses_ok_upto, first_bad_address, ChainKind};
use crate::utils::{MultisendInstruction, AMOUNT_SCALE};
use crate::Error;
use crate::Role;
use vstd::prelude::*;

verus! {

/// Most transfers that fit in one transaction.
pub const MAX_TRANSFERS_PER_TX: usize = 20;

/// Number of chunks for `n` transfers.
pub open spec fn chunk_count(n: nat) -> nat {
    ((n + MAX_TRANSFERS_PER_TX - 1) / (MAX_TRANSFERS_PER_TX as int)) as nat
}

/// Start of chunk `k`.
pub open spec fn chunk_start(n: nat, k: nat) -> nat {
    let s = (k * MAX_TRANSFERS_PER_TX) as nat;
    if s <= n { s } else { n }
}

/// End (exclusive) of chunk `k`.
pub open spec fn chunk_end(n: nat, k: nat) -> nat {
    chunk_start(n, k + 1)
}

/// Chunk `k` of `s`.
pub open spec fn chunk_of<T>(s: Seq<T>, k: nat) -> Seq<T> {
    s.subrange(chunk_start(s.len(), k) as int, chunk_end(s.len(), k) as int)
}

/// The first `k` chunks of `s`, one after another.
pub open spec fn join_chunks<T>(chunks: Seq<Vec<T>>, k: nat) -> Seq<T>
    decreases k,
{
    if k == 0 || k > chunks.len() {
        Seq::empty()
    } else {
        join_chunks(chunks, (k - 1) as nat) + chunks[k - 1]@
    }
}

/// Splits `v` into consecutive chunks of at most `MAX_TRANSFERS_PER_TX` items, keeping the order.
pub fn chunk_transfers<T>(v: Vec<T>) -> (r: Vec<Vec<T>>)
    ensures
        r@.len() == chunk_count(v@.len()),
        forall|k: int| 0 <= k < r@.len() ==> #[trigger] r@[k]@ == chunk_of(v@, k as nat),
{
    let ghost all = v@;
    let ghost n = v@.len();
    let mut out: Vec<Vec<T>> = Vec::new();
    let mut rest = v;
    while rest.len() > 0
        invariant
            n == all.len(),
            rest@ == all.subrange(chunk_start(n, out@.len()) as int, n as int),
            rest@.len() > 0 ==> out@.len() * MAX_TRANSFERS_PER_TX < n,
            rest@.len() == 0 ==> out@.len() == chunk_count(n),
            forall|k: int| 0 <= k < out@.len() ==> #[trigger] out@[k]@ == chunk_of(all, k as nat),
        decreases rest@.len(),
    {
        let ghost k = out@.len();
        if rest.len() > MAX_TRANSFERS_PER_TX {
            let tail = rest.split_off(MAX_TRANSFERS_PER_TX);
            assert(rest@ =~= chunk_of(all, k as nat));
            out.push(rest);
            rest = tail;
        } else {
            proof {
                lemma_last_chunk(n, k);
            }
            assert(rest@ =~= chunk_of(all, k as nat));
            out.push(rest);
            rest = Vec::new();
        }
    }
    out
}

proof fn lemma_last_chunk(n: nat, m: nat)
    requires
        m * MAX_TRANSFERS_PER_TX < n,
        n <= m * MAX_TRANSFERS_PER_TX + MAX_TRANSFERS_PER_TX,
    ensures
        m + 1 == chunk_count(n),
{
    assert(m + 1 == (n + 19) / 20) by (nonlinear_arith)
        requires
            m * 20 < n,
            n <= m * 20 + 20,
    ;
}

/// Joining all chunks of `s` in order gives back `s`.
pub proof fn lemma_chunks_rejoin<T>(s: Seq<T>, chunks: Seq<Vec<T>>)
    requires
        chunks.len() == chunk_count(s.len()),
        forall|k: int| 0 <= k < chunks.len() ==> #[trigger] chunks[k]@ == chunk_of(s, k as nat),
    ensures
        join_chunks(chunks, chunks.len()) == s,
        forall|k: int| 0 <= k < chunks.len() ==> #[trigger] chunks[k]@.len() <= MAX_TRANSFERS_PER_TX,
{
    assert forall|k: nat| k <= chunks.len() implies join_chunks(chunks, k) =~= s.subrange(
        0,
        chunk_start(s.len(), k) as int,
    ) by {
        lemma_join_prefix(s, chunks, k);
    }
    assert(chunk_start(s.len(), chunks.len()) == s.len());
    assert(s.subrange(0, s.len() as int) =~= s);
}

proof fn lemma_join_prefix<T>(s: Seq<T>, chunks: Seq<Vec<T>>, k: nat)
    requires
        chunks.len() == chunk_count(s.len()),
        forall|j: int| 0 <= j < chunks.len() ==> #[trigger] chunks[j]@ == chunk_of(s, j as nat),
        k <= chunks.len(),
    ensures
        join_chunks(chunks, k) =~= s.subrange(0, chunk_start(s.len(), k) as int),
    decreases k,
{
    if k > 0 {
        lemma_join_prefix(s, chunks, (k - 1) as nat);
        assert(chunks[k - 1]@ == chunk_of(s, (k - 1) as nat));
    }
}

} // verus!

verus! {

/// What the submitter does next.
#[derive(Debug, PartialEq, Eq, Structural)]
pub enum SubmitAction {
    /// Sign and send the chunk with this index, then wait for its confirmation.
    Submit(usize),
    /// Every chunk is confirmed.
    Finished,
    /// The chunk with this index was rejected; nothing more is sent.
    Stopped(usize),
}

/// Progress through the chunks of one disbursement, sent one at a time.
pub struct BatchSubmission {
    pub total: usize,
    pub next: usize,
    pub failure: Option<(usize, String)>,
}

impl BatchSubmission {
    pub open spec fn wf(&self) -> bool {
        &&& self.next <= self.total
        &&& self.failure matches Some((k, _)) ==> k == self.next && self.next < self.total
    }

    pub open spec fn action_spec(&self) -> SubmitAction {
        match self.failure {
            Some((k, _)) => SubmitAction::Stopped(k),
            None => if self.next < self.total {
                SubmitAction::Submit(self.next)
            } else {
                SubmitAction::Finished
            },
        }
    }

    /// Nothing sent yet, `total` chunks to go.
    pub fn new(total: usize) -> (r: Self)
        ensures
            r.wf(),
            r.total == total,
            r.next == 0,
            r.failure is None,
    {
        BatchSubmission { total, next: 0, failure: None }
    }

    pub fn next_action(&self) -> (r: SubmitAction)
        requires
            self.wf(),
        ensures
            r == self.action_spec(),
    {
        match &self.failure {
            Some((k, _)) => SubmitAction::Stopped(*k),
            None => if self.next < self.total {
                SubmitAction::Submit(self.next)
            } else {
                SubmitAction::Finished
            },
        }
    }

    /// Records how the chunk just submitted ended: confirmed, or rejected with a cause.
    pub fn record(&mut self, outcome: Result<(), String>)
        requires
            old(self).wf(),
            old(self).action_spec() is Submit,
        ensures
            final(self).wf(),
            final(self).total == old(self).total,
            match outcome {
                Ok(()) => final(self).next == old(self).next + 1 && final(self).failure is None,
                Err(cause) => final(self).next == old(self).next && final(self).failure == Some(
                    (old(self).next, cause),
                ),
            },
    {
        match outcome {
            Ok(()) => {
                self.next = self.next + 1;
            },
            Err(cause) => {
                self.failure = Some((self.next, cause));
            },
        }
    }

    /// The number of confirmed chunks once all went through, or the rejection.
    pub fn result(&self) -> (r: Result<usize, Error>)
        requires
            self.wf(),
        ensures
            match self.failure {
                None => r == Ok::<usize, Error>(self.next),
                Some((k, cause)) => r == Err::<usize, Error>(
                    Error::SubmissionError { chunk_index: k, cause },
                ),
            },
    {
        match &self.failure {
            None => Ok(self.next),
            Some((k, cause)) => Err(Error::SubmissionError { chunk_index: *k, cause: cause.clone() }),
        }
    }
}

/// Once chunk `k` has been rejected, the only action left is to stop at `k`: no later chunk is
/// submitted, and the error names chunk `k`, after exactly `k` confirmed chunks.
pub proof fn lemma_stop_after_failure(s: BatchSubmission, k: usize, cause: String)
    requires
        s.wf(),
        s.failure == Some((k, cause)),
    ensures
        s.action_spec() == SubmitAction::Stopped(k),
        forall|j: usize| s.action_spec() != SubmitAction::Submit(j),
        s.next == k,
{
}

} // verus!

verus! {

#[verifier::external_type_specification]
#[verifier::external_body]
pub struct ExPubkey(solana_sdk::pubkey::Pubkey);

/// Whether `Pubkey::from_str` accepts the text.
pub uninterp spec fn solana_address_parses(s: Seq<char>) -> bool;

/// Accepted Solana addresses: `Pubkey::from_str` refuses empty text and text over 44 bytes.
pub open spec fn solana_address_ok(s: Seq<char>) -> bool {
    0 < s.len() <= 44 && solana_address_parses(s)
}

/// The key that `Pubkey::from_str` reads from the text.
pub uninterp spec fn pubkey_of(s: Seq<char>) -> solana_sdk::pubkey::Pubkey;

/// Relies on solana's `Pubkey::from_str`: base58 text of 32 bytes, at most 44 bytes long; the
/// key depends on the text alone.
#[verifier::external_body]
pub(crate) fn parse_pubkey(s: &str) -> (r: Option<solana_sdk::pubkey::Pubkey>)
    ensures
        r is Some == (0 < s@.len() <= 44 && solana_address_parses(s@)),
        r is Some ==> r->0 == pubkey_of(s@),
{
    <solana_sdk::pubkey::Pubkey as std::str::FromStr>::from_str(s).ok()
}

/// Base units (lamports) per whole SOL.
pub const LAMPORTS_PER_SOL: u64 = 1_000_000_000;

/// An amount in billionths of a SOL, in lamports.
pub open spec fn lamports_of(amount: u64) -> nat {
    (amount / (AMOUNT_SCALE / LAMPORTS_PER_SOL)) as nat
}

pub fn to_lamports(amount: u64) -> (r: u64)
    ensures
        r == lamports_of(amount),
{
    amount / (AMOUNT_SCALE / LAMPORTS_PER_SOL)
}

#[verifier::external_type_specification]
#[verifier::external_body]
pub struct ExKeypair(solana_sdk::signer::keypair::Keypair);

#[verifier::external_type_specification]
#[verifier::external_body]
pub struct ExInstruction(solana_sdk::instruction::Instruction);

/// The public half of a keypair.
pub uninterp spec fn keypair_public(k: solana_sdk::signer::keypair::Keypair) -> solana_sdk::pubkey::Pubkey;

/// Relies on `Signer::pubkey` for solana's `Keypair`: the public half of the pair, which depends
/// on the pair alone.
#[verifier::external_body]
fn keypair_pubkey(keypair: &solana_sdk::signer::keypair::Keypair) -> (r: solana_sdk::pubkey::Pubkey)
    ensures
        r == keypair_public(*keypair),
{
    solana_sdk::signer::Signer::pubkey(keypair)
}

/// The instruction of `system_instruction::transfer` that moves `lamports` from `from` to `to`.
pub uninterp spec fn transfer_of(
    from: solana_sdk::pubkey::Pubkey,
    to: solana_sdk::pubkey::Pubkey,
    lamports: u64,
) -> solana_sdk::instruction::Instruction;

/// Relies on solana's `system_instruction::transfer_many`: `transfer(from, to, lamports)` for
/// each entry of `to`, in the same order.
#[verifier::external_body]
fn transfer_many(from: &solana_sdk::pubkey::Pubkey, to: &Vec<(solana_sdk::pubkey::Pubkey, u64)>) -> (r: Vec<
    solana_sdk::instruction::Instruction,
>)
    ensures
        r@.len() == to@.len(),
        forall|i: int| 0 <= i < to@.len() ==> #[trigger] r@[i] == transfer_of(*from, to@[i].0, to@[i].1),
{
    solana_sdk::system_instruction::transfer_many(from, to.as_slice())
}

/// Recipient `i`'s key with its amount in lamports.
pub open spec fn planned_transfer(data: MultisendInstruction, i: int) -> (
    solana_sdk::pubkey::Pubkey,
    u64,
) {
    (pubkey_of(data.recipients@[i].address@), lamports_of(data.recipients@[i].amount) as u64)
}

/// Every recipient's parsed address with its amount in lamports, in order; or the first
/// recipient whose address does not parse.
pub fn transfer_plan(data: &MultisendInstruction) -> (r: Result<
    Vec<(solana_sdk::pubkey::Pubkey, u64)>,
    Error,
>)
    ensures
        r is Ok <==> addresses_ok_upto(
            ChainKind::Solana,
            data.recipients@,
            data.recipients@.len() as int,
        ),
        r is Ok ==> r->Ok_0@.len() == data.recipients@.len() && forall|i: int|
            0 <= i < data.recipients@.len() ==> #[trigger] r->Ok_0@[i] == planned_transfer(
                *data,
                i,
            ),
        r is Err ==> first_bad_address(ChainKind::Solana, *data, r->Err_0)
            && r->Err_0 matches Error::InvalidAddress { role: Role::Recipient, .. },
{
    let mut plan: Vec<(solana_sdk::pubkey::Pubkey, u64)> = Vec::new();
    let mut i: usize = 0;
    while i < data.recipients.len()
        invariant
            i <= data.recipients@.len(),
            plan@.len() == i,
            addresses_ok_upto(ChainKind::Solana, data.recipients@, i as int),
            forall|j: int| 0 <= j < i ==> #[trigger] plan@[j] == planned_transfer(*data, j),
        decreases data.recipients@.len() - i,
    {
        let instr = &data.recipients[i];
        match parse_pubkey(instr.address.as_str()) {
            Some(key) => {
                plan.push((key, to_lamports(instr.amount)));
            },
            None => {
                assert(!address_ok(ChainKind::Solana, data.recipients@[i as int].address@));
                return Err(
                    Error::InvalidAddress {
                        address: instr.address.clone(),
                        role: Role::Recipient,
                        index: i,
                    },
                );
            },
        }
        i = i + 1;
    }
    Ok(plan)
}

/// One transfer instruction per recipient, in order, from the keypair's account; or the first
/// recipient whose address does not parse.
pub fn build_transfer_instruction(
    keypair: &solana_sdk::signer::keypair::Keypair,
    data: &MultisendInstruction,
) -> (r: Result<Vec<solana_sdk::instruction::Instruction>, Error>)
    ensures
        r is Ok <==> addresses_ok_upto(
            ChainKind::Solana,
            data.recipients@,
            data.recipients@.len() as int,
        ),
        r is Ok ==> r->Ok_0@.len() == data.recipients@.len() && forall|i: int|
            0 <= i < data.recipients@.len() ==> #[trigger] r->Ok_0@[i] == transfer_of(
                keypair_public(*keypair),
                pubkey_of(data.recipients@[i].address@),
                lamports_of(data.recipients@[i].amount) as u64,
            ),
        r is Err ==> first_bad_address(ChainKind::Solana, *data, r->Err_0)
            && r->Err_0 matches Error::InvalidAddress { role: Role::Recipient, .. },
{
    let plan = transfer_plan(data)?;
    let from = keypair_pubkey(keypair);
    Ok(transfer_many(&from, &plan))
}

} // verus!
