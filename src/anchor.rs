use crate::error::Fault;
use vstd::prelude::*;

verus! {

/// The address of the ledger's memo program, which anchors carry their data to.
pub const MEMO_PROGRAM_ID: &'static str = "MemoSq4gqABAXKb96qnH8TysNcWxMyWCqXgDLGmfcHr";

pub const MEMO_HASH_TAG: &'static str = "hash:";

pub const MEMO_CID_TAG: &'static str = ";cid:";

/// How many balance checks the funding of a signer gets.
pub const FUNDING_MAX_ATTEMPTS: u32 = 20;

/// The wait between two balance checks; with the attempt bound it also
/// bounds the whole funding wait.
pub const FUNDING_INTERVAL_MS: u64 = 2000;

/// The payload of an anchoring memo: `hash:<file hash>;cid:<file cid>`.
pub fn memo_text(file_hash: &str, file_cid: &str) -> (r: String)
    ensures
        r@ == MEMO_HASH_TAG@ + file_hash@ + MEMO_CID_TAG@ + file_cid@,
{
    let mut r = MEMO_HASH_TAG.to_owned();
    r.append(file_hash);
    r.append(MEMO_CID_TAG);
    r.append(file_cid);
    r
}

/// What follows a balance check while a signer is being funded.
#[derive(Debug, Clone, Copy, PartialEq, Eq, Structural)]
pub enum FundingStep {
    /// Funds arrived at the check with this number (counted from one).
    Funded(u32),
    /// Nothing yet: wait this many milliseconds and check again.
    Retry(u64),
    /// Nothing arrived within this many checks.
    TimedOut(u32),
}

impl FundingStep {
    /// The fault a funding wait that ends this way reports, if any.
    pub fn fault(self) -> (r: Option<Fault>)
        ensures
            r == (if self is TimedOut {
                Some(Fault::FundingTimeout)
            } else {
                None::<Fault>
            }),
    {
        match self {
            FundingStep::TimedOut(_) => Some(Fault::FundingTimeout),
            _ => None,
        }
    }
}

/// The funding wait of one signer: how many balance checks were made, of how many allowed.
#[derive(Debug, Clone, Copy, PartialEq, Eq, Structural)]
pub struct FundingPoll {
    pub attempts: u32,
    pub max_attempts: u32,
}

impl FundingPoll {
    pub open spec fn wf(self) -> bool {
        1 <= self.max_attempts && self.attempts <= self.max_attempts
    }

    /// Checks remain.
    pub open spec fn running(self) -> bool {
        self.attempts < self.max_attempts
    }

    /// The wait after one more check.
    pub open spec fn after_check(self) -> FundingPoll {
        FundingPoll { attempts: (self.attempts + 1) as u32, max_attempts: self.max_attempts }
    }

    /// What the next check, which sees `balance`, leads to.
    pub open spec fn step(self, balance: u64) -> FundingStep {
        if balance > 0 {
            FundingStep::Funded((self.attempts + 1) as u32)
        } else if self.attempts + 1 < self.max_attempts {
            FundingStep::Retry(FUNDING_INTERVAL_MS)
        } else {
            FundingStep::TimedOut((self.attempts + 1) as u32)
        }
    }

    /// A fresh wait allowed `max_attempts` checks.
    pub fn new(max_attempts: u32) -> (r: FundingPoll)
        requires
            max_attempts >= 1,
        ensures
            r.wf(),
            r.attempts == 0,
            r.max_attempts == max_attempts,
    {
        FundingPoll { attempts: 0, max_attempts }
    }

    /// Records a balance check that saw `balance`: any balance ends the wait
    /// as funded; none ends it as timed out once the allowed checks are used.
    pub fn observe(&mut self, balance: u64) -> (r: FundingStep)
        requires
            old(self).wf(),
            old(self).running(),
        ensures
            *final(self) == old(self).after_check(),
            final(self).wf(),
            r == old(self).step(balance),
    {
        self.attempts = self.attempts + 1;
        if balance > 0 {
            FundingStep::Funded(self.attempts)
        } else if self.attempts < self.max_attempts {
            FundingStep::Retry(FUNDING_INTERVAL_MS)
        } else {
            FundingStep::TimedOut(self.attempts)
        }
    }
}

/// Where a funding wait ends when its checks see `balances` in turn: nothing
/// if the balances run out while it still waits.
pub open spec fn drive(p: FundingPoll, balances: Seq<u64>) -> Option<FundingStep>
    decreases balances.len(),
{
    if balances.len() == 0 {
        None
    } else {
        match p.step(balances[0]) {
            FundingStep::Retry(_) => drive(p.after_check(), balances.drop_first()),
            s => Some(s),
        }
    }
}

proof fn lemma_drive_from(p: FundingPoll, balances: Seq<u64>)
    requires
        p.wf(),
        p.running(),
        balances.len() >= p.max_attempts - p.attempts,
    ensures
        forall|k: int|
            0 <= k < p.max_attempts - p.attempts && balances[k] > 0 && (forall|j: int|
                0 <= j < k ==> balances[j] == 0) ==> drive(p, balances) == Some(
                FundingStep::Funded((p.attempts + k + 1) as u32),
            ),
        (forall|j: int| 0 <= j < p.max_attempts - p.attempts ==> balances[j] == 0) ==> drive(
            p,
            balances,
        ) == Some(FundingStep::TimedOut(p.max_attempts)),
    decreases p.max_attempts - p.attempts,
{
    let q = p.after_check();
    let rest = balances.drop_first();
    if balances[0] == 0 && q.running() {
        lemma_drive_from(q, rest);
        assert forall|k: int|
            0 <= k < p.max_attempts - p.attempts && balances[k] > 0 && (forall|j: int|
                0 <= j < k ==> balances[j] == 0) implies drive(p, balances) == Some(
            FundingStep::Funded((p.attempts + k + 1) as u32),
        ) by {
            assert(k >= 1);
            assert(rest[k - 1] == balances[k]);
            assert forall|j: int| 0 <= j < k - 1 implies rest[j] == 0 by {
                assert(rest[j] == balances[j + 1]);
            }
        }
        if forall|j: int| 0 <= j < p.max_attempts - p.attempts ==> balances[j] == 0 {
            assert forall|j: int| 0 <= j < q.max_attempts - q.attempts implies rest[j] == 0 by {
                assert(rest[j] == balances[j + 1]);
            }
        }
    }
}

/// A funding wait allowed `max` checks ends at the first check that sees
/// funds, with that check's number, and otherwise after exactly `max` checks,
/// timed out. It never waits beyond that.
pub proof fn lemma_funding_poll_bounded(max: u32, balances: Seq<u64>)
    requires
        max >= 1,
        balances.len() >= max,
    ensures
        forall|k: int|
            0 <= k < max && balances[k] > 0 && (forall|j: int| 0 <= j < k ==> balances[j] == 0)
                ==> drive(FundingPoll { attempts: 0, max_attempts: max }, balances) == Some(
                FundingStep::Funded((k + 1) as u32),
            ),
        (forall|j: int| 0 <= j < max ==> balances[j] == 0) ==> drive(
            FundingPoll { attempts: 0, max_attempts: max },
            balances,
        ) == Some(FundingStep::TimedOut(max)),
{
    lemma_drive_from(FundingPoll { attempts: 0, max_attempts: max }, balances);
}

} // verus!
