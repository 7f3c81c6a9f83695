//! The protocol that makes a multi-statement write atomic: the storage
//! layer runs each statement the runner asks for and reports whether it
//! succeeded; the runner commits only after all of them did, and rolls
//! back as soon as one fails.
use vstd::prelude::*;

verus! {

/// A statement of a vault write.
#[derive(Debug, Clone, Copy, PartialEq, Eq, Structural)]
pub enum Statement {
    /// Insert the secret row.
    InsertSecret,
    /// Insert the tags, skipping those already stored.
    InsertTags,
    /// Delete all tags of the secret.
    DeleteTags,
}

/// What the storage layer is asked to do next.
#[derive(Debug, Clone, Copy, PartialEq, Eq, Structural)]
pub enum TxAction {
    Run(Statement),
    Commit,
    Rollback,
    /// The transaction is over; nothing more to do.
    Finish,
}

/// Where a transaction stands.
#[derive(Debug, Clone, Copy, PartialEq, Eq, Structural)]
pub enum TxPhase {
    /// Statements are running.
    Open,
    /// Every statement succeeded and the commit was asked for.
    Committing,
    /// A statement failed and the rollback was asked for.
    RollingBack,
    /// Over: committed if nothing failed, else rolled back.
    Done,
}

/// The plain state of a transaction.
pub struct TxState {
    pub steps: Seq<Statement>,
    pub done: nat,
    pub phase: TxPhase,
    pub failed: bool,
}

/// One step of the protocol: the state after the last action's result,
/// and the next action.
pub open spec fn tx_step(s: TxState, ok: bool) -> (TxState, TxAction) {
    match s.phase {
        TxPhase::Open => if ok {
            if s.done + 1 >= s.steps.len() {
                (TxState { done: s.done + 1, phase: TxPhase::Committing, ..s }, TxAction::Commit)
            } else {
                (
                    TxState { done: s.done + 1, ..s },
                    TxAction::Run(s.steps[s.done + 1 as int]),
                )
            }
        } else {
            (TxState { phase: TxPhase::RollingBack, failed: true, ..s }, TxAction::Rollback)
        },
        TxPhase::Committing => (
            TxState { phase: TxPhase::Done, failed: !ok, ..s },
            TxAction::Finish,
        ),
        _ => (TxState { phase: TxPhase::Done, ..s }, TxAction::Finish),
    }
}

/// The actions that a run of results draws from the protocol.
pub open spec fn tx_run(s: TxState, results: Seq<bool>) -> Seq<TxAction>
    decreases results.len(),
{
    if results.len() == 0 {
        Seq::empty()
    } else {
        let (next, a) = tx_step(s, results[0]);
        seq![a] + tx_run(next, results.drop_first())
    }
}

/// Drives one transaction: the storage layer begins it, runs
/// `first_action`, then hands each result to `on_result` and does what
/// comes back, until `Finish`.
#[derive(Debug, Clone, PartialEq, Eq)]
pub struct TxRunner {
    pub steps: Vec<Statement>,
    pub done: usize,
    pub phase: TxPhase,
    pub failed: bool,
}

impl TxRunner {
    pub open spec fn state(&self) -> TxState {
        TxState { steps: self.steps@, done: self.done as nat, phase: self.phase, failed: self.failed }
    }

    pub open spec fn wf(&self) -> bool {
        &&& 1 <= self.steps@.len()
        &&& self.done <= self.steps@.len()
        &&& self.phase == TxPhase::Open ==> self.done < self.steps@.len() && !self.failed
    }

    /// The writes of a new secret: its row, then its tags.
    pub fn create_secret() -> (r: TxRunner)
        ensures
            r.wf(),
            r.steps@ == seq![Statement::InsertSecret, Statement::InsertTags],
            r.done == 0,
            r.phase == TxPhase::Open,
    {
        let mut steps: Vec<Statement> = Vec::new();
        steps.push(Statement::InsertSecret);
        steps.push(Statement::InsertTags);
        assert(steps@ =~= seq![Statement::InsertSecret, Statement::InsertTags]);
        TxRunner { steps, done: 0, phase: TxPhase::Open, failed: false }
    }

    /// The full replacement of a tag set: delete, then insert.
    pub fn replace_tags() -> (r: TxRunner)
        ensures
            r.wf(),
            r.steps@ == seq![Statement::DeleteTags, Statement::InsertTags],
            r.done == 0,
            r.phase == TxPhase::Open,
    {
        let mut steps: Vec<Statement> = Vec::new();
        steps.push(Statement::DeleteTags);
        steps.push(Statement::InsertTags);
        assert(steps@ =~= seq![Statement::DeleteTags, Statement::InsertTags]);
        TxRunner { steps, done: 0, phase: TxPhase::Open, failed: false }
    }

    /// The first statement to run.
    pub fn first_action(&self) -> (r: TxAction)
        requires
            self.wf(),
            self.phase == TxPhase::Open,
        ensures
            r == TxAction::Run(self.steps@[self.done as int]),
    {
        TxAction::Run(self.steps[self.done])
    }

    /// Takes the result of the last action and says what to do next.
    pub fn on_result(&mut self, ok: bool) -> (r: TxAction)
        requires
            old(self).wf(),
        ensures
            final(self).wf(),
            (final(self).state(), r) == tx_step(old(self).state(), ok),
    {
        let n = self.steps.len();
        match self.phase {
            TxPhase::Open => {
                if ok {
                    self.done = self.done + 1;
                    if self.done >= self.steps.len() {
                        self.phase = TxPhase::Committing;
                        TxAction::Commit
                    } else {
                        TxAction::Run(self.steps[self.done])
                    }
                } else {
                    self.phase = TxPhase::RollingBack;
                    self.failed = true;
                    TxAction::Rollback
                }
            },
            TxPhase::Committing => {
                self.phase = TxPhase::Done;
                self.failed = !ok;
                TxAction::Finish
            },
            _ => {
                self.phase = TxPhase::Done;
                TxAction::Finish
            },
        }
    }

    /// Whether the transaction ended with its writes committed.
    pub fn committed(&self) -> (r: bool)
        ensures
            r <==> self.phase == TxPhase::Done && !self.failed,
    {
        match self.phase {
            TxPhase::Done => !self.failed,
            _ => false,
        }
    }
}

proof fn lemma_tx_run_len(s: TxState, results: Seq<bool>)
    ensures
        tx_run(s, results).len() == results.len(),
    decreases results.len(),
{
    if results.len() > 0 {
        let (next, a) = tx_step(s, results[0]);
        lemma_tx_run_len(next, results.drop_first());
    }
}

/// Once a rollback has been asked for, no commit ever follows.
pub proof fn lemma_no_commit_after_rollback(s: TxState, results: Seq<bool>)
    requires
        s.phase == TxPhase::RollingBack || s.phase == TxPhase::Done,
    ensures
        !tx_run(s, results).contains(TxAction::Commit),
    decreases results.len(),
{
    if results.len() > 0 {
        let (next, a) = tx_step(s, results[0]);
        lemma_no_commit_after_rollback(next, results.drop_first());
        let rest = tx_run(next, results.drop_first());
        assert(tx_run(s, results) == seq![a] + rest);
        if tx_run(s, results).contains(TxAction::Commit) {
            let k = choose|k: int|
                0 <= k < tx_run(s, results).len() && tx_run(s, results)[k] == TxAction::Commit;
            if k > 0 {
                assert(rest[k - 1] == TxAction::Commit);
            }
        }
    }
}

/// Atomicity: when the statement at position `k` of the run fails after
/// the ones before it succeeded, the protocol asks for a rollback there
/// and never for a commit, so none of the transaction's writes is kept.
pub proof fn lemma_failure_rolls_back(s: TxState, results: Seq<bool>, k: int)
    requires
        s.phase == TxPhase::Open,
        s.done < s.steps.len(),
        0 <= k < results.len(),
        s.done + k < s.steps.len(),
        forall|j: int| 0 <= j < k ==> results[j],
        !results[k],
    ensures
        tx_run(s, results)[k] == TxAction::Rollback,
        !tx_run(s, results).contains(TxAction::Commit),
    decreases k,
{
    let (next, a) = tx_step(s, results[0]);
    let rest = tx_run(next, results.drop_first());
    assert(tx_run(s, results) == seq![a] + rest);
    lemma_tx_run_len(next, results.drop_first());
    if k == 0 {
        lemma_no_commit_after_rollback(next, results.drop_first());
    } else {
        assert forall|j: int| 0 <= j < k - 1 implies results.drop_first()[j] by {
            assert(results[j + 1]);
        }
        lemma_failure_rolls_back(next, results.drop_first(), k - 1);
        assert(a != TxAction::Commit);
        assert(tx_run(s, results)[k] == rest[k - 1]);
    }
    if tx_run(s, results).contains(TxAction::Commit) {
        let i = choose|i: int|
            0 <= i < tx_run(s, results).len() && tx_run(s, results)[i] == TxAction::Commit;
        if i > 0 {
            assert(rest[i - 1] == TxAction::Commit);
        }
    }
}

} // verus!
