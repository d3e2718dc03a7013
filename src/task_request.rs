use vstd::prelude::*;

verus! {

/// What one call of the oracle gave back.
#[derive(Debug, Clone, PartialEq)]
pub enum OracleOutcome {
    Reply(String),
    Failed,
}

/// What to do after an oracle call.
#[derive(Debug, Clone, PartialEq)]
pub enum RetryDecision {
    /// The request is answered with this text.
    Accept(String),
    /// Repeat the identical call once more.
    CallAgain,
    /// Both calls failed: the request is lost.
    GiveUp,
}

/// The decision taken after an oracle call, given how many calls of the
/// same request came before it.
pub open spec fn retry_decision(calls_before: nat, outcome: OracleOutcome) -> RetryDecision {
    match outcome {
        OracleOutcome::Reply(text) => RetryDecision::Accept(text),
        OracleOutcome::Failed => if calls_before == 0 {
            RetryDecision::CallAgain
        } else {
            RetryDecision::GiveUp
        },
    }
}

/// One logical request to the oracle, which allows one retry.
#[derive(Debug)]
pub struct TaskRequest {
    calls: u8,
}

impl View for TaskRequest {
    /// The number of oracle calls made for this request so far.
    type V = nat;

    closed spec fn view(&self) -> nat {
        self.calls as nat
    }
}

impl TaskRequest {
    /// A request before its first oracle call.
    pub fn new() -> (r: TaskRequest)
        ensures
            r@ == 0,
    {
        TaskRequest { calls: 0 }
    }

    /// The number of oracle calls made so far.
    pub fn calls(&self) -> (r: u8)
        ensures
            r as nat == self@,
    {
        self.calls
    }

    /// Records the outcome of the next oracle call and decides what follows.
    /// No third call is ever asked for.
    pub fn record_outcome(&mut self, outcome: OracleOutcome) -> (r: RetryDecision)
        requires
            old(self)@ < 2,
        ensures
            final(self)@ == old(self)@ + 1,
            r == retry_decision(old(self)@, outcome),
    {
        let first = self.calls == 0;
        self.calls = self.calls + 1;
        match outcome {
            OracleOutcome::Reply(text) => RetryDecision::Accept(text),
            OracleOutcome::Failed => if first {
                RetryDecision::CallAgain
            } else {
                RetryDecision::GiveUp
            },
        }
    }
}

/// A request calls the oracle at most twice: a retry follows only a failed
/// first call, and the second call never asks for another. The result is the
/// first reply that arrives, from either call.
pub proof fn lemma_oracle_called_at_most_twice(first: OracleOutcome, second: OracleOutcome)
    ensures
        retry_decision(1, second) != RetryDecision::CallAgain,
        retry_decision(0, first) == RetryDecision::CallAgain <==> first == OracleOutcome::Failed,
        first is Reply ==> retry_decision(0, first) == RetryDecision::Accept(first->Reply_0),
        first is Failed && second is Reply ==> retry_decision(1, second) == RetryDecision::Accept(
            second->Reply_0,
        ),
        first is Failed && second is Failed ==> retry_decision(1, second) == RetryDecision::GiveUp,
{
}

} // verus!
