//! The attempt-outcome model: what the prober reports for one credential
//! pair, the tagged outcome the engine derives from it, and the success
//! record emitted for every credential that worked.

use vstd::prelude::*;
use vstd::string::StringExecFns;

verus! {

/// What one probe invocation reported, as handed to the engine: the
/// prober either answered within the per-attempt timeout (accepting or
/// rejecting the credentials) or produced no answer in time.
pub enum ProbeReply {
    /// The target accepted the credential pair.
    Accepted,
    /// The target rejected the pair, or the connection failed for a
    /// non-timeout reason; the string carries the reason.
    Rejected(String),
    /// The per-attempt timeout elapsed before the prober answered.
    NoReply,
}

/// Classified result of a single credential test, produced exactly once
/// per pair tested.
pub enum AttemptOutcome {
    /// The pair was accepted by the target.
    Success { username: String, password: String },
    /// The pair was rejected, with the prober's reason.
    Failure { username: String, password: String, reason: String },
    /// The per-attempt timeout elapsed first.
    TimedOut { username: String, password: String },
}

/// The username an outcome was classified for.
pub open spec fn outcome_user(o: AttemptOutcome) -> Seq<char> {
    match o {
        AttemptOutcome::Success { username, .. } => username@,
        AttemptOutcome::Failure { username, .. } => username@,
        AttemptOutcome::TimedOut { username, .. } => username@,
    }
}

/// The password an outcome was classified for.
pub open spec fn outcome_pass(o: AttemptOutcome) -> Seq<char> {
    match o {
        AttemptOutcome::Success { password, .. } => password@,
        AttemptOutcome::Failure { password, .. } => password@,
        AttemptOutcome::TimedOut { password, .. } => password@,
    }
}

/// Whether an outcome is a success.
pub open spec fn outcome_is_success(o: AttemptOutcome) -> bool {
    o matches AttemptOutcome::Success { .. }
}

/// The subsequence of successful outcomes, in dispatch order.
pub open spec fn successes_of(s: Seq<AttemptOutcome>) -> Seq<AttemptOutcome>
    decreases s.len(),
{
    if s.len() == 0 {
        Seq::empty()
    } else if outcome_is_success(s.last()) {
        successes_of(s.drop_last()).push(s.last())
    } else {
        successes_of(s.drop_last())
    }
}

/// There are never more successful outcomes than outcomes.
pub proof fn lemma_successes_of_len(s: Seq<AttemptOutcome>)
    ensures
        successes_of(s).len() <= s.len(),
    decreases s.len(),
{
    if s.len() > 0 {
        lemma_successes_of_len(s.drop_last());
    }
}

impl AttemptOutcome {
    /// Whether this outcome is a success.
    pub fn is_success(&self) -> (r: bool)
        ensures
            r == outcome_is_success(*self),
    {
        match self {
            AttemptOutcome::Success { .. } => true,
            _ => false,
        }
    }
}

/// Classifies one probe reply: an answer within the timeout becomes
/// Success or Failure, no answer becomes TimedOut; the credential pair is
/// carried into the outcome unchanged.
pub fn classify(username: String, password: String, reply: ProbeReply) -> (o: AttemptOutcome)
    ensures
        outcome_user(o) == username@,
        outcome_pass(o) == password@,
        outcome_is_success(o) <==> reply matches ProbeReply::Accepted,
        (o matches AttemptOutcome::TimedOut { .. }) <==> reply matches ProbeReply::NoReply,
        reply matches ProbeReply::Rejected(why) ==> (o matches AttemptOutcome::Failure {
            reason,
            ..
        } && reason@ == why@),
{
    match reply {
        ProbeReply::Accepted => AttemptOutcome::Success { username, password },
        ProbeReply::Rejected(reason) => AttemptOutcome::Failure { username, password, reason },
        ProbeReply::NoReply => AttemptOutcome::TimedOut { username, password },
    }
}

/// A found credential: the engine's primary externally observable result.
pub struct SuccessRecord {
    pub username: String,
    pub password: String,
    pub target: String,
}

impl SuccessRecord {
    /// Renders the stable, greppable success line `username:password@target`.
    pub fn render(&self) -> (r: String)
        ensures
            r@ == self.username@ + ":"@ + self.password@ + "@"@ + self.target@,
    {
        let mut line = self.username.clone();
        line.append(":");
        line.append(self.password.as_str());
        line.append("@");
        line.append(self.target.as_str());
        line
    }
}

} // verus!
