//! The challenge lifecycle controller. Every challenge starts pending; a
//! user's response, an admin override or the expiry timer settles it, and the
//! registry's atomic take guarantees that exactly one of them does.

use vstd::prelude::*;

use crate::question::MathQuestion;
use crate::registry::ChallengeEntry;
use crate::registry::Registry;

verus! {

/// What a "user responded" event carries besides its key: either a submitted
/// candidate value, or the admin-override sentinel. The override capability is
/// confirmed against the external collaborator *before* this event enters the
/// controller, so that no registry access is held across that network round
/// trip; a failed confirmation arrives here as `false` (fail-closed).
#[derive(Clone, Copy, Debug, PartialEq, Eq, Structural)]
pub enum ResponseAction {
    /// The responder picked this candidate value.
    Answer(u8),
    /// The responder asked for an admin override; the flag says whether the
    /// override capability was confirmed.
    Override { capability_confirmed: bool },
}

/// The decision the controller hands back; the caller performs the matching
/// side effect and nothing else.
#[derive(Clone, Copy, Debug, PartialEq, Eq, Structural)]
pub enum ChallengeOutcome {
    /// Terminal: restore the subject's access and clean up the artifact.
    Approved { subject: u64 },
    /// Terminal: revoke the subject's membership and clean up the artifact.
    Rejected { subject: u64 },
    /// Terminal: the timer fired first; revoke and clean up.
    RejectedByTimeout { subject: u64 },
    /// The responder does not own the challenge; inform them, change nothing.
    Mismatch,
    /// Override without confirmed capability; change nothing.
    Unauthorized,
    /// The key is unknown or already settled; do nothing at all.
    Stale,
}

impl ChallengeOutcome {
    /// Whether the outcome ends the challenge and carries a side effect on
    /// the subject's access.
    pub open spec fn is_terminal(self) -> bool {
        match self {
            ChallengeOutcome::Approved { .. } => true,
            ChallengeOutcome::Rejected { .. } => true,
            ChallengeOutcome::RejectedByTimeout { .. } => true,
            _ => false,
        }
    }
}

/// The structural invariant of a registry state: it only holds well-formed,
/// still-pending entries. Terminal transitions remove an entry at the moment
/// it resolves, so a resolved entry never rests in the registry.
pub open spec fn registry_wf(m: Map<i64, ChallengeEntry>) -> bool {
    forall|k: i64| #[trigger]
        m.contains_key(k) ==> !m[k].resolved && m[k].question.wf()
}

/// The entry a fresh challenge starts from.
pub open spec fn pending_entry(subject: u64, question: MathQuestion) -> ChallengeEntry {
    ChallengeEntry { subject_id: subject, question, resolved: false }
}

/// The outcome a "user responded" event decides, as a function of the current
/// registry state and the event alone.
pub open spec fn respond_outcome(
    m: Map<i64, ChallengeEntry>,
    key: i64,
    responder: u64,
    action: ResponseAction,
) -> ChallengeOutcome {
    if !m.contains_key(key) {
        ChallengeOutcome::Stale
    } else {
        let entry = m[key];
        match action {
            ResponseAction::Override { capability_confirmed } => if capability_confirmed {
                ChallengeOutcome::Approved { subject: entry.subject_id }
            } else {
                ChallengeOutcome::Unauthorized
            },
            ResponseAction::Answer(value) => if responder != entry.subject_id {
                ChallengeOutcome::Mismatch
            } else if value == entry.question.answer() {
                ChallengeOutcome::Approved { subject: entry.subject_id }
            } else {
                ChallengeOutcome::Rejected { subject: entry.subject_id }
            },
        }
    }
}

/// The registry state after a "user responded" event: the entry leaves
/// exactly when the outcome is terminal.
pub open spec fn respond_result(
    m: Map<i64, ChallengeEntry>,
    key: i64,
    responder: u64,
    action: ResponseAction,
) -> Map<i64, ChallengeEntry> {
    if respond_outcome(m, key, responder, action).is_terminal() {
        m.remove(key)
    } else {
        m
    }
}

/// The outcome a "timeout fired" event decides: rejection when the entry is
/// still pending, a no-op when it is gone or already settled.
pub open spec fn timeout_outcome(m: Map<i64, ChallengeEntry>, key: i64) -> ChallengeOutcome {
    if m.contains_key(key) && !m[key].resolved {
        ChallengeOutcome::RejectedByTimeout { subject: m[key].subject_id }
    } else {
        ChallengeOutcome::Stale
    }
}

/// The registry state after a "timeout fired" event: the expiry handler's
/// single atomic take always clears the key.
pub open spec fn timeout_result(m: Map<i64, ChallengeEntry>, key: i64) -> Map<
    i64,
    ChallengeEntry,
> {
    m.remove(key)
}

/// Create a challenge for `subject` under `key`: a pending entry enters the
/// registry. Callers pick keys that are unique per outstanding challenge (the
/// message id of the posted puzzle); an entry already stored under the same
/// key would be overwritten.
pub fn create_challenge(reg: &mut Registry, key: i64, subject: u64, question: MathQuestion)
    requires
        registry_wf(old(reg)@),
        question.wf(),
    ensures
        final(reg)@ == old(reg)@.insert(key, pending_entry(subject, question)),
        registry_wf(final(reg)@),
{
    reg.insert(key, ChallengeEntry { subject_id: subject, question, resolved: false });
}

/// Handle a "user responded" event. A mismatched identity or an unconfirmed
/// override changes nothing; otherwise the entry is claimed through the
/// registry's atomic take, and whoever holds it decides the terminal outcome:
/// approval for a correct answer or a confirmed override, rejection for a
/// wrong answer. A key that is absent (never issued, or already settled by
/// the other race participant) is a stale no-op.
pub fn handle_response(
    reg: &mut Registry,
    key: i64,
    responder: u64,
    action: ResponseAction,
) -> (outcome: ChallengeOutcome)
    requires
        registry_wf(old(reg)@),
    ensures
        outcome == respond_outcome(old(reg)@, key, responder, action),
        final(reg)@ == respond_result(old(reg)@, key, responder, action),
        registry_wf(final(reg)@),
{
    let looked_up = reg.get(key);
    match looked_up {
        None => ChallengeOutcome::Stale,
        Some(entry) => match action {
            ResponseAction::Override { capability_confirmed } => {
                if capability_confirmed {
                    match reg.take(key) {
                        None => ChallengeOutcome::Stale,
                        Some(claimed) => ChallengeOutcome::Approved {
                            subject: claimed.subject_id,
                        },
                    }
                } else {
                    ChallengeOutcome::Unauthorized
                }
            },
            ResponseAction::Answer(value) => {
                if responder != entry.subject_id {
                    ChallengeOutcome::Mismatch
                } else {
                    match reg.take(key) {
                        None => ChallengeOutcome::Stale,
                        Some(claimed) => {
                            if claimed.question.validate_answer(value) {
                                ChallengeOutcome::Approved { subject: claimed.subject_id }
                            } else {
                                ChallengeOutcome::Rejected { subject: claimed.subject_id }
                            }
                        },
                    }
                }
            },
        },
    }
}

/// Handle a "timeout fired" event: attempt the atomic take. An entry that is
/// still pending is rejected by timeout; an absent key, or an entry some
/// other actor already settled, is a no-op — the race was lost and no side
/// effect is performed.
pub fn handle_timeout(reg: &mut Registry, key: i64) -> (outcome: ChallengeOutcome)
    requires
        registry_wf(old(reg)@),
    ensures
        outcome == timeout_outcome(old(reg)@, key),
        final(reg)@ == timeout_result(old(reg)@, key),
        registry_wf(final(reg)@),
{
    proof {
        if !old(reg)@.contains_key(key) {
            assert(old(reg)@.remove(key) =~= old(reg)@);
        }
    }
    match reg.take(key) {
        None => ChallengeOutcome::Stale,
        Some(entry) => {
            if !entry.resolved {
                ChallengeOutcome::RejectedByTimeout { subject: entry.subject_id }
            } else {
                ChallengeOutcome::Stale
            }
        },
    }
}

/// Whether the responding identity holds the override capability, resolved
/// fail-closed: a configured list decides by membership; without such a list
/// the answer of the dynamic administrator query decides, and a failed query
/// (`None`) never grants the override.
#[verifier::loop_isolation(false)]
pub fn resolve_override_capability(
    custom_admins: &Option<Vec<u64>>,
    responder: u64,
    dynamic_answer: Option<bool>,
) -> (granted: bool)
    ensures
        granted == match custom_admins {
            Some(list) => list@.contains(responder),
            None => dynamic_answer == Some(true),
        },
{
    match custom_admins {
        Some(list) => {
            let mut i: usize = 0;
            while i < list.len()
                invariant
                    0 <= i <= list@.len(),
                    forall|j: int| 0 <= j < i ==> list@[j] != responder,
                decreases list@.len() - i,
            {
                if list[i] == responder {
                    proof {
                        assert(list@.contains(responder)) by {
                            assert(list@[i as int] == responder);
                        }
                    }
                    return true;
                }
                i += 1;
            }
            false
        },
        None => match dynamic_answer {
            Some(granted) => granted,
            None => false,
        },
    }
}

/// Race arbitration: with a challenge outstanding under `key`, delivering a
/// response and the timeout once each reaches exactly one terminal outcome —
/// never both, never neither — in either delivery order, and either way the
/// entry is gone afterwards.
pub proof fn lemma_response_timeout_race(
    m: Map<i64, ChallengeEntry>,
    key: i64,
    responder: u64,
    action: ResponseAction,
)
    requires
        registry_wf(m),
        m.contains_key(key),
    ensures
        respond_outcome(m, key, responder, action).is_terminal() != timeout_outcome(
            respond_result(m, key, responder, action),
            key,
        ).is_terminal(),
        timeout_outcome(m, key).is_terminal(),
        !respond_outcome(timeout_result(m, key), key, responder, action).is_terminal(),
        timeout_result(respond_result(m, key, responder, action), key) =~= m.remove(key),
        respond_result(timeout_result(m, key), key, responder, action) =~= m.remove(key),
{
}

/// Idempotence: once a challenge is settled (its key removed), a second
/// "user responded" or "timeout fired" event for the same key decides a stale
/// no-op and leaves the registry as it is.
pub proof fn lemma_settled_key_is_noop(
    m: Map<i64, ChallengeEntry>,
    key: i64,
    responder: u64,
    action: ResponseAction,
)
    requires
        !m.contains_key(key),
    ensures
        respond_outcome(m, key, responder, action) == ChallengeOutcome::Stale,
        respond_result(m, key, responder, action) == m,
        timeout_outcome(m, key) == ChallengeOutcome::Stale,
        timeout_result(m, key) =~= m,
{
}

} // verus!
