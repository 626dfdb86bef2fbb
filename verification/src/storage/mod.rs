//! Live operations as stored: their kinds and states, the names under which
//! they are kept, and which state changes the store allows.
use vstd::prelude::*;

use crate::text::{str_eq, trim, trim_string};

pub mod redaction;

verus! {

#[derive(Clone, Copy, Debug, PartialEq, Eq, Structural)]
pub enum LiveOperationKind {
    SubmitOrder,
    CancelOrder,
}

#[derive(Clone, Copy, Debug, PartialEq, Eq, Structural)]
pub enum LiveOperationState {
    ConfirmationOpened,
    Confirming,
    Confirmed,
    Unknown,
    Expired,
    Aborted,
}

/// The stored name of a kind.
pub open spec fn kind_name(kind: LiveOperationKind) -> Seq<char> {
    match kind {
        LiveOperationKind::SubmitOrder => "submit_order"@,
        LiveOperationKind::CancelOrder => "cancel_order"@,
    }
}

/// The kind stored under a name, if any.
pub open spec fn kind_named(s: Seq<char>) -> Option<LiveOperationKind> {
    if s == "submit_order"@ {
        Some(LiveOperationKind::SubmitOrder)
    } else if s == "cancel_order"@ {
        Some(LiveOperationKind::CancelOrder)
    } else {
        None
    }
}

/// The stored name of a state.
pub open spec fn state_name(state: LiveOperationState) -> Seq<char> {
    match state {
        LiveOperationState::ConfirmationOpened => "confirmation_opened"@,
        LiveOperationState::Confirming => "confirming"@,
        LiveOperationState::Confirmed => "confirmed"@,
        LiveOperationState::Unknown => "unknown"@,
        LiveOperationState::Expired => "expired"@,
        LiveOperationState::Aborted => "aborted"@,
    }
}

/// The state stored under a name, if any.
pub open spec fn state_named(s: Seq<char>) -> Option<LiveOperationState> {
    if s == "confirmation_opened"@ {
        Some(LiveOperationState::ConfirmationOpened)
    } else if s == "confirming"@ {
        Some(LiveOperationState::Confirming)
    } else if s == "confirmed"@ {
        Some(LiveOperationState::Confirmed)
    } else if s == "unknown"@ {
        Some(LiveOperationState::Unknown)
    } else if s == "expired"@ {
        Some(LiveOperationState::Expired)
    } else if s == "aborted"@ {
        Some(LiveOperationState::Aborted)
    } else {
        None
    }
}

pub fn kind_to_str(kind: LiveOperationKind) -> (s: &'static str)
    ensures
        s@ == kind_name(kind),
{
    match kind {
        LiveOperationKind::SubmitOrder => "submit_order",
        LiveOperationKind::CancelOrder => "cancel_order",
    }
}

pub fn parse_kind(s: &str) -> (r: Result<LiveOperationKind, String>)
    ensures
        match kind_named(s@) {
            Some(k) => r == Ok::<LiveOperationKind, String>(k),
            None => r matches Err(e) && e@ == "unknown operation kind: "@ + s@,
        },
{
    if str_eq(s, "submit_order") {
        Ok(LiveOperationKind::SubmitOrder)
    } else if str_eq(s, "cancel_order") {
        Ok(LiveOperationKind::CancelOrder)
    } else {
        let mut e = String::from_str("unknown operation kind: ");
        e.append(s);
        Err(e)
    }
}

pub fn state_to_str(state: LiveOperationState) -> (s: &'static str)
    ensures
        s@ == state_name(state),
{
    match state {
        LiveOperationState::ConfirmationOpened => "confirmation_opened",
        LiveOperationState::Confirming => "confirming",
        LiveOperationState::Confirmed => "confirmed",
        LiveOperationState::Unknown => "unknown",
        LiveOperationState::Expired => "expired",
        LiveOperationState::Aborted => "aborted",
    }
}

pub fn parse_state(s: &str) -> (r: Result<LiveOperationState, String>)
    ensures
        match state_named(s@) {
            Some(st) => r == Ok::<LiveOperationState, String>(st),
            None => r matches Err(e) && e@ == "unknown operation state: "@ + s@,
        },
{
    if str_eq(s, "confirmation_opened") {
        Ok(LiveOperationState::ConfirmationOpened)
    } else if str_eq(s, "confirming") {
        Ok(LiveOperationState::Confirming)
    } else if str_eq(s, "confirmed") {
        Ok(LiveOperationState::Confirmed)
    } else if str_eq(s, "unknown") {
        Ok(LiveOperationState::Unknown)
    } else if str_eq(s, "expired") {
        Ok(LiveOperationState::Expired)
    } else if str_eq(s, "aborted") {
        Ok(LiveOperationState::Aborted)
    } else {
        let mut e = String::from_str("unknown operation state: ");
        e.append(s);
        Err(e)
    }
}

/// The stored names differ from one another.
proof fn lemma_names_distinct()
    ensures
        "submit_order"@.len() == 12 && "submit_order"@[0] == 's',
        "cancel_order"@.len() == 12 && "cancel_order"@[0] == 'c',
        "confirmation_opened"@.len() == 19,
        "confirming"@.len() == 10,
        "confirmed"@.len() == 9,
        "unknown"@.len() == 7 && "unknown"@[0] == 'u',
        "expired"@.len() == 7 && "expired"@[0] == 'e',
        "aborted"@.len() == 7 && "aborted"@[0] == 'a',
{
    reveal_strlit("submit_order");
    reveal_strlit("cancel_order");
    reveal_strlit("confirmation_opened");
    reveal_strlit("confirming");
    reveal_strlit("confirmed");
    reveal_strlit("unknown");
    reveal_strlit("expired");
    reveal_strlit("aborted");
}

/// A kind read back under its stored name is the same kind, and no other
/// name reads back as it.
pub proof fn law_kind_names_round_trip(kind: LiveOperationKind, s: Seq<char>)
    ensures
        kind_named(kind_name(kind)) == Some(kind),
        kind_named(s) == Some(kind) ==> s == kind_name(kind),
{
    lemma_names_distinct();
}

/// A state read back under its stored name is the same state, and no other
/// name reads back as it.
pub proof fn law_state_names_round_trip(state: LiveOperationState, s: Seq<char>)
    ensures
        state_named(state_name(state)) == Some(state),
        state_named(s) == Some(state) ==> s == state_name(state),
{
    lemma_names_distinct();
}

/// States in which an operation still waits on the broker dialog.
pub open spec fn is_pending(state: LiveOperationState) -> bool {
    state == LiveOperationState::ConfirmationOpened || state == LiveOperationState::Confirming
}

/// States that keep any new live operation from being prepared.
pub open spec fn blocks_new_operations(state: LiveOperationState) -> bool {
    is_pending(state) || state == LiveOperationState::Expired || state == LiveOperationState::Unknown
}

/// States from which nothing moves on.
pub open spec fn is_terminal(state: LiveOperationState) -> bool {
    state == LiveOperationState::Confirmed || state == LiveOperationState::Aborted
}

/// Whether an operation in this state keeps new ones from being prepared.
pub fn is_blocking(state: LiveOperationState) -> (b: bool)
    ensures
        b == blocks_new_operations(state),
{
    match state {
        LiveOperationState::ConfirmationOpened
        | LiveOperationState::Confirming
        | LiveOperationState::Expired
        | LiveOperationState::Unknown => true,
        _ => false,
    }
}

/// Whether an operation in this state is still pending.
pub fn is_pending_state(state: LiveOperationState) -> (b: bool)
    ensures
        b == is_pending(state),
{
    match state {
        LiveOperationState::ConfirmationOpened | LiveOperationState::Confirming => true,
        _ => false,
    }
}

/// Whether any of the stored states keeps a new live operation from being
/// prepared.
pub fn any_blocking(states: &Vec<LiveOperationState>) -> (b: bool)
    ensures
        b == exists|i: int| 0 <= i < states@.len() && blocks_new_operations(#[trigger] states@[i]),
{
    let mut i: usize = 0;
    while i < states.len()
        invariant
            i <= states@.len(),
            forall|k: int| 0 <= k < i ==> !blocks_new_operations(#[trigger] states@[k]),
        decreases states@.len() - i,
    {
        if is_blocking(states[i]) {
            return true;
        }
        i = i + 1;
    }
    false
}

/// The store's state change to `confirming` is allowed from `current`.
pub open spec fn may_start_confirming(current: Seq<char>) -> bool {
    current == "confirmation_opened"@
}

/// The store's state change to `confirmed` is allowed from `current`.
pub open spec fn may_confirm(current: Seq<char>) -> bool {
    current == "confirming"@
}

/// The store's state change to `unknown` is allowed from `current`.
pub open spec fn may_mark_unknown(current: Seq<char>) -> bool {
    !(current == "unknown"@ || current == "confirmed"@ || current == "aborted"@)
}

/// The store's state change to `aborted` is allowed from `current`.
pub open spec fn may_abort(current: Seq<char>) -> bool {
    current == "confirmation_opened"@ || current == "expired"@ || current == "unknown"@
}

/// Checks that an operation stored in state `current` may start confirming.
pub fn check_start_confirming(current: &str) -> (r: Result<(), String>)
    ensures
        r is Ok <==> may_start_confirming(current@),
        r matches Err(e) ==> e@ == "operation is not awaiting confirmation"@,
{
    if str_eq(current, "confirmation_opened") {
        Ok(())
    } else {
        Err(String::from_str("operation is not awaiting confirmation"))
    }
}

/// Checks that an operation stored in state `current` may be confirmed.
pub fn check_confirm(current: &str) -> (r: Result<(), String>)
    ensures
        r is Ok <==> may_confirm(current@),
        r matches Err(e) ==> e@ == "operation is not in confirming state"@,
{
    if str_eq(current, "confirming") {
        Ok(())
    } else {
        Err(String::from_str("operation is not in confirming state"))
    }
}

/// Checks that an operation stored in state `current` may be marked unknown.
pub fn check_mark_unknown(current: &str) -> (r: Result<(), String>)
    ensures
        r is Ok <==> may_mark_unknown(current@),
        r matches Err(e) ==> e@ == "operation cannot transition to unknown from "@ + current@,
{
    if str_eq(current, "unknown") || str_eq(current, "confirmed") || str_eq(current, "aborted") {
        let mut e = String::from_str("operation cannot transition to unknown from ");
        e.append(current);
        Err(e)
    } else {
        Ok(())
    }
}

/// Checks that an operation stored in state `current` may be aborted.
pub fn check_abort(current: &str) -> (r: Result<(), String>)
    ensures
        r is Ok <==> may_abort(current@),
        r matches Err(e) ==> e@ == "operation cannot be aborted in its current state"@,
{
    if str_eq(current, "confirmation_opened") || str_eq(current, "expired") || str_eq(current, "unknown") {
        Ok(())
    } else {
        Err(String::from_str("operation cannot be aborted in its current state"))
    }
}

/// No state change leaves a confirmed or aborted operation.
pub proof fn law_terminal_states_are_final(state: LiveOperationState)
    requires
        is_terminal(state),
    ensures
        !may_start_confirming(state_name(state)),
        !may_confirm(state_name(state)),
        !may_mark_unknown(state_name(state)),
        !may_abort(state_name(state)),
{
    lemma_names_distinct();
}

/// Confirmation follows one path: only an opened operation starts
/// confirming, only a confirming one is confirmed, and an abort never
/// interrupts a confirmation in progress.
pub proof fn law_confirmation_path(state: LiveOperationState)
    ensures
        may_start_confirming(state_name(state)) <==> state == LiveOperationState::ConfirmationOpened,
        may_confirm(state_name(state)) <==> state == LiveOperationState::Confirming,
        may_abort(state_name(state)) <==> (state == LiveOperationState::ConfirmationOpened || state
            == LiveOperationState::Expired || state == LiveOperationState::Unknown),
        may_mark_unknown(state_name(state)) <==> (is_pending(state) || state
            == LiveOperationState::Expired),
{
    lemma_names_distinct();
}

/// Milliseconds since the epoch that an RFC 3339 timestamp denotes, if it is
/// one.
pub uninterp spec fn rfc3339_millis(s: Seq<char>) -> Option<int>;

/// Reads an RFC 3339 timestamp with `chrono::DateTime::parse_from_rfc3339`
/// and gives its milliseconds since the epoch (`timestamp_millis`): the result
/// is the name `rfc3339_millis` applied to the text.
#[verifier::external_body]
fn rfc3339_to_millis(s: &str) -> (r: Option<i64>)
    ensures
        match r {
            Some(v) => rfc3339_millis(s@) == Some(v as int),
            None => rfc3339_millis(s@) is None,
        },
{
    chrono::DateTime::parse_from_rfc3339(s).ok().map(|t| t.timestamp_millis())
}

/// Reads a stored timestamp in milliseconds since the epoch.
pub fn parse_time(s: &str) -> (r: Result<i64, String>)
    ensures
        match r {
            Ok(v) => rfc3339_millis(s@) == Some(v as int),
            Err(e) => rfc3339_millis(s@) is None && e@ == "invalid RFC3339 timestamp: "@ + s@,
        },
{
    match rfc3339_to_millis(s) {
        Some(v) => Ok(v),
        None => {
            let mut e = String::from_str("invalid RFC3339 timestamp: ");
            e.append(s);
            Err(e)
        },
    }
}

/// Whether an operation whose deadline is stored as `expires_at` has run
/// out at `now` (milliseconds); an unreadable deadline counts as now.
pub open spec fn deadline_passed(now: int, expires_at: Seq<char>) -> bool {
    match rfc3339_millis(expires_at) {
        Some(t) => now >= t,
        None => true,
    }
}

pub fn has_expired(now: i64, expires_at: &str) -> (b: bool)
    ensures
        b == deadline_passed(now as int, expires_at@),
{
    match rfc3339_to_millis(expires_at) {
        Some(t) => now >= t,
        None => true,
    }
}

/// What a pending operation becomes when the store is opened again: expired
/// once its deadline has passed, otherwise unknown; the audit event has the
/// same name as the new state.
pub fn reconcile_state(now: i64, expires_at: &str) -> (s: LiveOperationState)
    ensures
        s == (if deadline_passed(now as int, expires_at@) {
            LiveOperationState::Expired
        } else {
            LiveOperationState::Unknown
        }),
        !is_pending(s),
        blocks_new_operations(s),
{
    if has_expired(now, expires_at) {
        LiveOperationState::Expired
    } else {
        LiveOperationState::Unknown
    }
}

/// The only states that a stale operation may be resolved from.
pub fn check_stale_resolvable(state: LiveOperationState) -> (r: Result<(), String>)
    ensures
        r is Ok <==> (state == LiveOperationState::Unknown || state == LiveOperationState::Expired),
        r matches Err(e) ==> e@ == "only unknown or expired operations can be resolved (current state: "@
            + state_debug_name(state) + ")"@,
{
    match state {
        LiveOperationState::Unknown | LiveOperationState::Expired => Ok(()),
        _ => {
            let mut e = String::from_str("only unknown or expired operations can be resolved (current state: ");
            e.append(state_debug_str(state));
            e.append(")");
            Err(e)
        },
    }
}

/// The name of a state as its variant is spelled.
pub open spec fn state_debug_name(state: LiveOperationState) -> Seq<char> {
    match state {
        LiveOperationState::ConfirmationOpened => "ConfirmationOpened"@,
        LiveOperationState::Confirming => "Confirming"@,
        LiveOperationState::Confirmed => "Confirmed"@,
        LiveOperationState::Unknown => "Unknown"@,
        LiveOperationState::Expired => "Expired"@,
        LiveOperationState::Aborted => "Aborted"@,
    }
}

pub fn state_debug_str(state: LiveOperationState) -> (s: &'static str)
    ensures
        s@ == state_debug_name(state),
{
    match state {
        LiveOperationState::ConfirmationOpened => "ConfirmationOpened",
        LiveOperationState::Confirming => "Confirming",
        LiveOperationState::Confirmed => "Confirmed",
        LiveOperationState::Unknown => "Unknown",
        LiveOperationState::Expired => "Expired",
        LiveOperationState::Aborted => "Aborted",
    }
}

/// The instance id to use without generating one: a configured id that is
/// not blank (trimmed, and to be stored), else the stored one when it is not
/// blank (as stored). `None` means a fresh id must be generated and stored.
pub fn known_instance_id(configured: Option<&str>, existing: Option<&str>) -> (r: Option<(String, bool)>)
    ensures
        match configured {
            Some(c) if trim(c@).len() > 0 => r matches Some((id, store)) && id@ == trim(c@) && store,
            _ => match existing {
                Some(e) if trim(e@).len() > 0 => r matches Some((id, store)) && id@ == e@ && !store,
                _ => r is None,
            },
        },
{
    match configured {
        Some(c) => {
            let t = trim_string(c);
            if t.as_str().unicode_len() > 0 {
                return Some((t, true));
            }
        },
        None => {},
    }
    match existing {
        Some(e) => {
            if trim_string(e).as_str().unicode_len() > 0 {
                return Some((String::from_str(e), false));
            }
        },
        None => {},
    }
    None
}

/// A state change recorded once the broker dialog was driven.
#[derive(Clone, Copy, Debug, PartialEq, Eq, Structural)]
pub enum Outcome {
    Confirmed,
    Unknown,
    Aborted,
}

pub open spec fn outcome_state(o: Outcome) -> LiveOperationState {
    match o {
        Outcome::Confirmed => LiveOperationState::Confirmed,
        Outcome::Unknown => LiveOperationState::Unknown,
        Outcome::Aborted => LiveOperationState::Aborted,
    }
}

/// The audit event type of an outcome.
pub open spec fn outcome_event(o: Outcome) -> Seq<char> {
    match o {
        Outcome::Confirmed => "confirmed"@,
        Outcome::Unknown => "unknown"@,
        Outcome::Aborted => "abort"@,
    }
}

/// Whether the store moves an operation in state `current` to the outcome.
pub open spec fn outcome_allowed(o: Outcome, current: Seq<char>) -> bool {
    match o {
        Outcome::Confirmed => may_confirm(current),
        Outcome::Unknown => may_mark_unknown(current),
        Outcome::Aborted => may_abort(current),
    }
}

/// An audit event as the store appends it: event type, from state, to state.
pub type AuditStep = (Seq<char>, Seq<char>, Seq<char>);

/// An operation's stored state and audit trail after an outcome is asked
/// for: a refused change leaves both as they were; an allowed one sets the
/// new state and appends exactly one audit event from the old state.
pub open spec fn after_outcome(state: Seq<char>, audit: Seq<AuditStep>, o: Outcome) -> (Seq<char>, Seq<AuditStep>) {
    if outcome_allowed(o, state) {
        let to = state_name(outcome_state(o));
        (to, audit.push((outcome_event(o), state, to)))
    } else {
        (state, audit)
    }
}

/// What the store writes for an allowed outcome: the new state, and the
/// one audit event it appends.
pub struct OutcomeWrite {
    pub state: LiveOperationState,
    pub event_type: &'static str,
    pub from_state: String,
    pub to_state: &'static str,
}

/// The write for moving an operation stored in state `current` to an
/// outcome, or the store's refusal (the guards of `check_confirm`,
/// `check_mark_unknown` and `check_abort`).
pub fn plan_outcome(current: &str, o: Outcome) -> (r: Result<OutcomeWrite, String>)
    ensures
        r is Ok <==> outcome_allowed(o, current@),
        match r {
            Ok(w) => w.state == outcome_state(o) && w.event_type@ == outcome_event(o) && w.from_state@
                == current@ && w.to_state@ == state_name(outcome_state(o)) && forall|audit: Seq<AuditStep>|
                #[trigger] after_outcome(current@, audit, o) == (w.to_state@, audit.push(
                    (w.event_type@, w.from_state@, w.to_state@),
                )),
            Err(e) => match o {
                Outcome::Confirmed => e@ == "operation is not in confirming state"@,
                Outcome::Unknown => e@ == "operation cannot transition to unknown from "@ + current@,
                Outcome::Aborted => e@ == "operation cannot be aborted in its current state"@,
            },
        },
{
    let checked = match o {
        Outcome::Confirmed => check_confirm(current),
        Outcome::Unknown => check_mark_unknown(current),
        Outcome::Aborted => check_abort(current),
    };
    match checked {
        Err(e) => Err(e),
        Ok(_) => {
            let (state, event_type) = match o {
                Outcome::Confirmed => (LiveOperationState::Confirmed, "confirmed"),
                Outcome::Unknown => (LiveOperationState::Unknown, "unknown"),
                Outcome::Aborted => (LiveOperationState::Aborted, "abort"),
            };
            Ok(OutcomeWrite {
                state,
                event_type,
                from_state: String::from_str(current),
                to_state: state_to_str(state),
            })
        },
    }
}

/// The store's outcome changes: moving to `unknown` is refused exactly
/// from `unknown`, `confirmed` and `aborted`; aborting is allowed exactly
/// from `confirmation_opened`, `expired` and `unknown`; a refused change
/// leaves the state and the audit trail as they were; an allowed one
/// appends exactly one audit event, from the old state; and an aborted
/// operation no longer holds back new operations.
pub proof fn law_outcome_transition(state: Seq<char>, audit: Seq<AuditStep>, o: Outcome)
    ensures
        o == Outcome::Unknown ==> (!outcome_allowed(o, state) <==> (state == "unknown"@ || state
            == "confirmed"@ || state == "aborted"@)),
        o == Outcome::Aborted ==> (outcome_allowed(o, state) <==> (state == "confirmation_opened"@
            || state == "expired"@ || state == "unknown"@)),
        !outcome_allowed(o, state) ==> after_outcome(state, audit, o) == (state, audit),
        outcome_allowed(o, state) ==> ({
            let (s2, a2) = after_outcome(state, audit, o);
            &&& state_named(s2) == Some(outcome_state(o))
            &&& a2.len() == audit.len() + 1
            &&& a2.take(audit.len() as int) == audit
            &&& a2.last().1 == state
            &&& a2.last().0 == outcome_event(o)
        }),
        !blocks_new_operations(outcome_state(Outcome::Aborted)),
{
    law_state_names_round_trip(outcome_state(o), state);
    if outcome_allowed(o, state) {
        let (s2, a2) = after_outcome(state, audit, o);
        assert(a2.take(audit.len() as int) =~= audit);
    }
}

} // verus!
