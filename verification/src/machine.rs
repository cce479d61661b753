//! The trust decision for one alias binding, as a state machine. Every
//! outside step — store check, artifact read, engine verification, consent
//! prompt, key lookup, signing, persisting — happens between transitions;
//! its result comes back as an `Event`, and `step` alone decides what
//! follows. Each `Await` state names the one outside step whose result the
//! machine needs next.

use vstd::prelude::*;
use crate::checker::{eval_artifact, fp_matches_key};
use crate::engine::{SignatureInfo, SignatureView, SigningKeyInfo, SigningKeyView};
use crate::outcome::{Cause, Outcome, Reason};
use crate::policy::SigningPolicy;
use crate::text::{trimmed, trimmed_len};

verus! {

/// A consent reply is affirmative when, trimmed of trailing whitespace, it
/// is the single letter `y`, case-insensitively. Anything else — an empty
/// reply above all — refuses.
pub open spec fn affirmative(reply: Seq<u8>) -> bool {
    trimmed(reply).len() == 1 && (trimmed(reply)[0] == 0x79 || trimmed(reply)[0] == 0x59)
}

/// Runtime test matching `affirmative`.
pub fn is_affirmative(reply: &Vec<u8>) -> (r: bool)
    ensures
        r == affirmative(reply@),
{
    let n = trimmed_len(reply);
    if n == 1 {
        let b = reply[0];
        b == 0x79 || b == 0x59
    } else {
        false
    }
}

/// Where one alias's trust decision stands.
#[derive(Debug, Clone, PartialEq, Eq)]
pub enum State {
    /// No step taken yet.
    Idle,
    /// Waiting for the store: anchor directory ensured, artifact existence
    /// checked.
    AwaitExistence,
    /// An artifact exists; waiting for the engine to decode and verify it.
    AwaitVerification,
    /// Content and single signature passed; waiting for the designated
    /// signing key, to compare this signer fingerprint against it.
    AwaitDesignatedKey { fingerprint: Vec<u8> },
    /// No artifact exists; waiting for the operator's reply to the prompt.
    AwaitConsent,
    /// Consent given; waiting for the designated signing key.
    AwaitSigningKey,
    /// Signing key at hand; waiting for the engine to clear-sign the
    /// identifier.
    AwaitSignature,
    /// Artifact signed; waiting for it to be written to the store.
    AwaitPersist,
    /// The decision is final.
    Decided(Outcome),
}

/// Ghost form of `State`.
pub ghost enum StateView {
    Idle,
    AwaitExistence,
    AwaitVerification,
    AwaitDesignatedKey { fingerprint: Seq<u8> },
    AwaitConsent,
    AwaitSigningKey,
    AwaitSignature,
    AwaitPersist,
    Decided(Outcome),
}

impl View for State {
    type V = StateView;

    open spec fn view(&self) -> StateView {
        match self {
            State::Idle => StateView::Idle,
            State::AwaitExistence => StateView::AwaitExistence,
            State::AwaitVerification => StateView::AwaitVerification,
            State::AwaitDesignatedKey { fingerprint } => StateView::AwaitDesignatedKey {
                fingerprint: fingerprint@,
            },
            State::AwaitConsent => StateView::AwaitConsent,
            State::AwaitSigningKey => StateView::AwaitSigningKey,
            State::AwaitSignature => StateView::AwaitSignature,
            State::AwaitPersist => StateView::AwaitPersist,
            State::Decided(o) => StateView::Decided(*o),
        }
    }
}

/// The result of one outside step, fed back to the machine.
#[derive(Debug, Clone, PartialEq, Eq)]
pub enum Event {
    /// Begin the decision for one alias.
    Start,
    /// The store reports whether the alias already has an artifact.
    StoreChecked { anchored: bool },
    /// The anchor directory could not be found or created.
    StoreUnavailable,
    /// The engine decoded the artifact into plaintext and signatures.
    ArtifactVerified { plaintext: Vec<u8>, signatures: Vec<SignatureInfo> },
    /// The artifact file could not be opened or read.
    ArtifactUnreadable,
    /// The engine could not verify the artifact at all.
    EngineRejected,
    /// The designated signing key resolved, with its fingerprints.
    SignerResolved { key: SigningKeyInfo },
    /// The designated signing key could not be looked up.
    SignerUnresolved,
    /// The operator replied to the consent prompt.
    ConsentReplied { reply: Vec<u8> },
    /// The consent prompt could not be shown or the reply not read.
    PromptFailed,
    /// The designated signing key is loaded and ready to sign.
    SigningKeyReady,
    /// The designated signing key could not be loaded for signing.
    SigningKeyMissing,
    /// The engine produced the clear-signed artifact.
    Signed,
    /// The engine could not produce the signature.
    SigningFailed,
    /// The new artifact was written to the store.
    Persisted,
    /// The new artifact could not be written.
    PersistFailed,
}

/// Ghost form of `Event`.
pub ghost enum EventView {
    Start,
    StoreChecked { anchored: bool },
    StoreUnavailable,
    ArtifactVerified { plaintext: Seq<u8>, signatures: Seq<SignatureView> },
    ArtifactUnreadable,
    EngineRejected,
    SignerResolved { key: SigningKeyView },
    SignerUnresolved,
    ConsentReplied { reply: Seq<u8> },
    PromptFailed,
    SigningKeyReady,
    SigningKeyMissing,
    Signed,
    SigningFailed,
    Persisted,
    PersistFailed,
}

impl View for Event {
    type V = EventView;

    open spec fn view(&self) -> EventView {
        match self {
            Event::Start => EventView::Start,
            Event::StoreChecked { anchored } => EventView::StoreChecked {
                anchored: *anchored,
            },
            Event::StoreUnavailable => EventView::StoreUnavailable,
            Event::ArtifactVerified { plaintext, signatures } => EventView::ArtifactVerified {
                plaintext: plaintext@,
                signatures: signatures.deep_view(),
            },
            Event::ArtifactUnreadable => EventView::ArtifactUnreadable,
            Event::EngineRejected => EventView::EngineRejected,
            Event::SignerResolved { key } => EventView::SignerResolved { key: key@ },
            Event::SignerUnresolved => EventView::SignerUnresolved,
            Event::ConsentReplied { reply } => EventView::ConsentReplied { reply: reply@ },
            Event::PromptFailed => EventView::PromptFailed,
            Event::SigningKeyReady => EventView::SigningKeyReady,
            Event::SigningKeyMissing => EventView::SigningKeyMissing,
            Event::Signed => EventView::Signed,
            Event::SigningFailed => EventView::SigningFailed,
            Event::Persisted => EventView::Persisted,
            Event::PersistFailed => EventView::PersistFailed,
        }
    }
}

/// Which events can answer which state: each waiting state takes exactly
/// the results of the one outside step it asked for; a decided state takes
/// none.
pub open spec fn accepts(state: StateView, event: EventView) -> bool {
    match state {
        StateView::Idle => event is Start,
        StateView::AwaitExistence => event is StoreChecked || event is StoreUnavailable,
        StateView::AwaitVerification => event is ArtifactVerified || event is ArtifactUnreadable
            || event is EngineRejected,
        StateView::AwaitDesignatedKey { .. } => event is SignerResolved || event is SignerUnresolved,
        StateView::AwaitConsent => event is ConsentReplied || event is PromptFailed,
        StateView::AwaitSigningKey => event is SigningKeyReady || event is SigningKeyMissing,
        StateView::AwaitSignature => event is Signed || event is SigningFailed,
        StateView::AwaitPersist => event is Persisted || event is PersistFailed,
        StateView::Decided(_) => false,
    }
}

/// The transition function. `enabled` is the policy's switch; `expected`
/// the alias's claimed key identifier.
pub open spec fn step_spec(
    enabled: bool,
    expected: Seq<u8>,
    state: StateView,
    event: EventView,
) -> StateView
    recommends
        accepts(state, event),
{
    match state {
        StateView::Idle => if !enabled {
            StateView::Decided(Outcome::Trusted)
        } else {
            StateView::AwaitExistence
        },
        StateView::AwaitExistence => match event {
            EventView::StoreChecked { anchored } => if anchored {
                StateView::AwaitVerification
            } else {
                StateView::AwaitConsent
            },
            _ => StateView::Decided(Outcome::Aborted(Cause::StoreUnavailable)),
        },
        StateView::AwaitVerification => match event {
            EventView::ArtifactVerified { plaintext, signatures } => match eval_artifact(
                plaintext,
                signatures,
                expected,
            ) {
                Ok(fp) => StateView::AwaitDesignatedKey { fingerprint: fp },
                Err(r) => StateView::Decided(Outcome::Rejected(r)),
            },
            EventView::ArtifactUnreadable => StateView::Decided(
                Outcome::Aborted(Cause::ArtifactUnreadable),
            ),
            _ => StateView::Decided(Outcome::Rejected(Reason::VerificationError)),
        },
        StateView::AwaitDesignatedKey { fingerprint } => match event {
            EventView::SignerResolved { key } => if fp_matches_key(fingerprint, key) {
                StateView::Decided(Outcome::Trusted)
            } else {
                StateView::Decided(Outcome::Rejected(Reason::WrongSigner))
            },
            _ => StateView::Decided(Outcome::Rejected(Reason::MissingSigningKey)),
        },
        StateView::AwaitConsent => match event {
            EventView::ConsentReplied { reply } => if affirmative(reply) {
                StateView::AwaitSigningKey
            } else {
                StateView::Decided(Outcome::Rejected(Reason::ConsentRefused))
            },
            _ => StateView::Decided(Outcome::Aborted(Cause::PromptFailed)),
        },
        StateView::AwaitSigningKey => match event {
            EventView::SigningKeyReady => StateView::AwaitSignature,
            _ => StateView::Decided(Outcome::Aborted(Cause::SigningKeyUnavailable)),
        },
        StateView::AwaitSignature => match event {
            EventView::Signed => StateView::AwaitPersist,
            _ => StateView::Decided(Outcome::Aborted(Cause::SigningFailed)),
        },
        StateView::AwaitPersist => match event {
            EventView::Persisted => StateView::Decided(Outcome::NewlyAnchored),
            _ => StateView::Decided(Outcome::Aborted(Cause::PersistFailed)),
        },
        StateView::Decided(o) => StateView::Decided(o),
    }
}

/// Drive one alias's trust decision a step further with the result of the
/// last outside step.
pub fn step(policy: &SigningPolicy, expected: &Vec<u8>, state: State, event: Event) -> (next:
    State)
    requires
        accepts(state@, event@),
    ensures
        next@ == step_spec(policy.enabled, expected@, state@, event@),
{
    match state {
        State::Idle => if !policy.enabled {
            State::Decided(Outcome::Trusted)
        } else {
            State::AwaitExistence
        },
        State::AwaitExistence => match event {
            Event::StoreChecked { anchored } => if anchored {
                State::AwaitVerification
            } else {
                State::AwaitConsent
            },
            _ => State::Decided(Outcome::Aborted(Cause::StoreUnavailable)),
        },
        State::AwaitVerification => match event {
            Event::ArtifactVerified { plaintext, signatures } => {
                match crate::checker::evaluate_artifact(&plaintext, &signatures, expected) {
                    Ok(fp) => State::AwaitDesignatedKey { fingerprint: fp },
                    Err(r) => State::Decided(Outcome::Rejected(r)),
                }
            },
            Event::ArtifactUnreadable => State::Decided(
                Outcome::Aborted(Cause::ArtifactUnreadable),
            ),
            _ => State::Decided(Outcome::Rejected(Reason::VerificationError)),
        },
        State::AwaitDesignatedKey { fingerprint } => match event {
            Event::SignerResolved { key } => if crate::checker::signer_matches(
                &fingerprint,
                &key,
            ) {
                State::Decided(Outcome::Trusted)
            } else {
                State::Decided(Outcome::Rejected(Reason::WrongSigner))
            },
            _ => State::Decided(Outcome::Rejected(Reason::MissingSigningKey)),
        },
        State::AwaitConsent => match event {
            Event::ConsentReplied { reply } => if is_affirmative(&reply) {
                State::AwaitSigningKey
            } else {
                State::Decided(Outcome::Rejected(Reason::ConsentRefused))
            },
            _ => State::Decided(Outcome::Aborted(Cause::PromptFailed)),
        },
        State::AwaitSigningKey => match event {
            Event::SigningKeyReady => State::AwaitSignature,
            _ => State::Decided(Outcome::Aborted(Cause::SigningKeyUnavailable)),
        },
        State::AwaitSignature => match event {
            Event::Signed => State::AwaitPersist,
            _ => State::Decided(Outcome::Aborted(Cause::SigningFailed)),
        },
        State::AwaitPersist => match event {
            Event::Persisted => State::Decided(Outcome::NewlyAnchored),
            _ => State::Decided(Outcome::Aborted(Cause::PersistFailed)),
        },
        State::Decided(o) => State::Decided(o),
    }
}

/// States past the consent gate: from these the machine may go on to sign
/// and persist a new anchor.
pub open spec fn past_consent(state: StateView) -> bool {
    ||| state is AwaitSigningKey
    ||| state is AwaitSignature
    ||| state is AwaitPersist
    ||| state == StateView::Decided(Outcome::NewlyAnchored)
}

/// An event that is an affirmative reply to the consent prompt.
pub open spec fn consent_given(event: EventView) -> bool {
    event matches EventView::ConsentReplied { reply } && affirmative(reply)
}

/// An event that is a non-affirmative reply to the consent prompt.
pub open spec fn consent_withheld(event: EventView) -> bool {
    event matches EventView::ConsentReplied { reply } && !affirmative(reply)
}

/// Law: the consent gate. The one transition that carries the machine past
/// the consent gate from outside it is an affirmative reply to the consent
/// prompt; a non-affirmative reply refuses consent outright. So no run of
/// the machine signs or persists a new anchor without an explicit
/// affirmative reply.
pub proof fn lemma_consent_gate(
    enabled: bool,
    expected: Seq<u8>,
    state: StateView,
    event: EventView,
)
    requires
        accepts(state, event),
        !past_consent(state),
    ensures
        past_consent(step_spec(enabled, expected, state, event)) ==> (state is AwaitConsent
            && consent_given(event)),
        (state is AwaitConsent && consent_withheld(event)) ==> step_spec(
            enabled,
            expected,
            state,
            event,
        ) == StateView::Decided(Outcome::Rejected(Reason::ConsentRefused)),
{
}

/// Law: disabled policy. With anchoring disabled, the first step decides
/// `Trusted` at once, whatever the alias's identifier — before any store,
/// engine or prompt step is asked for, so nothing is read or written.
pub proof fn lemma_disabled_policy_trusts(expected: Seq<u8>, event: EventView)
    requires
        accepts(StateView::Idle, event),
    ensures
        step_spec(false, expected, StateView::Idle, event)
            == StateView::Decided(Outcome::Trusted),
{
}

/// Law: a decided state is final — no event is accepted in it, so the
/// outcome of a run can never be revised within that run.
pub proof fn lemma_decision_final(outcome: Outcome, event: EventView)
    ensures
        !accepts(StateView::Decided(outcome), event),
{
}

/// The state after feeding the machine a whole sequence of events.
pub open spec fn run_spec(
    enabled: bool,
    expected: Seq<u8>,
    state: StateView,
    events: Seq<EventView>,
) -> StateView
    decreases events.len(),
{
    if events.len() == 0 {
        state
    } else {
        run_spec(
            enabled,
            expected,
            step_spec(enabled, expected, state, events[0]),
            events.drop_first(),
        )
    }
}

/// Whether every event of the sequence is accepted at the state it meets.
pub open spec fn run_accepted(
    enabled: bool,
    expected: Seq<u8>,
    state: StateView,
    events: Seq<EventView>,
) -> bool
    decreases events.len(),
{
    events.len() == 0 || (accepts(state, events[0]) && run_accepted(
        enabled,
        expected,
        step_spec(enabled, expected, state, events[0]),
        events.drop_first(),
    ))
}

/// Law: the consent gate, over whole runs. However many events a run feeds
/// the machine, it ends past the consent gate — where an anchor may be
/// signed and persisted — only if one of them was an affirmative reply to
/// the consent prompt. A run begun at `Idle` therefore never writes an
/// anchor without one.
pub proof fn lemma_no_anchor_without_consent(
    enabled: bool,
    expected: Seq<u8>,
    state: StateView,
    events: Seq<EventView>,
)
    requires
        !past_consent(state),
        run_accepted(enabled, expected, state, events),
        past_consent(run_spec(enabled, expected, state, events)),
    ensures
        exists|i: int| 0 <= i < events.len() && consent_given(#[trigger] events[i]),
    decreases events.len(),
{
    if events.len() == 0 {
        assert(run_spec(enabled, expected, state, events) == state);
    } else {
        let next = step_spec(enabled, expected, state, events[0]);
        let rest = events.drop_first();
        if past_consent(next) {
            lemma_consent_gate(enabled, expected, state, events[0]);
            assert(consent_given(events[0]));
        } else {
            lemma_no_anchor_without_consent(enabled, expected, next, rest);
            let j = choose|j: int| 0 <= j < rest.len() && consent_given(#[trigger] rest[j]);
            assert(events[j + 1] == rest[j]);
            assert(consent_given(events[j + 1]));
        }
    }
}

} // verus!
