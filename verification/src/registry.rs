//! Signer registry: the single owner of all [`SignerRecord`]s.
//!
//! The registry holds at most one record per fingerprint, keeps records in
//! insertion order (never re-sorted, so a consumer's list never jumps
//! around), and applies every state transition through the pairing rules.
//! Consumers read snapshot copies, never live references.

use vstd::prelude::*;
use crate::signer::{Fingerprint, SignerKind, SignerRecord, SignerState};
use crate::adapter::{RegistrationError, SignerPresence};
use crate::pairing::{
    PairingContext, spec_registration_due, spec_state_after_probe, spec_state_after_registration,
};

verus! {

/// True when some record in `s` carries fingerprint `f`.
pub open spec fn has_fp(s: Seq<SignerRecord>, f: Fingerprint) -> bool {
    exists|i: int| 0 <= i < s.len() && s[i].fingerprint == f
}

/// The index of the record carrying fingerprint `f`; meaningful only when
/// `has_fp(s, f)` holds (and unique when the sequence is duplicate-free).
pub open spec fn fp_index(s: Seq<SignerRecord>, f: Fingerprint) -> int {
    choose|i: int| 0 <= i < s.len() && s[i].fingerprint == f
}

/// The record carrying fingerprint `f`; meaningful only under `has_fp`.
pub open spec fn record_of(s: Seq<SignerRecord>, f: Fingerprint) -> SignerRecord {
    s[fp_index(s, f)]
}

/// In a duplicate-free sequence, any index holding fingerprint `f` is the
/// one `fp_index` names.
pub proof fn lemma_fp_index_is(s: Seq<SignerRecord>, f: Fingerprint, i: int)
    requires
        forall|a: int, b: int| 0 <= a < b < s.len() ==> s[a].fingerprint != s[b].fingerprint,
        0 <= i < s.len(),
        s[i].fingerprint == f,
    ensures
        has_fp(s, f),
        fp_index(s, f) == i,
{
    assert(has_fp(s, f));
    let j = fp_index(s, f);
    assert(0 <= j < s.len() && s[j].fingerprint == f);
    if j < i {
        assert(s[j].fingerprint != s[i].fingerprint);
    } else if j > i {
        assert(s[i].fingerprint != s[j].fingerprint);
    }
}

/// How many records in `s` carry fingerprint `f`.
pub open spec fn fp_count(s: Seq<SignerRecord>, f: Fingerprint) -> nat
    decreases s.len(),
{
    if s.len() == 0 {
        0
    } else {
        fp_count(s.drop_last(), f) + if s.last().fingerprint == f {
            1nat
        } else {
            0nat
        }
    }
}

/// Probe results that count as successful contact with the participant.
pub open spec fn spec_is_contact(presence: SignerPresence) -> bool {
    presence is Locked || presence is Ready
}

/// What an `upsert` did, reported so a consumer can render the delta and,
/// when `registration_due` is set, attempt one wallet registration on the
/// device.
pub enum StateChange {
    /// A first record was created for the fingerprint.
    Added { state: SignerState, registration_due: bool },
    /// The existing record moved to this state (possibly the same one).
    Updated { state: SignerState, registration_due: bool },
}

/// Errors of the registry's user-facing commands.
#[derive(Clone, Copy, PartialEq, Eq, Structural, Debug)]
pub enum RegistryError {
    /// No record carries the given fingerprint.
    NotFound,
}

/// `s` after the user selects fingerprint `f`: a `Registered` record with
/// that fingerprint becomes `Selected`; every other record is untouched.
pub open spec fn spec_select(s: Seq<SignerRecord>, f: Fingerprint) -> Seq<SignerRecord> {
    Seq::new(
        s.len(),
        |i: int| if s[i].fingerprint == f && s[i].state is Registered {
            SignerRecord { state: SignerState::Selected, ..s[i] }
        } else {
            s[i]
        },
    )
}

/// `s` after the user deselects fingerprint `f`: a `Selected` record with
/// that fingerprint returns to `Registered`; every other record is untouched.
pub open spec fn spec_deselect(s: Seq<SignerRecord>, f: Fingerprint) -> Seq<SignerRecord> {
    Seq::new(
        s.len(),
        |i: int| if s[i].fingerprint == f && s[i].state is Selected {
            SignerRecord { state: SignerState::Registered, ..s[i] }
        } else {
            s[i]
        },
    )
}

/// `s` at a session boundary: every record that finished a session as
/// `Signed` returns to `Registered` for the next one; every other record is
/// untouched.
pub open spec fn spec_release_signed(s: Seq<SignerRecord>) -> Seq<SignerRecord> {
    Seq::new(
        s.len(),
        |i: int| if s[i].state is Signed {
            SignerRecord { state: SignerState::Registered, ..s[i] }
        } else {
            s[i]
        },
    )
}

/// Tracks all known signing participants, keyed by fingerprint.
pub struct Registry {
    /// The records, in insertion order. Mutation goes through the methods,
    /// which keep the one-record-per-fingerprint invariant.
    pub records: Vec<SignerRecord>,
}

impl View for Registry {
    type V = Seq<SignerRecord>;

    open spec fn view(&self) -> Seq<SignerRecord> {
        self.records@
    }
}

impl Registry {
    /// At most one record per fingerprint.
    pub open spec fn wf(&self) -> bool {
        forall|i: int, j: int|
            0 <= i < j < self@.len() ==> self@[i].fingerprint != self@[j].fingerprint
    }

    /// An empty registry.
    pub fn new() -> (r: Registry)
        ensures
            r.wf(),
            r@.len() == 0,
    {
        Registry { records: Vec::new() }
    }

    /// The position of the record carrying `f`, if any.
    fn find_index(&self, f: Fingerprint) -> (r: Option<usize>)
        ensures
            match r {
                Some(i) => i < self@.len() && self@[i as int].fingerprint == f,
                None => !has_fp(self@, f),
            },
    {
        let n: usize = self.records.len();
        let mut i: usize = 0;
        while i < n
            invariant
                i <= n,
                n == self@.len(),
                forall|k: int| 0 <= k < i ==> self@[k].fingerprint != f,
            decreases n - i,
        {
            if self.records[i].fingerprint == f {
                return Some(i);
            }
            i = i + 1;
        }
        None
    }

    /// Applies a probe result for `fingerprint`. A known fingerprint has its
    /// existing record's state advanced by the pairing rules and its
    /// `last_seen` refreshed on contact; an unknown one gets a single fresh
    /// record, appended at the end so insertion order is stable. No call can
    /// ever create a second record for the same fingerprint.
    pub fn upsert(
        &mut self,
        fingerprint: Fingerprint,
        kind: SignerKind,
        presence: SignerPresence,
        ctx: &PairingContext,
        now: u64,
    ) -> (c: StateChange)
        requires
            old(self).wf(),
        ensures
            final(self).wf(),
            has_fp(final(self)@, fingerprint),
            // A known fingerprint: same length, all other records untouched,
            // the matching record advanced in place.
            has_fp(old(self)@, fingerprint) ==> {
                let s0 = old(self)@;
                let s1 = final(self)@;
                let prev = record_of(s0, fingerprint);
                let next = spec_state_after_probe(prev.kind, prev.state, presence, *ctx);
                &&& s1.len() == s0.len()
                &&& forall|k: int|
                    0 <= k < s0.len() && s0[k].fingerprint != fingerprint ==> s1[k] == s0[k]
                &&& record_of(s1, fingerprint) == (SignerRecord {
                    state: next,
                    last_seen: if spec_is_contact(presence) {
                        now
                    } else {
                        prev.last_seen
                    },
                    ..prev
                })
                &&& c == (StateChange::Updated {
                    state: next,
                    registration_due: spec_registration_due(prev.state, next),
                })
            },
            // An unknown fingerprint: one fresh record appended.
            !has_fp(old(self)@, fingerprint) ==> {
                let next = spec_state_after_probe(kind, SignerState::Disconnected, presence, *ctx);
                &&& final(self)@ == old(self)@.push(
                    SignerRecord {
                        fingerprint,
                        alias: None,
                        kind,
                        state: next,
                        last_seen: if spec_is_contact(presence) {
                            now
                        } else {
                            0
                        },
                    },
                )
                &&& c == (StateChange::Added {
                    state: next,
                    registration_due: spec_registration_due(SignerState::Disconnected, next),
                })
            },
    {
        let contact: bool = matches!(presence, SignerPresence::Locked { .. } | SignerPresence::Ready { .. });
        match self.find_index(fingerprint) {
            Some(i) => {
                proof {
                    lemma_fp_index_is(self@, fingerprint, i as int);
                }
                let next = crate::pairing::state_after_probe(
                    &self.records[i].kind,
                    &self.records[i].state,
                    presence,
                    ctx,
                );
                let due: bool = crate::pairing::registration_due(&self.records[i].state, &next);
                let reported = next.clone();
                let rec = &mut self.records[i];
                rec.state = next;
                if contact {
                    rec.last_seen = now;
                }
                proof {
                    assert(forall|k: int|
                        0 <= k < self@.len() ==> self@[k].fingerprint == old(
                            self,
                        )@[k].fingerprint);
                    lemma_fp_index_is(self@, fingerprint, i as int);
                }
                StateChange::Updated { state: reported, registration_due: due }
            },
            None => {
                let state = crate::pairing::state_after_probe(
                    &kind,
                    &SignerState::Disconnected,
                    presence,
                    ctx,
                );
                let due: bool = crate::pairing::registration_due(
                    &SignerState::Disconnected,
                    &state,
                );
                let reported = state.clone();
                self.records.push(
                    SignerRecord {
                        fingerprint,
                        alias: None,
                        kind,
                        state,
                        last_seen: if contact {
                            now
                        } else {
                            0
                        },
                    },
                );
                proof {
                    assert(self@[self@.len() - 1].fingerprint == fingerprint);
                    assert(has_fp(self@, fingerprint));
                }
                StateChange::Added { state: reported, registration_due: due }
            },
        }
    }

    /// A snapshot copy of every record, in insertion order. Consumers render
    /// from such snapshots and never hold live references into the registry.
    pub fn list(&self) -> (r: Vec<SignerRecord>)
        ensures
            r@ == self@,
    {
        let n: usize = self.records.len();
        let mut out: Vec<SignerRecord> = Vec::new();
        let mut i: usize = 0;
        while i < n
            invariant
                i <= n,
                n == self@.len(),
                out@ =~= self@.take(i as int),
            decreases n - i,
        {
            out.push(self.records[i].clone());
            i = i + 1;
        }
        proof {
            assert(out@ =~= self@);
        }
        out
    }

    /// The user marks a `Registered` participant for the next signing
    /// request. Fails only when the fingerprint is unknown; a record in any
    /// state other than `Registered` is left untouched.
    pub fn select(&mut self, f: Fingerprint) -> (r: Result<(), RegistryError>)
        requires
            old(self).wf(),
        ensures
            final(self).wf(),
            r is Ok <==> has_fp(old(self)@, f),
            r is Ok ==> final(self)@ =~= spec_select(old(self)@, f),
            r is Err ==> final(self)@ == old(self)@ && r == Err::<(), RegistryError>(
                RegistryError::NotFound,
            ),
    {
        match self.find_index(f) {
            Some(i) => {
                proof {
                    assert(has_fp(self@, f));
                }
                let registered: bool = matches!(self.records[i].state, SignerState::Registered);
                if registered {
                    let rec = &mut self.records[i];
                    rec.state = SignerState::Selected;
                }
                proof {
                    assert(final(self)@ =~= spec_select(old(self)@, f));
                }
                Ok(())
            },
            None => Err(RegistryError::NotFound),
        }
    }

    /// The user unmarks a `Selected` participant; the exact inverse of
    /// [`Registry::select`]. Fails only when the fingerprint is unknown; a
    /// record in any state other than `Selected` is left untouched.
    pub fn deselect(&mut self, f: Fingerprint) -> (r: Result<(), RegistryError>)
        requires
            old(self).wf(),
        ensures
            final(self).wf(),
            r is Ok <==> has_fp(old(self)@, f),
            r is Ok ==> final(self)@ =~= spec_deselect(old(self)@, f),
            r is Err ==> final(self)@ == old(self)@ && r == Err::<(), RegistryError>(
                RegistryError::NotFound,
            ),
    {
        match self.find_index(f) {
            Some(i) => {
                proof {
                    assert(has_fp(self@, f));
                }
                let selected: bool = matches!(self.records[i].state, SignerState::Selected);
                if selected {
                    let rec = &mut self.records[i];
                    rec.state = SignerState::Registered;
                }
                proof {
                    assert(final(self)@ =~= spec_deselect(old(self)@, f));
                }
                Ok(())
            },
            None => Err(RegistryError::NotFound),
        }
    }

    /// Applies the result of a registration attempt for `f`. Only a record
    /// still in `Ready` moves (to `Registered` on success, to a persistent
    /// error otherwise); a result that arrives after the device changed state
    /// is discarded. Successful registration counts as contact.
    pub fn apply_registration(
        &mut self,
        f: Fingerprint,
        accepted: Result<(), RegistrationError>,
        now: u64,
    ) -> (r: Result<(), RegistryError>)
        requires
            old(self).wf(),
        ensures
            final(self).wf(),
            r is Ok <==> has_fp(old(self)@, f),
            r is Err ==> final(self)@ == old(self)@,
            r is Ok ==> {
                let s0 = old(self)@;
                let s1 = final(self)@;
                let prev = record_of(s0, f);
                &&& s1.len() == s0.len()
                &&& forall|k: int| 0 <= k < s0.len() && s0[k].fingerprint != f ==> s1[k] == s0[k]
                &&& record_of(s1, f) == (SignerRecord {
                    state: spec_state_after_registration(prev.state, accepted),
                    last_seen: if prev.state is Ready && accepted is Ok {
                        now
                    } else {
                        prev.last_seen
                    },
                    ..prev
                })
            },
    {
        match self.find_index(f) {
            Some(i) => {
                proof {
                    lemma_fp_index_is(self@, f, i as int);
                }
                let ready: bool = matches!(self.records[i].state, SignerState::Ready);
                if ready {
                    let contact: bool = accepted.is_ok();
                    let next = crate::pairing::state_after_registration(
                        SignerState::Ready,
                        accepted,
                    );
                    let rec = &mut self.records[i];
                    rec.state = next;
                    if contact {
                        rec.last_seen = now;
                    }
                }
                proof {
                    assert(forall|k: int|
                        0 <= k < self@.len() ==> self@[k].fingerprint == old(
                            self,
                        )@[k].fingerprint);
                    lemma_fp_index_is(self@, f, i as int);
                }
                Ok(())
            },
            None => Err(RegistryError::NotFound),
        }
    }

    /// Sets or clears the user label of the record carrying `f`. The label
    /// is free-form and needs no uniqueness; everything else is untouched.
    pub fn set_alias(&mut self, f: Fingerprint, alias: Option<String>) -> (r: Result<
        (),
        RegistryError,
    >)
        requires
            old(self).wf(),
        ensures
            final(self).wf(),
            r is Ok <==> has_fp(old(self)@, f),
            r is Err ==> final(self)@ == old(self)@,
            r is Ok ==> {
                let s0 = old(self)@;
                let s1 = final(self)@;
                &&& s1.len() == s0.len()
                &&& forall|k: int| 0 <= k < s0.len() && s0[k].fingerprint != f ==> s1[k] == s0[k]
                &&& record_of(s1, f) == (SignerRecord { alias, ..record_of(s0, f) })
            },
    {
        match self.find_index(f) {
            Some(i) => {
                proof {
                    lemma_fp_index_is(self@, f, i as int);
                }
                let rec = &mut self.records[i];
                rec.alias = alias;
                proof {
                    assert(forall|k: int|
                        0 <= k < self@.len() ==> self@[k].fingerprint == old(
                            self,
                        )@[k].fingerprint);
                    lemma_fp_index_is(self@, f, i as int);
                }
                Ok(())
            },
            None => Err(RegistryError::NotFound),
        }
    }

    /// A borrowed look at the record carrying `f`, if any.
    pub fn get(&self, f: Fingerprint) -> (r: Option<&SignerRecord>)
        requires
            self.wf(),
        ensures
            match r {
                Some(rec) => has_fp(self@, f) && *rec == record_of(self@, f),
                None => !has_fp(self@, f),
            },
    {
        match self.find_index(f) {
            Some(i) => {
                proof {
                    lemma_fp_index_is(self@, f, i as int);
                }
                Some(&self.records[i])
            },
            None => None,
        }
    }

    /// Marks a ready participant as `Signing` when a request is handed to
    /// its adapter; see [`spec_state_after_dispatch`].
    pub fn mark_signing(&mut self, f: Fingerprint) -> (r: Result<(), RegistryError>)
        requires
            old(self).wf(),
        ensures
            final(self).wf(),
            r is Ok <==> has_fp(old(self)@, f),
            r is Err ==> final(self)@ == old(self)@,
            r is Ok ==> {
                let s0 = old(self)@;
                let s1 = final(self)@;
                let prev = record_of(s0, f);
                &&& s1.len() == s0.len()
                &&& forall|k: int| 0 <= k < s0.len() && s0[k].fingerprint != f ==> s1[k] == s0[k]
                &&& record_of(s1, f) == (SignerRecord {
                    state: spec_state_after_dispatch(prev.state),
                    ..prev
                })
            },
    {
        match self.find_index(f) {
            Some(i) => {
                proof {
                    lemma_fp_index_is(self@, f, i as int);
                }
                let ready: bool = self.records[i].state.is_sign_ready();
                if ready {
                    let rec = &mut self.records[i];
                    rec.state = SignerState::Signing;
                }
                proof {
                    assert(forall|k: int|
                        0 <= k < self@.len() ==> self@[k].fingerprint == old(
                            self,
                        )@[k].fingerprint);
                    lemma_fp_index_is(self@, f, i as int);
                }
                Ok(())
            },
            None => Err(RegistryError::NotFound),
        }
    }

    /// Applies a settled signing answer to the participant's record: the
    /// state follows [`spec_state_after_sign_outcome`], and `last_seen` is
    /// refreshed when the participant actually answered (`contact`).
    pub fn apply_sign_outcome(
        &mut self,
        f: Fingerprint,
        signed: bool,
        contact: bool,
        now: u64,
    ) -> (r: Result<(), RegistryError>)
        requires
            old(self).wf(),
        ensures
            final(self).wf(),
            r is Ok <==> has_fp(old(self)@, f),
            r is Err ==> final(self)@ == old(self)@,
            r is Ok ==> {
                let s0 = old(self)@;
                let s1 = final(self)@;
                let prev = record_of(s0, f);
                &&& s1.len() == s0.len()
                &&& forall|k: int| 0 <= k < s0.len() && s0[k].fingerprint != f ==> s1[k] == s0[k]
                &&& record_of(s1, f) == (SignerRecord {
                    state: spec_state_after_sign_outcome(prev.state, signed),
                    last_seen: if contact {
                        now
                    } else {
                        prev.last_seen
                    },
                    ..prev
                })
            },
    {
        match self.find_index(f) {
            Some(i) => {
                proof {
                    lemma_fp_index_is(self@, f, i as int);
                }
                let engaged: bool = matches!(self.records[i].state, SignerState::Signing)
                    || self.records[i].state.is_sign_ready();
                let rec = &mut self.records[i];
                if engaged {
                    rec.state = if signed {
                        SignerState::Signed
                    } else {
                        SignerState::Registered
                    };
                }
                if contact {
                    rec.last_seen = now;
                }
                proof {
                    assert(forall|k: int|
                        0 <= k < self@.len() ==> self@[k].fingerprint == old(
                            self,
                        )@[k].fingerprint);
                    lemma_fp_index_is(self@, f, i as int);
                }
                Ok(())
            },
            None => Err(RegistryError::NotFound),
        }
    }

    /// Closes a signing session's hold on the registry: `Signed` is terminal
    /// per session only, so every record that finished as `Signed` returns to
    /// `Registered`, ready for the next session. Everything else — other
    /// states, aliases, kinds, order, `last_seen` — is untouched. The host
    /// calls this once the session is terminal or archived.
    pub fn release_signed(&mut self)
        requires
            old(self).wf(),
        ensures
            final(self).wf(),
            final(self)@ == spec_release_signed(old(self)@),
    {
        let n: usize = self.records.len();
        let mut i: usize = 0;
        while i < n
            invariant
                i <= n,
                n == self@.len(),
                n == old(self)@.len(),
                forall|k: int| i <= k < n ==> self@[k] == old(self)@[k],
                forall|k: int| 0 <= k < i ==> self@[k] == spec_release_signed(old(self)@)[k],
            decreases n - i,
        {
            let signed: bool = matches!(self.records[i].state, SignerState::Signed);
            if signed {
                let rec = &mut self.records[i];
                rec.state = SignerState::Registered;
            }
            i = i + 1;
        }
        proof {
            assert(self@ =~= spec_release_signed(old(self)@));
        }
    }

}

/// The state a signer moves to when a signing request is handed to it:
/// only a participant ready to sign starts signing.
pub open spec fn spec_state_after_dispatch(s: SignerState) -> SignerState {
    if s.spec_is_sign_ready() {
        SignerState::Signing
    } else {
        s
    }
}

/// The state a signer moves to once its signing answer settles: `Signed` on
/// a signature, otherwise back to `Registered` (the session keeps the error
/// detail). A record that was not signing or ready is left alone.
pub open spec fn spec_state_after_sign_outcome(s: SignerState, signed: bool) -> SignerState {
    if s is Signing || s.spec_is_sign_ready() {
        if signed {
            SignerState::Signed
        } else {
            SignerState::Registered
        }
    } else {
        s
    }
}

/// A duplicate-free registry holds exactly one record for any fingerprint it
/// knows: however many `upsert` calls were made for the same fingerprint,
/// `fp_count` is 1.
pub proof fn lemma_wf_unique_fingerprint(r: Registry, f: Fingerprint)
    requires
        r.wf(),
        has_fp(r@, f),
    ensures
        fp_count(r@, f) == 1,
{
    lemma_fp_count_unique(r@, f);
}

/// Counting helper: in a pairwise-distinct sequence, a present fingerprint
/// is counted exactly once, an absent one zero times.
pub proof fn lemma_fp_count_unique(s: Seq<SignerRecord>, f: Fingerprint)
    requires
        forall|i: int, j: int| 0 <= i < j < s.len() ==> s[i].fingerprint != s[j].fingerprint,
    ensures
        has_fp(s, f) ==> fp_count(s, f) == 1,
        !has_fp(s, f) ==> fp_count(s, f) == 0,
    decreases s.len(),
{
    if s.len() == 0 {
    } else {
        let head = s.drop_last();
        lemma_fp_count_unique(head, f);
        if s.last().fingerprint == f {
            assert(!has_fp(head, f)) by {
                if has_fp(head, f) {
                    let i = choose|i: int| 0 <= i < head.len() && head[i].fingerprint == f;
                    assert(s[i].fingerprint == s[s.len() - 1].fingerprint);
                }
            }
        } else {
            if has_fp(s, f) {
                let i = choose|i: int| 0 <= i < s.len() && s[i].fingerprint == f;
                assert(0 <= i < head.len() && head[i].fingerprint == f);
                assert(has_fp(head, f));
            }
            if has_fp(head, f) {
                let i = choose|i: int| 0 <= i < head.len() && head[i].fingerprint == f;
                assert(s[i].fingerprint == f);
                assert(has_fp(s, f));
            }
        }
    }
}

/// Selecting a fingerprint and then deselecting it restores every record
/// exactly, whatever states the other records are in — provided the record
/// was not already `Selected` before the call (deselecting would then move
/// it to `Registered`). Records with other fingerprints are never touched by
/// either step.
pub proof fn lemma_select_then_deselect(s: Seq<SignerRecord>, f: Fingerprint)
    requires
        forall|i: int|
            0 <= i < s.len() && s[i].fingerprint == f ==> !(s[i].state is Selected),
    ensures
        spec_deselect(spec_select(s, f), f) =~= s,
        forall|i: int|
            0 <= i < s.len() && s[i].fingerprint != f ==> spec_select(s, f)[i] == s[i]
                && spec_deselect(spec_select(s, f), f)[i] == s[i],
{
}

} // verus!
