//! Runtime tracking of shared and exclusive access to one payload.
//!
//! A payload is free, shared by a number of readers, or held exclusively.
//! Access is claimed and given back one claim at a time; a claim that the
//! current state does not allow fails at once and changes nothing. Nothing
//! here waits: a conflict is nearly always the same call stack coming back
//! to an object it already holds, and waiting for it would never end.
//!
//! The tracker is the arbiter as a plain state machine, for hosts that keep
//! the state themselves and for checking other arbiters against it. The
//! number of readers has no limit.

use vstd::prelude::*;
use vstd::string::*;
use crate::count::{count_text, ClaimCount};

verus! {

/// Who holds a payload.
pub enum BorrowState {
    /// Nobody.
    Free,
    /// This many readers; never zero.
    Shared(nat),
    /// One writer.
    Exclusive,
}

/// Why a claim is refused.
pub enum Refusal {
    /// The payload is held exclusively.
    AlreadyExclusive,
    /// The payload is shared by this many readers.
    AlreadyShared(nat),
}

impl BorrowState {
    /// A shared state counts at least one reader.
    pub open spec fn wf(self) -> bool {
        self matches BorrowState::Shared(n) ==> n > 0
    }

    /// The number of readers.
    pub open spec fn shared_count(self) -> nat {
        match self {
            BorrowState::Shared(n) => n,
            _ => 0,
        }
    }

    /// What a claim for shared access is answered with.
    pub open spec fn shared_outcome(self) -> Result<(), Refusal> {
        match self {
            BorrowState::Exclusive => Err(Refusal::AlreadyExclusive),
            _ => Ok(()),
        }
    }

    /// The state after a claim for shared access.
    pub open spec fn after_acquire_shared(self) -> BorrowState {
        match self {
            BorrowState::Exclusive => BorrowState::Exclusive,
            _ => BorrowState::Shared(self.shared_count() + 1),
        }
    }

    /// What a claim for exclusive access is answered with.
    pub open spec fn exclusive_outcome(self) -> Result<(), Refusal> {
        match self {
            BorrowState::Free => Ok(()),
            BorrowState::Shared(n) => Err(Refusal::AlreadyShared(n)),
            BorrowState::Exclusive => Err(Refusal::AlreadyExclusive),
        }
    }

    /// The state after a claim for exclusive access.
    pub open spec fn after_acquire_exclusive(self) -> BorrowState {
        match self {
            BorrowState::Free => BorrowState::Exclusive,
            _ => self,
        }
    }

    /// The state after one reader gave its claim back.
    pub open spec fn after_release_shared(self) -> BorrowState {
        match self {
            BorrowState::Shared(n) => if n <= 1 {
                BorrowState::Free
            } else {
                BorrowState::Shared((n - 1) as nat)
            },
            _ => self,
        }
    }

    /// The state after the writer gave its claim back.
    pub open spec fn after_release_exclusive(self) -> BorrowState {
        match self {
            BorrowState::Exclusive => BorrowState::Free,
            _ => self,
        }
    }

    /// The state after `claims` shared claims were given back in a row.
    pub open spec fn after_shared_releases(self, claims: nat) -> BorrowState
        decreases claims,
    {
        if claims == 0 {
            self
        } else {
            self.after_release_shared().after_shared_releases((claims - 1) as nat)
        }
    }

    /// The state after `claims` claims for shared access in a row.
    pub open spec fn after_shared_acquires(self, claims: nat) -> BorrowState
        decreases claims,
    {
        if claims == 0 {
            self
        } else {
            self.after_acquire_shared().after_shared_acquires((claims - 1) as nat)
        }
    }
}

/// A claim that was refused, as the caller gets it.
#[derive(Debug, Clone, PartialEq, Eq)]
pub enum BorrowError {
    /// The payload is held exclusively.
    AlreadyExclusive,
    /// The payload is shared by this many readers.
    AlreadyShared(ClaimCount),
}

impl View for BorrowError {
    type V = Refusal;

    open spec fn view(&self) -> Refusal {
        match self {
            BorrowError::AlreadyExclusive => Refusal::AlreadyExclusive,
            BorrowError::AlreadyShared(count) => Refusal::AlreadyShared(count@),
        }
    }
}

/// The answer to a claim, as the rules give it.
pub open spec fn answer(outcome: Result<(), BorrowError>) -> Result<(), Refusal> {
    match outcome {
        Ok(()) => Ok(()),
        Err(error) => Err(error@),
    }
}

/// The text of a refusal, naming the payload's type and the state that was
/// in the way.
pub open spec fn conflict_message(refusal: Refusal, payload_type: Seq<char>) -> Seq<char> {
    match refusal {
        Refusal::AlreadyExclusive => "cannot borrow payload of type `"@ + payload_type
            + "`: it is already borrowed exclusively"@,
        Refusal::AlreadyShared(n) => "cannot borrow payload of type `"@ + payload_type
            + "` exclusively: it is already shared, by "@ + count_text(n),
    }
}

impl BorrowError {
    /// The diagnostic for this refusal of access to a payload of the type
    /// named `payload_type`.
    pub fn message(&self, payload_type: &str) -> (text: String)
        ensures
            text@ == conflict_message(self@, payload_type@),
    {
        let mut text = String::from_str("cannot borrow payload of type `");
        text.append(payload_type);
        match self {
            BorrowError::AlreadyExclusive => {
                text.append("`: it is already borrowed exclusively");
            },
            BorrowError::AlreadyShared(count) => {
                text.append("` exclusively: it is already shared, by ");
                count.append_to(&mut text);
            },
        }
        text
    }
}

/// Which kind of holder a payload has.
#[derive(Clone, Copy, Debug, PartialEq, Eq, Structural)]
pub enum Holder {
    Nobody,
    Readers,
    Writer,
}

/// The arbiter for one payload.
pub struct BorrowTracker {
    exclusive: bool,
    shared: ClaimCount,
}

impl BorrowTracker {
    #[verifier::type_invariant]
    spec fn inv(self) -> bool {
        self.exclusive ==> self.shared@ == 0
    }

    /// Who holds the payload.
    pub closed spec fn state(&self) -> BorrowState {
        if self.exclusive {
            BorrowState::Exclusive
        } else if self.shared@ == 0 {
            BorrowState::Free
        } else {
            BorrowState::Shared(self.shared@)
        }
    }

    /// A tracker for a payload that nobody holds.
    pub fn new() -> (tracker: Self)
        ensures
            tracker.state() == BorrowState::Free,
    {
        BorrowTracker { exclusive: false, shared: ClaimCount::zero() }
    }

    /// A tracker for a payload that `readers` readers hold.
    pub fn shared_by(readers: ClaimCount) -> (tracker: Self)
        ensures
            tracker.state() == if readers@ == 0 {
                BorrowState::Free
            } else {
                BorrowState::Shared(readers@)
            },
    {
        BorrowTracker { exclusive: false, shared: readers }
    }

    /// Which kind of holder the payload has.
    pub fn holder(&self) -> (holder: Holder)
        ensures
            holder == match self.state() {
                BorrowState::Free => Holder::Nobody,
                BorrowState::Shared(_) => Holder::Readers,
                BorrowState::Exclusive => Holder::Writer,
            },
            self.state().wf(),
    {
        if self.exclusive {
            Holder::Writer
        } else if self.shared.is_zero() {
            Holder::Nobody
        } else {
            Holder::Readers
        }
    }

    /// The number of readers.
    pub fn shared_count(&self) -> (count: &ClaimCount)
        ensures
            count@ == self.state().shared_count(),
    {
        proof {
            use_type_invariant(self);
        }
        &self.shared
    }

    /// Claims shared access: granted unless the payload is held exclusively.
    pub fn acquire_shared(&mut self) -> (outcome: Result<(), BorrowError>)
        ensures
            answer(outcome) == old(self).state().shared_outcome(),
            final(self).state() == old(self).state().after_acquire_shared(),
            outcome is Ok <==> old(self).state() != BorrowState::Exclusive,
            outcome is Ok ==> final(self).state() == BorrowState::Shared(
                old(self).state().shared_count() + 1,
            ),
            outcome is Err ==> final(self).state() == old(self).state(),
    {
        proof {
            use_type_invariant(&*self);
        }
        if self.exclusive {
            Err(BorrowError::AlreadyExclusive)
        } else {
            let mut shared = ClaimCount::zero();
            core::mem::swap(&mut self.shared, &mut shared);
            shared.increment();
            self.shared = shared;
            Ok(())
        }
    }

    /// Claims exclusive access: granted only if nobody holds the payload.
    pub fn acquire_exclusive(&mut self) -> (outcome: Result<(), BorrowError>)
        ensures
            answer(outcome) == old(self).state().exclusive_outcome(),
            final(self).state() == old(self).state().after_acquire_exclusive(),
            outcome is Ok <==> old(self).state() == BorrowState::Free,
            outcome is Err ==> final(self).state() == old(self).state(),
    {
        proof {
            use_type_invariant(&*self);
        }
        if self.exclusive {
            Err(BorrowError::AlreadyExclusive)
        } else if self.shared.is_zero() {
            self.exclusive = true;
            Ok(())
        } else {
            Err(BorrowError::AlreadyShared(self.shared.clone()))
        }
    }

    /// Gives one shared claim back; the last one frees the payload.
    pub fn release_shared(&mut self)
        requires
            old(self).state() is Shared,
        ensures
            final(self).state() == old(self).state().after_release_shared(),
            final(self).state().shared_count() == old(self).state().shared_count() - 1,
    {
        proof {
            use_type_invariant(&*self);
        }
        let mut shared = ClaimCount::zero();
        core::mem::swap(&mut self.shared, &mut shared);
        shared.decrement();
        self.shared = shared;
    }

    /// Gives the exclusive claim back and frees the payload.
    pub fn release_exclusive(&mut self)
        requires
            old(self).state() == BorrowState::Exclusive,
        ensures
            final(self).state() == BorrowState::Free,
            final(self).state() == old(self).state().after_release_exclusive(),
    {
        proof {
            use_type_invariant(&*self);
        }
        self.exclusive = false;
    }
}

/// Every transition keeps a shared count above zero.
pub proof fn law_transitions_keep_well_formed(state: BorrowState)
    requires
        state.wf(),
    ensures
        state.after_acquire_shared().wf(),
        state.after_acquire_exclusive().wf(),
        state.after_release_shared().wf(),
        state.after_release_exclusive().wf(),
{
}

/// As long as no exclusive claim is outstanding, any number of claims for
/// shared access in a row are all granted, each one raises the count by one,
/// and from the first of them on a claim for exclusive access is refused
/// with the count. There is no number of readers at which this ends.
pub proof fn law_shared_claims_accumulate(state: BorrowState, claims: nat)
    requires
        state.wf(),
        state != BorrowState::Exclusive,
    ensures
        forall|earlier: nat|
            earlier < claims ==> (#[trigger] state.after_shared_acquires(earlier)).shared_outcome()
                is Ok,
        state.after_shared_acquires(claims).shared_count() == state.shared_count() + claims,
        claims > 0 ==> state.after_shared_acquires(claims) == BorrowState::Shared(
            state.shared_count() + claims,
        ),
        claims > 0 ==> state.after_shared_acquires(claims).exclusive_outcome() == Err::<
            (),
            Refusal,
        >(Refusal::AlreadyShared(state.shared_count() + claims)),
        claims > 0 ==> state.after_shared_acquires(claims).after_acquire_exclusive()
            == state.after_shared_acquires(claims),
    decreases claims,
{
    if claims > 0 {
        let next = state.after_acquire_shared();
        law_shared_claims_accumulate(next, (claims - 1) as nat);
        assert forall|earlier: nat| earlier < claims implies (#[trigger] state.after_shared_acquires(
            earlier,
        )).shared_outcome() is Ok by {
            if earlier > 0 {
                assert(state.after_shared_acquires(earlier) == next.after_shared_acquires(
                    (earlier - 1) as nat,
                ));
            }
        }
    }
}

/// While an exclusive claim is outstanding every further claim, shared or
/// exclusive, is refused and changes nothing; once the claim is given back
/// either kind is granted.
pub proof fn law_exclusive_claim_excludes(state: BorrowState)
    requires
        state == BorrowState::Free,
    ensures
        state.exclusive_outcome() is Ok,
        state.after_acquire_exclusive() == BorrowState::Exclusive,
        state.after_acquire_exclusive().shared_outcome() == Err::<(), Refusal>(
            Refusal::AlreadyExclusive,
        ),
        state.after_acquire_exclusive().exclusive_outcome() == Err::<(), Refusal>(
            Refusal::AlreadyExclusive,
        ),
        state.after_acquire_exclusive().after_acquire_shared() == BorrowState::Exclusive,
        state.after_acquire_exclusive().after_acquire_exclusive() == BorrowState::Exclusive,
        state.after_acquire_exclusive().after_release_exclusive() == BorrowState::Free,
        state.after_acquire_exclusive().after_release_exclusive().shared_outcome() is Ok,
        state.after_acquire_exclusive().after_release_exclusive().exclusive_outcome() is Ok,
{
}

/// Giving a claim back undoes the claim: the state is what it was before.
pub proof fn law_release_undoes_claim(state: BorrowState)
    requires
        state.wf(),
    ensures
        state != BorrowState::Exclusive ==> state.after_acquire_shared().after_release_shared()
            == state,
        state == BorrowState::Free ==> state.after_acquire_exclusive().after_release_exclusive()
            == state,
{
}

/// Giving back `claims` of the shared claims on a payload lowers the count
/// by that many, and frees the payload when none is left.
pub proof fn law_shared_releases_drain(state: BorrowState, claims: nat)
    requires
        state.wf(),
        claims <= state.shared_count(),
    ensures
        state.after_shared_releases(claims).wf(),
        state.after_shared_releases(claims).shared_count() == state.shared_count() - claims,
        state is Shared && claims == state.shared_count() ==> state.after_shared_releases(claims)
            == BorrowState::Free,
        claims < state.shared_count() ==> state.after_shared_releases(claims) == BorrowState::Shared(
            (state.shared_count() - claims) as nat,
        ),
    decreases claims,
{
    if claims > 0 {
        law_shared_releases_drain(state.after_release_shared(), (claims - 1) as nat);
    }
}

/// Claims that are each given back once leave nothing behind: after any
/// number of shared claims and as many releases the state is what it was.
pub proof fn law_balanced_claims_leave_no_trace(state: BorrowState, claims: nat)
    requires
        state.wf(),
        state != BorrowState::Exclusive,
    ensures
        state.after_shared_acquires(claims).after_shared_releases(claims) == state,
    decreases claims,
{
    if claims > 0 {
        let next = state.after_acquire_shared();
        law_shared_claims_accumulate(next, (claims - 1) as nat);
        law_shared_releases_drain(next.after_shared_acquires((claims - 1) as nat), claims);
    }
}

} // verus!
