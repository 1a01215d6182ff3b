//! Round records and the round store: the persistent state the engine drives.

use vstd::prelude::*;
use vstd::pervasive::VecAdditionalExecFns;

use crate::error::ContractError;

verus! {

/// One round of the guessing game.
#[derive(Clone, Debug, PartialEq)]
pub struct GameState {
    /// Denormalized copy of the key this record is stored under.
    pub current_game_number: u8,
    /// The hidden number, chosen once when the round is created.
    pub secret_number: u8,
    /// The value recorded by the most recent first-time guesser; 0 at creation.
    pub last_attempt: u8,
    /// Caller identities in first-guess order, each at most once.
    pub participants: Vec<String>,
}

/// Whether some identity in `ps` reads as `who`.
pub open spec fn participants_has(ps: Seq<String>, who: Seq<char>) -> bool {
    exists|k: int| 0 <= k < ps.len() && #[trigger] ps[k]@ == who
}

/// No identity occurs at two distinct positions.
pub open spec fn no_dup_participants(ps: Seq<String>) -> bool {
    forall|i: int, j: int| 0 <= i < j < ps.len() ==> #[trigger] ps[i]@ != #[trigger] ps[j]@
}

impl GameState {
    /// A valid round: the secret lies in [1,10] and nobody is recorded twice.
    pub open spec fn wf(&self) -> bool {
        &&& 1 <= self.secret_number <= 10
        &&& no_dup_participants(self.participants@)
    }
}

/// The round store: every round created so far, keyed by its id (which equals
/// its position), plus the single current-round pointer.
pub struct GameStore {
    /// The id of the round presently accepting guesses.
    pub current_game_number: u8,
    /// Round records in creation order; the record at position `i` is round `i`.
    pub rounds: Vec<GameState>,
}

impl GameStore {
    /// Every stored round is valid and sits at the key equal to its own id.
    pub open spec fn rounds_wf(&self) -> bool {
        forall|i: int| 0 <= i < self.rounds@.len() ==>
            (#[trigger] self.rounds@[i]).wf() && self.rounds@[i].current_game_number == i
    }

    /// The current-round pointer refers to a stored round.
    pub open spec fn has_current(&self) -> bool {
        (self.current_game_number as int) < self.rounds@.len()
    }

    /// The store as the engine maintains it: exactly rounds 0 through the
    /// current one exist, and all of them are valid.
    pub open spec fn wf(&self) -> bool {
        &&& self.rounds_wf()
        &&& self.rounds@.len() == self.current_game_number + 1
    }

    /// The round the current pointer designates.
    pub open spec fn cur(&self) -> GameState {
        self.rounds@[self.current_game_number as int]
    }

    /// Whether `guess` hits the current round's secret.
    pub open spec fn wins(&self, guess: u8) -> bool {
        self.cur().secret_number == guess
    }

    /// Single-slot read of the current-round pointer.
    pub fn get_current_round_id(&self) -> (id: u8)
        ensures
            id == self.current_game_number,
    {
        self.current_game_number
    }

    /// Single-slot write of the current-round pointer.
    pub fn set_current_round_id(&mut self, id: u8)
        ensures
            final(self).current_game_number == id,
            final(self).rounds@ == old(self).rounds@,
    {
        self.current_game_number = id;
    }

    /// Unconditional write of the record at key `id`. The model keeps keys
    /// contiguous, so a write one past the end appends a new round.
    pub fn save_round(&mut self, id: u8, round: GameState)
        requires
            id as int <= old(self).rounds@.len(),
        ensures
            final(self).current_game_number == old(self).current_game_number,
            (id as int) < old(self).rounds@.len() ==>
                final(self).rounds@ == old(self).rounds@.update(id as int, round),
            (id as int) == old(self).rounds@.len() ==>
                final(self).rounds@ == old(self).rounds@.push(round),
    {
        let idx: usize = id as usize;
        if idx < self.rounds.len() {
            self.rounds.set(idx, round);
        } else {
            self.rounds.push(round);
        }
    }

    /// Read of the record at key `id`; the round-not-found error when no
    /// record is stored there.
    pub fn load_round(&self, id: u8) -> (r: Result<&GameState, ContractError>)
        ensures
            (id as int) < self.rounds@.len() ==>
                (r matches Ok(g) && *g == self.rounds@[id as int]),
            (id as int) >= self.rounds@.len() ==>
                (r matches Err(e) && e == (ContractError::GameNotFound { gamen: id })),
    {
        let idx: usize = id as usize;
        if idx < self.rounds.len() {
            Ok(&self.rounds[idx])
        } else {
            Err(ContractError::GameNotFound { gamen: id })
        }
    }
}

/// Whether `who` already appears among the recorded participants.
pub fn contains_participant(ps: &Vec<String>, who: &String) -> (r: bool)
    ensures
        r == participants_has(ps@, who@),
{
    let mut i: usize = 0;
    while i < ps.len()
        invariant
            i <= ps@.len(),
            forall|k: int| 0 <= k < i ==> #[trigger] ps@[k]@ != who@,
        decreases ps@.len() - i,
    {
        if ps[i] == *who {
            return true;
        }
        i += 1;
    }
    false
}

/// An element-for-element copy of a participants list.
pub fn clone_participants(ps: &Vec<String>) -> (r: Vec<String>)
    ensures
        r@ == ps@,
{
    let mut r: Vec<String> = Vec::new();
    let mut i: usize = 0;
    while i < ps.len()
        invariant
            i <= ps@.len(),
            r@.len() == i,
            forall|k: int| 0 <= k < i ==> #[trigger] r@[k] == ps@[k],
        decreases ps@.len() - i,
    {
        r.push(ps[i].clone());
        i += 1;
    }
    proof {
        assert(r@ =~= ps@);
    }
    r
}

/// Appending an identity that is not yet present keeps the list free of
/// duplicates.
pub proof fn lemma_push_keeps_no_dups(ps: Seq<String>, who: String)
    requires
        no_dup_participants(ps),
        !participants_has(ps, who@),
    ensures
        no_dup_participants(ps.push(who)),
{
    let q = ps.push(who);
    assert forall|i: int, j: int| 0 <= i < j < q.len() implies
        #[trigger] q[i]@ != #[trigger] q[j]@ by {
        assert(q[i] == ps[i]);
        if j == ps.len() {
            assert(q[j] == who);
            assert(ps[i]@ != who@);
        } else {
            assert(q[j] == ps[j]);
        }
    }
}

/// No round of a well-formed store records the same participant twice: two
/// distinct positions of a round's participants list always hold different
/// identities.
pub proof fn lemma_no_duplicate_participants(store: GameStore, k: int, i: int, j: int)
    requires
        store.rounds_wf(),
        0 <= k < store.rounds@.len(),
        0 <= i < j < store.rounds@[k].participants@.len(),
    ensures
        store.rounds@[k].participants@[i]@ != store.rounds@[k].participants@[j]@,
{
    assert(store.rounds@[k].wf());
}

} // verus!
