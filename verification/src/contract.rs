//! The round engine: it interprets a guess against the current round, records
//! participants, detects a win, and on a win opens the next round.

use rand::Rng;
use vstd::prelude::*;

use crate::error::ContractError;
use crate::msg::{
    Attribute, CurrentGameResponse, CurrentParticipantsResponse, Direction, ExecuteMsg,
    InstantiateMsg, QueryAnswer, QueryMsg, Response,
};
use crate::state::{
    clone_participants, contains_participant, lemma_push_keeps_no_dups, participants_has,
    GameState, GameStore,
};

verus! {

/// A response whose single attribute is the direction payload `text`.
pub open spec fn direction_response(r: Response, text: Seq<char>) -> bool {
    &&& r.attributes@.len() == 1
    &&& r.attributes@[0].key@ == "direction"@
    &&& r.attributes@[0].value@ == text
}

/// How one guess changes one round record: a first-time guesser is appended
/// to the participants and the guess value recorded as the last attempt; a
/// repeat guesser changes nothing. The secret and the id never change.
pub open spec fn guess_recorded(oldr: GameState, newr: GameState, sender: String, guess: u8) -> bool {
    &&& newr.current_game_number == oldr.current_game_number
    &&& newr.secret_number == oldr.secret_number
    &&& participants_has(oldr.participants@, sender@) ==> {
        &&& newr.participants@ == oldr.participants@
        &&& newr.last_attempt == oldr.last_attempt
    }
    &&& !participants_has(oldr.participants@, sender@) ==> {
        &&& newr.participants@ == oldr.participants@.push(sender)
        &&& newr.last_attempt == guess
    }
}

/// Everything one guess submission does, relating the store before (`pre`)
/// and after (`post`) and the returned response: the guess is recorded in the
/// round that was current, every other round is untouched, and either the
/// round continues with a hint computed from the submitted guess, or it is
/// won and the next round opens with a fresh secret, no attempts and no
/// participants.
pub open spec fn submit_outcome(
    pre: GameStore,
    post: GameStore,
    r: Result<Response, ContractError>,
    sender: String,
    guess: u8,
) -> bool {
    &&& r is Ok
    &&& post.wf()
    &&& guess_recorded(pre.cur(), post.rounds@[pre.current_game_number as int], sender, guess)
    &&& forall|i: int| 0 <= i < pre.rounds@.len() && i != pre.current_game_number ==>
            #[trigger] post.rounds@[i] == pre.rounds@[i]
    &&& pre.wins(guess) ==> {
        &&& post.current_game_number == pre.current_game_number + 1
        &&& post.rounds@.len() == pre.rounds@.len() + 1
        &&& post.cur().current_game_number == post.current_game_number
        &&& post.cur().last_attempt == 0
        &&& post.cur().participants@.len() == 0
        &&& 1 <= post.cur().secret_number <= 10
        &&& direction_response(r->Ok_0, "correct"@)
    }
    &&& !pre.wins(guess) ==> {
        &&& post.current_game_number == pre.current_game_number
        &&& post.rounds@.len() == pre.rounds@.len()
        &&& pre.cur().secret_number < guess ==> direction_response(r->Ok_0, "go lower"@)
        &&& pre.cur().secret_number > guess ==> direction_response(r->Ok_0, "go higher"@)
    }
}

/// The current-round id only ever moves forward, by exactly one per win: a
/// submission leaves the pointer where it was, or, on a win, advances it by
/// one. (Round 0 is where `instantiate` starts the pointer.)
pub proof fn lemma_monotonic_round_id(
    pre: GameStore,
    post: GameStore,
    r: Result<Response, ContractError>,
    sender: String,
    guess: u8,
)
    requires
        submit_outcome(pre, post, r, sender, guess),
    ensures
        post.current_game_number == if pre.wins(guess) {
            pre.current_game_number + 1
        } else {
            pre.current_game_number as int
        },
{
}

/// A repeat guesser is a no-op on the round record: when the sender already
/// appears among the current round's participants, a submission leaves that
/// round's participants and last attempt exactly as they were.
pub proof fn lemma_repeat_guesser_changes_nothing(
    pre: GameStore,
    post: GameStore,
    r: Result<Response, ContractError>,
    sender: String,
    guess: u8,
)
    requires
        submit_outcome(pre, post, r, sender, guess),
        participants_has(pre.cur().participants@, sender@),
    ensures
        post.rounds@[pre.current_game_number as int].participants@ == pre.cur().participants@,
        post.rounds@[pre.current_game_number as int].last_attempt == pre.cur().last_attempt,
{
}

/// Secrets are immutable: whatever a submission does, every round that
/// existed before it keeps the secret it was created with.
pub proof fn lemma_secret_immutable(
    pre: GameStore,
    post: GameStore,
    r: Result<Response, ContractError>,
    sender: String,
    guess: u8,
    i: int,
)
    requires
        submit_outcome(pre, post, r, sender, guess),
        0 <= i < pre.rounds@.len(),
    ensures
        post.rounds@[i].secret_number == pre.rounds@[i].secret_number,
{
}

/// Direction correctness: a submission that does not win answers "go lower"
/// when and only when the secret is below the submitted guess (otherwise it
/// answers "go higher").
pub proof fn lemma_direction_correctness(
    pre: GameStore,
    post: GameStore,
    r: Result<Response, ContractError>,
    sender: String,
    guess: u8,
)
    requires
        submit_outcome(pre, post, r, sender, guess),
        !pre.wins(guess),
    ensures
        direction_response(r->Ok_0, "go lower"@) <==> pre.cur().secret_number < guess,
{
    reveal_strlit("go lower");
    reveal_strlit("go higher");
    if pre.cur().secret_number > guess {
        assert("go lower"@.len() != "go higher"@.len());
    }
}

/// A win opens a fresh round: after a winning submission the pointer names a
/// stored round with no attempts and no participants, whose secret again lies
/// in [1,10].
pub proof fn lemma_win_opens_fresh_round(
    pre: GameStore,
    post: GameStore,
    r: Result<Response, ContractError>,
    sender: String,
    guess: u8,
)
    requires
        submit_outcome(pre, post, r, sender, guess),
        pre.wins(guess),
    ensures
        post.current_game_number == pre.current_game_number + 1,
        post.has_current(),
        post.cur().last_attempt == 0,
        post.cur().participants@.len() == 0,
        1 <= post.cur().secret_number <= 10,
{
}

/// The guess value a request carries.
pub open spec fn guess_of(msg: ExecuteMsg) -> u8 {
    match msg {
        ExecuteMsg::SendGuess { guess } => guess,
    }
}

/// Relies on rand::thread_rng and rand::Rng::gen_range: sampling the
/// non-empty range 1..11 returns a value inside it, so the fresh secret lies
/// in [1,10]; nothing more is assumed of the sample.
#[verifier::external_body]
fn random_secret() -> (s: u8)
    ensures
        1 <= s <= 10,
{
    let mut rng = rand::thread_rng();
    rng.gen_range(1..11)
}

/// Creates round 0 with the given hidden number and points the store at it.
pub fn instantiate(msg: InstantiateMsg, sender: String) -> (r: (GameStore, Response))
    requires
        1 <= msg.originalHiddenNumber <= 10,
    ensures
        r.0.wf(),
        r.0.current_game_number == 0,
        r.0.rounds@.len() == 1,
        r.0.rounds@[0].current_game_number == 0,
        r.0.rounds@[0].secret_number == msg.originalHiddenNumber,
        r.0.rounds@[0].last_attempt == 0,
        r.0.rounds@[0].participants@.len() == 0,
        r.1.attributes@.len() == 4,
        r.1.attributes@[0].key@ == "method"@ && r.1.attributes@[0].value@ == "instantiate"@,
        r.1.attributes@[1].key@ == "owner"@ && r.1.attributes@[1].value == sender,
        r.1.attributes@[2].key@ == "secret_number"@ && r.1.attributes@[2].value@ == "*"@,
        r.1.attributes@[3].key@ == "games_played_so_far"@ && r.1.attributes@[3].value@ == "0"@,
{
    let original_game_n: u8 = 0;
    let state = GameState {
        current_game_number: original_game_n,
        secret_number: msg.originalHiddenNumber,
        last_attempt: 0,
        participants: Vec::new(),
    };

    let mut store = GameStore { current_game_number: original_game_n, rounds: Vec::new() };
    store.save_round(original_game_n, state);

    let mut attributes: Vec<Attribute> = Vec::new();
    attributes.push(Attribute { key: "method".to_owned(), value: "instantiate".to_owned() });
    attributes.push(Attribute { key: "owner".to_owned(), value: sender });
    attributes.push(Attribute { key: "secret_number".to_owned(), value: "*".to_owned() });
    attributes.push(Attribute { key: "games_played_so_far".to_owned(), value: "0".to_owned() });

    (store, Response { attributes })
}

/// Records `guess` by `sender` against the current round and either answers
/// with a hint or closes the round and opens the next one, whose secret is
/// the caller-supplied `next_secret`.
pub fn submit_guess_with_secret(
    store: &mut GameStore,
    sender: String,
    guess: u8,
    next_secret: u8,
) -> (r: Result<Response, ContractError>)
    requires
        old(store).wf(),
        1 <= next_secret <= 10,
        old(store).wins(guess) ==> old(store).current_game_number < 255,
    ensures
        submit_outcome(*old(store), *final(store), r, sender, guess),
        old(store).wins(guess) ==> final(store).cur().secret_number == next_secret,
{
    let curgamen = store.get_current_round_id();

    let mut ps: Vec<String>;
    let secret: u8;
    let last0: u8;
    let idc: u8;
    let already: bool;
    {
        let cur = match store.load_round(curgamen) {
            Ok(g) => g,
            Err(e) => {
                return Err(e);
            },
        };
        already = contains_participant(&cur.participants, &sender);
        ps = clone_participants(&cur.participants);
        last0 = cur.last_attempt;
        secret = cur.secret_number;
        idc = cur.current_game_number;
    }

    let mut last: u8 = last0;
    if !already {
        proof {
            lemma_push_keeps_no_dups(old(store).cur().participants@, sender);
        }
        ps.push(sender);
        last = guess;
    }
    let applied = GameState {
        current_game_number: idc,
        secret_number: secret,
        last_attempt: last,
        participants: ps,
    };
    store.save_round(curgamen, applied);

    if secret == guess {
        let nextgame_n: u8 = curgamen + 1;
        let nextgame_state = GameState {
            participants: Vec::new(),
            secret_number: next_secret,
            last_attempt: 0,
            current_game_number: nextgame_n,
        };

        store.set_current_round_id(nextgame_n);
        store.save_round(nextgame_n, nextgame_state);

        let mut attributes: Vec<Attribute> = Vec::new();
        attributes.push(Attribute { key: "direction".to_owned(), value: "correct".to_owned() });
        return Ok(Response { attributes });
    }

    let hint: String = if secret < guess {
        "go lower".to_owned()
    } else {
        "go higher".to_owned()
    };
    let mut attributes: Vec<Attribute> = Vec::new();
    attributes.push(Attribute { key: "direction".to_owned(), value: hint });
    Ok(Response { attributes })
}

/// Records `guess` by `sender` against the current round; on a win the next
/// round's secret is drawn from the random source, so only its range is
/// promised.
pub fn try_submit_guess(store: &mut GameStore, sender: String, guess: u8) -> (r: Result<
    Response,
    ContractError,
>)
    requires
        old(store).wf(),
        old(store).wins(guess) ==> old(store).current_game_number < 255,
    ensures
        submit_outcome(*old(store), *final(store), r, sender, guess),
{
    let next_secret = random_secret();
    submit_guess_with_secret(store, sender, guess, next_secret)
}

/// Dispatches a state-changing request to the engine.
pub fn execute(store: &mut GameStore, sender: String, msg: ExecuteMsg) -> (r: Result<
    Response,
    ContractError,
>)
    requires
        old(store).wf(),
        old(store).wins(guess_of(msg)) ==> old(store).current_game_number < 255,
    ensures
        submit_outcome(*old(store), *final(store), r, sender, guess_of(msg)),
{
    match msg {
        ExecuteMsg::SendGuess { guess } => try_submit_guess(store, sender, guess),
    }
}

/// What `GetCurrentGame` reports of a store: the current id, the recorded
/// last attempt, and a hint computed from that recorded attempt (not from
/// any particular caller's guess).
pub open spec fn current_game_view(store: GameStore, resp: CurrentGameResponse) -> bool {
    &&& resp.current_game_number == store.current_game_number
    &&& resp.last_guess == store.cur().last_attempt
    &&& resp.direction == (if store.cur().last_attempt < store.cur().secret_number {
        Direction::Higher
    } else {
        Direction::Lower
    })
}

/// What `GetParticipants` reports of a store: the current round's
/// participants, unmodified and in insertion order.
pub open spec fn participants_view(store: GameStore, resp: CurrentParticipantsResponse) -> bool {
    resp.participants@ == store.cur().participants@
}

/// Read-only projection of the current round: its id, its last recorded
/// attempt, and the hint derived from that attempt.
pub fn query_current_game(store: &GameStore) -> (r: Result<CurrentGameResponse, ContractError>)
    ensures
        store.has_current() ==> (r matches Ok(resp) && current_game_view(*store, resp)),
        !store.has_current() ==> (r matches Err(e) && e == (ContractError::GameNotFound {
            gamen: store.current_game_number,
        })),
{
    let cur_game_number = store.get_current_round_id();
    let cur_game_state = match store.load_round(cur_game_number) {
        Ok(g) => g,
        Err(e) => {
            return Err(e);
        },
    };

    let direction = if cur_game_state.last_attempt < cur_game_state.secret_number {
        Direction::Higher
    } else {
        Direction::Lower
    };
    Ok(
        CurrentGameResponse {
            current_game_number: cur_game_number,
            direction,
            last_guess: cur_game_state.last_attempt,
        },
    )
}

/// Read-only projection of the current round's participants.
pub fn query_current_participants(store: &GameStore) -> (r: Result<
    CurrentParticipantsResponse,
    ContractError,
>)
    ensures
        store.has_current() ==> (r matches Ok(resp) && participants_view(*store, resp)),
        !store.has_current() ==> (r matches Err(e) && e == (ContractError::GameNotFound {
            gamen: store.current_game_number,
        })),
{
    let curn = store.get_current_round_id();
    let curgame = match store.load_round(curn) {
        Ok(g) => g,
        Err(e) => {
            return Err(e);
        },
    };

    let participants = clone_participants(&curgame.participants);
    Ok(CurrentParticipantsResponse { participants })
}

/// Dispatches a read-only request; it never changes the store.
pub fn query(store: &GameStore, msg: QueryMsg) -> (r: Result<QueryAnswer, ContractError>)
    ensures
        !store.has_current() ==> (r matches Err(e) && e == (ContractError::GameNotFound {
            gamen: store.current_game_number,
        })),
        store.has_current() && msg is GetCurrentGame ==> (r matches Ok(a)
            && a matches QueryAnswer::CurrentGame(resp) && current_game_view(*store, resp)),
        store.has_current() && msg is GetParticipants ==> (r matches Ok(a)
            && a matches QueryAnswer::Participants(resp) && participants_view(*store, resp)),
{
    match msg {
        QueryMsg::GetCurrentGame {  } => match query_current_game(store) {
            Ok(resp) => Ok(QueryAnswer::CurrentGame(resp)),
            Err(e) => Err(e),
        },
        QueryMsg::GetParticipants {  } => match query_current_participants(store) {
            Ok(resp) => Ok(QueryAnswer::Participants(resp)),
            Err(e) => Err(e),
        },
    }
}

} // verus!
