// SPDX-License-Identifier: GPL-2.0

//! What holds of whole sessions.
//!
//! A session is fresh while its offset is zero and exhausted from then on.
//! The host keeps each session's offset and moves it on by what a read
//! wrote. Here a session is the list of the reads it makes; its outcomes
//! follow from `read_outcome`, which is what `RustFile::read` promises of
//! every single call.

use crate::device::{buffer_after, read_count, read_outcome};
use crate::error::Error;
use crate::selection::selected_index;
use crate::table::valid_table;
use vstd::prelude::*;

verus! {

/// One read as the host issues it: the length of the reader's buffer, and
/// what the random source gives if the read asks it.
pub struct Request {
    pub capacity: nat,
    pub draw: Option<u8>,
}

/// One read in a run of several sessions: the session that reads, and what
/// it asks.
pub struct Turn {
    pub session: nat,
    pub request: Request,
}

/// The offset that the host holds after a read at `offset`.
pub open spec fn next_offset(offset: nat, outcome: Result<Seq<u8>, Error>) -> nat {
    match outcome {
        Ok(bytes) => offset + bytes.len(),
        Err(_) => offset,
    }
}

/// The outcomes of a session's reads, in order, for a host that starts at
/// `offset`.
pub open spec fn session_outcomes(facts: Seq<Seq<u8>>, offset: nat, requests: Seq<Request>) -> Seq<
    Result<Seq<u8>, Error>,
>
    decreases requests.len(),
{
    if requests.len() == 0 {
        Seq::empty()
    } else {
        let outcome = read_outcome(facts, requests[0].capacity, offset, requests[0].draw);
        seq![outcome] + session_outcomes(
            facts,
            next_offset(offset, outcome),
            requests.drop_first(),
        )
    }
}

/// The requests that `session` makes in a run, in order.
pub open spec fn requests_of(turns: Seq<Turn>, session: nat) -> Seq<Request>
    decreases turns.len(),
{
    if turns.len() == 0 {
        Seq::empty()
    } else if turns[0].session == session {
        seq![turns[0].request] + requests_of(turns.drop_first(), session)
    } else {
        requests_of(turns.drop_first(), session)
    }
}

/// The offsets that the host holds after the read of `turn` with `outcome`:
/// only the offset of the session that read has moved.
pub open spec fn offsets_after(
    offsets: spec_fn(nat) -> nat,
    turn: Turn,
    outcome: Result<Seq<u8>, Error>,
) -> spec_fn(nat) -> nat {
    |s: nat|
        if s == turn.session {
            next_offset(offsets(s), outcome)
        } else {
            offsets(s)
        }
}

/// The outcomes that `session` sees when the reads of all sessions run in
/// the order of `turns`, the host holding the offset `offsets(s)` for each
/// session `s`.
pub open spec fn interleaved_outcomes(
    facts: Seq<Seq<u8>>,
    offsets: spec_fn(nat) -> nat,
    turns: Seq<Turn>,
    session: nat,
) -> Seq<Result<Seq<u8>, Error>>
    decreases turns.len(),
{
    if turns.len() == 0 {
        Seq::empty()
    } else {
        let turn = turns[0];
        let outcome = read_outcome(
            facts,
            turn.request.capacity,
            offsets(turn.session),
            turn.request.draw,
        );
        let rest = interleaved_outcomes(
            facts,
            offsets_after(offsets, turn, outcome),
            turns.drop_first(),
            session,
        );
        if turn.session == session {
            seq![outcome] + rest
        } else {
            rest
        }
    }
}

/// Whether `bytes` are one whole fact of the table.
pub open spec fn is_entry(facts: Seq<Seq<u8>>, bytes: Seq<u8>) -> bool {
    exists|i: int| 0 <= i < facts.len() && #[trigger] facts[i] == bytes
}

/// Whether every read before the one at `k` has failed.
pub open spec fn none_succeeded_before(outcomes: Seq<Result<Seq<u8>, Error>>, k: int) -> bool {
    forall|j: int| 0 <= j < k ==> (#[trigger] outcomes[j]) is Err
}

/// A read at offset zero into a buffer that holds the longest fact, with a
/// random source that answers, hands over one entry of the table, the one
/// that the drawn byte selects: it returns the entry's length, and the
/// buffer then starts with the entry's bytes.
pub proof fn lemma_roomy_read_gives_an_entry(facts: Seq<Seq<u8>>, before: Seq<u8>, draw: u8)
    requires
        valid_table(facts),
        before.len() <= usize::MAX,
        forall|i: int| 0 <= i < facts.len() ==> (#[trigger] facts[i]).len() <= before.len(),
    ensures
        ({
            let entry = facts[selected_index(draw, facts.len())];
            let outcome = read_outcome(facts, before.len(), 0, Some(draw));
            &&& 0 <= selected_index(draw, facts.len()) < facts.len()
            &&& outcome == Ok::<Seq<u8>, Error>(entry)
            &&& read_count(outcome) == Ok::<usize, Error>(entry.len() as usize)
            &&& entry.len() as usize == entry.len()
            &&& buffer_after(before, outcome).len() == before.len()
            &&& buffer_after(before, outcome).take(entry.len() as int) == entry
        }),
{
    let entry = facts[selected_index(draw, facts.len())];
    assert(entry.len() <= before.len());
    assert((entry + before.skip(entry.len() as int)).take(entry.len() as int) =~= entry);
}

/// How one read moves a session. An exhausted session stays where it is
/// and is handed nothing. A fresh session stays fresh when the read fails,
/// and is exhausted when the read succeeds, which hands over one whole fact.
/// No read makes a session fresh again.
pub proof fn lemma_read_never_refreshes(
    facts: Seq<Seq<u8>>,
    capacity: nat,
    offset: nat,
    draw: Option<u8>,
)
    requires
        valid_table(facts),
    ensures
        ({
            let outcome = read_outcome(facts, capacity, offset, draw);
            let moved = next_offset(offset, outcome);
            &&& offset != 0 ==> outcome == Ok::<Seq<u8>, Error>(Seq::empty()) && moved == offset
            &&& offset == 0 && outcome is Err ==> moved == 0
            &&& offset == 0 && outcome is Ok ==> moved != 0 && is_entry(facts, outcome->Ok_0)
        }),
{
    if offset == 0 && draw is Some {
        let i = selected_index(draw->Some_0, facts.len());
        assert(facts[i].len() > 0);
    }
}

/// An exhausted session stays exhausted: past offset zero every read hands
/// over no bytes, whatever it asks, whatever the random source would give
/// and however many reads went before.
pub proof fn lemma_exhausted_session_stays_empty(
    facts: Seq<Seq<u8>>,
    offset: nat,
    requests: Seq<Request>,
)
    requires
        offset != 0,
    ensures
        session_outcomes(facts, offset, requests).len() == requests.len(),
        forall|k: int|
            0 <= k < requests.len() ==> #[trigger] session_outcomes(facts, offset, requests)[k]
                == Ok::<Seq<u8>, Error>(Seq::empty()),
    decreases requests.len(),
{
    if requests.len() > 0 {
        lemma_exhausted_session_stays_empty(facts, offset, requests.drop_first());
    }
}

/// A fresh session hands over exactly one fact, if any: the first read that
/// succeeds hands over one whole fact of the table and exhausts the
/// session, and every read after it hands over no bytes.
pub proof fn lemma_session_hands_over_one_fact(facts: Seq<Seq<u8>>, requests: Seq<Request>)
    requires
        valid_table(facts),
    ensures
        session_outcomes(facts, 0, requests).len() == requests.len(),
        forall|k: int|
            0 <= k < requests.len() && (#[trigger] session_outcomes(facts, 0, requests)[k]) is Ok
                && none_succeeded_before(session_outcomes(facts, 0, requests), k) ==> is_entry(
                facts,
                session_outcomes(facts, 0, requests)[k]->Ok_0,
            ),
        forall|j: int, k: int|
            0 <= j < k < requests.len() && (#[trigger] session_outcomes(facts, 0, requests)[j])
                is Ok ==> #[trigger] session_outcomes(facts, 0, requests)[k] == Ok::<
                Seq<u8>,
                Error,
            >(Seq::empty()),
    decreases requests.len(),
{
    if requests.len() > 0 {
        let outcomes = session_outcomes(facts, 0, requests);
        let head = read_outcome(facts, requests[0].capacity, 0, requests[0].draw);
        let rest = requests.drop_first();
        assert(outcomes[0] == head);
        match head {
            Ok(bytes) => {
                // The first read succeeded: it wrote a fact, which has at
                // least one byte, so the rest of the session is exhausted.
                let i = selected_index(requests[0].draw->Some_0, facts.len());
                assert(facts[i] == bytes && 0 <= i < facts.len());
                lemma_exhausted_session_stays_empty(facts, bytes.len(), rest);
                let tail = session_outcomes(facts, bytes.len(), rest);
                assert forall|j: int, k: int|
                    0 <= j < k < requests.len() && (#[trigger] outcomes[j]) is Ok implies #[trigger] outcomes[k]
                    == Ok::<Seq<u8>, Error>(Seq::empty()) by {
                    assert(outcomes[k] == tail[k - 1]);
                }
                assert forall|k: int|
                    0 <= k < requests.len() && (#[trigger] outcomes[k]) is Ok
                        && none_succeeded_before(outcomes, k) implies is_entry(
                    facts,
                    outcomes[k]->Ok_0,
                ) by {
                    if k > 0 {
                        assert(outcomes[0] is Err);
                    }
                }
            },
            Err(_) => {
                // The first read failed: the session is as fresh as before.
                lemma_session_hands_over_one_fact(facts, rest);
                let tail = session_outcomes(facts, 0, rest);
                assert forall|j: int, k: int|
                    0 <= j < k < requests.len() && (#[trigger] outcomes[j]) is Ok implies #[trigger] outcomes[k]
                    == Ok::<Seq<u8>, Error>(Seq::empty()) by {
                    assert(outcomes[j] == tail[j - 1]);
                    assert(outcomes[k] == tail[k - 1]);
                }
                assert forall|k: int|
                    0 <= k < requests.len() && (#[trigger] outcomes[k]) is Ok
                        && none_succeeded_before(outcomes, k) implies is_entry(
                    facts,
                    outcomes[k]->Ok_0,
                ) by {
                    assert(outcomes[k] == tail[k - 1]);
                    assert forall|j: int| 0 <= j < k - 1 implies (#[trigger] tail[j]) is Err by {
                        assert(outcomes[j + 1] == tail[j]);
                    }
                }
            },
        }
    }
}

/// Sessions do not see each other: in whatever order the reads of several
/// sessions run, each session sees the outcomes that it would see if its
/// reads ran alone.
pub proof fn lemma_sessions_are_isolated(
    facts: Seq<Seq<u8>>,
    offsets: spec_fn(nat) -> nat,
    turns: Seq<Turn>,
    session: nat,
)
    ensures
        interleaved_outcomes(facts, offsets, turns, session) == session_outcomes(
            facts,
            offsets(session),
            requests_of(turns, session),
        ),
    decreases turns.len(),
{
    if turns.len() > 0 {
        let turn = turns[0];
        let outcome = read_outcome(
            facts,
            turn.request.capacity,
            offsets(turn.session),
            turn.request.draw,
        );
        lemma_sessions_are_isolated(
            facts,
            offsets_after(offsets, turn, outcome),
            turns.drop_first(),
            session,
        );
        if turn.session == session {
            let requests = requests_of(turns, session);
            assert(requests[0] == turn.request);
            assert(requests.drop_first() =~= requests_of(turns.drop_first(), session));
        }
    }
}

} // verus!
