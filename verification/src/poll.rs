//! Poll projection: turns the engine's poll results into the external
//! poll model, counting votes per answer, marking the user's own
//! selections, and flagging the winners of an ended poll.

use vstd::prelude::*;

use crate::util::eq_str;

verus! {

/// Whether a poll discloses votes while open.
#[derive(Clone, Copy, Debug, PartialEq, Eq, Structural)]
pub enum PollKind {
    Disclosed,
    Undisclosed,
}

/// One answer of the external poll model.
#[derive(Clone, Debug)]
pub struct PollOption {
    pub id: String,
    pub text: String,
    pub votes: u32,
    pub is_selected: bool,
    pub is_winner: bool,
}

/// The external poll model delivered inside a message event.
#[derive(Clone, Debug)]
pub struct PollData {
    pub question: String,
    pub kind: PollKind,
    pub max_selections: u32,
    pub options: Vec<PollOption>,
    pub total_votes: u32,
    pub is_ended: bool,
}

/// One answer the poll offers, as the engine reports it.
#[derive(Clone, Debug)]
pub struct PollAnswerData {
    pub id: String,
    pub text: String,
}

/// The voters one answer collected, as the engine reports them.
#[derive(Clone, Debug)]
pub struct VoteData {
    pub answer_id: String,
    pub voters: Vec<String>,
}

/// The engine's poll state, reduced to plain values.
#[derive(Clone, Debug)]
pub struct PollStateData {
    pub question: String,
    pub answers: Vec<PollAnswerData>,
    pub votes: Vec<VoteData>,
    pub is_ended: bool,
    pub kind: PollKind,
    pub max_selections: u64,
}

/// The number of votes recorded for this answer (zero when no entry).
pub open spec fn spec_votes_for(votes: Seq<VoteData>, id: Seq<char>) -> nat
    decreases votes.len(),
{
    if votes.len() == 0 {
        0
    } else if votes[0].answer_id@ == id {
        votes[0].voters@.len()
    } else {
        spec_votes_for(votes.drop_first(), id)
    }
}

/// Whether the user voted for this answer.
pub open spec fn spec_voted_for(votes: Seq<VoteData>, id: Seq<char>, me: Seq<char>) -> bool
    decreases votes.len(),
{
    if votes.len() == 0 {
        false
    } else if votes[0].answer_id@ == id {
        exists|k: int| 0 <= k < votes[0].voters@.len() && (#[trigger] votes[0].voters@[k])@ == me
    } else {
        spec_voted_for(votes.drop_first(), id, me)
    }
}

/// All votes cast, over every answer.
pub open spec fn spec_total_votes(votes: Seq<VoteData>) -> nat
    decreases votes.len(),
{
    if votes.len() == 0 {
        0
    } else {
        votes[0].voters@.len() + spec_total_votes(votes.drop_first())
    }
}

/// The largest vote count any answer collected.
pub open spec fn spec_max_votes(votes: Seq<VoteData>) -> nat
    decreases votes.len(),
{
    if votes.len() == 0 {
        0
    } else {
        let rest = spec_max_votes(votes.drop_first());
        if votes[0].voters@.len() >= rest {
            votes[0].voters@.len()
        } else {
            rest
        }
    }
}

/// The winner threshold: the largest count when the poll has ended, zero
/// while it is open (an open poll has no winners).
pub open spec fn spec_winning_count(p: PollStateData) -> nat {
    if p.is_ended {
        spec_max_votes(p.votes@)
    } else {
        0
    }
}

/// What one answer projects to.
pub open spec fn spec_option_of(p: PollStateData, a: PollAnswerData, me: Seq<char>) -> PollOption {
    let count = spec_votes_for(p.votes@, a.id@);
    PollOption {
        id: a.id,
        text: a.text,
        votes: count as u32,
        is_selected: spec_voted_for(p.votes@, a.id@, me),
        is_winner: p.is_ended && count > 0 && count == spec_winning_count(p),
    }
}

/// Well-formedness of the engine's poll state for projection: one vote
/// entry per answer, and counts that fit the external model's fields.
pub open spec fn poll_state_wf(p: PollStateData) -> bool {
    &&& forall|i: int, j: int|
        0 <= i < j < p.votes@.len() ==> (#[trigger] p.votes@[i]).answer_id@ != (
        #[trigger] p.votes@[j]).answer_id@
    &&& spec_total_votes(p.votes@) <= u32::MAX
    &&& p.max_selections <= u32::MAX
}

/// Whether the external model is the projection of the engine's state.
pub open spec fn poll_data_matches(d: PollData, p: PollStateData, me: Seq<char>) -> bool {
    &&& d.question == p.question
    &&& d.kind == p.kind
    &&& d.max_selections == p.max_selections as u32
    &&& d.is_ended == p.is_ended
    &&& d.total_votes == spec_total_votes(p.votes@) as u32
    &&& d.options@.len() == p.answers@.len()
    &&& forall|i: int|
        0 <= i < p.answers@.len() ==> d.options@[i] == spec_option_of(
            p,
            #[trigger] p.answers@[i],
            me,
        )
}

/// Any one answer's count is no more than the total over all answers.
proof fn lemma_votes_for_le_total(votes: Seq<VoteData>, id: Seq<char>)
    ensures
        spec_votes_for(votes, id) <= spec_total_votes(votes),
    decreases votes.len(),
{
    if votes.len() > 0 {
        lemma_votes_for_le_total(votes.drop_first(), id);
    }
}

/// The number of votes recorded for this answer.
fn votes_for(votes: &Vec<VoteData>, id: &str) -> (n: usize)
    ensures
        n == spec_votes_for(votes@, id@),
{
    let m: usize = votes.len();
    let mut i: usize = 0;
    proof {
        assert(votes@.skip(0) =~= votes@);
    }
    while i < m
        invariant
            m == votes.len(),
            i <= m,
            spec_votes_for(votes@, id@) == spec_votes_for(votes@.skip(i as int), id@),
        decreases m - i,
    {
        proof {
            assert(votes@.skip(i as int)[0] == votes@[i as int]);
            assert(votes@.skip(i as int).drop_first() =~= votes@.skip(i + 1));
        }
        if eq_str(votes[i].answer_id.as_str(), id) {
            return votes[i].voters.len();
        }
        i = i + 1;
    }
    0
}

/// Whether the user voted for this answer.
fn voted_for(votes: &Vec<VoteData>, id: &str, me: &str) -> (r: bool)
    ensures
        r == spec_voted_for(votes@, id@, me@),
{
    let m: usize = votes.len();
    let mut i: usize = 0;
    proof {
        assert(votes@.skip(0) =~= votes@);
    }
    while i < m
        invariant
            m == votes.len(),
            i <= m,
            spec_voted_for(votes@, id@, me@) == spec_voted_for(votes@.skip(i as int), id@, me@),
        decreases m - i,
    {
        proof {
            assert(votes@.skip(i as int)[0] == votes@[i as int]);
            assert(votes@.skip(i as int).drop_first() =~= votes@.skip(i + 1));
        }
        if eq_str(votes[i].answer_id.as_str(), id) {
            return contains_str(&votes[i].voters, me);
        }
        i = i + 1;
    }
    false
}

/// Whether the list holds this string.
fn contains_str(v: &Vec<String>, needle: &str) -> (r: bool)
    ensures
        r == exists|k: int| 0 <= k < v@.len() && (#[trigger] v@[k])@ == needle@,
{
    let n: usize = v.len();
    let mut k: usize = 0;
    while k < n
        invariant
            n == v.len(),
            k <= n,
            forall|w: int| 0 <= w < k ==> (#[trigger] v@[w])@ != needle@,
        decreases n - k,
    {
        if eq_str(v[k].as_str(), needle) {
            return true;
        }
        k = k + 1;
    }
    false
}

/// All votes cast, over every answer.
fn total_votes(votes: &Vec<VoteData>) -> (n: u32)
    requires
        spec_total_votes(votes@) <= u32::MAX,
    ensures
        n == spec_total_votes(votes@),
{
    let m: usize = votes.len();
    let mut acc: u32 = 0;
    let mut i: usize = 0;
    proof {
        assert(votes@.skip(0) =~= votes@);
    }
    while i < m
        invariant
            m == votes.len(),
            i <= m,
            spec_total_votes(votes@) <= u32::MAX,
            acc + spec_total_votes(votes@.skip(i as int)) == spec_total_votes(votes@),
        decreases m - i,
    {
        proof {
            assert(votes@.skip(i as int)[0] == votes@[i as int]);
            assert(votes@.skip(i as int).drop_first() =~= votes@.skip(i + 1));
        }
        let len: usize = votes[i].voters.len();
        acc = acc + (len as u32);
        i = i + 1;
    }
    proof {
        assert(spec_total_votes(votes@.skip(m as int)) == 0);
    }
    acc
}

/// The largest vote count any answer collected.
fn max_votes(votes: &Vec<VoteData>) -> (n: usize)
    ensures
        n == spec_max_votes(votes@),
{
    let m: usize = votes.len();
    let mut acc: usize = 0;
    let mut i: usize = 0;
    proof {
        assert(votes@.skip(0) =~= votes@);
    }
    while i < m
        invariant
            m == votes.len(),
            i <= m,
            spec_max_votes(votes@) == (if acc >= spec_max_votes(votes@.skip(i as int)) {
                acc as nat
            } else {
                spec_max_votes(votes@.skip(i as int))
            }),
        decreases m - i,
    {
        proof {
            assert(votes@.skip(i as int)[0] == votes@[i as int]);
            assert(votes@.skip(i as int).drop_first() =~= votes@.skip(i + 1));
        }
        let len: usize = votes[i].voters.len();
        if len > acc {
            acc = len;
        }
        i = i + 1;
    }
    acc
}

/// Projects the engine's poll state into the external poll model for the
/// given user. Vote counts fit the model's fields by the well-formedness
/// bound.
pub fn map_poll_state(state: &PollStateData, me: &str) -> (d: PollData)
    requires
        poll_state_wf(*state),
    ensures
        poll_data_matches(d, *state, me@),
{
    let total = total_votes(&state.votes);
    let winning: usize = if state.is_ended {
        max_votes(&state.votes)
    } else {
        0
    };
    proof {
        assert(winning == spec_winning_count(*state));
    }
    let an: usize = state.answers.len();
    let mut options: Vec<PollOption> = Vec::new();
    let mut i: usize = 0;
    while i < an
        invariant
            an == state.answers.len(),
            i <= an,
            poll_state_wf(*state),
            winning == spec_winning_count(*state),
            options@.len() == i,
            forall|w: int|
                0 <= w < i ==> options@[w] == spec_option_of(
                    *state,
                    #[trigger] state.answers@[w],
                    me@,
                ),
        decreases an - i,
    {
        let a = &state.answers[i];
        let count = votes_for(&state.votes, a.id.as_str());
        proof {
            lemma_votes_for_le_total(state.votes@, a.id@);
        }
        let selected = voted_for(&state.votes, a.id.as_str(), me);
        options.push(
            PollOption {
                id: a.id.clone(),
                text: a.text.clone(),
                votes: count as u32,
                is_selected: selected,
                is_winner: state.is_ended && count > 0 && count == winning,
            },
        );
        i = i + 1;
    }
    PollData {
        question: state.question.clone(),
        kind: state.kind,
        max_selections: state.max_selections as u32,
        options,
        total_votes: total,
        is_ended: state.is_ended,
    }
}


/// A poll to start, as the consumer describes it.
#[derive(Clone, Debug)]
pub struct PollDefinition {
    pub question: String,
    pub answers: Vec<String>,
    pub kind: PollKind,
    pub max_selections: u32,
}

/// The identifier given to the answer at one position: the letters of the
/// alphabet onward from `a`.
pub open spec fn spec_answer_id(idx: int) -> Seq<char> {
    seq![((97 + idx) as u8) as char]
}

/// The stable identifiers given to a new poll's answers, paired with their
/// labels: `a`, `b`, `c`, and so on by position.
pub fn build_poll_answers(def: &PollDefinition) -> (r: Vec<PollAnswerData>)
    requires
        def.answers@.len() <= 158,
    ensures
        r@.len() == def.answers@.len(),
        forall|j: int|
            0 <= j < r@.len() ==> (#[trigger] r@[j]).id@ == spec_answer_id(j) && r@[j].text
                == def.answers@[j],
{
    let n: usize = def.answers.len();
    let mut r: Vec<PollAnswerData> = Vec::new();
    let mut i: usize = 0;
    while i < n
        invariant
            n == def.answers.len(),
            n <= 158,
            i <= n,
            r@.len() == i,
            forall|j: int|
                0 <= j < i ==> (#[trigger] r@[j]).id@ == spec_answer_id(j) && r@[j].text
                    == def.answers@[j],
        decreases n - i,
    {
        let b: u8 = 97 + (i as u8);
        let c: char = b as char;
        let mut id = String::new();
        crate::util::push_char(&mut id, c);
        proof {
            assert(id@ =~= spec_answer_id(i as int));
        }
        r.push(PollAnswerData { id, text: def.answers[i].clone() });
        i = i + 1;
    }
    r
}

/// How many selections a started poll allows: at least one.
pub fn poll_max_selections(def: &PollDefinition) -> (r: u32)
    ensures
        r == (if def.max_selections >= 1 {
            def.max_selections
        } else {
            1u32
        }),
{
    if def.max_selections >= 1 {
        def.max_selections
    } else {
        1
    }
}


/// Whether some later entry repeats this answer identifier.
fn vote_id_from(votes: &Vec<VoteData>, start: usize, id: &str) -> (r: bool)
    requires
        start <= votes.len(),
    ensures
        r == exists|j: int|
            start <= j < votes@.len() && (#[trigger] votes@[j]).answer_id@ == id@,
{
    let n: usize = votes.len();
    let mut j: usize = start;
    while j < n
        invariant
            n == votes.len(),
            start <= j <= n,
            forall|w: int| start <= w < j ==> (#[trigger] votes@[w]).answer_id@ != id@,
        decreases n - j,
    {
        if eq_str(votes[j].answer_id.as_str(), id) {
            return true;
        }
        j = j + 1;
    }
    false
}

/// Whether every vote entry has its own answer identifier.
fn vote_ids_unique(votes: &Vec<VoteData>) -> (r: bool)
    ensures
        r == forall|i: int, j: int|
            0 <= i < j < votes@.len() ==> (#[trigger] votes@[i]).answer_id@ != (
            #[trigger] votes@[j]).answer_id@,
{
    let n: usize = votes.len();
    let mut i: usize = 0;
    while i < n
        invariant
            n == votes.len(),
            i <= n,
            forall|a: int, b: int|
                0 <= a < i && a < b < votes@.len() ==> (#[trigger] votes@[a]).answer_id@ != (
                #[trigger] votes@[b]).answer_id@,
        decreases n - i,
    {
        if vote_id_from(votes, i + 1, votes[i].answer_id.as_str()) {
            return false;
        }
        i = i + 1;
    }
    true
}

/// Whether the total vote count fits the external model's counter.
fn total_fits(votes: &Vec<VoteData>) -> (r: bool)
    ensures
        r == (spec_total_votes(votes@) <= u32::MAX),
{
    let n: usize = votes.len();
    let mut acc: u64 = 0;
    let mut i: usize = 0;
    proof {
        assert(votes@.skip(0) =~= votes@);
    }
    while i < n
        invariant
            n == votes.len(),
            i <= n,
            acc <= u32::MAX,
            spec_total_votes(votes@) == acc + spec_total_votes(votes@.skip(i as int)),
        decreases n - i,
    {
        proof {
            assert(votes@.skip(i as int)[0] == votes@[i as int]);
            assert(votes@.skip(i as int).drop_first() =~= votes@.skip(i + 1));
        }
        let len: usize = votes[i].voters.len();
        if len as u64 > u32::MAX as u64 {
            return false;
        }
        if acc + (len as u64) > u32::MAX as u64 {
            return false;
        }
        acc = acc + (len as u64);
        i = i + 1;
    }
    proof {
        assert(spec_total_votes(votes@.skip(n as int)) == 0);
    }
    true
}

/// Whether the engine's poll state satisfies the projection's bounds, so
/// an unverified caller can test before projecting.
pub fn poll_state_ok(p: &PollStateData) -> (r: bool)
    ensures
        r == poll_state_wf(*p),
{
    vote_ids_unique(&p.votes) && total_fits(&p.votes) && p.max_selections <= u32::MAX as u64
}

} // verus!
