//! The score board: the best runs, best first.
//!
//! Reading the board from disk and writing it back is the host's part. What a
//! score must be to get on the board, where it goes and what falls off is
//! decided here.

use vstd::prelude::*;

verus! {

/// How many entries the board keeps.
pub const MAX_ENTRIES: usize = 5;

/// The name under which the host records a run.
pub const PLAYER_NAME: &'static str = "PLAYER";

/// One line of the board.
#[derive(Debug, Clone)]
pub struct ScoreEntry {
    pub name: String,
    pub score: u32,
}

/// The board itself, best score first once it has been added to.
#[derive(Debug)]
pub struct Leaderboard {
    pub entries: Vec<ScoreEntry>,
}

/// Where an entry with the given score goes into a list: right behind the last
/// entry that scores at least as much, or to the front if there is none.
pub open spec fn slot_for(entries: Seq<ScoreEntry>, score: u32) -> int
    decreases entries.len(),
{
    if entries.len() == 0 {
        0
    } else if entries.last().score >= score {
        entries.len() as int
    } else {
        slot_for(entries.drop_last(), score)
    }
}

/// The list with one more entry, put in at its slot.
pub open spec fn insert_ranked(entries: Seq<ScoreEntry>, entry: ScoreEntry) -> Seq<ScoreEntry> {
    entries.insert(slot_for(entries, entry.score), entry)
}

/// The entries ordered by score, highest first, entries of equal score in the
/// order they had: each entry in turn is put into the ranking of those before
/// it.
pub open spec fn ranked(entries: Seq<ScoreEntry>) -> Seq<ScoreEntry>
    decreases entries.len(),
{
    if entries.len() == 0 {
        entries
    } else {
        insert_ranked(ranked(entries.drop_last()), entries.last())
    }
}

/// The first `MAX_ENTRIES` entries, or all of them if there are fewer.
pub open spec fn top(entries: Seq<ScoreEntry>) -> Seq<ScoreEntry> {
    if entries.len() <= MAX_ENTRIES {
        entries
    } else {
        entries.take(MAX_ENTRIES as int)
    }
}

/// The score gets on the board: there is room left, or it beats an entry.
pub open spec fn qualifies(entries: Seq<ScoreEntry>, score: u32) -> bool {
    entries.len() < MAX_ENTRIES || exists|i: int|
        0 <= i < entries.len() && score > (#[trigger] entries[i]).score
}

/// No entry is followed by one with a higher score.
pub open spec fn is_ranked(entries: Seq<ScoreEntry>) -> bool {
    forall|i: int, j: int|
        0 <= i < j < entries.len() ==> (#[trigger] entries[i]).score >= (
        #[trigger] entries[j]).score
}

/// The slot lies within the list, everything from it on scores less, and the
/// entry just before it does not.
pub proof fn lemma_slot_for(entries: Seq<ScoreEntry>, score: u32)
    ensures
        0 <= slot_for(entries, score) <= entries.len(),
        forall|j: int|
            slot_for(entries, score) <= j < entries.len() ==> (#[trigger] entries[j]).score
                < score,
        slot_for(entries, score) > 0 ==> entries[slot_for(entries, score) - 1].score >= score,
    decreases entries.len(),
{
    if entries.len() > 0 && entries.last().score < score {
        let shorter = entries.drop_last();
        lemma_slot_for(shorter, score);
        assert forall|j: int| slot_for(entries, score) <= j < entries.len() implies (
        #[trigger] entries[j]).score < score by {
            if j < shorter.len() {
                assert(entries[j] == shorter[j]);
            }
        }
    }
}

/// A place with the two properties of the slot is the slot.
pub proof fn lemma_slot_is_unique(entries: Seq<ScoreEntry>, score: u32, slot: int)
    requires
        0 <= slot <= entries.len(),
        forall|j: int| slot <= j < entries.len() ==> (#[trigger] entries[j]).score < score,
        slot > 0 ==> entries[slot - 1].score >= score,
    ensures
        slot == slot_for(entries, score),
    decreases entries.len(),
{
    if entries.len() > 0 && entries.last().score < score {
        lemma_slot_is_unique(entries.drop_last(), score, slot);
    }
}

/// Ranking neither adds nor drops entries.
pub proof fn lemma_ranked_len(entries: Seq<ScoreEntry>)
    ensures
        ranked(entries).len() == entries.len(),
    decreases entries.len(),
{
    if entries.len() > 0 {
        let before = ranked(entries.drop_last());
        lemma_ranked_len(entries.drop_last());
        lemma_slot_for(before, entries.last().score);
    }
}

/// The entries with exactly the given score.
pub open spec fn scoring(score: u32) -> spec_fn(ScoreEntry) -> bool {
    |entry: ScoreEntry| entry.score == score
}

/// One more entry put into a ranked list leaves the list ranked.
proof fn lemma_insert_keeps_ranked(entries: Seq<ScoreEntry>, entry: ScoreEntry)
    requires
        is_ranked(entries),
    ensures
        is_ranked(insert_ranked(entries, entry)),
{
    lemma_slot_for(entries, entry.score);
}

/// A ranking is ranked: no entry is followed by one with a higher score.
pub proof fn lemma_ranked_is_ranked(entries: Seq<ScoreEntry>)
    ensures
        is_ranked(ranked(entries)),
    decreases entries.len(),
{
    if entries.len() > 0 {
        lemma_ranked_is_ranked(entries.drop_last());
        lemma_insert_keeps_ranked(ranked(entries.drop_last()), entries.last());
    }
}

/// A ranking holds the entries it was made from, each as often as it came.
pub proof fn lemma_ranked_is_permutation(entries: Seq<ScoreEntry>)
    ensures
        ranked(entries).to_multiset() == entries.to_multiset(),
    decreases entries.len(),
{
    broadcast use vstd::seq_lib::group_to_multiset_ensures;

    if entries.len() > 0 {
        let before = ranked(entries.drop_last());
        lemma_ranked_is_permutation(entries.drop_last());
        lemma_slot_for(before, entries.last().score);
        assert(entries =~= entries.drop_last().push(entries.last()));
    }
}

/// A ranking is stable: entries of equal score stand in the order they came.
pub proof fn lemma_ranked_is_stable(entries: Seq<ScoreEntry>, score: u32)
    ensures
        ranked(entries).filter(scoring(score)) == entries.filter(scoring(score)),
    decreases entries.len(),
{
    if entries.len() > 0 {
        let last = entries.last();
        let before = ranked(entries.drop_last());
        let slot: int = slot_for(before, last.score);
        let front = before.take(slot);
        let back = before.skip(slot);
        lemma_ranked_is_stable(entries.drop_last(), score);
        lemma_slot_for(before, last.score);
        assert(before =~= front + back);
        Seq::filter_distributes_over_add(front, back, scoring(score));
        Seq::filter_distributes_over_add(front.push(last), back, scoring(score));
        front.lemma_filter_push(last, scoring(score));
        entries.drop_last().lemma_filter_push(last, scoring(score));
        assert(entries =~= entries.drop_last().push(last));
        if last.score == score {
            // Everything behind the slot scores less, so none of it passes.
            lemma_filter_nothing(back, scoring(score));
        }
    }
}

/// Filtering leaves nothing of a list in which no entry passes.
proof fn lemma_filter_nothing(entries: Seq<ScoreEntry>, pass: spec_fn(ScoreEntry) -> bool)
    requires
        forall|i: int| 0 <= i < entries.len() ==> !pass(#[trigger] entries[i]),
    ensures
        entries.filter(pass) == Seq::<ScoreEntry>::empty(),
    decreases entries.len(),
{
    reveal(Seq::filter);
    if entries.len() > 0 {
        lemma_filter_nothing(entries.drop_last(), pass);
    }
}

/// Ranking a ranked list changes nothing.
pub proof fn lemma_ranked_of_ranked(entries: Seq<ScoreEntry>)
    requires
        is_ranked(entries),
    ensures
        ranked(entries) == entries,
    decreases entries.len(),
{
    if entries.len() > 0 {
        lemma_ranked_of_ranked(entries.drop_last());
    }
}

/// On a list that is ranked already, one more entry simply takes its slot.
pub proof fn lemma_ranked_push(entries: Seq<ScoreEntry>, entry: ScoreEntry)
    requires
        is_ranked(entries),
    ensures
        ranked(entries.push(entry)) == insert_ranked(entries, entry),
{
    lemma_ranked_of_ranked(entries);
    assert(entries.push(entry).drop_last() =~= entries);
}

/// On a full board that is in order, a score qualifies exactly if it beats the
/// last entry.
pub proof fn lemma_qualifies_iff_beats_last(entries: Seq<ScoreEntry>, score: u32)
    requires
        is_ranked(entries),
        entries.len() >= MAX_ENTRIES,
    ensures
        qualifies(entries, score) <==> score > entries.last().score,
{
}

/// The two questions agree: on a full board that is in order, adding a score
/// that does not qualify leaves the board as it was, and a score that does
/// qualify is on the board afterwards, at its slot.
pub proof fn lemma_board_takes_what_qualifies(entries: Seq<ScoreEntry>, entry: ScoreEntry)
    requires
        is_ranked(entries),
        entries.len() == MAX_ENTRIES,
    ensures
        !qualifies(entries, entry.score) ==> top(insert_ranked(entries, entry)) == entries,
        qualifies(entries, entry.score) ==> {
            &&& slot_for(entries, entry.score) < MAX_ENTRIES
            &&& top(insert_ranked(entries, entry))[slot_for(entries, entry.score)] == entry
        },
{
    lemma_slot_for(entries, entry.score);
    if !qualifies(entries, entry.score) {
        lemma_slot_is_unique(entries, entry.score, entries.len() as int);
    }
}

impl Leaderboard {
    /// Puts a run on the board: the entry is added, the board is ordered by
    /// score, highest first and equal scores in the order they came, and only
    /// the first `MAX_ENTRIES` entries are kept.
    ///
    /// On a board that is in order already this means: the entry goes right
    /// behind the last entry that scores at least as much, and what is pushed
    /// beyond the last place falls off.
    pub fn add_score(&mut self, name: String, score: u32)
        ensures
            final(self).entries@ == top(
                ranked(old(self).entries@.push(ScoreEntry { name, score })),
            ),
            is_ranked(old(self).entries@) ==> final(self).entries@ == top(
                insert_ranked(old(self).entries@, ScoreEntry { name, score }),
            ),
            is_ranked(final(self).entries@),
            final(self).entries@.len() == if old(self).entries@.len() < MAX_ENTRIES {
                old(self).entries@.len() + 1
            } else {
                MAX_ENTRIES as nat
            },
    {
        let ghost entry = ScoreEntry { name, score };
        self.entries.push(ScoreEntry { name, score });
        rank_entries(&mut self.entries);
        proof {
            lemma_ranked_len(old(self).entries@.push(entry));
            lemma_ranked_is_ranked(old(self).entries@.push(entry));
            if is_ranked(old(self).entries@) {
                lemma_ranked_push(old(self).entries@, entry);
            }
        }
        self.entries.truncate(MAX_ENTRIES);
    }

    /// Tells whether a score gets on the board: it does while the board has
    /// room, and on a full board if it is higher than some entry.
    pub fn is_high_score(&self, score: u32) -> (high: bool)
        ensures
            high == qualifies(self.entries@, score),
    {
        if self.entries.len() < MAX_ENTRIES {
            return true;
        }
        let mut i: usize = 0;
        while i < self.entries.len()
            invariant
                i <= self.entries@.len(),
                forall|j: int| 0 <= j < i ==> score <= (#[trigger] self.entries@[j]).score,
            decreases self.entries@.len() - i,
        {
            if score > self.entries[i].score {
                return true;
            }
            i += 1;
        }
        false
    }

    /// Records a finished run if its score gets on the board, and tells
    /// whether it did. A score that does not qualify leaves the board as it is.
    pub fn submit(&mut self, name: String, score: u32) -> (recorded: bool)
        ensures
            recorded == qualifies(old(self).entries@, score),
            recorded ==> final(self).entries@ == top(
                ranked(old(self).entries@.push(ScoreEntry { name, score })),
            ),
            !recorded ==> final(self).entries@ == old(self).entries@,
    {
        if self.is_high_score(score) {
            self.add_score(name, score);
            true
        } else {
            false
        }
    }
}

/// Orders the entries by score, highest first, keeping entries of equal score
/// in the order they had.
fn rank_entries(entries: &mut Vec<ScoreEntry>)
    ensures
        final(entries)@ == ranked(old(entries)@),
{
    let ghost unranked = entries@;
    let count: usize = entries.len();
    let mut done: usize = 0;
    while done < count
        invariant
            count == unranked.len(),
            done <= count,
            entries@ == ranked(unranked.take(done as int)) + unranked.skip(done as int),
        decreases count - done,
    {
        let ghost before = ranked(unranked.take(done as int));
        let ghost rest = unranked.skip(done as int + 1);
        proof {
            lemma_ranked_len(unranked.take(done as int));
        }
        let entry = entries.remove(done);
        let mut slot: usize = done;
        while slot > 0 && entries[slot - 1].score < entry.score
            invariant
                slot <= done,
                before.len() == done,
                entries@ == before + rest,
                forall|j: int| slot <= j < done ==> (#[trigger] before[j]).score < entry.score,
            decreases slot,
        {
            slot -= 1;
        }
        proof {
            lemma_slot_is_unique(before, entry.score, slot as int);
            assert(unranked.take(done as int + 1).drop_last() =~= unranked.take(done as int));
            assert((before + rest).insert(slot as int, entry) =~= before.insert(
                slot as int,
                entry,
            ) + rest);
        }
        entries.insert(slot, entry);
        done += 1;
    }
    assert(unranked.take(count as int) =~= unranked);
}

} // verus!
