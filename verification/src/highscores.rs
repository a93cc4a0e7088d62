//! High score records, keyed by the exact gameplay options they were
//! achieved under.
use vstd::prelude::*;
use vstd::pervasive::VecAdditionalExecFns;
use crate::options::Options;

verus! {

/// One recorded high score: the options it was achieved under and the
/// score itself.  This is also the shape in which high scores are written
/// to and read from disk.
#[derive(Clone, Copy, Debug, PartialEq, Eq, Structural)]
pub struct HighScoreEntry {
    pub options: Options,
    pub score: u32,
}

/// What a list of entries records for `opts`: the score of the last entry
/// whose options equal `opts`, if any.
pub open spec fn spec_lookup(entries: Seq<HighScoreEntry>, opts: Options) -> Option<u32>
    decreases entries.len(),
{
    if entries.len() == 0 {
        None
    } else if entries.last().options == opts {
        Some(entries.last().score)
    } else {
        spec_lookup(entries.drop_last(), opts)
    }
}

/// A collection of the highest score achieved for various [`Options`]
/// values.
#[derive(Clone, Debug, PartialEq, Eq)]
pub struct HighScores {
    entries: Vec<HighScoreEntry>,
}

impl HighScores {
    pub closed spec fn spec_entries(self) -> Seq<HighScoreEntry> {
        self.entries@
    }

    /// The default path of the file in which high scores are stored, or
    /// `None` if the platform defines no data directory.
    pub fn default_path() -> (r: Option<String>)
        ensures
            r matches Some(s) ==> crate::paths::spec_ends_with(
                s@,
                "/ratsnake/highscores/arcade.json"@,
            ),
    {
        crate::paths::high_scores_file_path()
    }

    /// The recorded high score for `opts`, if any.
    pub open spec fn spec_get(self, opts: Options) -> Option<u32> {
        spec_lookup(self.spec_entries(), opts)
    }

    /// Each options value appears at most once, and every score is
    /// positive.
    pub open spec fn wf(self) -> bool {
        &&& forall|i: int, j: int|
            0 <= i < j < self.spec_entries().len() ==> self.spec_entries()[i].options
                != self.spec_entries()[j].options
        &&& forall|i: int|
            0 <= i < self.spec_entries().len() ==> (#[trigger] self.spec_entries()[i]).score
                >= 1
    }

    /// The high score, if any, recorded for the given options.
    pub fn get(&self, opts: Options) -> (r: Option<u32>)
        requires
            self.wf(),
        ensures
            r == self.spec_get(opts),
            r matches Some(s) ==> s >= 1,
    {
        let mut i: usize = 0;
        while i < self.entries.len()
            invariant
                i <= self.entries@.len(),
                forall|j: int| 0 <= j < i ==> (#[trigger] self.entries@[j]).options != opts,
                self.wf(),
            decreases self.entries@.len() - i,
        {
            let entry = self.entries[i];
            if entry.options == opts {
                proof {
                    lemma_lookup_found(self.entries@, opts, i as int);
                }
                return Some(entry.score);
            }
            i = i + 1;
        }
        proof {
            lemma_lookup_absent(self.entries@, opts);
        }
        None
    }

    /// Record `score` as the high score for `opts`.  No attempt is made to
    /// verify that `score` beats the previously recorded score.
    pub fn set(&mut self, opts: Options, score: u32)
        requires
            old(self).wf(),
            score >= 1,
        ensures
            final(self).wf(),
            final(self).spec_get(opts) == Some(score),
            forall|o: Options| o != opts ==> final(self).spec_get(o) == old(self).spec_get(o),
    {
        let mut i: usize = 0;
        while i < self.entries.len()
            invariant
                *self == *old(self),
                score >= 1,
                i <= self.entries@.len(),
                forall|j: int| 0 <= j < i ==> (#[trigger] self.entries@[j]).options != opts,
                self.wf(),
            decreases self.entries@.len() - i,
        {
            let current = self.entries[i];
            if current.options == opts {
                let entry = HighScoreEntry { options: opts, score };
                let ghost before = self.entries@;
                self.entries.set(i, entry);
                proof {
                    lemma_lookup_update(before, i as int, entry, opts);
                    assert forall|o: Options| o != opts implies spec_lookup(self.entries@, o)
                        == spec_lookup(before, o) by {
                        lemma_lookup_update(before, i as int, entry, o);
                    }
                    assert forall|a: int, b: int| 0 <= a < b < self.entries@.len()
                        implies self.entries@[a].options != self.entries@[b].options by {
                        if a != i && b != i {
                            assert(before[a].options != before[b].options);
                        } else if a == i {
                            assert(before[a].options != before[b].options);
                        } else {
                            assert(before[a].options != before[b].options);
                        }
                    }
                    assert forall|k: int| 0 <= k < self.entries@.len()
                        implies (#[trigger] self.entries@[k]).score >= 1 by {
                        if k != i {
                            assert(before[k].score >= 1);
                        }
                    }
                }
                return;
            }
            i = i + 1;
        }
        let ghost before = self.entries@;
        self.entries.push(HighScoreEntry { options: opts, score });
        proof {
            assert(self.entries@.drop_last() =~= before);
            assert forall|a: int, b: int| 0 <= a < b < self.entries@.len()
                implies self.entries@[a].options != self.entries@[b].options by {
                if b == self.entries@.len() - 1 {
                    assert(before[a].options != opts);
                } else {
                    assert(before[a].options != before[b].options);
                }
            }
            assert forall|k: int| 0 <= k < self.entries@.len()
                implies (#[trigger] self.entries@[k]).score >= 1 by {
                if k != self.entries@.len() - 1 {
                    assert(before[k].score >= 1);
                }
            }
        }
    }

    /// The recorded entries, as a list ready for serialization.
    pub fn to_json_array(&self) -> (r: Vec<HighScoreEntry>)
        ensures
            r@ == self.spec_entries(),
    {
        let mut v: Vec<HighScoreEntry> = Vec::new();
        let mut i: usize = 0;
        while i < self.entries.len()
            invariant
                i <= self.entries@.len(),
                v@ == self.entries@.take(i as int),
            decreases self.entries@.len() - i,
        {
            let ghost prev = v@;
            v.push(self.entries[i]);
            proof {
                assert(v@ =~= self.entries@.take(i + 1));
            }
            i = i + 1;
        }
        proof {
            assert(self.entries@.take(self.entries@.len() as int) =~= self.entries@);
        }
        v
    }

    /// Build a `HighScores` from a deserialized list of entries.  If the
    /// list names the same options twice, the later entry wins, as it
    /// would if the entries were replayed through [`HighScores::set`].
    pub fn from_json_array(array: Vec<HighScoreEntry>) -> (r: HighScores)
        requires
            forall|i: int| 0 <= i < array@.len() ==> (#[trigger] array@[i]).score >= 1,
        ensures
            r.wf(),
            forall|o: Options| #[trigger] r.spec_get(o) == spec_lookup(array@, o),
    {
        let mut hs = HighScores { entries: Vec::new() };
        let mut i: usize = 0;
        while i < array.len()
            invariant
                i <= array@.len(),
                hs.wf(),
                forall|i2: int| 0 <= i2 < array@.len() ==> (#[trigger] array@[i2]).score >= 1,
                forall|o: Options| #[trigger] hs.spec_get(o) == spec_lookup(
                    array@.take(i as int),
                    o,
                ),
            decreases array@.len() - i,
        {
            let entry = array[i];
            let ghost before = hs;
            hs.set(entry.options, entry.score);
            proof {
                assert(array@.take(i + 1) =~= array@.take(i as int).push(array@[i as int]));
                assert forall|o: Options| #[trigger] hs.spec_get(o) == spec_lookup(
                    array@.take(i + 1),
                    o,
                ) by {
                    let taken = array@.take(i + 1);
                    assert(taken.last() == array@[i as int]);
                    assert(taken.drop_last() =~= array@.take(i as int));
                    if o != entry.options {
                        assert(hs.spec_get(o) == before.spec_get(o));
                    }
                }
            }
            i = i + 1;
        }
        proof {
            assert(array@.take(array@.len() as int) =~= array@);
        }
        hs
    }
}

impl Default for HighScores {
    /// No scores recorded.
    fn default() -> (r: HighScores)
        ensures
            r.spec_entries() == Seq::<HighScoreEntry>::empty(),
            r.wf(),
            forall|o: Options| #[trigger] r.spec_get(o) is None,
    {
        HighScores { entries: Vec::new() }
    }
}

/// If entry `i` matches `opts` and no entry before `i` does, the lookup
/// returns entry `i`'s score.  With unique keys, the first match is also
/// the last.
proof fn lemma_lookup_found(entries: Seq<HighScoreEntry>, opts: Options, i: int)
    requires
        0 <= i < entries.len(),
        entries[i].options == opts,
        forall|a: int, b: int|
            0 <= a < b < entries.len() ==> entries[a].options != entries[b].options,
    ensures
        spec_lookup(entries, opts) == Some(entries[i].score),
    decreases entries.len(),
{
    if i == entries.len() - 1 {
    } else {
        assert(entries.last().options != opts);
        lemma_lookup_found(entries.drop_last(), opts, i);
    }
}

/// If no entry matches `opts`, the lookup returns nothing.
proof fn lemma_lookup_absent(entries: Seq<HighScoreEntry>, opts: Options)
    requires
        forall|j: int| 0 <= j < entries.len() ==> (#[trigger] entries[j]).options != opts,
    ensures
        spec_lookup(entries, opts) is None,
    decreases entries.len(),
{
    if entries.len() > 0 {
        lemma_lookup_absent(entries.drop_last(), opts);
    }
}

/// Overwriting the unique entry whose options equal the new entry's
/// options changes the lookup only at that key.
proof fn lemma_lookup_update(entries: Seq<HighScoreEntry>, i: int, entry: HighScoreEntry, o: Options)
    requires
        0 <= i < entries.len(),
        entries[i].options == entry.options,
        forall|a: int, b: int|
            0 <= a < b < entries.len() ==> entries[a].options != entries[b].options,
    ensures
        spec_lookup(entries.update(i, entry), o) == if o == entry.options {
            Some(entry.score)
        } else {
            spec_lookup(entries, o)
        },
    decreases entries.len(),
{
    let updated = entries.update(i, entry);
    if i == entries.len() - 1 {
        assert(updated.last() == entry);
        if o != entry.options {
            assert(updated.drop_last() =~= entries.drop_last());
        }
    } else {
        assert(updated.last() == entries.last());
        assert(updated.drop_last() =~= entries.drop_last().update(i, entry));
        lemma_lookup_update(entries.drop_last(), i, entry, o);
        if o == entry.options {
            assert(entries.last().options != o);
        }
    }
}


} // verus!
