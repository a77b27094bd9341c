use vstd::prelude::*;

use crate::entry::{contains_text, strings_view};

verus! {

/// The counts of one run.
#[derive(Clone, Copy, Debug, PartialEq, Eq, Structural)]
pub struct RunCounters {
    /// Entries that the selection accepted.
    pub total: u64,
    /// Entries copied to their new name.
    pub renamed: u64,
    /// Entries whose new name already existed, on disk or in this run.
    pub duplicate: u64,
    /// Entries that could not be named or copied.
    pub failed: u64,
    /// Entries left uncopied because a duplicate had already been seen.
    pub abandoned: u64,
    /// Entries only shown, in a preview, whose new name did not exist yet.
    pub previewed: u64,
}

/// What becomes of an entry whose new name is known.
#[derive(Clone, Copy, Debug, PartialEq, Eq, Structural)]
pub enum Admission {
    /// Copy it.
    Copy,
    /// Its new name exists already: count it and leave it.
    Duplicate,
    /// A duplicate was seen in this run: leave it.
    Abandon,
}

/// How many times `d` is recorded in `m`.
pub open spec fn count_in(m: Map<Seq<char>, nat>, d: Seq<char>) -> nat {
    if m.dom().contains(d) {
        m[d]
    } else {
        0
    }
}

/// `m` with one more record of `d`.
pub open spec fn bump(m: Map<Seq<char>, nat>, d: Seq<char>) -> Map<Seq<char>, nat> {
    m.insert(d, count_in(m, d) + 1)
}

proof fn lemma_bump(m: Map<Seq<char>, nat>, d: Seq<char>, e: Seq<char>)
    ensures
        count_in(bump(m, d), e) == count_in(m, e) + (if e == d { 1nat } else { 0nat }),
{
}

proof fn lemma_push_contains(v: Seq<String>, x: String, e: Seq<char>)
    ensures
        strings_view(v.push(x)).contains(e) == (strings_view(v).contains(e) || e == x@),
{
    let w = strings_view(v.push(x));
    assert(w =~= strings_view(v).push(x@));
    if w.contains(e) {
        let k = choose|k: int| 0 <= k < w.len() && w[k] == e;
        if k < v.len() {
            assert(strings_view(v)[k] == e);
        }
    }
    if strings_view(v).contains(e) {
        let k = choose|k: int| 0 <= k < strings_view(v).len() && strings_view(v)[k] == e;
        assert(w[k] == e);
    }
    if e == x@ {
        assert(w[v.len() as int] == e);
    }
}

/// Where `item` stands in `list`, if it does.
fn position_of(list: &Vec<String>, item: &String) -> (r: Option<usize>)
    ensures
        match r {
            Some(k) => k < list@.len() && list@[k as int]@ == item@,
            None => !strings_view(list@).contains(item@),
        },
{
    let mut i: usize = 0;
    while i < list.len()
        invariant
            i <= list.len(),
            forall|k: int| 0 <= k < i ==> list@[k]@ != item@,
        decreases list.len() - i,
    {
        if list[i] == *item {
            return Some(i);
        }
        i = i + 1;
    }
    proof {
        if strings_view(list@).contains(item@) {
            let k = choose|k: int| 0 <= k < strings_view(list@).len() && strings_view(list@)[k] == item@;
            assert(list@[k]@ == item@);
        }
    }
    None
}

proof fn lemma_remove_contains(v: Seq<String>, k: int)
    requires
        0 <= k < v.len(),
        strings_view(v).no_duplicates(),
    ensures
        strings_view(v.remove(k)) =~= strings_view(v).remove(k),
        strings_view(v.remove(k)).no_duplicates(),
        forall|e: Seq<char>| #[trigger] strings_view(v.remove(k)).contains(e)
            == (strings_view(v).contains(e) && e != v[k]@),
{
    let w = strings_view(v);
    assert(strings_view(v.remove(k)) =~= w.remove(k));
    assert forall|e: Seq<char>| #[trigger] w.remove(k).contains(e) == (w.contains(e) && e != v[k]@) by {
        if w.remove(k).contains(e) {
            let j = choose|j: int| 0 <= j < w.remove(k).len() && w.remove(k)[j] == e;
            assert(w[k] == v[k]@);
            if j < k {
                assert(w[j] == e);
                assert(w[j] != w[k]);
            } else {
                assert(w[j + 1] == e);
                assert(w[j + 1] != w[k]);
            }
        }
        if w.contains(e) && e != v[k]@ {
            let j = choose|j: int| 0 <= j < w.len() && w[j] == e;
            if j < k {
                assert(w.remove(k)[j] == e);
            } else {
                assert(j != k);
                assert(w.remove(k)[j - 1] == e);
            }
        }
    }
}

/// The state that the workers of one run share: the counters, the new names
/// taken so far and the names being copied now.
pub struct RunState {
    counts: RunCounters,
    pending: u64,
    copying: u64,
    claimed: Vec<String>,
    in_copy: Vec<String>,
    seen: Ghost<Map<Seq<char>, nat>>,
    dups: Ghost<Map<Seq<char>, nat>>,
    copied: Ghost<Map<Seq<char>, nat>>,
}

impl RunState {
    /// The counters.
    pub closed spec fn counts(&self) -> RunCounters {
        self.counts
    }

    /// Selected entries whose new name has not been claimed yet.
    pub closed spec fn pending(&self) -> nat {
        self.pending as nat
    }

    /// Entries being copied now.
    pub closed spec fn copying(&self) -> nat {
        self.copying as nat
    }

    /// Whether some entry of this run has taken the new name `d`.
    pub closed spec fn is_claimed(&self, d: Seq<char>) -> bool {
        strings_view(self.claimed@).contains(d)
    }

    /// Whether an entry is being copied to `d` now.
    pub closed spec fn is_copying(&self, d: Seq<char>) -> bool {
        strings_view(self.in_copy@).contains(d)
    }

    /// How many entries claimed the new name `d`.
    pub closed spec fn seen(&self, d: Seq<char>) -> nat {
        count_in(self.seen@, d)
    }

    /// How many entries under the new name `d` were counted as duplicates.
    pub closed spec fn dups(&self, d: Seq<char>) -> nat {
        count_in(self.dups@, d)
    }

    /// How many entries were copied to the new name `d`.
    pub closed spec fn copied(&self, d: Seq<char>) -> nat {
        count_in(self.copied@, d)
    }

    /// Every selected entry is pending, being copied or counted once; a
    /// name is taken by at most one entry, and every other entry under it is
    /// a duplicate; at most one copy goes to a name.
    pub closed spec fn wf(&self) -> bool {
        &&& self.counts.total as int == self.counts.renamed + self.counts.failed
            + self.counts.duplicate + self.counts.abandoned + self.counts.previewed
            + self.pending + self.copying
        &&& self.counts.abandoned > 0 ==> self.counts.duplicate > 0
        &&& self.in_copy@.len() == self.copying
        &&& strings_view(self.in_copy@).no_duplicates()
        &&& forall|d: Seq<char>|
            #![trigger count_in(self.seen@, d)]
            #![trigger count_in(self.dups@, d)]
            count_in(self.seen@, d) == count_in(self.dups@, d) + (if self.is_claimed(d) {
                1nat
            } else {
                0nat
            })
        &&& forall|d: Seq<char>| #[trigger] count_in(self.dups@, d) <= self.counts.duplicate
        &&& forall|d: Seq<char>|
            #![trigger count_in(self.copied@, d)]
            #![trigger self.is_copying(d)]
            count_in(self.copied@, d) + (if self.is_copying(d) {
                1nat
            } else {
                0nat
            }) <= (if self.is_claimed(d) {
                1nat
            } else {
                0nat
            })
    }

    /// A run with nothing counted yet.
    pub fn new() -> (r: RunState)
        ensures
            r.wf(),
            r.counts() == (RunCounters {
                total: 0,
                renamed: 0,
                duplicate: 0,
                failed: 0,
                abandoned: 0,
                previewed: 0,
            }),
            r.pending() == 0,
            r.copying() == 0,
            forall|d: Seq<char>| r.seen(d) == 0 && !r.is_claimed(d),
    {
        let r = RunState {
            counts: RunCounters {
                total: 0,
                renamed: 0,
                duplicate: 0,
                failed: 0,
                abandoned: 0,
                previewed: 0,
            },
            pending: 0,
            copying: 0,
            claimed: Vec::new(),
            in_copy: Vec::new(),
            seen: Ghost(Map::empty()),
            dups: Ghost(Map::empty()),
            copied: Ghost(Map::empty()),
        };
        proof {
            assert(strings_view(r.in_copy@) =~= Seq::<Seq<char>>::empty());
        }
        r
    }

    /// Counts an entry that the selection accepted; it is pending until its
    /// new name is claimed or it fails.
    pub fn select(&mut self)
        requires
            old(self).wf(),
            old(self).counts().total < u64::MAX,
        ensures
            final(self).wf(),
            final(self).counts() == (RunCounters { total: (old(self).counts().total + 1) as u64, ..old(self).counts() }),
            final(self).pending() == old(self).pending() + 1,
            final(self).copying() == old(self).copying(),
            forall|d: Seq<char>| #![auto] final(self).seen(d) == old(self).seen(d) && final(self).is_claimed(d) == old(self).is_claimed(d)
                && final(self).copied(d) == old(self).copied(d) && final(self).is_copying(d) == old(self).is_copying(d),
    {
        self.counts.total = self.counts.total + 1;
        self.pending = self.pending + 1;
    }

    /// Counts a pending entry whose new name could not be computed as failed.
    pub fn record_naming_failure(&mut self)
        requires
            old(self).wf(),
            old(self).pending() > 0,
        ensures
            final(self).wf(),
            final(self).counts() == (RunCounters { failed: (old(self).counts().failed + 1) as u64, ..old(self).counts() }),
            final(self).pending() == old(self).pending() - 1,
            final(self).copying() == old(self).copying(),
            forall|d: Seq<char>| #![auto] final(self).seen(d) == old(self).seen(d) && final(self).is_claimed(d) == old(self).is_claimed(d)
                && final(self).copied(d) == old(self).copied(d) && final(self).is_copying(d) == old(self).is_copying(d),
    {
        self.counts.failed = self.counts.failed + 1;
        self.pending = self.pending - 1;
    }

    /// Counts a pending entry of a preview: as a duplicate where its new name
    /// exists on disk, as previewed otherwise. Nothing is copied.
    pub fn record_preview(&mut self, on_disk: bool)
        requires
            old(self).wf(),
            old(self).pending() > 0,
        ensures
            final(self).wf(),
            final(self).counts() == (if on_disk {
                RunCounters { duplicate: (old(self).counts().duplicate + 1) as u64, ..old(self).counts() }
            } else {
                RunCounters { previewed: (old(self).counts().previewed + 1) as u64, ..old(self).counts() }
            }),
            final(self).pending() == old(self).pending() - 1,
            final(self).copying() == old(self).copying(),
            forall|d: Seq<char>| #![auto] final(self).seen(d) == old(self).seen(d) && final(self).is_claimed(d) == old(self).is_claimed(d)
                && final(self).copied(d) == old(self).copied(d) && final(self).is_copying(d) == old(self).is_copying(d),
    {
        if on_disk {
            self.counts.duplicate = self.counts.duplicate + 1;
        } else {
            self.counts.previewed = self.counts.previewed + 1;
        }
        self.pending = self.pending - 1;
    }

    /// Decides on a pending entry whose new name is `dest`: a duplicate where
    /// `dest` exists on disk or was taken earlier in this run; otherwise the
    /// entry takes the name, and is copied unless a duplicate was seen before.
    pub fn claim_destination(&mut self, dest: &String, on_disk: bool) -> (r: Admission)
        requires
            old(self).wf(),
            old(self).pending() > 0,
        ensures
            final(self).wf(),
            r == (if on_disk || old(self).is_claimed(dest@) {
                Admission::Duplicate
            } else if old(self).counts().duplicate > 0 {
                Admission::Abandon
            } else {
                Admission::Copy
            }),
            final(self).counts() == (match r {
                Admission::Duplicate => RunCounters { duplicate: (old(self).counts().duplicate + 1) as u64, ..old(self).counts() },
                Admission::Abandon => RunCounters { abandoned: (old(self).counts().abandoned + 1) as u64, ..old(self).counts() },
                Admission::Copy => old(self).counts(),
            }),
            final(self).pending() == old(self).pending() - 1,
            final(self).copying() == old(self).copying() + (if r == Admission::Copy { 1int } else { 0int }),
            final(self).seen(dest@) == old(self).seen(dest@) + 1,
            final(self).is_claimed(dest@) == (old(self).is_claimed(dest@) || r != Admission::Duplicate),
            final(self).is_copying(dest@) == (old(self).is_copying(dest@) || r == Admission::Copy),
            forall|d: Seq<char>| #![auto] d != dest@ ==> final(self).seen(d) == old(self).seen(d) && final(self).is_claimed(d) == old(self).is_claimed(d)
                && final(self).is_copying(d) == old(self).is_copying(d),
            forall|d: Seq<char>| #![auto] final(self).copied(d) == old(self).copied(d),
    {
        let taken = contains_text(&self.claimed, dest);
        let ghost d = dest@;
        self.pending = self.pending - 1;
        proof {
            self.seen@ = bump(self.seen@, d);
            assert forall|e: Seq<char>| #[trigger] count_in(self.seen@, e) == count_in(old(self).seen@, e)
                + (if e == d { 1nat } else { 0nat }) by {
                lemma_bump(old(self).seen@, d, e);
            }
        }
        if on_disk || taken {
            self.counts.duplicate = self.counts.duplicate + 1;
            proof {
                self.dups@ = bump(self.dups@, d);
                assert forall|e: Seq<char>| #[trigger] count_in(self.dups@, e) == count_in(old(self).dups@, e)
                    + (if e == d { 1nat } else { 0nat }) by {
                    lemma_bump(old(self).dups@, d, e);
                }
            }
            return Admission::Duplicate;
        }
        self.claimed.push(dest.clone());
        proof {
            assert forall|e: Seq<char>| #[trigger] strings_view(self.claimed@).contains(e)
                == (strings_view(old(self).claimed@).contains(e) || e == d) by {
                lemma_push_contains(old(self).claimed@, self.claimed@.last(), e);
                assert(self.claimed@ == old(self).claimed@.push(self.claimed@.last()));
            }
            assert(!old(self).is_copying(d));
        }
        if self.counts.duplicate > 0 {
            self.counts.abandoned = self.counts.abandoned + 1;
            return Admission::Abandon;
        }
        self.in_copy.push(dest.clone());
        self.copying = self.copying + 1;
        proof {
            assert forall|e: Seq<char>| #[trigger] strings_view(self.in_copy@).contains(e)
                == (strings_view(old(self).in_copy@).contains(e) || e == d) by {
                lemma_push_contains(old(self).in_copy@, self.in_copy@.last(), e);
                assert(self.in_copy@ == old(self).in_copy@.push(self.in_copy@.last()));
            }
            assert(strings_view(self.in_copy@) =~= strings_view(old(self).in_copy@).push(d));
        }
        Admission::Copy
    }

    /// Counts the end of the copy to `dest`: renamed where it succeeded,
    /// failed where every attempt failed.
    pub fn finish_copy(&mut self, dest: &String, succeeded: bool)
        requires
            old(self).wf(),
            old(self).is_copying(dest@),
        ensures
            final(self).wf(),
            final(self).counts() == (if succeeded {
                RunCounters { renamed: (old(self).counts().renamed + 1) as u64, ..old(self).counts() }
            } else {
                RunCounters { failed: (old(self).counts().failed + 1) as u64, ..old(self).counts() }
            }),
            final(self).pending() == old(self).pending(),
            final(self).copying() == old(self).copying() - 1,
            !final(self).is_copying(dest@),
            final(self).copied(dest@) == old(self).copied(dest@) + (if succeeded { 1nat } else { 0nat }),
            forall|d: Seq<char>| #![auto] final(self).seen(d) == old(self).seen(d) && final(self).is_claimed(d) == old(self).is_claimed(d),
            forall|d: Seq<char>| #![auto] d != dest@ ==> final(self).copied(d) == old(self).copied(d)
                && final(self).is_copying(d) == old(self).is_copying(d),
    {
        let ghost d = dest@;
        let k = position_of(&self.in_copy, dest);
        proof {
            assert(old(self).in_copy@.len() > 0);
        }
        let k = match k {
            Some(k) => k,
            None => {
                proof {
                    assert(false);
                }
                0
            },
        };
        self.in_copy.remove(k);
        self.copying = self.copying - 1;
        proof {
            lemma_remove_contains(old(self).in_copy@, k as int);
        }
        if succeeded {
            self.counts.renamed = self.counts.renamed + 1;
            proof {
                self.copied@ = bump(self.copied@, d);
                assert forall|e: Seq<char>| #[trigger] count_in(self.copied@, e) == count_in(old(self).copied@, e)
                    + (if e == d { 1nat } else { 0nat }) by {
                    lemma_bump(old(self).copied@, d, e);
                }
            }
        } else {
            self.counts.failed = self.counts.failed + 1;
        }
    }

    /// The counters so far.
    pub fn counters(&self) -> (r: RunCounters)
        ensures
            r == self.counts(),
    {
        self.counts
    }

    /// Selected entries whose new name has not been claimed yet.
    pub fn pending_count(&self) -> (r: u64)
        ensures
            r == self.pending(),
    {
        self.pending
    }

    /// Whether an entry is being copied to `dest` now.
    pub fn copy_in_progress(&self, dest: &String) -> (r: bool)
        ensures
            r == self.is_copying(dest@),
    {
        contains_text(&self.in_copy, dest)
    }
}


/// Entries that map to one new name collide: where `n >= 2` entries of a run
/// claimed the name `d`, the run counts at least `n - 1` duplicates, and fewer
/// than `n` of them are copied.
pub proof fn collisions_are_counted(s: RunState, d: Seq<char>)
    requires
        s.wf(),
        s.seen(d) >= 2,
    ensures
        s.counts().duplicate >= s.seen(d) - 1,
        s.copied(d) <= 1,
        s.copied(d) < s.seen(d),
{
    assert(count_in(s.dups@, d) <= s.counts.duplicate);
    assert(count_in(s.seen@, d) == count_in(s.dups@, d) + (if s.is_claimed(d) { 1nat } else { 0nat }));
    assert(count_in(s.copied@, d) + (if s.is_copying(d) { 1nat } else { 0nat }) <= (if s.is_claimed(d) { 1nat } else { 0nat }));
}

/// The counters of a run balance: never more entries renamed than selected;
/// and once every worker has finished, in a run that copies, all selected
/// entries are renamed exactly when no copy failed and no duplicate was seen.
pub proof fn counters_balance(s: RunState)
    requires
        s.wf(),
    ensures
        s.counts().renamed <= s.counts().total,
        s.pending() == 0 && s.copying() == 0 && s.counts().previewed == 0 ==> (s.counts().renamed
            == s.counts().total <==> (s.counts().failed == 0 && s.counts().duplicate == 0)),
{
}

} // verus!
