//! Collapsing collected `(key, identity)` pairs into one entry per key.
//!
//! Duplicate keys are expected when several build trees hold copies of the
//! same binary.  The later entry replaces the earlier one (last write wins),
//! and a warning names both paths; a collision never aborts the run.

use vstd::prelude::*;

use crate::symstore::{spec_key, FileInfo};

verus! {

/// One deduplicated candidate: a symbol-store key and the identity that
/// produced it.
pub struct PublishEntry {
    pub key: String,
    pub info: FileInfo,
}

impl PublishEntry {
    /// An entry is well formed when its key is exactly the one derived
    /// from its identity: nothing is ever published under another key.
    pub open spec fn wf(self) -> bool {
        self.key@ == spec_key(self.info)
    }
}

/// A replaced duplicate: the key and the paths of the replaced and the
/// replacing file.
pub struct DupWarning {
    pub key: String,
    pub old_path: String,
    pub new_path: String,
}

/// The mapping that a pair sequence reduces to: every pair inserted in
/// order, so the last pair with a given key wins.
pub open spec fn spec_dedup_map(s: Seq<(Seq<char>, FileInfo)>) -> Map<Seq<char>, FileInfo>
    decreases s.len(),
{
    if s.len() == 0 {
        Map::empty()
    } else {
        spec_dedup_map(s.drop_last()).insert(s.last().0, s.last().1)
    }
}

/// The replacement warnings that reducing a pair sequence emits, in order:
/// one `(key, replaced path, replacing path)` triple for every pair whose
/// key was already present.
pub open spec fn spec_dedup_warns(s: Seq<(Seq<char>, FileInfo)>) -> Seq<
    (Seq<char>, Seq<char>, Seq<char>),
>
    decreases s.len(),
{
    if s.len() == 0 {
        Seq::empty()
    } else {
        let prev = spec_dedup_map(s.drop_last());
        let earlier = spec_dedup_warns(s.drop_last());
        if prev.contains_key(s.last().0) {
            earlier.push((s.last().0, prev[s.last().0].path@, s.last().1.path@))
        } else {
            earlier
        }
    }
}

/// The pairs that a sequence of entries stands for.
pub open spec fn spec_entry_pairs(s: Seq<PublishEntry>) -> Seq<(Seq<char>, FileInfo)> {
    s.map_values(|e: PublishEntry| (e.key@, e.info))
}

/// The triples that a sequence of warnings stands for.
pub open spec fn spec_warn_triples(s: Seq<DupWarning>) -> Seq<(Seq<char>, Seq<char>, Seq<char>)> {
    s.map_values(|w: DupWarning| (w.key@, w.old_path@, w.new_path@))
}

/// Reduce the collected entries to one entry per distinct key, the last one
/// seen winning, together with a warning per replacement.
pub fn deduplicate(entries: Vec<PublishEntry>) -> (res: (Vec<PublishEntry>, Vec<DupWarning>))
    ensures
        ({
            let m = spec_dedup_map(spec_entry_pairs(entries@));
            let out = res.0@;
            &&& forall|i: int, j: int| 0 <= i < j < out.len() ==> out[i].key@ != out[j].key@
            &&& forall|i: int|
                0 <= i < out.len() ==> m.contains_key(#[trigger] out[i].key@) && m[out[i].key@]
                    == out[i].info
            &&& forall|k: Seq<char>|
                m.contains_key(k) ==> exists|i: int| 0 <= i < out.len() && #[trigger] out[i].key@
                    == k
            &&& spec_warn_triples(res.1@) == spec_dedup_warns(spec_entry_pairs(entries@))
            &&& ((forall|i: int| 0 <= i < entries@.len() ==> (#[trigger] entries@[i]).wf())
                ==> (forall|i: int| 0 <= i < out.len() ==> (#[trigger] out[i]).wf()))
        }),
{
    let ghost orig = spec_entry_pairs(entries@);
    let mut rest = entries;
    let mut out: Vec<PublishEntry> = Vec::new();
    let mut warns: Vec<DupWarning> = Vec::new();
    while rest.len() > 0
        invariant
            ({
                let done = orig.subrange(0, orig.len() - rest@.len());
                let m = spec_dedup_map(done);
                &&& rest@.len() <= orig.len()
                &&& orig =~= done + spec_entry_pairs(rest@)
                &&& forall|i: int, j: int|
                    0 <= i < j < out@.len() ==> out@[i].key@ != out@[j].key@
                &&& forall|i: int|
                    0 <= i < out@.len() ==> m.contains_key(#[trigger] out@[i].key@) && m[out@[
                        i
                    ].key@] == out@[i].info
                &&& forall|k: Seq<char>|
                    m.contains_key(k) ==> exists|i: int|
                        0 <= i < out@.len() && #[trigger] out@[i].key@ == k
                &&& spec_warn_triples(warns@) == spec_dedup_warns(done)
                &&& ((forall|j: int|
                    0 <= j < orig.len() ==> (#[trigger] orig[j]).0 == spec_key(orig[j].1)) ==> (
                forall|i: int| 0 <= i < out@.len() ==> (#[trigger] out@[i]).wf()))
            }),
        decreases rest@.len(),
    {
        let ghost done = orig.subrange(0, orig.len() - rest@.len());
        let ghost prev_rest = rest@;
        let entry = rest.remove(0);
        let ghost pair = (entry.key@, entry.info);
        let ghost done_new = done.push(pair);
        proof {
            assert(spec_entry_pairs(prev_rest)[0] == pair);
            assert(spec_entry_pairs(prev_rest) =~= seq![pair] + spec_entry_pairs(rest@));
            assert(orig =~= done_new + spec_entry_pairs(rest@));
            assert(orig.subrange(0, orig.len() - rest@.len()) =~= done_new);
            assert(done_new.drop_last() =~= done);
            assert(spec_dedup_map(done_new) == spec_dedup_map(done).insert(pair.0, pair.1));
        }
        let mut found: Option<usize> = None;
        let mut idx: usize = 0;
        while idx < out.len()
            invariant
                0 <= idx <= out@.len(),
                found is None ==> forall|i: int| 0 <= i < idx ==> out@[i].key@ != entry.key@,
                found matches Some(f) ==> 0 <= f < out@.len() && out@[f as int].key@ == entry.key@,
            decreases out@.len() - idx,
        {
            if found.is_none() && out[idx].key == entry.key {
                found = Some(idx);
            }
            idx = idx + 1;
        }
        let ghost out_before = out@;
        let ghost warns_before = warns@;
        match found {
            Some(f) => {
                let replaced = out.remove(f);
                warns.push(
                    DupWarning {
                        key: entry.key.clone(),
                        old_path: replaced.info.path,
                        new_path: entry.info.path.clone(),
                    },
                );
                out.push(entry);
                proof {
                    let m = spec_dedup_map(done);
                    let m_new = spec_dedup_map(done_new);
                    assert(spec_warn_triples(warns@) =~= spec_warn_triples(warns_before).push(
                        (pair.0, m[pair.0].path@, pair.1.path@),
                    ));
                    assert forall|k: Seq<char>| m_new.contains_key(k) implies exists|i: int|
                        0 <= i < out@.len() && #[trigger] out@[i].key@ == k by {
                        if k == pair.0 {
                            assert(out@[out@.len() - 1].key@ == k);
                        } else {
                            let i = choose|i: int|
                                0 <= i < out_before.len() && #[trigger] out_before[i].key@ == k;
                            if i < f {
                                assert(out@[i].key@ == k);
                            } else {
                                assert(out@[i - 1].key@ == k);
                            }
                        }
                    }
                }
            },
            None => {
                out.push(entry);
                proof {
                    let m_new = spec_dedup_map(done_new);
                    assert(!spec_dedup_map(done).contains_key(pair.0)) by {
                        if spec_dedup_map(done).contains_key(pair.0) {
                            assert(exists|i: int|
                                0 <= i < out_before.len() && #[trigger] out_before[i].key@
                                    == pair.0);
                            let i = choose|i: int|
                                0 <= i < out_before.len() && #[trigger] out_before[i].key@
                                    == pair.0;
                            assert(out_before[i].key@ != entry.key@);
                            assert(false);
                        }
                    }
                    assert(spec_warn_triples(warns@) == spec_dedup_warns(done_new));
                    assert forall|k: Seq<char>| m_new.contains_key(k) implies exists|i: int|
                        0 <= i < out@.len() && #[trigger] out@[i].key@ == k by {
                        if k == pair.0 {
                            assert(out@[out@.len() - 1].key@ == k);
                        } else {
                            let i = choose|i: int|
                                0 <= i < out_before.len() && #[trigger] out_before[i].key@ == k;
                            assert(out@[i].key@ == k);
                        }
                    }
                }
            },
        }
        proof {
            if forall|j: int| 0 <= j < orig.len() ==> (#[trigger] orig[j]).0 == spec_key(
                orig[j].1,
            ) {
                assert(done_new[done.len() as int] == pair);
                assert(orig[done.len() as int] == pair);
                assert(pair.0 == spec_key(pair.1));
                assert forall|i: int| 0 <= i < out@.len() implies (#[trigger] out@[i]).wf() by {
                    if i == out@.len() - 1 {
                        assert(out@[i].key@ == pair.0 && out@[i].info == pair.1);
                    } else {
                        match found {
                            Some(f) => {
                                if i < f {
                                    assert(out@[i] == out_before[i]);
                                    assert(out_before[i].wf());
                                } else {
                                    assert(out@[i] == out_before[i + 1]);
                                    assert(out_before[i + 1].wf());
                                }
                            },
                            None => {
                                assert(out@[i] == out_before[i]);
                                assert(out_before[i].wf());
                            },
                        }
                    }
                }
            }
        }
    }
    proof {
        assert(orig.subrange(0, orig.len() as int) =~= orig);
        if forall|i: int| 0 <= i < entries@.len() ==> (#[trigger] entries@[i]).wf() {
            assert forall|j: int| 0 <= j < orig.len() implies (#[trigger] orig[j]).0 == spec_key(
                orig[j].1,
            ) by {
                assert(entries@[j].wf());
                assert(orig[j] == (entries@[j].key@, entries@[j].info));
            }
        }
    }
    (out, warns)
}

/// Deduplication is deterministic, last write winning: the final mapping
/// holds exactly the keys of the input pairs, and the entry for a key is the
/// last pair of the input carrying that key.
pub proof fn lemma_dedup_last_wins(s: Seq<(Seq<char>, FileInfo)>)
    ensures
        forall|k: Seq<char>|
            spec_dedup_map(s).contains_key(k) <==> exists|i: int|
                0 <= i < s.len() && #[trigger] s[i].0 == k,
        forall|i: int|
            0 <= i < s.len() && (forall|j: int| i < j < s.len() ==> s[j].0 != #[trigger] s[i].0)
                ==> spec_dedup_map(s)[s[i].0] == s[i].1,
    decreases s.len(),
{
    if s.len() == 0 {
    } else {
        let t = s.drop_last();
        lemma_dedup_last_wins(t);
        assert forall|k: Seq<char>| spec_dedup_map(s).contains_key(k) implies exists|i: int|
            0 <= i < s.len() && #[trigger] s[i].0 == k by {
            if k == s.last().0 {
                assert(s[s.len() - 1].0 == k);
            } else {
                assert(spec_dedup_map(t).contains_key(k));
                let i = choose|i: int| 0 <= i < t.len() && #[trigger] t[i].0 == k;
                assert(t[i] == s[i]);
                assert(s[i].0 == k);
            }
        }
        assert forall|k: Seq<char>|
            (exists|i: int| 0 <= i < s.len() && #[trigger] s[i].0 == k) implies spec_dedup_map(
            s,
        ).contains_key(k) by {
            let i = choose|i: int| 0 <= i < s.len() && #[trigger] s[i].0 == k;
            if i < s.len() - 1 {
                assert(t[i] == s[i]);
                assert(t[i].0 == k);
                assert(spec_dedup_map(t).contains_key(k));
            }
        }
        assert forall|i: int|
            0 <= i < s.len() && (forall|j: int|
                i < j < s.len() ==> s[j].0 != #[trigger] s[i].0) implies spec_dedup_map(s)[s[i].0]
            == s[i].1 by {
            if i == s.len() - 1 {
            } else {
                assert(s[s.len() - 1].0 != s[i].0);
                assert(t[i] == s[i]);
                assert(forall|j: int| i < j < t.len() ==> #[trigger] t[j].0 != t[i].0) by {
                    assert(forall|j: int| i < j < t.len() ==> t[j] == s[j]);
                }
                assert(spec_dedup_map(t)[t[i].0] == t[i].1);
            }
        }
    }
}

} // verus!
