//! Delivery and retry planning over the pending store.
//!
//! A sweep is one pass of the retry engine: it scans a kind's pending
//! root, attempts one upload per artifact found, removes an artifact
//! only after its delivery was confirmed, and leaves every failed one in
//! place for the next sweep. The planner decides, from the scan and the
//! per-artifact outcomes, which files are owed a removal and which stay
//! pending; the surrounding application performs the scan, the uploads
//! and the removals.
use vstd::prelude::*;
use vstd::seq_lib::{group_to_multiset_ensures, to_multiset_build, to_multiset_remove};
use vstd::slice::slice_index_get;
use vstd::string::StringSliceAdditionalSpecFns;
use vstd::utf8::encode_utf8;

verus! {

/// Byte-wise lexicographic order on byte strings.
pub open spec fn spec_bytes_le(a: Seq<u8>, b: Seq<u8>) -> bool
    decreases a.len(),
{
    if a.len() == 0 {
        true
    } else if b.len() == 0 {
        false
    } else if a[0] < b[0] {
        true
    } else if a[0] > b[0] {
        false
    } else {
        spec_bytes_le(a.drop_first(), b.drop_first())
    }
}

/// The order a deterministic scan lists artifact paths in: byte-wise
/// lexicographic over their UTF-8 encoding.
pub open spec fn spec_path_le(a: Seq<char>, b: Seq<char>) -> bool {
    spec_bytes_le(encode_utf8(a), encode_utf8(b))
}

proof fn lemma_bytes_le_total(a: Seq<u8>, b: Seq<u8>)
    ensures
        spec_bytes_le(a, b) || spec_bytes_le(b, a),
    decreases a.len(),
{
    if a.len() > 0 && b.len() > 0 && a[0] == b[0] {
        lemma_bytes_le_total(a.drop_first(), b.drop_first());
    }
}

proof fn lemma_bytes_le_trans(a: Seq<u8>, b: Seq<u8>, c: Seq<u8>)
    requires
        spec_bytes_le(a, b),
        spec_bytes_le(b, c),
    ensures
        spec_bytes_le(a, c),
    decreases a.len(),
{
    if a.len() > 0 && b.len() > 0 && c.len() > 0 && a[0] == b[0] && b[0] == c[0] {
        lemma_bytes_le_trans(a.drop_first(), b.drop_first(), c.drop_first());
    }
}

/// Compares two paths in scan order.
fn path_le(a: &String, b: &String) -> (r: bool)
    ensures
        r == spec_path_le(a@, b@),
{
    let ab = a.as_str().as_bytes();
    let bb = b.as_str().as_bytes();
    let al = ab.len();
    let bl = bb.len();
    let min: usize = if al < bl {
        al
    } else {
        bl
    };
    let mut i: usize = 0;
    proof {
        assert(ab@.skip(0) =~= ab@);
        assert(bb@.skip(0) =~= bb@);
    }
    while i < min
        invariant
            al == ab@.len(),
            bl == bb@.len(),
            min <= al,
            min <= bl,
            min == if al < bl {
                al as int
            } else {
                bl as int
            },
            i <= min,
            ab@ == encode_utf8(a@),
            bb@ == encode_utf8(b@),
            spec_bytes_le(ab@, bb@) == spec_bytes_le(
                ab@.skip(i as int),
                bb@.skip(i as int),
            ),
            spec_bytes_le(bb@, ab@) == spec_bytes_le(
                bb@.skip(i as int),
                ab@.skip(i as int),
            ),
        decreases min - i,
    {
        let x = *slice_index_get(ab, i);
        let y = *slice_index_get(bb, i);
        proof {
            assert(ab@.skip(i as int)[0] == ab@[i as int]);
            assert(bb@.skip(i as int)[0] == bb@[i as int]);
        }
        if x < y {
            return true;
        }
        if x > y {
            return false;
        }
        proof {
            assert(ab@.skip(i as int).drop_first() =~= ab@.skip(i as int + 1));
            assert(bb@.skip(i as int).drop_first() =~= bb@.skip(i as int + 1));
        }
        i = i + 1;
    }
    proof {
        if al <= bl {
            assert(ab@.skip(i as int).len() == 0);
        } else {
            assert(bb@.skip(i as int).len() == 0);
            assert(ab@.skip(i as int).len() > 0);
        }
    }
    al <= bl
}

/// Every pair of paths stands in scan order.
pub open spec fn spec_paths_sorted(s: Seq<String>) -> bool {
    forall|i: int, j: int|
        0 <= i < j < s.len() ==> spec_path_le(#[trigger] s[i]@, #[trigger] s[j]@)
}

/// Orders a scan's artifact paths byte-wise lexicographically, so the
/// retry order of a sweep is reproducible.
pub fn sort_paths(paths: Vec<String>) -> (r: Vec<String>)
    ensures
        spec_paths_sorted(r@),
        r@.to_multiset() == paths@.to_multiset(),
{
    broadcast use group_to_multiset_ensures;

    let mut rest = paths;
    let mut out: Vec<String> = Vec::new();
    while rest.len() > 0
        invariant
            out@.to_multiset().add(rest@.to_multiset()) == paths@.to_multiset(),
            spec_paths_sorted(out@),
            forall|i: int, j: int|
                0 <= i < out@.len() && 0 <= j < rest@.len() ==> spec_path_le(
                    #[trigger] out@[i]@,
                    #[trigger] rest@[j]@,
                ),
        decreases rest.len(),
    {
        let n = rest.len();
        let mut m: usize = 0;
        let mut k: usize = 1;
        proof {
            lemma_bytes_le_total(encode_utf8(rest@[0]@), encode_utf8(rest@[0]@));
        }
        while k < n
            invariant
                n == rest@.len(),
                n > 0,
                m < k,
                k <= n,
                forall|j: int| 0 <= j < k ==> spec_path_le(rest@[m as int]@, #[trigger] rest@[j]@),
            decreases n - k,
        {
            if path_le(&rest[k], &rest[m]) {
                proof {
                    assert forall|j: int|
                        0 <= j < k + 1 implies spec_path_le(
                        rest@[k as int]@,
                        #[trigger] rest@[j]@,
                    ) by {
                        if j < k {
                            lemma_bytes_le_trans(
                                encode_utf8(rest@[k as int]@),
                                encode_utf8(rest@[m as int]@),
                                encode_utf8(rest@[j]@),
                            );
                        } else {
                            lemma_bytes_le_total(
                                encode_utf8(rest@[k as int]@),
                                encode_utf8(rest@[k as int]@),
                            );
                        }
                    }
                }
                m = k;
            } else {
                proof {
                    lemma_bytes_le_total(
                        encode_utf8(rest@[m as int]@),
                        encode_utf8(rest@[k as int]@),
                    );
                }
            }
            k = k + 1;
        }
        let ghost rest0 = rest@;
        let ghost out0 = out@;
        let s = rest.remove(m);
        out.push(s);
        proof {
            broadcast use group_to_multiset_ensures;

            assert(out@ == out0.push(rest0[m as int]));
            to_multiset_build(out0, rest0[m as int]);
            assert(rest@ == rest0.remove(m as int));
            to_multiset_remove(rest0, m as int);
            assert(rest0.to_multiset().count(rest0[m as int]) > 0);
            assert(out@.to_multiset().add(rest@.to_multiset()) =~= out0.to_multiset().add(
                rest0.to_multiset(),
            ));
            assert forall|i: int, j: int|
                0 <= i < out@.len() && 0 <= j < rest@.len() implies spec_path_le(
                #[trigger] out@[i]@,
                #[trigger] rest@[j]@,
            ) by {
                let pre = if j < m {
                    j
                } else {
                    j + 1
                };
                assert(rest@[j] == rest0[pre]);
                if i < out0.len() {
                    assert(out@[i] == out0[i]);
                } else {
                    assert(out@[i] == rest0[m as int]);
                }
            }
            assert forall|i: int, j: int|
                0 <= i < j < out@.len() implies spec_path_le(
                #[trigger] out@[i]@,
                #[trigger] out@[j]@,
            ) by {
                if j == out@.len() - 1 {
                    assert(out@[i] == out0[i]);
                    assert(out@[j] == rest0[m as int]);
                }
            }
        }
    }
    out
}

/// The artifacts a sweep leaves pending: those whose delivery attempt
/// failed, in scan order.
pub open spec fn spec_kept(files: Seq<String>, delivered: Seq<bool>) -> Seq<String>
    decreases files.len(),
{
    if files.len() == 0 {
        Seq::empty()
    } else {
        spec_kept(files.drop_last(), delivered.drop_last()) + if delivered[files.len() - 1] {
            Seq::empty()
        } else {
            seq![files.last()]
        }
    }
}

/// The artifacts a sweep removes: those whose delivery was confirmed, in
/// scan order.
pub open spec fn spec_removed(files: Seq<String>, delivered: Seq<bool>) -> Seq<String>
    decreases files.len(),
{
    if files.len() == 0 {
        Seq::empty()
    } else {
        spec_removed(files.drop_last(), delivered.drop_last()) + if delivered[files.len() - 1] {
            seq![files.last()]
        } else {
            Seq::empty()
        }
    }
}

/// What one sweep owes the filesystem: the files to remove, delivery
/// confirmed, and the files still pending.
pub struct SweepPlan {
    pub remove: Vec<String>,
    pub remaining: Vec<String>,
}

/// Plans one sweep from the scanned artifact paths and the outcome of
/// each path's single upload attempt.
pub fn plan_sweep(files: &Vec<String>, delivered: &Vec<bool>) -> (plan: SweepPlan)
    requires
        files@.len() == delivered@.len(),
    ensures
        plan.remove@ == spec_removed(files@, delivered@),
        plan.remaining@ == spec_kept(files@, delivered@),
{
    let n = files.len();
    let mut remove: Vec<String> = Vec::new();
    let mut remaining: Vec<String> = Vec::new();
    let mut i: usize = 0;
    while i < n
        invariant
            files@.len() == delivered@.len(),
            n == files@.len(),
            i <= n,
            remove@ == spec_removed(files@.take(i as int), delivered@.take(i as int)),
            remaining@ == spec_kept(files@.take(i as int), delivered@.take(i as int)),
        decreases n - i,
    {
        let ghost fs = files@.take(i as int + 1);
        let ghost ds = delivered@.take(i as int + 1);
        proof {
            assert(fs.drop_last() =~= files@.take(i as int));
            assert(ds.drop_last() =~= delivered@.take(i as int));
            assert(fs.last() == files@[i as int]);
        }
        if delivered[i] {
            remove.push(files[i].clone());
        } else {
            remaining.push(files[i].clone());
        }
        i = i + 1;
    }
    proof {
        assert(files@.take(n as int) =~= files@);
        assert(delivered@.take(n as int) =~= delivered@);
    }
    SweepPlan { remove, remaining }
}

/// Sweep idempotence: a sweep whose every attempt succeeds leaves the
/// pending store empty, and a sweep over an empty scan plans no removal
/// and leaves nothing, so running the sweep again right after a fully
/// successful one has nothing to do.
pub proof fn lemma_sweep_idempotent(files: Seq<String>, delivered: Seq<bool>)
    requires
        files.len() == delivered.len(),
        forall|i: int| 0 <= i < delivered.len() ==> delivered[i],
    ensures
        spec_kept(files, delivered).len() == 0,
        spec_kept(Seq::<String>::empty(), Seq::<bool>::empty()).len() == 0,
        spec_removed(Seq::<String>::empty(), Seq::<bool>::empty()).len() == 0,
    decreases files.len(),
{
    if files.len() > 0 {
        lemma_sweep_idempotent(files.drop_last(), delivered.drop_last());
    }
}

/// One sweep partitions the scan: every artifact whose delivery was
/// confirmed is planned for removal, and every artifact whose attempt
/// failed stays pending — a failed artifact is never removed.
pub proof fn lemma_sweep_partition(files: Seq<String>, delivered: Seq<bool>, i: int)
    requires
        files.len() == delivered.len(),
        0 <= i < files.len(),
    ensures
        delivered[i] ==> spec_removed(files, delivered).contains(files[i]),
        !delivered[i] ==> spec_kept(files, delivered).contains(files[i]),
    decreases files.len(),
{
    if i == files.len() - 1 {
        if delivered[i] {
            let s = spec_removed(files, delivered);
            assert(s[s.len() - 1] == files[i]);
        } else {
            let s = spec_kept(files, delivered);
            assert(s[s.len() - 1] == files[i]);
        }
    } else {
        lemma_sweep_partition(files.drop_last(), delivered.drop_last(), i);
        assert(files.drop_last()[i] == files[i]);
        if delivered[i] {
            let pre = spec_removed(files.drop_last(), delivered.drop_last());
            let j = choose|j: int| 0 <= j < pre.len() && pre[j] == files[i];
            assert(spec_removed(files, delivered)[j] == files[i]);
        } else {
            let pre = spec_kept(files.drop_last(), delivered.drop_last());
            let j = choose|j: int| 0 <= j < pre.len() && pre[j] == files[i];
            assert(spec_kept(files, delivered)[j] == files[i]);
        }
    }
}

/// The artifacts a sweep leaves when the uploader delivers exactly the
/// members of `ok`: the view of one sweep as an uploader behavior.
pub open spec fn spec_kept_by(files: Seq<String>, ok: Set<String>) -> Seq<String>
    decreases files.len(),
{
    if files.len() == 0 {
        Seq::empty()
    } else {
        spec_kept_by(files.drop_last(), ok) + if ok.contains(files.last()) {
            Seq::empty()
        } else {
            seq![files.last()]
        }
    }
}

/// Ties the outcome-list view of a sweep to the uploader-behavior view.
pub proof fn lemma_kept_by_outcomes(files: Seq<String>, delivered: Seq<bool>, ok: Set<String>)
    requires
        files.len() == delivered.len(),
        forall|i: int| 0 <= i < files.len() ==> delivered[i] == ok.contains(#[trigger] files[i]),
    ensures
        spec_kept(files, delivered) == spec_kept_by(files, ok),
    decreases files.len(),
{
    if files.len() > 0 {
        lemma_kept_by_outcomes(files.drop_last(), delivered.drop_last(), ok);
        assert(files.last() == files[files.len() - 1]);
    }
}

/// A sweep never grows the pending store.
pub proof fn lemma_sweep_shrinks(files: Seq<String>, ok: Set<String>)
    ensures
        spec_kept_by(files, ok).len() <= files.len(),
    decreases files.len(),
{
    if files.len() > 0 {
        lemma_sweep_shrinks(files.drop_last(), ok);
    }
}

/// The pending store after a run of sweeps, one uploader behavior per
/// sweep, oldest sweep first.
pub open spec fn spec_remaining_after(files: Seq<String>, rounds: Seq<Set<String>>) -> Seq<String>
    decreases rounds.len(),
{
    if rounds.len() == 0 {
        files
    } else {
        spec_remaining_after(spec_kept_by(files, rounds[0]), rounds.drop_first())
    }
}

proof fn lemma_kept_by_all(files: Seq<String>, ok: Set<String>)
    requires
        forall|f: String| ok.contains(f),
    ensures
        spec_kept_by(files, ok).len() == 0,
    decreases files.len(),
{
    if files.len() > 0 {
        lemma_kept_by_all(files.drop_last(), ok);
    }
}

proof fn lemma_remaining_after_empty(rounds: Seq<Set<String>>)
    ensures
        spec_remaining_after(Seq::<String>::empty(), rounds).len() == 0,
    decreases rounds.len(),
{
    if rounds.len() > 0 {
        assert(spec_kept_by(Seq::<String>::empty(), rounds[0]) =~= Seq::<String>::empty());
        lemma_remaining_after_empty(rounds.drop_first());
    }
}

/// Retry convergence: however the uploader behaves for the first `k`
/// sweeps, if the sweep with index `k` delivers everything it attempts,
/// the pending store is empty once that sweep has run — after at most
/// `k + 1` sweeps — and stays empty through the later sweeps.
pub proof fn lemma_retry_convergence(files: Seq<String>, rounds: Seq<Set<String>>, k: int)
    requires
        0 <= k < rounds.len(),
        forall|f: String| rounds[k].contains(f),
    ensures
        spec_remaining_after(files, rounds).len() == 0,
    decreases rounds.len(),
{
    if k == 0 {
        lemma_kept_by_all(files, rounds[0]);
        assert(spec_kept_by(files, rounds[0]) =~= Seq::<String>::empty());
        lemma_remaining_after_empty(rounds.drop_first());
    } else {
        assert(rounds.drop_first()[k - 1] == rounds[k]);
        lemma_retry_convergence(spec_kept_by(files, rounds[0]), rounds.drop_first(), k - 1);
    }
}

} // verus!
