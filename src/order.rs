//! Stable ordering by a `sort_order` key.

use vstd::prelude::*;

verus! {

/// Something that carries a sort key.
pub trait SortKey {
    spec fn key_spec(&self) -> int;

    fn sort_key(&self) -> (r: i32)
        ensures
            r as int == self.key_spec(),
    ;
}

/// Whether position `k` of the input is taken by some output position.
pub open spec fn taken_from(from: Seq<int>, k: int) -> bool {
    exists|i: int| 0 <= i < from.len() && from[i] == k
}

/// `output` is `input` reordered by `from` (output position to input
/// position): ascending by key, and in input order where keys are equal.
pub open spec fn stably_sorted<T: SortKey>(input: Seq<T>, output: Seq<T>, from: Seq<int>) -> bool {
    &&& from.len() == input.len()
    &&& output.len() == input.len()
    &&& forall|i: int| 0 <= i < output.len() ==> 0 <= #[trigger] from[i] < input.len() && output[i] == input[from[i]]
    &&& forall|i: int, j: int| 0 <= i < j < output.len() ==> {
        ||| (#[trigger] output[i]).key_spec() < (#[trigger] output[j]).key_spec()
        ||| (output[i].key_spec() == output[j].key_spec() && from[i] < from[j])
    }
    &&& forall|k: int| 0 <= k < input.len() ==> #[trigger] taken_from(from, k)
}

/// Sorts by key, keeping the input order among equal keys.
pub fn sort_stable<T: SortKey>(items: Vec<T>) -> (r: Vec<T>)
    ensures
        exists|from: Seq<int>| stably_sorted(items@, r@, from),
{
    let ghost input = items@;
    let n = items.len();
    let mut rest = items;
    let mut out: Vec<T> = Vec::new();
    let ghost mut from: Seq<int> = Seq::empty();
    let mut taken: usize = 0;
    while rest.len() > 0
        invariant
            taken as int + rest@.len() == input.len(),
            input.len() == n,
            rest@ == input.skip(taken as int),
            from.len() == out@.len() == taken,
            forall|i: int| 0 <= i < out@.len() ==> 0 <= #[trigger] from[i] < taken && out@[i] == input[from[i]],
            forall|i: int, j: int| 0 <= i < j < out@.len() ==> {
                ||| (#[trigger] out@[i]).key_spec() < (#[trigger] out@[j]).key_spec()
                ||| (out@[i].key_spec() == out@[j].key_spec() && from[i] < from[j])
            },
            forall|k: int| 0 <= k < taken ==> #[trigger] taken_from(from, k),
        decreases rest@.len(),
    {
        let x = rest.remove(0);
        assert(x == input[taken as int]);
        assert(rest@ =~= input.skip(taken + 1));
        let key = x.sort_key();
        let mut pos: usize = out.len();
        while pos > 0 && out[pos - 1].sort_key() > key
            invariant
                pos <= out@.len(),
                forall|m: int| pos <= m < out@.len() ==> (#[trigger] out@[m]).key_spec() > key,
            decreases pos,
        {
            pos = pos - 1;
        }
        let ghost old_out = out@;
        let ghost old_from = from;
        out.insert(pos, x);
        proof {
            from = old_from.insert(pos as int, taken as int);
            assert forall|i: int, j: int| 0 <= i < j < out@.len() implies {
                ||| (#[trigger] out@[i]).key_spec() < (#[trigger] out@[j]).key_spec()
                ||| (out@[i].key_spec() == out@[j].key_spec() && from[i] < from[j])
            } by {
                if i < pos && j < pos {
                    assert(out@[i] == old_out[i] && out@[j] == old_out[j]);
                } else if i < pos && j == pos {
                    assert(out@[i] == old_out[i]);
                    if pos > 0 {
                        if i < pos - 1 {
                            assert(old_out[i].key_spec() <= old_out[pos - 1].key_spec()
                                || old_out[i].key_spec() < old_out[pos - 1].key_spec());
                        }
                    }
                } else if i < pos && j > pos {
                    assert(out@[i] == old_out[i] && out@[j] == old_out[j - 1]);
                } else if i == pos {
                    assert(out@[j] == old_out[j - 1]);
                } else {
                    assert(out@[i] == old_out[i - 1] && out@[j] == old_out[j - 1]);
                }
            }
            assert forall|k: int| 0 <= k < taken + 1 implies #[trigger] taken_from(from, k) by {
                if k == taken {
                    assert(from[pos as int] == k);
                } else {
                    assert(taken_from(old_from, k));
                    let i0 = choose|i: int| 0 <= i < old_from.len() && old_from[i] == k;
                    if i0 < pos {
                        assert(from[i0] == k);
                    } else {
                        assert(from[i0 + 1] == k);
                    }
                }
            }
        }
        taken = taken + 1;
    }
    assert(stably_sorted(input, out@, from));
    out
}

} // verus!
