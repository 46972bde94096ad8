//! The order in which the partitions of manual mode are taken: by the length
//! of their mount points, shortest first, so that a directory is mounted
//! before what lies below it. Partitions of equal length keep their order.

use vstd::prelude::*;
use vstd::string::*;
use vstd::utf8::encode_utf8;
use crate::args::{partitions_view, Partition, PartitionView};

verus! {

/// The length of `text` in bytes, as UTF-8.
pub open spec fn byte_len(text: Seq<char>) -> nat {
    encode_utf8(text).len()
}

/// The length of a partition's mount point, by which partitions are ordered.
pub open spec fn depth(partition: PartitionView) -> nat {
    byte_len(partition.mountpoint)
}

/// No partition stands before one with a shorter mount point.
pub open spec fn ordered(partitions: Seq<PartitionView>) -> bool {
    forall|i: int, j: int|
        0 <= i < j < partitions.len() ==> depth(#[trigger] partitions[i]) <= depth(
            #[trigger] partitions[j],
        )
}

/// `partition` put into `partitions` behind the last one that is not longer.
pub open spec fn insert_by_length(
    partitions: Seq<PartitionView>,
    partition: PartitionView,
) -> Seq<PartitionView>
    decreases partitions.len(),
{
    if partitions.len() == 0 {
        seq![partition]
    } else if depth(partitions.last()) <= depth(partition) {
        partitions.push(partition)
    } else {
        insert_by_length(partitions.drop_last(), partition).push(partitions.last())
    }
}

/// The partitions by the length of their mount points, shortest first, those
/// of equal length in the order they came in.
pub open spec fn sorted_by_length(partitions: Seq<PartitionView>) -> Seq<PartitionView>
    decreases partitions.len(),
{
    if partitions.len() == 0 {
        Seq::empty()
    } else {
        insert_by_length(sorted_by_length(partitions.drop_last()), partitions.last())
    }
}

/// Where every partition from `at` on is longer than `partition`, and the one
/// before `at` is not, `partition` goes in at `at`.
proof fn lemma_insert_lands(partitions: Seq<PartitionView>, partition: PartitionView, at: int)
    requires
        0 <= at <= partitions.len(),
        forall|k: int| at <= k < partitions.len() ==> depth(#[trigger] partitions[k]) > depth(partition),
        at == 0 || depth(partitions[at - 1]) <= depth(partition),
    ensures
        insert_by_length(partitions, partition) == partitions.insert(at, partition),
    decreases partitions.len(),
{
    if partitions.len() == 0 {
        assert(seq![partition] =~= partitions.insert(at, partition));
    } else if at == partitions.len() {
        assert(partitions.push(partition) =~= partitions.insert(at, partition));
    } else {
        let front = partitions.drop_last();
        assert(depth(partitions[partitions.len() - 1]) > depth(partition));
        assert forall|k: int| at <= k < front.len() implies depth(#[trigger] front[k]) > depth(
            partition,
        ) by {
            assert(front[k] == partitions[k]);
        }
        lemma_insert_lands(front, partition, at);
        assert(front.insert(at, partition).push(partitions.last()) =~= partitions.insert(
            at,
            partition,
        ));
    }
}

/// Putting a partition into an ordered sequence leaves it ordered, makes it
/// longer by one, and adds that partition and nothing else.
pub proof fn lemma_insert_keeps_order(partitions: Seq<PartitionView>, partition: PartitionView)
    requires
        ordered(partitions),
    ensures
        ordered(insert_by_length(partitions, partition)),
        insert_by_length(partitions, partition).len() == partitions.len() + 1,
        insert_by_length(partitions, partition).to_multiset() == partitions.to_multiset().insert(
            partition,
        ),
    decreases partitions.len(),
{
    broadcast use vstd::seq_lib::group_to_multiset_ensures;

    let out = insert_by_length(partitions, partition);
    if partitions.len() == 0 {
        assert(partitions =~= Seq::empty());
        assert(out =~= Seq::<PartitionView>::empty().push(partition));
    } else if depth(partitions.last()) <= depth(partition) {
        assert forall|i: int, j: int| 0 <= i < j < out.len() implies depth(#[trigger] out[i])
            <= depth(#[trigger] out[j]) by {
            if j == partitions.len() {
                if i < partitions.len() - 1 {
                    assert(depth(partitions[i]) <= depth(partitions[partitions.len() - 1]));
                }
            } else {
                assert(depth(partitions[i]) <= depth(partitions[j]));
            }
        }
    } else {
        let front = partitions.drop_last();
        let last = partitions.last();
        assert forall|i: int, j: int| 0 <= i < j < front.len() implies depth(#[trigger] front[i])
            <= depth(#[trigger] front[j]) by {
            assert(depth(partitions[i]) <= depth(partitions[j]));
        }
        lemma_insert_keeps_order(front, partition);
        let inner = insert_by_length(front, partition);
        assert(out == inner.push(last));
        assert(partitions =~= front.push(last));
        assert(partitions.to_multiset() == front.to_multiset().insert(last));
        assert(out.to_multiset() =~= partitions.to_multiset().insert(partition));
        assert forall|i: int, j: int| 0 <= i < j < out.len() implies depth(#[trigger] out[i])
            <= depth(#[trigger] out[j]) by {
            if j == inner.len() {
                let x = inner[i];
                assert(inner.to_multiset().count(x) > 0) by {
                    assert(inner.to_multiset().contains(x));
                }
                if x != partition {
                    assert(front.to_multiset().count(x) > 0);
                    assert(front.to_multiset().contains(x));
                    let k = choose|k: int| 0 <= k < front.len() && front[k] == x;
                    assert(partitions[k] == x);
                    assert(depth(partitions[k]) <= depth(partitions[partitions.len() - 1]));
                }
            } else {
                assert(depth(inner[i]) <= depth(inner[j]));
            }
        }
    }
}

/// Sorting puts the partitions in order: none stands before a shorter one.
/// It drops none and adds none.
pub proof fn lemma_sorted_is_ordered(partitions: Seq<PartitionView>)
    ensures
        ordered(sorted_by_length(partitions)),
        sorted_by_length(partitions).len() == partitions.len(),
        sorted_by_length(partitions).to_multiset() == partitions.to_multiset(),
    decreases partitions.len(),
{
    broadcast use vstd::seq_lib::group_to_multiset_ensures;

    if partitions.len() == 0 {
        assert(partitions =~= Seq::empty());
    } else {
        let front = partitions.drop_last();
        lemma_sorted_is_ordered(front);
        lemma_insert_keeps_order(sorted_by_length(front), partitions.last());
        assert(partitions =~= front.push(partitions.last()));
    }
}

/// Sorting partitions that are in order already changes nothing.
pub proof fn lemma_sort_keeps_ordered(partitions: Seq<PartitionView>)
    requires
        ordered(partitions),
    ensures
        sorted_by_length(partitions) == partitions,
    decreases partitions.len(),
{
    if partitions.len() == 0 {
        assert(partitions =~= Seq::empty());
    } else {
        let front = partitions.drop_last();
        let last = partitions.last();
        assert forall|i: int, j: int| 0 <= i < j < front.len() implies depth(#[trigger] front[i])
            <= depth(#[trigger] front[j]) by {
            assert(depth(partitions[i]) <= depth(partitions[j]));
        }
        lemma_sort_keeps_ordered(front);
        if front.len() > 0 {
            assert(depth(partitions[front.len() - 1]) <= depth(partitions[partitions.len() - 1]));
            assert(front.last() == partitions[front.len() - 1]);
        }
        assert(insert_by_length(front, last) == front.push(last));
        assert(front.push(last) =~= partitions);
    }
}

/// Sorting twice gives what sorting once gives, whatever the order was.
pub proof fn lemma_sort_is_idempotent(partitions: Seq<PartitionView>)
    ensures
        sorted_by_length(sorted_by_length(partitions)) == sorted_by_length(partitions),
{
    lemma_sorted_is_ordered(partitions);
    lemma_sort_keeps_ordered(sorted_by_length(partitions));
}

/// The partitions whose mount point is `length` bytes long, in their order.
pub open spec fn of_depth(partitions: Seq<PartitionView>, length: nat) -> Seq<PartitionView>
    decreases partitions.len(),
{
    if partitions.len() == 0 {
        Seq::empty()
    } else if depth(partitions.last()) == length {
        of_depth(partitions.drop_last(), length).push(partitions.last())
    } else {
        of_depth(partitions.drop_last(), length)
    }
}

/// Among the partitions of one length, a partition that is put in comes last.
proof fn lemma_insert_comes_last(
    partitions: Seq<PartitionView>,
    partition: PartitionView,
    length: nat,
)
    ensures
        of_depth(insert_by_length(partitions, partition), length) == of_depth(
            partitions.push(partition),
            length,
        ),
    decreases partitions.len(),
{
    let grown = partitions.push(partition);
    assert(grown.drop_last() =~= partitions);
    if partitions.len() == 0 {
        assert(insert_by_length(partitions, partition) =~= grown);
    } else if depth(partitions.last()) <= depth(partition) {
    } else {
        let front = partitions.drop_last();
        let last = partitions.last();
        let inner = insert_by_length(front, partition);
        let out = inner.push(last);
        lemma_insert_comes_last(front, partition, length);
        let kept = of_depth(front, length);
        assert(front.push(partition).drop_last() =~= front);
        assert(of_depth(front.push(partition), length) == if depth(partition) == length {
            kept.push(partition)
        } else {
            kept
        });
        assert(out.drop_last() =~= inner);
        assert(of_depth(out, length) == if depth(last) == length {
            of_depth(inner, length).push(last)
        } else {
            of_depth(inner, length)
        });
        assert(of_depth(grown, length) == if depth(partition) == length {
            of_depth(partitions, length).push(partition)
        } else {
            of_depth(partitions, length)
        });
    }
}

/// Sorting keeps the order among partitions whose mount points are equally
/// long.
pub proof fn lemma_sort_is_stable(partitions: Seq<PartitionView>, length: nat)
    ensures
        of_depth(sorted_by_length(partitions), length) == of_depth(partitions, length),
    decreases partitions.len(),
{
    if partitions.len() > 0 {
        let front = partitions.drop_last();
        let last = partitions.last();
        lemma_sort_is_stable(front, length);
        lemma_insert_comes_last(sorted_by_length(front), last, length);
        assert(sorted_by_length(front).push(last).drop_last() =~= sorted_by_length(front));
    }
}

/// The length of `text` in bytes.
fn byte_length(text: &str) -> (n: usize)
    ensures
        n == byte_len(text@),
{
    text.as_bytes().len()
}

/// Puts `partitions` in the order in which they are to be mounted: by the
/// length of their mount points, shortest first. Partitions of equal length
/// keep the order they came in.
pub fn sort_by_mountpoint(partitions: &mut Vec<Partition>)
    ensures
        partitions_view(final(partitions)@) == sorted_by_length(partitions_view(old(partitions)@)),
        ordered(partitions_view(final(partitions)@)),
        partitions_view(final(partitions)@).to_multiset() == partitions_view(
            old(partitions)@,
        ).to_multiset(),
{
    let ghost before = partitions_view(partitions@);
    let n: usize = partitions.len();
    let mut i: usize = 0;
    while i < n
        invariant
            before.len() == n,
            partitions@.len() == n,
            i <= n,
            partitions_view(partitions@).take(i as int) == sorted_by_length(before.take(i as int)),
            forall|k: int| i <= k < n ==> partitions@[k]@ == before[k],
        decreases n - i,
    {
        let ghost done = partitions_view(partitions@).take(i as int);
        let key: usize = byte_length(partitions[i].mountpoint.as_str());
        let mut at: usize = i;
        while at > 0 && byte_length(partitions[at - 1].mountpoint.as_str()) > key
            invariant
                at <= i,
                i < partitions@.len(),
                key == depth(partitions@[i as int]@),
                forall|k: int| at <= k < i ==> depth(#[trigger] partitions@[k]@) > key,
            decreases at,
        {
            at -= 1;
        }
        let ghost current = partitions@;
        let moved = partitions.remove(i);
        partitions.insert(at, moved);
        proof {
            assert forall|k: int| at <= k < done.len() implies depth(#[trigger] done[k]) > depth(
                moved@,
            ) by {
                assert(done[k] == current[k]@);
            }
            if at > 0 {
                assert(done[at - 1] == current[at - 1]@);
            }
            lemma_insert_lands(done, moved@, at as int);
            let grown = before.take(i + 1);
            assert(grown.drop_last() =~= before.take(i as int));
            assert(grown.last() == moved@);
            assert(partitions_view(partitions@).take(i + 1) =~= done.insert(at as int, moved@));
            assert forall|k: int| i + 1 <= k < n implies partitions@[k]@ == before[k] by {
                assert(partitions@[k] == current[k]);
            }
        }
        i += 1;
    }
    proof {
        assert(partitions_view(partitions@).take(n as int) =~= partitions_view(partitions@));
        assert(before.take(n as int) =~= before);
        lemma_sorted_is_ordered(before);
    }
}

} // verus!
