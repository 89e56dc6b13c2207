//! How a read of a distributed table is split among the executors of a
//! query: adjacent partitions go to the same node, and what does not divide
//! evenly goes to the first nodes.
use vstd::prelude::*;

verus! {

/// How many partitions each node gets at least.
pub open spec fn parts_per_node(len: nat, new_size: nat) -> nat
    recommends
        new_size > 0,
{
    len / new_size
}

/// How many partitions are left over after each node got its share.
pub open spec fn parts_left_over(len: nat, new_size: nat) -> nat
    recommends
        new_size > 0,
{
    len % new_size
}

/// How many partitions node `i` gets: its share, and one more when it is one
/// of the first nodes that take the leftovers.
pub open spec fn node_part_count(len: nat, new_size: nat, i: int) -> nat
    recommends
        new_size > 0,
{
    parts_per_node(len, new_size) + if i < parts_left_over(len, new_size) { 1nat } else { 0nat }
}

/// Whether `nodes` is the split of `parts` among `new_size` nodes: node `i`
/// holds, in order, copies of the `i`-th run of `parts_per_node` adjacent
/// partitions, and then, for each of the first leftover count of nodes, one of
/// the partitions left over, in order.
pub open spec fn is_repartition<P: Clone>(parts: Seq<P>, new_size: nat, nodes: Seq<Vec<P>>) -> bool {
    let per = parts_per_node(parts.len(), new_size);
    &&& nodes.len() == new_size
    &&& forall|i: int| 0 <= i < new_size ==> (#[trigger] nodes[i])@.len() == node_part_count(parts.len(), new_size, i)
    &&& forall|i: int, j: int| 0 <= i < new_size && 0 <= j < per ==> cloned(parts[per * i + j], #[trigger] nodes[i]@[j])
    &&& forall|i: int| 0 <= i < parts_left_over(parts.len(), new_size) ==> cloned(
        parts[per * new_size + i],
        #[trigger] nodes[i]@[per as int],
    )
}

proof fn lemma_division(len: nat, n: nat)
    requires
        n > 0,
    ensures
        parts_per_node(len, n) * n + parts_left_over(len, n) == len,
        parts_left_over(len, n) < n,
        parts_per_node(len, n) * n <= len,
{
    let q = parts_per_node(len, n);
    vstd::arithmetic::div_mod::lemma_fundamental_div_mod(len as int, n as int);
    assert(q * n == n * q) by (nonlinear_arith);
}

proof fn lemma_share_in_bounds(per: nat, n: nat, i: nat)
    requires
        i < n,
    ensures
        per * (i + 1) <= per * n,
        per * i + per == per * (i + 1),
{
    assert(per * (i + 1) <= per * n) by (nonlinear_arith)
        requires
            i < n,
    ;
    assert(per * i + per == per * (i + 1)) by (nonlinear_arith);
}

/// Splits partitions among `new_size` nodes: each node gets the next run of
/// `len / new_size` adjacent partitions, and the first `len % new_size`
/// nodes get one of the partitions left over each, in order.
pub fn repartition<P: Clone>(partitions: &Vec<P>, new_size: usize) -> (r: Vec<Vec<P>>)
    requires
        new_size > 0,
    ensures
        is_repartition(partitions@, new_size as nat, r@),
{
    let len = partitions.len();
    let per = len / new_size;
    proof {
        lemma_division(len as nat, new_size as nat);
    }
    let ghost parts = partitions@;
    let mut nodes: Vec<Vec<P>> = Vec::new();
    let mut index: usize = 0;
    while index < new_size
        invariant
            parts == partitions@,
            len == parts.len(),
            new_size > 0,
            per == parts_per_node(len as nat, new_size as nat),
            per * new_size <= len,
            index <= new_size,
            nodes@.len() == index,
            forall|i: int| 0 <= i < index ==> (#[trigger] nodes@[i])@.len() == per,
            forall|i: int, j: int| 0 <= i < index && 0 <= j < per ==> cloned(parts[per * i + j], #[trigger] nodes@[i]@[j]),
        decreases new_size - index,
    {
        proof {
            lemma_share_in_bounds(per as nat, new_size as nat, index as nat);
        }
        let begin = per * index;
        let end = per * (index + 1);
        let mut node_parts: Vec<P> = Vec::new();
        let mut k: usize = begin;
        while k < end
            invariant
                parts == partitions@,
                len == parts.len(),
                end <= len,
                begin <= k <= end,
                begin == per * index,
                end == begin + per,
                node_parts@.len() == k - begin,
                forall|j: int| 0 <= j < k - begin ==> cloned(parts[per * index + j], #[trigger] node_parts@[j]),
            decreases end - k,
        {
            let p = partitions[k].clone();
            node_parts.push(p);
            k = k + 1;
        }
        nodes.push(node_parts);
        index = index + 1;
    }
    let begin = per * new_size;
    let rem = len - begin;
    let mut index: usize = 0;
    while index < rem
        invariant
            parts == partitions@,
            len == parts.len(),
            new_size > 0,
            per == parts_per_node(len as nat, new_size as nat),
            begin == per * new_size,
            rem == parts_left_over(len as nat, new_size as nat),
            rem < new_size,
            begin + rem == len,
            index <= rem,
            nodes@.len() == new_size,
            forall|i: int| 0 <= i < new_size ==> (#[trigger] nodes@[i])@.len() == per + if i < index { 1nat } else { 0nat },
            forall|i: int, j: int| 0 <= i < new_size && 0 <= j < per ==> cloned(parts[per * i + j], #[trigger] nodes@[i]@[j]),
            forall|i: int| 0 <= i < index ==> cloned(parts[per * new_size + i], #[trigger] nodes@[i]@[per as int]),
        decreases rem - index,
    {
        let p = partitions[begin + index].clone();
        let ghost before = nodes@;
        let mut node = Vec::new();
        std::mem::swap(&mut node, &mut nodes[index]);
        node.push(p);
        std::mem::swap(&mut node, &mut nodes[index]);
        proof {
            assert(nodes@ == before.update(index as int, nodes@[index as int]));
            assert(nodes@[index as int]@ == before[index as int]@.push(p));
            assert forall|i: int, j: int| 0 <= i < new_size && 0 <= j < per implies cloned(parts[per * i + j], #[trigger] nodes@[i]@[j]) by {
                if i == index as int {
                    assert(nodes@[i]@[j] == before[i]@[j]);
                }
            }
        }
        index = index + 1;
    }
    nodes
}

/// How the output of a fragment is partitioned among the nodes.
#[derive(PartialEq, Eq, Structural, Clone, Copy, Debug)]
pub enum PartitionState {
    /// All on one node.
    NotPartition,
    /// Spread over the nodes, with no key.
    Random,
}

/// How a read leaves its rows: on this node for a local table, spread over
/// the cluster otherwise.
pub fn out_partition(table_is_local: bool) -> (r: PartitionState)
    ensures
        r == if table_is_local { PartitionState::NotPartition } else { PartitionState::Random },
{
    if table_is_local {
        PartitionState::NotPartition
    } else {
        PartitionState::Random
    }
}

/// The partitions each executor reads: a local table is read by the local
/// executor alone, whole; a distributed one is split among all executors.
pub fn read_parts_per_executor<P: Clone>(table_is_local: bool, partitions: &Vec<P>, executors: usize) -> (r: Vec<Vec<P>>)
    requires
        !table_is_local ==> executors > 0,
    ensures
        table_is_local ==> r@.len() == 1 && r@[0]@.len() == partitions@.len()
            && forall|j: int| 0 <= j < partitions@.len() ==> cloned(partitions@[j], #[trigger] r@[0]@[j]),
        !table_is_local ==> is_repartition(partitions@, executors as nat, r@),
{
    if table_is_local {
        let mut all: Vec<P> = Vec::new();
        let mut j: usize = 0;
        while j < partitions.len()
            invariant
                j <= partitions@.len(),
                all@.len() == j,
                forall|k: int| 0 <= k < j ==> cloned(partitions@[k], #[trigger] all@[k]),
            decreases partitions@.len() - j,
        {
            all.push(partitions[j].clone());
            j = j + 1;
        }
        let mut r: Vec<Vec<P>> = Vec::new();
        r.push(all);
        r
    } else {
        repartition(partitions, executors)
    }
}

/// The sum of the partition counts of the first `k` nodes.
pub open spec fn assigned_count(len: nat, new_size: nat, k: nat) -> nat
    decreases k,
{
    if k == 0 {
        0
    } else {
        assigned_count(len, new_size, (k - 1) as nat) + node_part_count(len, new_size, k - 1)
    }
}

proof fn lemma_assigned_count(len: nat, n: nat, k: nat)
    requires
        n > 0,
        k <= n,
    ensures
        assigned_count(len, n, k) == parts_per_node(len, n) * k + if k < parts_left_over(len, n) {
            k
        } else {
            parts_left_over(len, n)
        },
    decreases k,
{
    let per = parts_per_node(len, n);
    if k == 0 {
        assert(per * k == 0) by (nonlinear_arith)
            requires
                k == 0,
        ;
    } else {
        lemma_assigned_count(len, n, (k - 1) as nat);
        assert(per * k == per * (k - 1) + per) by (nonlinear_arith);
    }
}

/// Every partition is given to some node, once: the counts of all nodes add
/// up to the number of partitions.
pub proof fn law_repartition_keeps_every_part(len: nat, new_size: nat)
    requires
        new_size > 0,
    ensures
        assigned_count(len, new_size, new_size) == len,
{
    lemma_assigned_count(len, new_size, new_size);
    lemma_division(len, new_size);
}

/// The split is balanced: no node gets more than one partition more than
/// another, and the first nodes get at least as many as the later ones.
pub proof fn law_repartition_balanced(len: nat, new_size: nat, i: int, j: int)
    requires
        new_size > 0,
        0 <= i < new_size,
        0 <= j < new_size,
    ensures
        node_part_count(len, new_size, i) <= node_part_count(len, new_size, j) + 1,
        i <= j ==> node_part_count(len, new_size, j) <= node_part_count(len, new_size, i),
{
}

} // verus!
