//! Properties of relational expressions that the optimizer derives and
//! requires: sets of column indices.
use vstd::prelude::*;

use std::collections::HashSet;
use vstd::std_specs::iter::IteratorSpec;

verus! {

broadcast use vstd::std_specs::hash::group_hash_axioms;

/// A column with its index and name.
#[derive(Debug)]
pub struct NamedColumn {
    pub index: usize,
    pub name: String,
}

/// Whether every column of `a` is in `b` (`HashSet::is_subset`).
pub fn column_set_is_subset(a: &HashSet<usize>, b: &HashSet<usize>) -> (r: bool)
    ensures
        r == a@.subset_of(b@),
{
    let ghost all = a.iter().remaining().unref();
    let mut ok: bool = true;
    for x in it: a.iter()
        invariant
            all == it.seq().unref(),
            all.to_set() == a@,
            ok == (forall|j: int| 0 <= j < it.index() ==> b@.contains(#[trigger] all[j])),
    {
        if !b.contains(x) {
            ok = false;
        }
    }
    proof {
        if ok {
            assert forall|c: usize| a@.contains(c) implies b@.contains(c) by {
                assert(all.to_set().contains(c));
                let j = choose|j: int| 0 <= j < all.len() && all[j] == c;
            }
        } else {
            let j = choose|j: int| 0 <= j < all.len() && !b@.contains(#[trigger] all[j]);
            assert(all.to_set().contains(all[j]));
        }
    }
    ok
}

/// Adds to `dst` the columns of `src` that are not in `except`.
pub fn insert_all_except(dst: &mut HashSet<usize>, src: &HashSet<usize>, except: &HashSet<usize>)
    ensures
        final(dst)@ == old(dst)@ + src@.difference(except@),
{
    let ghost all = src.iter().remaining().unref();
    let ghost start = dst@;
    for x in it: src.iter()
        invariant
            all == it.seq().unref(),
            all.to_set() == src@,
            forall|c: usize| #[trigger] dst@.contains(c) <==> start.contains(c) || (exists|j: int|
                0 <= j < it.index() && all[j] == c && !except@.contains(c)),
    {
        let c: usize = *x;
        if !except.contains(&c) {
            dst.insert(c);
        }
        proof {
            let k = it.index();
            assert(all[k] == c);
            assert forall|d: usize| #[trigger] dst@.contains(d) <==> start.contains(d) || (exists|j: int|
                0 <= j < k + 1 && all[j] == d && !except@.contains(d)) by {
                if d == c && !except@.contains(c) {
                    assert(all[k] == d);
                }
                if exists|j: int| 0 <= j < k + 1 && all[j] == d && !except@.contains(d) {
                    let j = choose|j: int| 0 <= j < k + 1 && all[j] == d && !except@.contains(d);
                    if j < k {
                        assert(exists|i: int| 0 <= i < k && all[i] == d && !except@.contains(d));
                    }
                }
            }
        }
    }
    proof {
        assert forall|c: usize| dst@.contains(c) <==> (start + src@.difference(except@)).contains(c) by {
            if src@.contains(c) && !except@.contains(c) {
                assert(all.to_set().contains(c));
                let j = choose|j: int| 0 <= j < all.len() && all[j] == c;
            }
            if dst@.contains(c) && !start.contains(c) {
                let j = choose|j: int| 0 <= j < all.len() && all[j] == c && !except@.contains(c);
                assert(all.to_set().contains(all[j]));
            }
        }
        assert(dst@ =~= start + src@.difference(except@));
    }
}

/// The union of a sequence of column sets.
pub open spec fn union_all(sets: Seq<Set<usize>>) -> Set<usize>
    decreases sets.len(),
{
    if sets.len() == 0 {
        Set::empty()
    } else {
        union_all(sets.drop_last()) + sets.last()
    }
}

/// The views of a sequence of column sets.
pub open spec fn sets_view(sets: Seq<HashSet<usize>>) -> Seq<Set<usize>> {
    Seq::new(sets.len(), |i: int| sets[i]@)
}

/// The properties of a filter over an input: it outputs the input's
/// columns, and refers, as outer columns, to those the input refers to and
/// those its predicates use that its input does not output.
pub fn filter_relational_prop(input: &RelationalProperty, predicate_columns: &Vec<HashSet<usize>>) -> (r: RelationalProperty)
    ensures
        r.output_columns@ == input.output_columns@,
        r.outer_columns@ == (input.outer_columns@ + union_all(sets_view(predicate_columns@))).difference(
            input.output_columns@,
        ),
{
    let mut outer: HashSet<usize> = HashSet::new();
    insert_all_except(&mut outer, &input.outer_columns, &input.output_columns);
    let mut i: usize = 0;
    while i < predicate_columns.len()
        invariant
            i <= predicate_columns@.len(),
            outer@ == (input.outer_columns@ + union_all(sets_view(predicate_columns@).subrange(0, i as int))).difference(
                input.output_columns@,
            ),
        decreases predicate_columns@.len() - i,
    {
        insert_all_except(&mut outer, &predicate_columns[i], &input.output_columns);
        proof {
            let vs = sets_view(predicate_columns@);
            assert(vs.subrange(0, i + 1).drop_last() =~= vs.subrange(0, i as int));
            assert(outer@ =~= (input.outer_columns@ + union_all(vs.subrange(0, i + 1))).difference(input.output_columns@));
        }
        i = i + 1;
    }
    assert(sets_view(predicate_columns@).subrange(0, predicate_columns@.len() as int) =~= sets_view(predicate_columns@));
    let mut output: HashSet<usize> = HashSet::new();
    let empty: HashSet<usize> = HashSet::new();
    insert_all_except(&mut output, &input.output_columns, &empty);
    assert(output@ =~= input.output_columns@);
    RelationalProperty { output_columns: output, outer_columns: outer }
}

/// A filter's outer columns are never among the columns it outputs.
pub proof fn law_filter_outer_disjoint_from_output(
    input_outer: Set<usize>,
    input_output: Set<usize>,
    predicate_columns: Seq<Set<usize>>,
    c: usize,
)
    requires
        (input_outer + union_all(predicate_columns)).difference(input_output).contains(c),
    ensures
        !input_output.contains(c),
{
}

/// The property that a plan requires of its input: the columns it needs.
#[derive(Debug)]
pub struct RequiredProperty {
    required_columns: HashSet<usize>,
}

/// The properties of a relational expression: the columns it outputs and
/// the outer columns it refers to.
#[derive(Debug)]
pub struct RelationalProperty {
    pub output_columns: HashSet<usize>,
    pub outer_columns: HashSet<usize>,
}

/// The physical properties of an expression; none are tracked yet.
#[derive(Debug, Clone, Copy)]
pub struct PhysicalProperty {}

impl Default for RequiredProperty {
    /// The property that requires no column.
    fn default() -> (r: RequiredProperty)
        ensures
            r.columns() == Set::<usize>::empty(),
    {
        RequiredProperty { required_columns: HashSet::new() }
    }
}

impl Default for RelationalProperty {
    /// The properties of an expression with no columns.
    fn default() -> (r: RelationalProperty)
        ensures
            r.output_columns@ == Set::<usize>::empty(),
            r.outer_columns@ == Set::<usize>::empty(),
    {
        RelationalProperty { output_columns: HashSet::new(), outer_columns: HashSet::new() }
    }
}

impl Default for PhysicalProperty {
    /// The physical properties, of which there are none.
    fn default() -> (r: PhysicalProperty)
        ensures
            r == (PhysicalProperty {}),
    {
        PhysicalProperty {}
    }
}

impl RequiredProperty {
    /// The columns required.
    pub closed spec fn columns(&self) -> Set<usize> {
        self.required_columns@
    }

    /// The property that requires the given columns.
    pub fn create(required_columns: HashSet<usize>) -> (r: RequiredProperty)
        ensures
            r.columns() == required_columns@,
    {
        RequiredProperty { required_columns }
    }

    /// The columns required.
    pub fn required_columns(&self) -> (r: &HashSet<usize>)
        ensures
            r@ == self.columns(),
    {
        &self.required_columns
    }

    /// Whether an expression with these properties provides what is
    /// required: it outputs every required column.
    pub fn provided_by(&self, relational_prop: &RelationalProperty, physical_prop: &PhysicalProperty) -> (r: bool)
        ensures
            r == self.columns().subset_of(relational_prop.output_columns@),
    {
        column_set_is_subset(self.required_columns(), &relational_prop.output_columns)
    }
}

} // verus!
