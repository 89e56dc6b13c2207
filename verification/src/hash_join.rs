//! Rows of the build side of a hash join, and the markers of a mark join:
//! for each build row, whether a probe row matched it, none did, or the
//! answer is unknown because of NULLs.
use vstd::prelude::*;

verus! {

/// Where a build row is kept: its chunk and its row within the chunk.
#[derive(PartialEq, Eq, Structural, Clone, Copy, Debug)]
pub struct RowPtr {
    pub chunk_index: u32,
    pub row_index: u32,
}

/// The positions that gathering the rows takes, one row from each
/// position: chunk, row, and a count of one.
pub fn gather_indices(row_ptrs: &[RowPtr]) -> (r: Vec<(usize, usize, usize)>)
    ensures
        r@.len() == row_ptrs@.len(),
        forall|i: int| 0 <= i < r@.len() ==> #[trigger] r@[i] == (
            row_ptrs@[i].chunk_index as usize,
            row_ptrs@[i].row_index as usize,
            1usize,
        ),
{
    let mut indices: Vec<(usize, usize, usize)> = Vec::new();
    let mut i: usize = 0;
    while i < row_ptrs.len()
        invariant
            i <= row_ptrs@.len(),
            indices@.len() == i,
            forall|k: int| 0 <= k < i ==> #[trigger] indices@[k] == (
                row_ptrs@[k].chunk_index as usize,
                row_ptrs@[k].row_index as usize,
                1usize,
            ),
        decreases row_ptrs@.len() - i,
    {
        let p = row_ptrs[i];
        indices.push((p.chunk_index as usize, p.row_index as usize, 1usize));
        i = i + 1;
    }
    indices
}

/// The answer of a mark join for one build row.
#[derive(PartialEq, Eq, Structural, Clone, Copy, Debug)]
pub enum MarkerKind {
    True,
    False,
    Null,
}

/// What the markers of a chunk depend on in one of its key columns:
/// whether it may hold NULLs, whether it holds nothing but NULLs, and,
/// row by row, which values are present.
#[derive(Debug, Clone)]
pub struct ColumnValidity {
    pub nullable_or_null: bool,
    pub all_null: bool,
    pub valids: Option<Vec<bool>>,
}

/// Whether some key column may hold NULLs.
pub open spec fn any_nullable(cols: Seq<ColumnValidity>) -> bool {
    exists|c: int| 0 <= c < cols.len() && #[trigger] cols[c].nullable_or_null
}

/// Whether some key column holds nothing but NULLs.
pub open spec fn some_all_null(cols: Seq<ColumnValidity>) -> bool {
    exists|c: int| 0 <= c < cols.len() && #[trigger] cols[c].all_null
}

/// Whether some key column tells, row by row, which values are present.
pub open spec fn some_validity(cols: Seq<ColumnValidity>) -> bool {
    exists|c: int| 0 <= c < cols.len() && #[trigger] cols[c].valids is Some
}

/// Whether some key column that tells which values are present has a value
/// at the row.
pub open spec fn some_present(cols: Seq<ColumnValidity>, row: int) -> bool {
    exists|c: int| 0 <= c < cols.len() && (#[trigger] cols[c].valids matches Some(v) && v@[row])
}

/// Whether the keys of a row count as NULL: some column holds only NULLs,
/// or no value of the row is present in the columns that tell (and one
/// column at least does tell).
pub open spec fn row_is_null(cols: Seq<ColumnValidity>, row: int) -> bool {
    some_all_null(cols) || (some_validity(cols) && !some_present(cols, row))
}

/// The initial marker of a build row: none outside mark joins; in a mark
/// join `Null` when the keys of the row count as NULL (only when all of
/// them are), `False` otherwise.
pub open spec fn initial_marker(is_mark_join: bool, cols: Seq<ColumnValidity>, row: int) -> Option<MarkerKind> {
    if !is_mark_join {
        None
    } else if any_nullable(cols) && row_is_null(cols, row) {
        Some(MarkerKind::Null)
    } else {
        Some(MarkerKind::False)
    }
}

/// The validity of rows that either of two validities allows; a missing
/// validity adds nothing.
fn combine_validities(a: Option<Vec<bool>>, b: Option<Vec<bool>>, num_rows: usize) -> (r: Option<Vec<bool>>)
    requires
        a matches Some(v) ==> v@.len() == num_rows,
        b matches Some(v) ==> v@.len() == num_rows,
    ensures
        r is None <==> (a is None && b is None),
        r matches Some(v) ==> v@.len() == num_rows && forall|i: int| 0 <= i < num_rows ==> #[trigger] v@[i] == (
            (a matches Some(x) && x@[i]) || (b matches Some(y) && y@[i])),
{
    match (a, b) {
        (None, None) => None,
        (Some(x), None) => Some(x),
        (None, Some(y)) => Some(y),
        (Some(x), Some(y)) => {
            let mut v: Vec<bool> = Vec::new();
            let mut i: usize = 0;
            while i < num_rows
                invariant
                    x@.len() == num_rows,
                    y@.len() == num_rows,
                    i <= num_rows,
                    v@.len() == i,
                    forall|k: int| 0 <= k < i ==> #[trigger] v@[k] == (x@[k] || y@[k]),
                decreases num_rows - i,
            {
                v.push(x[i] || y[i]);
                i = i + 1;
            }
            Some(v)
        },
    }
}

/// The markers of the rows of a build chunk.
pub fn build_markers(num_rows: usize, is_mark_join: bool, cols: &Vec<ColumnValidity>) -> (r: Vec<Option<MarkerKind>>)
    requires
        forall|c: int| 0 <= c < cols@.len() ==> (#[trigger] cols@[c].valids matches Some(v) ==> v@.len() == num_rows),
    ensures
        r@.len() == num_rows,
        forall|i: int| 0 <= i < num_rows ==> #[trigger] r@[i] == initial_marker(is_mark_join, cols@, i),
{
    if !is_mark_join {
        let mut markers: Vec<Option<MarkerKind>> = Vec::new();
        let mut i: usize = 0;
        while i < num_rows
            invariant
                i <= num_rows,
                markers@.len() == i,
                forall|k: int| 0 <= k < i ==> #[trigger] markers@[k] == None::<MarkerKind>,
            decreases num_rows - i,
        {
            markers.push(None);
            i = i + 1;
        }
        return markers;
    }
    let mut markers: Vec<Option<MarkerKind>> = Vec::new();
    let mut i: usize = 0;
    while i < num_rows
        invariant
            i <= num_rows,
            markers@.len() == i,
            forall|k: int| 0 <= k < i ==> #[trigger] markers@[k] == Some(MarkerKind::False),
        decreases num_rows - i,
    {
        markers.push(Some(MarkerKind::False));
        i = i + 1;
    }
    // is any key column nullable?
    let mut nullable: bool = false;
    let mut c: usize = 0;
    while c < cols.len()
        invariant
            c <= cols@.len(),
            nullable == exists|k: int| 0 <= k < c && #[trigger] cols@[k].nullable_or_null,
        decreases cols@.len() - c,
    {
        if cols[c].nullable_or_null {
            nullable = true;
        }
        c = c + 1;
    }
    if !nullable {
        return markers;
    }
    // the rows that some column allows, up to the first column of NULLs only
    let mut valids: Option<Vec<bool>> = None;
    let mut all_null: bool = false;
    let mut c: usize = 0;
    while c < cols.len()
        invariant_except_break
            c <= cols@.len(),
            !all_null,
            forall|k: int| 0 <= k < c ==> !(#[trigger] cols@[k].all_null),
        invariant
            forall|k: int| 0 <= k < cols@.len() ==> (#[trigger] cols@[k].valids matches Some(v) ==> v@.len() == num_rows),
            valids matches Some(v) ==> v@.len() == num_rows,
            all_null ==> some_all_null(cols@),
            !all_null ==> match valids {
                None => forall|k: int| 0 <= k < c ==> (#[trigger] cols@[k].valids is None),
                Some(v) => {
                    &&& some_validity(cols@.subrange(0, c as int))
                    &&& forall|i: int| 0 <= i < num_rows ==> (#[trigger] v@[i] <==> some_present(cols@.subrange(0, c as int), i))
                },
            },
        ensures
            all_null || c == cols@.len(),
            !all_null ==> !some_all_null(cols@),
        decreases cols@.len() - c,
    {
        if cols[c].all_null {
            all_null = true;
            break;
        }
        let ghost before = valids;
        let ghost pre = cols@.subrange(0, c as int);
        let ghost post = cols@.subrange(0, c + 1);
        assert(post =~= pre.push(cols@[c as int]));
        let col_valids = match &cols[c].valids {
            Some(v) => Some(v.clone()),
            None => None,
        };
        valids = combine_validities(valids, col_valids, num_rows);
        let ghost after = valids;
        proof {
            match after {
                None => {},
                Some(v) => {
                    if cols@[c as int].valids is Some {
                        assert(post[c as int] == cols@[c as int]);
                    } else {
                        let k = choose|k: int| 0 <= k < pre.len() && #[trigger] pre[k].valids is Some;
                        assert(post[k] == pre[k]);
                    }
                    assert(some_validity(post));
                    assert forall|i: int| 0 <= i < num_rows implies (#[trigger] v@[i] <==> some_present(post, i)) by {
                        if v@[i] {
                            if cols@[c as int].valids matches Some(w) && w@[i] {
                                assert(post[c as int] == cols@[c as int]);
                            } else {
                                let k = choose|k: int| 0 <= k < pre.len() && (#[trigger] pre[k].valids matches Some(w) && w@[i]);
                                assert(post[k] == pre[k]);
                            }
                        } else {
                            if some_present(post, i) {
                                let k = choose|k: int| 0 <= k < post.len() && (#[trigger] post[k].valids matches Some(w) && w@[i]);
                                if k < c {
                                    assert(pre[k] == post[k]);
                                }
                            }
                        }
                    }
                },
            }
        }
        c = c + 1;
    }
    proof {
        assert(cols@.subrange(0, cols@.len() as int) =~= cols@);
    }
    let mut i: usize = 0;
    while i < num_rows
        invariant
            i <= num_rows,
            markers@.len() == num_rows,
            nullable,
            any_nullable(cols@),
            forall|k: int| 0 <= k < cols@.len() ==> (#[trigger] cols@[k].valids matches Some(v) ==> v@.len() == num_rows),
            valids matches Some(v) ==> v@.len() == num_rows,
            all_null ==> some_all_null(cols@),
            !all_null ==> !some_all_null(cols@),
            !all_null ==> match valids {
                None => !some_validity(cols@),
                Some(v) => some_validity(cols@) && forall|j: int| 0 <= j < num_rows ==> (#[trigger] v@[j] <==> some_present(cols@, j)),
            },
            forall|k: int| 0 <= k < i ==> #[trigger] markers@[k] == initial_marker(true, cols@, k),
            forall|k: int| i <= k < num_rows ==> #[trigger] markers@[k] == Some(MarkerKind::False),
        decreases num_rows - i,
    {
        let row_valid = if all_null {
            false
        } else {
            match &valids {
                Some(v) => v[i],
                None => true,
            }
        };
        if !row_valid {
            markers.set(i, Some(MarkerKind::Null));
        }
        i = i + 1;
    }
    markers
}

/// Whether every key column that tells which values are present has a
/// value at the row.
pub open spec fn all_present(cols: Seq<ColumnValidity>, row: int) -> bool {
    forall|c: int| 0 <= c < cols.len() ==> (#[trigger] cols[c].valids matches Some(v) ==> v@[row])
}

/// The validity of rows that both of two validities allow; a missing
/// validity adds nothing.
fn combine_validities_both(a: Option<Vec<bool>>, b: Option<Vec<bool>>, num_rows: usize) -> (r: Option<Vec<bool>>)
    requires
        a matches Some(v) ==> v@.len() == num_rows,
        b matches Some(v) ==> v@.len() == num_rows,
    ensures
        r is None <==> (a is None && b is None),
        r matches Some(v) ==> v@.len() == num_rows && forall|i: int| 0 <= i < num_rows ==> #[trigger] v@[i] == (
            (a matches Some(x) ==> x@[i]) && (b matches Some(y) ==> y@[i])),
{
    match (a, b) {
        (None, None) => None,
        (Some(x), None) => Some(x),
        (None, Some(y)) => Some(y),
        (Some(x), Some(y)) => {
            let mut v: Vec<bool> = Vec::new();
            let mut i: usize = 0;
            while i < num_rows
                invariant
                    x@.len() == num_rows,
                    y@.len() == num_rows,
                    i <= num_rows,
                    v@.len() == i,
                    forall|k: int| 0 <= k < i ==> #[trigger] v@[k] == (x@[k] && y@[k]),
                decreases num_rows - i,
            {
                v.push(x[i] && y[i]);
                i = i + 1;
            }
            Some(v)
        },
    }
}

/// The validity of the rows of a probe block, when some key column may
/// hold NULLs: no row is valid when a key column holds only NULLs;
/// otherwise a row is valid when every key column that tells has a value
/// there, and there is no validity when no column tells. Without nullable
/// key columns there is no validity either.
pub fn probe_validity(num_rows: usize, cols: &Vec<ColumnValidity>) -> (r: Option<Vec<bool>>)
    requires
        forall|c: int| 0 <= c < cols@.len() ==> (#[trigger] cols@[c].valids matches Some(v) ==> v@.len() == num_rows),
    ensures
        !any_nullable(cols@) ==> r is None,
        any_nullable(cols@) && some_all_null(cols@) ==> (r matches Some(v) && v@.len() == num_rows && forall|i: int|
            0 <= i < num_rows ==> !#[trigger] v@[i]),
        any_nullable(cols@) && !some_all_null(cols@) && !some_validity(cols@) ==> r is None,
        any_nullable(cols@) && !some_all_null(cols@) && some_validity(cols@) ==> (r matches Some(v) && v@.len()
            == num_rows && forall|i: int| 0 <= i < num_rows ==> #[trigger] v@[i] == all_present(cols@, i)),
{
    let mut nullable: bool = false;
    let mut c: usize = 0;
    while c < cols.len()
        invariant
            c <= cols@.len(),
            nullable == exists|k: int| 0 <= k < c && #[trigger] cols@[k].nullable_or_null,
        decreases cols@.len() - c,
    {
        if cols[c].nullable_or_null {
            nullable = true;
        }
        c = c + 1;
    }
    if !nullable {
        return None;
    }
    let mut valids: Option<Vec<bool>> = None;
    let mut c: usize = 0;
    while c < cols.len()
        invariant
            c <= cols@.len(),
            any_nullable(cols@),
            forall|k: int| 0 <= k < c ==> !(#[trigger] cols@[k].all_null),
            forall|k: int| 0 <= k < cols@.len() ==> (#[trigger] cols@[k].valids matches Some(v) ==> v@.len() == num_rows),
            valids matches Some(v) ==> v@.len() == num_rows,
            match valids {
                None => !some_validity(cols@.subrange(0, c as int)),
                Some(v) => {
                    &&& some_validity(cols@.subrange(0, c as int))
                    &&& forall|i: int| 0 <= i < num_rows ==> (#[trigger] v@[i] <==> all_present(cols@.subrange(0, c as int), i))
                },
            },
        decreases cols@.len() - c,
    {
        let ghost pre = cols@.subrange(0, c as int);
        let ghost post = cols@.subrange(0, c + 1);
        assert(post =~= pre.push(cols@[c as int]));
        if cols[c].all_null {
            let mut none: Vec<bool> = Vec::new();
            let mut i: usize = 0;
            while i < num_rows
                invariant
                    i <= num_rows,
                    none@.len() == i,
                    forall|k: int| 0 <= k < i ==> !#[trigger] none@[k],
                decreases num_rows - i,
            {
                none.push(false);
                i = i + 1;
            }
            assert(cols@[c as int].all_null);
            return Some(none);
        }
        let ghost before = valids;
        let col_valids = match &cols[c].valids {
            Some(v) => Some(v.clone()),
            None => None,
        };
        valids = combine_validities_both(valids, col_valids, num_rows);
        let ghost after = valids;
        proof {
            match after {
                None => {
                    assert forall|k: int| 0 <= k < post.len() implies !(#[trigger] post[k].valids is Some) by {
                        if k < c {
                            assert(post[k] == pre[k]);
                        }
                    }
                },
                Some(v) => {
                    if cols@[c as int].valids is Some {
                        assert(post[c as int] == cols@[c as int]);
                    } else {
                        let k = choose|k: int| 0 <= k < pre.len() && #[trigger] pre[k].valids is Some;
                        assert(post[k] == pre[k]);
                    }
                    assert(some_validity(post));
                    assert forall|i: int| 0 <= i < num_rows implies (#[trigger] v@[i] <==> all_present(post, i)) by {
                        if v@[i] {
                            assert forall|k: int| 0 <= k < post.len() implies (#[trigger] post[k].valids matches Some(w) ==> w@[i]) by {
                                if k < c {
                                    assert(post[k] == pre[k]);
                                    match before {
                                        None => {},
                                        Some(bv) => {
                                            assert(bv@[i]);
                                        },
                                    }
                                }
                            }
                        } else {
                            match before {
                                None => {
                                    assert(post[c as int] == cols@[c as int]);
                                },
                                Some(bv) => {
                                    if bv@[i] {
                                        assert(post[c as int] == cols@[c as int]);
                                    } else {
                                        let k = choose|k: int| 0 <= k < pre.len() && !(#[trigger] pre[k].valids matches Some(w) ==> w@[i]);
                                        assert(post[k] == pre[k]);
                                    }
                                }
                            }
                        }
                    }
                },
            }
        }
        c = c + 1;
    }
    assert(cols@.subrange(0, cols@.len() as int) =~= cols@);
    valids
}

/// The output of a mark join for one build row: its marker afterwards
/// (a `False` turns `Null` when the probe side met a NULL), and the value
/// and validity of the output, both taken from the marker before.
pub open spec fn marker_after(m: MarkerKind, has_null: bool) -> MarkerKind {
    if m == MarkerKind::False && has_null {
        MarkerKind::Null
    } else {
        m
    }
}

/// Turns the markers of the build rows into the output column of a mark
/// join: whether each value is valid (not `Null`) and its value (`True`).
/// A `False` marker becomes `Null` when the probe side met a NULL; the
/// output is read from the marker as it was before.
pub fn mark_join_output(markers: &mut Vec<Option<MarkerKind>>, has_null: bool) -> (r: (Vec<bool>, Vec<bool>))
    requires
        forall|i: int| 0 <= i < old(markers)@.len() ==> (#[trigger] old(markers)@[i]) is Some,
    ensures
        final(markers)@.len() == old(markers)@.len(),
        r.0@.len() == old(markers)@.len(),
        r.1@.len() == old(markers)@.len(),
        forall|i: int| 0 <= i < old(markers)@.len() ==> {
            let m = (#[trigger] old(markers)@[i])->0;
            &&& final(markers)@[i] == Some(marker_after(m, has_null))
            &&& r.0@[i] == (m != MarkerKind::Null)
            &&& r.1@[i] == (m == MarkerKind::True)
        },
{
    let ghost before = markers@;
    let mut validity: Vec<bool> = Vec::new();
    let mut bits: Vec<bool> = Vec::new();
    let mut i: usize = 0;
    while i < markers.len()
        invariant
            markers@.len() == before.len(),
            i <= before.len(),
            validity@.len() == i,
            bits@.len() == i,
            forall|k: int| 0 <= k < before.len() ==> (#[trigger] before[k]) is Some,
            forall|k: int| i <= k < before.len() ==> #[trigger] markers@[k] == before[k],
            forall|k: int| 0 <= k < i ==> {
                let m = (#[trigger] before[k])->0;
                &&& markers@[k] == Some(marker_after(m, has_null))
                &&& validity@[k] == (m != MarkerKind::Null)
                &&& bits@[k] == (m == MarkerKind::True)
            },
        decreases before.len() - i,
    {
        let marker = match markers[i] {
            Some(m) => m,
            None => MarkerKind::Null,
        };
        assert(before[i as int] == Some(marker));
        if marker == MarkerKind::False && has_null {
            markers.set(i, Some(MarkerKind::Null));
        }
        validity.push(marker != MarkerKind::Null);
        bits.push(marker == MarkerKind::True);
        i = i + 1;
    }
    (validity, bits)
}

} // verus!
