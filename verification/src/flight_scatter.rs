//! How the rows of a block are spread among the nodes of a cluster by the
//! hash of their keys: the hash values of a key column, and the node each
//! row goes to.
use vstd::prelude::*;

use crate::error_code::ErrorCode;
use crate::error_code::ErrorKind;

verus! {

/// A column that the hash function of a key produced.
#[derive(Debug)]
pub enum HashColumn {
    /// Hash values, one per row.
    UInt64(Vec<u64>),
    /// A column whose rows may be NULL: `validity` tells, row by row,
    /// whether the row holds a value.
    Nullable { inner: Box<HashColumn>, validity: Vec<bool> },
    /// The first row of `inner`, repeated `len` times.
    Const { inner: Box<HashColumn>, len: usize },
    /// A column of another type, with its number of rows.
    Other { rows: usize },
}

/// The number of rows of a column.
pub open spec fn column_rows(c: HashColumn) -> nat
    decreases c,
{
    match c {
        HashColumn::UInt64(v) => v@.len(),
        HashColumn::Nullable { inner, .. } => column_rows(*inner),
        HashColumn::Const { len, .. } => len as nat,
        HashColumn::Other { rows } => rows as nat,
    }
}

/// Whether a column is well formed: the validity of a nullable column
/// covers its rows, and a constant column repeats a row it has.
pub open spec fn column_wf(c: HashColumn) -> bool
    decreases c,
{
    match c {
        HashColumn::UInt64(_) => true,
        HashColumn::Nullable { inner, validity } => column_wf(*inner) && validity@.len() == column_rows(*inner),
        HashColumn::Const { inner, .. } => column_wf(*inner) && column_rows(*inner) >= 1,
        HashColumn::Other { .. } => true,
    }
}

/// The hash value of each row: a NULL row hashes to zero, and a column of
/// another type has none.
pub open spec fn hash_values(c: HashColumn) -> Option<Seq<u64>>
    decreases c,
{
    match c {
        HashColumn::UInt64(v) => Some(v@),
        HashColumn::Nullable { inner, validity } => match hash_values(*inner) {
            Some(vs) => Some(Seq::new(vs.len(), |i: int| if validity@[i] { vs[i] } else { 0u64 })),
            None => None,
        },
        HashColumn::Const { inner, len } => match hash_values(*inner) {
            Some(vs) => Some(Seq::new(len as nat, |i: int| vs[0])),
            None => None,
        },
        HashColumn::Other { .. } => None,
    }
}

proof fn lemma_hash_values_len(c: HashColumn)
    requires
        column_wf(c),
    ensures
        hash_values(c) matches Some(vs) ==> vs.len() == column_rows(c),
    decreases c,
{
    match c {
        HashColumn::Nullable { inner, .. } => lemma_hash_values_len(*inner),
        HashColumn::Const { inner, .. } => lemma_hash_values_len(*inner),
        _ => {},
    }
}

impl HashColumn {
    /// The hash value of each row; a column of another type is a logical
    /// error.
    pub fn get_hash_values(&self) -> (r: Result<Vec<u64>, ErrorCode>)
        requires
            column_wf(*self),
        ensures
            match r {
                Ok(v) => hash_values(*self) == Some(v@),
                Err(e) => hash_values(*self) is None && e.kind == ErrorKind::LogicalError && e.message@
                    == "Hash keys must be of type u64."@,
            },
        decreases self,
    {
        match self {
            HashColumn::UInt64(v) => Ok(v.clone()),
            HashColumn::Nullable { inner, validity } => {
                let mut values = match (**inner).get_hash_values() {
                    Ok(v) => v,
                    Err(e) => return Err(e),
                };
                proof {
                    lemma_hash_values_len(**inner);
                }
                let ghost vs = values@;
                let mut i: usize = 0;
                while i < values.len()
                    invariant
                        values@.len() == vs.len(),
                        validity@.len() == vs.len(),
                        i <= vs.len(),
                        forall|k: int| 0 <= k < i ==> values@[k] == (if validity@[k] { vs[k] } else { 0u64 }),
                        forall|k: int| i <= k < vs.len() ==> values@[k] == vs[k],
                    decreases vs.len() - i,
                {
                    if !validity[i] {
                        values.set(i, 0);
                    }
                    i = i + 1;
                }
                assert(values@ =~= Seq::new(vs.len(), |k: int| if validity@[k] { vs[k] } else { 0u64 }));
                Ok(values)
            },
            HashColumn::Const { inner, len } => {
                let first = match (**inner).get_hash_values() {
                    Ok(v) => v,
                    Err(e) => return Err(e),
                };
                proof {
                    lemma_hash_values_len(**inner);
                }
                let h = first[0];
                let mut values: Vec<u64> = Vec::new();
                let mut i: usize = 0;
                while i < *len
                    invariant
                        i <= *len,
                        values@.len() == i,
                        forall|k: int| 0 <= k < i ==> values@[k] == h,
                    decreases *len - i,
                {
                    values.push(h);
                    i = i + 1;
                }
                assert(values@ =~= Seq::new(*len as nat, |k: int| first@[0]));
                Ok(values)
            },
            HashColumn::Other { .. } => Err(
                ErrorCode::create(ErrorKind::LogicalError, String::from_str("Hash keys must be of type u64.")),
            ),
        }
    }
}

/// The node each row goes to: its hash modulo the number of nodes.
pub fn scatter_indices(hashes: &Vec<u64>, scatter_size: usize) -> (r: Vec<usize>)
    requires
        scatter_size > 0,
    ensures
        r@.len() == hashes@.len(),
        forall|i: int| 0 <= i < r@.len() ==> #[trigger] r@[i] == (hashes@[i] as usize) % scatter_size,
{
    let mut r: Vec<usize> = Vec::new();
    let mut i: usize = 0;
    while i < hashes.len()
        invariant
            scatter_size > 0,
            i <= hashes@.len(),
            r@.len() == i,
            forall|k: int| 0 <= k < i ==> #[trigger] r@[k] == (hashes@[k] as usize) % scatter_size,
        decreases hashes@.len() - i,
    {
        r.push((hashes[i] as usize) % scatter_size);
        i = i + 1;
    }
    r
}

} // verus!
