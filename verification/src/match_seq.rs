//! The condition that a write puts on the sequence number of a record.
use vstd::prelude::*;

use crate::text::decimal;
use crate::text::push_decimal;
use crate::text::push_str;

verus! {

/// What the sequence number of a record must be for a write to apply: any
/// value, exactly a value, or at least a value.
#[derive(PartialEq, Eq, Structural, Clone, Copy, Debug)]
pub enum MatchSeq {
    Any,
    Exact(u64),
    GE(u64),
}

/// How a condition is printed.
pub open spec fn match_seq_text(m: MatchSeq) -> Seq<char> {
    match m {
        MatchSeq::Any => "is any value"@,
        MatchSeq::Exact(s) => "== "@ + decimal(s as nat),
        MatchSeq::GE(s) => ">= "@ + decimal(s as nat),
    }
}

impl MatchSeq {
    /// Appends how the condition is printed.
    pub fn push_text(&self, s: &mut String)
        ensures
            final(s)@ == old(s)@ + match_seq_text(*self),
    {
        match self {
            MatchSeq::Any => push_str(s, "is any value"),
            MatchSeq::Exact(v) => {
                push_str(s, "== ");
                push_decimal(s, *v);
            },
            MatchSeq::GE(v) => {
                push_str(s, ">= ");
                push_decimal(s, *v);
            },
        }
        assert(s@ =~= old(s)@ + match_seq_text(*self));
    }
}

} // verus!
