//! Rules of the optimizer: the shape of plan they apply to, and what they
//! turn a matching plan into.
use vstd::prelude::*;

use std::collections::HashSet;

use crate::optimizer_property::column_set_is_subset;

verus! {

/// The kinds of relational operator a rule's pattern names.
#[derive(PartialEq, Eq, Structural, Clone, Copy, Debug)]
pub enum RelOp {
    Project,
    Filter,
    LogicalInnerJoin,
    PhysicalHashJoin,
    /// Any operator.
    Pattern,
}

/// The rules.
#[derive(PartialEq, Eq, Structural, Clone, Copy, Debug)]
pub enum RuleID {
    EliminateProject,
    ImplementHashJoin,
}

/// The shape of plan a rule matches: an operator and the shapes of its
/// inputs.
#[derive(Debug)]
pub struct PatternExpr {
    pub plan_type: RelOp,
    pub children: Vec<PatternExpr>,
}

impl PatternExpr {
    /// A shape with no inputs.
    pub fn create_leaf(plan_type: RelOp) -> (r: PatternExpr)
        ensures
            r.plan_type == plan_type,
            r.children@.len() == 0,
    {
        PatternExpr { plan_type, children: Vec::new() }
    }

    /// A shape with one input.
    pub fn create_unary(plan_type: RelOp, child: PatternExpr) -> (r: PatternExpr)
        ensures
            r.plan_type == plan_type,
            r.children@ == seq![child],
    {
        let mut children = Vec::new();
        children.push(child);
        PatternExpr { plan_type, children }
    }

    /// A shape with two inputs.
    pub fn create_binary(plan_type: RelOp, left: PatternExpr, right: PatternExpr) -> (r: PatternExpr)
        ensures
            r.plan_type == plan_type,
            r.children@ == seq![left, right],
    {
        let mut children = Vec::new();
        children.push(left);
        children.push(right);
        PatternExpr { plan_type, children }
    }
}

/// Whether a shape is a leaf matching any operator.
pub open spec fn is_any_leaf(p: PatternExpr) -> bool {
    p.plan_type == RelOp::Pattern && p.children@.len() == 0
}

/// Removes a projection that keeps exactly the columns of its input.
#[derive(Debug)]
pub struct RuleEliminateProject {
    id: RuleID,
    pattern: PatternExpr,
}

impl RuleEliminateProject {
    /// The rule's id.
    pub closed spec fn id_view(&self) -> RuleID {
        self.id
    }

    /// The shape the rule matches.
    pub closed spec fn pattern_view(&self) -> PatternExpr {
        self.pattern
    }

    /// The rule, matching a projection over any input.
    pub fn new() -> (r: RuleEliminateProject)
        ensures
            r.id_view() == RuleID::EliminateProject,
            r.pattern_view().plan_type == RelOp::Project,
            r.pattern_view().children@.len() == 1,
            is_any_leaf(r.pattern_view().children@[0]),
    {
        RuleEliminateProject {
            id: RuleID::EliminateProject,
            pattern: PatternExpr::create_unary(RelOp::Project, PatternExpr::create_leaf(RelOp::Pattern)),
        }
    }

    /// The rule's id.
    pub fn id(&self) -> (r: RuleID)
        ensures
            r == self.id_view(),
    {
        self.id
    }

    /// The shape the rule matches.
    pub fn pattern(&self) -> (r: &PatternExpr)
        ensures
            *r == self.pattern_view(),
    {
        &self.pattern
    }

    /// Whether a projection goes: it keeps exactly the columns its input
    /// outputs, and the input takes its place.
    pub fn eliminates(project_columns: &HashSet<usize>, input_output_columns: &HashSet<usize>) -> (r: bool)
        ensures
            r == (project_columns@ == input_output_columns@),
    {
        let r = column_set_is_subset(project_columns, input_output_columns)
            && column_set_is_subset(input_output_columns, project_columns);
        proof {
            if r {
                assert(project_columns@ =~= input_output_columns@);
            }
        }
        r
    }
}

/// A hash join: the keys the build side is hashed by and the keys the
/// probe side looks up.
#[derive(Debug, Clone)]
pub struct PhysicalHashJoin<S> {
    pub build_keys: Vec<S>,
    pub probe_keys: Vec<S>,
}

/// Implements an inner join as a hash join.
#[derive(Debug)]
pub struct RuleImplementHashJoin {
    id: RuleID,
    pattern: PatternExpr,
}

impl RuleImplementHashJoin {
    /// The rule's id.
    pub closed spec fn id_view(&self) -> RuleID {
        self.id
    }

    /// The shape the rule matches.
    pub closed spec fn pattern_view(&self) -> PatternExpr {
        self.pattern
    }

    /// The rule, matching an inner join of any two inputs.
    pub fn create() -> (r: RuleImplementHashJoin)
        ensures
            r.id_view() == RuleID::ImplementHashJoin,
            r.pattern_view().plan_type == RelOp::LogicalInnerJoin,
            r.pattern_view().children@.len() == 2,
            is_any_leaf(r.pattern_view().children@[0]),
            is_any_leaf(r.pattern_view().children@[1]),
    {
        RuleImplementHashJoin {
            id: RuleID::ImplementHashJoin,
            pattern: PatternExpr::create_binary(
                RelOp::LogicalInnerJoin,
                PatternExpr::create_leaf(RelOp::Pattern),
                PatternExpr::create_leaf(RelOp::Pattern),
            ),
        }
    }

    /// The rule's id.
    pub fn id(&self) -> (r: RuleID)
        ensures
            r == self.id_view(),
    {
        self.id
    }

    /// The shape the rule matches.
    pub fn pattern(&self) -> (r: &PatternExpr)
        ensures
            *r == self.pattern_view(),
    {
        &self.pattern
    }

    /// The hash join for an inner join: the right side is built, the left
    /// side probes.
    pub fn implement<S>(left_conditions: Vec<S>, right_conditions: Vec<S>) -> (r: PhysicalHashJoin<S>)
        ensures
            r.build_keys@ == right_conditions@,
            r.probe_keys@ == left_conditions@,
    {
        PhysicalHashJoin { build_keys: right_conditions, probe_keys: left_conditions }
    }
}

} // verus!
