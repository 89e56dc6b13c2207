//! Where the scatters optimizer places the stages that move data between the
//! nodes of a cluster. A plan runs in cluster mode from a source that is
//! spread over nodes until a step needs all rows in one place; that step
//! converges the data with a merge stage and the rest runs standalone.
use vstd::prelude::*;

verus! {

/// Whether the rows at a point of the plan are spread over the cluster.
#[derive(PartialEq, Eq, Structural, Clone, Copy, Debug)]
pub enum RunningMode {
    Standalone,
    Cluster,
}

/// A step of a plan that the optimizer rewrites, with what the decision
/// depends on.
#[derive(PartialEq, Eq, Structural, Clone, Copy, Debug)]
pub enum PlanStep {
    /// A partial aggregation, with or without group keys.
    AggregatePartial { has_group_keys: bool },
    /// A window function, with or without a `PARTITION BY`.
    WindowFunc { has_partition_by: bool },
    /// An `ORDER BY`.
    Sort,
    /// A `LIMIT` with its offset.
    Limit,
    /// A `LIMIT ... BY`.
    LimitBy,
    /// A read of a table, local to this node or not.
    ReadSource { is_local: bool },
}

/// The stage the optimizer places around a step.
#[derive(PartialEq, Eq, Structural, Clone, Copy, Debug)]
pub enum StagePlacement {
    /// No stage.
    NoStage,
    /// A merge stage that gathers all rows on one node, before the step.
    MergeBefore,
    /// A merge stage after the step.
    MergeAfter,
    /// A shuffle after the step, scattering rows by the hash of the group
    /// key.
    ShuffleByGroupKeyAfter,
    /// A shuffle before the step, scattering rows by the hash of the
    /// partition columns joined with `#`.
    ShuffleByPartitionBefore,
}

/// The mode after a step and the stage placed around it.
pub open spec fn scatter_spec(mode: RunningMode, step: PlanStep) -> (RunningMode, StagePlacement) {
    match step {
        PlanStep::ReadSource { is_local } => (
            if is_local { RunningMode::Standalone } else { RunningMode::Cluster },
            StagePlacement::NoStage,
        ),
        _ => match mode {
            RunningMode::Standalone => (RunningMode::Standalone, StagePlacement::NoStage),
            RunningMode::Cluster => match step {
                PlanStep::AggregatePartial { has_group_keys } => if has_group_keys {
                    (RunningMode::Cluster, StagePlacement::ShuffleByGroupKeyAfter)
                } else {
                    (RunningMode::Standalone, StagePlacement::MergeAfter)
                },
                PlanStep::WindowFunc { has_partition_by } => if has_partition_by {
                    (RunningMode::Cluster, StagePlacement::ShuffleByPartitionBefore)
                } else {
                    (RunningMode::Standalone, StagePlacement::MergeBefore)
                },
                _ => (RunningMode::Standalone, StagePlacement::MergeBefore),
            },
        },
    }
}

/// The mode after a step and the stage to place around it: a read sets the
/// mode by where its table lives; in standalone mode nothing moves; in
/// cluster mode an aggregation by keys and a partitioned window keep the
/// rows spread, shuffled by key, while every other step gathers them first
/// (or, for an aggregation without keys, after its partial results).
pub fn scatter_step(mode: RunningMode, step: PlanStep) -> (r: (RunningMode, StagePlacement))
    ensures
        r == scatter_spec(mode, step),
{
    match step {
        PlanStep::ReadSource { is_local } => {
            if is_local {
                (RunningMode::Standalone, StagePlacement::NoStage)
            } else {
                (RunningMode::Cluster, StagePlacement::NoStage)
            }
        },
        _ => match mode {
            RunningMode::Standalone => (RunningMode::Standalone, StagePlacement::NoStage),
            RunningMode::Cluster => match step {
                PlanStep::AggregatePartial { has_group_keys } => {
                    if has_group_keys {
                        (RunningMode::Cluster, StagePlacement::ShuffleByGroupKeyAfter)
                    } else {
                        (RunningMode::Standalone, StagePlacement::MergeAfter)
                    }
                },
                PlanStep::WindowFunc { has_partition_by } => {
                    if has_partition_by {
                        (RunningMode::Cluster, StagePlacement::ShuffleByPartitionBefore)
                    } else {
                        (RunningMode::Standalone, StagePlacement::MergeBefore)
                    }
                },
                _ => (RunningMode::Standalone, StagePlacement::MergeBefore),
            },
        },
    }
}

/// How the result of a subquery joins the plan around it.
#[derive(PartialEq, Eq, Structural, Clone, Copy, Debug)]
pub enum SubqueryPlacement {
    /// As it is.
    AsIs,
    /// Gathered on one node by a merge stage.
    Converged,
    /// Sent to every node.
    Broadcast,
}

/// How a subquery's result joins the outer plan: a cluster plan gets it
/// broadcast; a standalone plan gets it gathered when the subquery ran in
/// cluster mode, and as it is otherwise.
pub open spec fn subquery_spec(outer: RunningMode, subquery: RunningMode) -> SubqueryPlacement {
    match outer {
        RunningMode::Cluster => SubqueryPlacement::Broadcast,
        RunningMode::Standalone => match subquery {
            RunningMode::Cluster => SubqueryPlacement::Converged,
            RunningMode::Standalone => SubqueryPlacement::AsIs,
        },
    }
}

/// How a subquery's result joins the outer plan, by the modes of both.
pub fn subquery_placement(outer: RunningMode, subquery: RunningMode) -> (r: SubqueryPlacement)
    ensures
        r == subquery_spec(outer, subquery),
{
    match (outer, subquery) {
        (RunningMode::Standalone, RunningMode::Standalone) => SubqueryPlacement::AsIs,
        (RunningMode::Standalone, RunningMode::Cluster) => SubqueryPlacement::Converged,
        (RunningMode::Cluster, RunningMode::Standalone) => SubqueryPlacement::Broadcast,
        (RunningMode::Cluster, RunningMode::Cluster) => SubqueryPlacement::Broadcast,
    }
}

/// Places the stages that let a plan run on a cluster.
#[derive(Debug, Clone, Copy)]
pub struct ScattersOptimizer {
    cluster_nodes: usize,
}

impl ScattersOptimizer {
    /// The number of other nodes in the cluster.
    pub closed spec fn nodes(&self) -> nat {
        self.cluster_nodes as nat
    }

    /// The optimizer for a query whose cluster has the given number of
    /// other nodes.
    pub fn create(cluster_nodes: usize) -> (r: ScattersOptimizer)
        ensures
            r.nodes() == cluster_nodes,
    {
        ScattersOptimizer { cluster_nodes }
    }

    /// The optimizer's name.
    pub fn name(&self) -> (r: &'static str)
        ensures
            r@ == "Scatters"@,
    {
        "Scatters"
    }

    /// Whether the optimizer rewrites plans at all: without other nodes a
    /// plan stays as it is.
    pub fn rewrites_plans(&self) -> (r: bool)
        ensures
            r == (self.nodes() > 0),
    {
        self.cluster_nodes > 0
    }
}

/// Standalone stays standalone: only a read of a table that is not local
/// starts cluster mode, and in standalone mode no stage is placed.
pub proof fn law_standalone_places_no_stage(step: PlanStep)
    ensures
        scatter_spec(RunningMode::Standalone, step).1 == StagePlacement::NoStage,
        !(step is ReadSource) ==> scatter_spec(RunningMode::Standalone, step).0 == RunningMode::Standalone,
{
}

/// Leaving cluster mode always gathers the rows: when a step turns cluster
/// mode into standalone mode, it places a merge stage.
pub proof fn law_leaving_cluster_merges(step: PlanStep)
    requires
        !(step is ReadSource),
        scatter_spec(RunningMode::Cluster, step).0 == RunningMode::Standalone,
    ensures
        scatter_spec(RunningMode::Cluster, step).1 == StagePlacement::MergeBefore
            || scatter_spec(RunningMode::Cluster, step).1 == StagePlacement::MergeAfter,
{
}

/// A step that keeps the rows spread over the cluster shuffles them by a
/// key, so that rows with the same key meet on one node.
pub proof fn law_staying_in_cluster_shuffles(step: PlanStep)
    requires
        !(step is ReadSource),
        scatter_spec(RunningMode::Cluster, step).0 == RunningMode::Cluster,
    ensures
        scatter_spec(RunningMode::Cluster, step).1 == StagePlacement::ShuffleByGroupKeyAfter
            || scatter_spec(RunningMode::Cluster, step).1 == StagePlacement::ShuffleByPartitionBefore,
{
}

} // verus!
