use std::collections::HashSet;
use std::sync::Arc;

use databend_common::fragments::out_partition;
use databend_common::fragments::read_parts_per_executor;
use databend_common::fragments::repartition;
use databend_common::fragments::PartitionState;
use databend_common::optimizer_property::column_set_is_subset;
use databend_common::optimizer_property::filter_relational_prop;
use databend_common::optimizer_property::PhysicalProperty;
use databend_common::optimizer_property::RelationalProperty;
use databend_common::optimizer_property::RequiredProperty;
use databend_common::optimizer_rules::RelOp;
use databend_common::optimizer_rules::RuleEliminateProject;
use databend_common::optimizer_rules::RuleID;
use databend_common::optimizer_rules::RuleImplementHashJoin;
use databend_common::pipe::ExchangeSource;
use databend_common::pipe::OutputPort;
use databend_common::pipe::InputPort;
use databend_common::pipe::Pipe;
use databend_common::pipe::ProcessorPtr;
use databend_common::pipe::SinkPipeBuilder;
use databend_common::pipe::SourcePipeBuilder;
use databend_common::pipe::TransformPipeBuilder;
use databend_common::planner::CreateDatabasePlan;
use databend_common::planner::CreateDatabaseReq;
use databend_common::planner::Extras;
use databend_common::planner::FormatTreeNode;
use databend_common::planner::UnDropTablePlan;
use databend_common::planner::UndropTableReq;
use databend_common::scatters::scatter_step;
use databend_common::scatters::subquery_placement;
use databend_common::scatters::PlanStep;
use databend_common::scatters::RunningMode;
use databend_common::scatters::ScattersOptimizer;
use databend_common::scatters::StagePlacement;
use databend_common::scatters::SubqueryPlacement;
use databend_common::expr_display::DataType;
use databend_common::remote_expr::Expr;
use databend_common::remote_expr::FunctionRegistry;
use databend_common::remote_expr::RemoteExpr;

fn set(xs: &[usize]) -> HashSet<usize> {
    xs.iter().cloned().collect()
}

#[test]
fn pipes_of_builders() {
    let mut b = SourcePipeBuilder::create();
    b.add_source(Arc::new(OutputPort { id: 1 }), ProcessorPtr { id: 10 });
    b.add_source(Arc::new(OutputPort { id: 2 }), ProcessorPtr { id: 11 });
    let p = b.finalize();
    assert_eq!(p.size(), 2);
    assert_eq!(p.input_size(), 0);
    assert_eq!(p.output_size(), 2);
    assert_eq!(p.processor_by_index(1), ProcessorPtr { id: 11 });

    let mut b = SinkPipeBuilder::create();
    b.add_sink(Arc::new(InputPort { id: 3 }), ProcessorPtr { id: 12 });
    let p = b.finalize();
    assert_eq!((p.size(), p.input_size(), p.output_size()), (1, 1, 0));

    let mut b = TransformPipeBuilder::create();
    b.add_transform(Arc::new(InputPort { id: 4 }), Arc::new(OutputPort { id: 5 }), ProcessorPtr { id: 13 });
    let p = b.finalize();
    assert_eq!((p.size(), p.input_size(), p.output_size()), (1, 1, 1));

    let r = Pipe::ResizePipe {
        processor: ProcessorPtr { id: 20 },
        inputs_port: vec![Arc::new(InputPort { id: 6 }), Arc::new(InputPort { id: 7 })],
        outputs_port: vec![Arc::new(OutputPort { id: 8 })],
    };
    assert_eq!((r.size(), r.input_size(), r.output_size()), (1, 2, 1));
    assert_eq!(r.processor_by_index(5), ProcessorPtr { id: 20 });
}

#[test]
fn exchange_source_pipe() {
    let sources = vec![
        (Arc::new(OutputPort { id: 1 }), ProcessorPtr { id: 10 }),
        (Arc::new(OutputPort { id: 2 }), ProcessorPtr { id: 11 }),
        (Arc::new(OutputPort { id: 3 }), ProcessorPtr { id: 12 }),
    ];
    let p = ExchangeSource::create_source(sources);
    assert_eq!(p.size(), 3);
    assert_eq!(p.output_size(), 3);
    assert_eq!(p.input_size(), 0);
    assert_eq!(p.processor_by_index(2), ProcessorPtr { id: 12 });
}

#[test]
fn extras_default_pushes_nothing_down() {
    let e: Extras<String> = Extras::default();
    assert!(e.projection.is_none());
    assert!(e.filters.is_empty());
    assert!(e.limit.is_none());
    assert!(e.order_by.is_empty());
}

#[test]
fn undrop_plan_to_request() {
    let p = UnDropTablePlan {
        tenant: "t".to_string(),
        catalog: "default".to_string(),
        db: "db".to_string(),
        table: "tb".to_string(),
    };
    let r: UndropTableReq = p.into();
    assert_eq!(r.name_ident.tenant, "t");
    assert_eq!(r.name_ident.db_name, "db");
    assert_eq!(r.name_ident.table_name, "tb");
}

#[test]
fn format_tree_nodes() {
    let leaf = FormatTreeNode::new("scan".to_string());
    let root = FormatTreeNode::with_children("filter".to_string(), vec![leaf]);
    let text = format!("{:?}", root);
    assert!(text.contains("filter"));
    assert!(text.contains("scan"));
}

#[test]
fn repartition_keeps_adjacent_parts_together() {
    let parts: Vec<u32> = (0..7).collect();
    let nodes = repartition(&parts, 3);
    assert_eq!(nodes, vec![vec![0, 1, 6], vec![2, 3], vec![4, 5]]);
    let nodes = repartition(&parts, 10);
    assert_eq!(nodes.len(), 10);
    assert_eq!(nodes[0], vec![0]);
    assert_eq!(nodes[6], vec![6]);
    assert!(nodes[7].is_empty());
    let nodes = repartition(&parts, 1);
    assert_eq!(nodes, vec![parts.clone()]);
    let total: usize = repartition(&parts, 4).iter().map(|n| n.len()).sum();
    assert_eq!(total, 7);
}

#[test]
fn scatter_decisions() {
    let c = RunningMode::Cluster;
    let s = RunningMode::Standalone;
    assert_eq!(scatter_step(c, PlanStep::AggregatePartial { has_group_keys: true }), (c, StagePlacement::ShuffleByGroupKeyAfter));
    assert_eq!(scatter_step(c, PlanStep::AggregatePartial { has_group_keys: false }), (s, StagePlacement::MergeAfter));
    assert_eq!(scatter_step(c, PlanStep::WindowFunc { has_partition_by: true }), (c, StagePlacement::ShuffleByPartitionBefore));
    assert_eq!(scatter_step(c, PlanStep::WindowFunc { has_partition_by: false }), (s, StagePlacement::MergeBefore));
    assert_eq!(scatter_step(c, PlanStep::Sort), (s, StagePlacement::MergeBefore));
    assert_eq!(scatter_step(c, PlanStep::Limit), (s, StagePlacement::MergeBefore));
    assert_eq!(scatter_step(c, PlanStep::LimitBy), (s, StagePlacement::MergeBefore));
    assert_eq!(scatter_step(s, PlanStep::Sort), (s, StagePlacement::NoStage));
    assert_eq!(scatter_step(s, PlanStep::ReadSource { is_local: false }), (c, StagePlacement::NoStage));
    assert_eq!(scatter_step(c, PlanStep::ReadSource { is_local: true }), (s, StagePlacement::NoStage));
    assert_eq!(subquery_placement(s, s), SubqueryPlacement::AsIs);
    assert_eq!(subquery_placement(s, c), SubqueryPlacement::Converged);
    assert_eq!(subquery_placement(c, s), SubqueryPlacement::Broadcast);
    assert_eq!(subquery_placement(c, c), SubqueryPlacement::Broadcast);
    let o = ScattersOptimizer::create(0);
    assert_eq!(o.name(), "Scatters");
    assert!(!o.rewrites_plans());
    assert!(ScattersOptimizer::create(2).rewrites_plans());
}

#[test]
fn required_property_is_provided_by_a_superset() {
    let req = RequiredProperty::create(set(&[1, 2]));
    assert_eq!(req.required_columns(), &set(&[1, 2]));
    let rel = RelationalProperty { output_columns: set(&[1, 2, 3]), outer_columns: set(&[]) };
    assert!(req.provided_by(&rel, &PhysicalProperty {}));
    let rel = RelationalProperty { output_columns: set(&[1, 3]), outer_columns: set(&[]) };
    assert!(!req.provided_by(&rel, &PhysicalProperty {}));
    assert!(RequiredProperty::default().provided_by(&rel, &PhysicalProperty::default()));
    assert!(column_set_is_subset(&set(&[]), &set(&[])));
    assert!(!column_set_is_subset(&set(&[4]), &set(&[])));
}

#[test]
fn filter_outer_columns() {
    let input = RelationalProperty { output_columns: set(&[1, 2]), outer_columns: set(&[2, 9]) };
    let r = filter_relational_prop(&input, &vec![set(&[1, 5]), set(&[2, 6])]);
    assert_eq!(r.output_columns, set(&[1, 2]));
    assert_eq!(r.outer_columns, set(&[5, 6, 9]));
    let d = RelationalProperty::default();
    assert!(d.output_columns.is_empty() && d.outer_columns.is_empty());
}

#[test]
fn optimizer_rules() {
    let r = RuleEliminateProject::new();
    assert_eq!(r.id(), RuleID::EliminateProject);
    assert_eq!(r.pattern().plan_type, RelOp::Project);
    assert_eq!(r.pattern().children.len(), 1);
    assert_eq!(r.pattern().children[0].plan_type, RelOp::Pattern);
    assert!(RuleEliminateProject::eliminates(&set(&[1, 2]), &set(&[2, 1])));
    assert!(!RuleEliminateProject::eliminates(&set(&[1]), &set(&[1, 2])));
    let r = RuleImplementHashJoin::create();
    assert_eq!(r.id(), RuleID::ImplementHashJoin);
    assert_eq!(r.pattern().plan_type, RelOp::LogicalInnerJoin);
    assert_eq!(r.pattern().children.len(), 2);
    let j = RuleImplementHashJoin::implement(vec!["l"], vec!["r"]);
    assert_eq!(j.build_keys, vec!["r"]);
    assert_eq!(j.probe_keys, vec!["l"]);
}

#[test]
fn remote_expressions_round_trip() {
    let e: Expr<i64, String> = Expr::FunctionCall {
        span: Some((0, 5)),
        id: 1,
        function: "plus".to_string(),
        generics: vec![DataType::Int64],
        args: vec![
            Expr::ColumnRef { span: None, id: 3 },
            Expr::Cast { span: None, expr: Box::new(Expr::Constant { span: None, scalar: 7 }), dest_type: DataType::Int64 },
        ],
    };
    let r = RemoteExpr::from_expr(e);
    match &r {
        RemoteExpr::FunctionCall { id, args, .. } => {
            assert_eq!(*id, 1);
            assert_eq!(args.len(), 2);
        }
        _ => panic!("not a call"),
    }
    let registry = FunctionRegistry { functions: vec![None, Some("plus".to_string())] };
    match r.into_expr(&registry) {
        Some(Expr::FunctionCall { id, function, args, .. }) => {
            assert_eq!(id, 1);
            assert_eq!(function, "plus");
            assert!(matches!(args[0], Expr::ColumnRef { id: 3, .. }));
            match &args[1] {
                Expr::Cast { expr, .. } => assert!(matches!(**expr, Expr::Constant { scalar: 7, .. })),
                _ => panic!("not a cast"),
            }
        }
        _ => panic!("not rebuilt"),
    }
    let unknown: RemoteExpr<i64> = RemoteExpr::FunctionCall { span: None, id: 0, generics: vec![], args: vec![] };
    assert!(unknown.into_expr(&registry).is_none());
    let nested: RemoteExpr<i64> = RemoteExpr::TryCast {
        span: None,
        expr: Box::new(RemoteExpr::FunctionCall { span: None, id: 9, generics: vec![], args: vec![] }),
        dest_type: DataType::String,
    };
    assert!(nested.into_expr(&registry).is_none());
}

#[test]
fn read_fragments() {
    assert_eq!(out_partition(true), PartitionState::NotPartition);
    assert_eq!(out_partition(false), PartitionState::Random);
    let parts = vec![1, 2, 3];
    assert_eq!(read_parts_per_executor(true, &parts, 0), vec![vec![1, 2, 3]]);
    assert_eq!(read_parts_per_executor(false, &parts, 2), vec![vec![1, 3], vec![2]]);
}

#[test]
fn create_database_plan_to_request() {
    let p = CreateDatabasePlan {
        if_not_exists: true,
        tenant: "t".to_string(),
        catalog: "default".to_string(),
        database: "db".to_string(),
        meta: 42u32,
    };
    let r: CreateDatabaseReq<u32> = p.into();
    assert!(r.if_not_exists);
    assert_eq!(r.name_ident.tenant, "t");
    assert_eq!(r.name_ident.db_name, "db");
    assert_eq!(r.meta, 42);
}

#[test]
fn sent_expression_comes_back_the_same() {
    let build = || -> Expr<i64, u32> {
        Expr::TryCast {
            span: Some((1, 9)),
            expr: Box::new(Expr::FunctionCall {
                span: None,
                id: 2,
                function: 20,
                generics: vec![DataType::UInt8, DataType::Null],
                args: vec![
                    Expr::Constant { span: None, scalar: -4 },
                    Expr::FunctionCall { span: None, id: 0, function: 10, generics: vec![], args: vec![] },
                ],
            }),
            dest_type: DataType::String,
        }
    };
    let registry = FunctionRegistry { functions: vec![Some(10u32), None, Some(20u32)] };
    let rebuilt = RemoteExpr::from_expr(build()).into_expr(&registry).unwrap();
    assert_eq!(format!("{:?}", rebuilt), format!("{:?}", build()));
}
