use databend_common::cache_manager::BytesCache;
use databend_common::cache_manager::CacheManager;
use databend_common::cache_manager::ItemCache;
use databend_common::cache_manager::QueryConfig;
use databend_common::hash_join::build_markers;
use databend_common::hash_join::gather_indices;
use databend_common::hash_join::mark_join_output;
use databend_common::hash_join::ColumnValidity;
use databend_common::hash_join::MarkerKind;
use databend_common::hash_join::RowPtr;
use databend_common::meta_client::after_attempt;
use databend_common::meta_client::make_client_candidates;
use databend_common::meta_client::no_endpoint_error;
use databend_common::meta_client::set_endpoints;
use databend_common::meta_client::worker_next_action;
use databend_common::meta_client::AttemptOutcome;
use databend_common::meta_client::ClientRequestKind;
use databend_common::meta_client::MakeClientAction;
use databend_common::meta_client::Service;
use databend_common::meta_client::WorkerAction;
use databend_common::meta_error::MetaError;
use databend_common::sql_hint::DfHint;
use databend_common::aggregator_state::ShortFixedKeysAggregatorState;
use databend_common::aggregator_state::ShortFixedKeysStateEntity;
use databend_common::error_code::ErrorCode;
use databend_common::error_code::ErrorKind;
use databend_common::format_source::Event;
use databend_common::format_source::ProcessInput;
use databend_common::format_source::SequentialInputFormatSource;
use databend_common::clickhouse_handler::pump_action;
use databend_common::clickhouse_handler::writer_action;
use databend_common::clickhouse_handler::BlockItem;
use databend_common::clickhouse_handler::InteractiveWorkerBase;
use databend_common::clickhouse_handler::ProgressValues;
use databend_common::clickhouse_handler::PumpAction;
use databend_common::clickhouse_handler::QueryRoute;
use databend_common::clickhouse_handler::WriterAction;
use databend_common::planner::InsertInputSource;
use databend_common::planner::InsertPlan;

fn strings(xs: &[&str]) -> Vec<String> {
    xs.iter().map(|s| s.to_string()).collect()
}

#[test]
fn hint_error_codes() {
    let h = DfHint::create_from_comment(" { ErrorCode 25 }", "--");
    assert_eq!(h.error_code, Some(25));
    assert_eq!(h.comment, " { ErrorCode 25 }");
    assert_eq!(h.prefix, "--");
    assert_eq!(DfHint::create_from_comment("x{ErrorCode\t1002}", "--").error_code, Some(1002));
    // no text before the brace
    assert_eq!(DfHint::create_from_comment("{ ErrorCode 25 }", "--").error_code, None);
    // no blank after the word
    assert_eq!(DfHint::create_from_comment(" { ErrorCode25 }", "--").error_code, None);
    // no digits
    assert_eq!(DfHint::create_from_comment(" { ErrorCode x }", "--").error_code, None);
    // too large for u16
    assert_eq!(DfHint::create_from_comment(" { ErrorCode 65536 }", "--").error_code, None);
    assert_eq!(DfHint::create_from_comment(" { ErrorCode 65535 }", "--").error_code, Some(65535));
    assert_eq!(DfHint::create_from_comment("no hint", "--").error_code, None);
    assert_eq!(DfHint::parse_code(" { ErrorCode 25 }"), Some((15, Some(25))));
    assert_eq!(DfHint::parse_code(" {errorcode 25}"), None);
}

#[test]
fn cache_manager_follows_the_configuration() {
    let cfg = QueryConfig {
        table_cache_enabled: true,
        table_cache_snapshot_count: 256,
        table_cache_segment_count: 0,
        cluster_id: "c1".to_string(),
        tenant_id: "t1".to_string(),
    };
    let m = CacheManager::init(&cfg);
    assert_eq!(m.get_table_snapshot_cache(), Some(ItemCache { capacity: 256 }));
    assert_eq!(m.get_table_segment_cache(), None);
    assert_eq!(m.get_bloom_index_cache(), Some(BytesCache { capacity: 1073741824 }));
    assert_eq!(m.get_bloom_index_meta_cache(), Some(ItemCache { capacity: 3000 }));
    assert_eq!(m.get_tenant_id(), "t1");
    assert_eq!(m.get_cluster_id(), "c1");
    let off = CacheManager::init(&QueryConfig { table_cache_enabled: false, ..cfg });
    assert_eq!(off.get_table_snapshot_cache(), None);
    assert_eq!(off.get_bloom_index_cache(), None);
    assert_eq!(off.get_bloom_index_meta_cache(), None);
    assert_eq!(off.get_tenant_id(), "t1");
}

#[test]
fn worker_actions() {
    assert_eq!(worker_next_action(None, false), WorkerAction::Quit);
    assert_eq!(worker_next_action(Some(ClientRequestKind::Get), true), WorkerAction::Skip);
    assert_eq!(worker_next_action(Some(ClientRequestKind::MGet), false), WorkerAction::Serve(Service::Read));
    assert_eq!(worker_next_action(Some(ClientRequestKind::Upsert), false), WorkerAction::Serve(Service::Write));
    assert_eq!(worker_next_action(Some(ClientRequestKind::Txn), false), WorkerAction::Serve(Service::Transaction));
    assert_eq!(
        worker_next_action(Some(ClientRequestKind::GetEndpoints), false),
        WorkerAction::Serve(Service::GetEndpoints)
    );
}

#[test]
fn endpoints_replace_only_with_a_majority() {
    let mut cur = strings(&["a"]);
    assert!(set_endpoints(&mut cur, strings(&["x", "y", ""])).is_ok());
    assert_eq!(cur, strings(&["x", "y", ""]));
    // one of four is not a majority
    assert!(set_endpoints(&mut cur, strings(&["z", "", "", ""])).is_ok());
    assert_eq!(cur, strings(&["x", "y", ""]));
    match set_endpoints(&mut cur, vec![]) {
        Err(MetaError::InvalidConfig(s)) => assert_eq!(s, "endpoints is empty"),
        other => panic!("unexpected {:?}", other),
    }
    assert_eq!(cur, strings(&["x", "y", ""]));
}

#[test]
fn client_candidates_and_attempts() {
    let eps = strings(&["a", "b", "c"]);
    assert_eq!(make_client_candidates(eps.clone(), &vec![false, true, false]), strings(&["a", "c"]));
    assert_eq!(make_client_candidates(strings(&["a"]), &vec![true]), strings(&["a"]));
    assert!(make_client_candidates(eps, &vec![true, true, true]).is_empty());
    match after_attempt(false, AttemptOutcome::Connected(vec![1, 2])) {
        MakeClientAction::Use(a) => assert_eq!(a.token, vec![1, 2]),
        other => panic!("unexpected {:?}", other),
    }
    assert!(matches!(
        after_attempt(false, AttemptOutcome::Failed(MetaError::MetaStoreNotFound)),
        MakeClientAction::TryNext
    ));
    assert!(matches!(
        after_attempt(true, AttemptOutcome::Failed(MetaError::MetaStoreNotFound)),
        MakeClientAction::Fail(MetaError::MetaStoreNotFound)
    ));
    assert!(matches!(no_endpoint_error(), MetaError::InvalidConfig(_)));
}

#[test]
fn hash_join_gather_and_markers() {
    let ptrs = [RowPtr { chunk_index: 1, row_index: 2 }, RowPtr { chunk_index: 0, row_index: 5 }];
    assert_eq!(gather_indices(&ptrs), vec![(1, 2, 1), (0, 5, 1)]);

    assert_eq!(build_markers(2, false, &vec![]), vec![None, None]);
    let not_null = ColumnValidity { nullable_or_null: false, all_null: false, valids: None };
    assert_eq!(build_markers(2, true, &vec![not_null.clone()]), vec![Some(MarkerKind::False); 2]);
    let some_nulls = ColumnValidity { nullable_or_null: true, all_null: false, valids: Some(vec![true, false, false]) };
    let other_nulls = ColumnValidity { nullable_or_null: true, all_null: false, valids: Some(vec![true, true, false]) };
    assert_eq!(
        build_markers(3, true, &vec![some_nulls.clone(), other_nulls]),
        vec![Some(MarkerKind::False), Some(MarkerKind::False), Some(MarkerKind::Null)]
    );
    assert_eq!(
        build_markers(3, true, &vec![not_null.clone(), some_nulls.clone()]),
        vec![Some(MarkerKind::False), Some(MarkerKind::Null), Some(MarkerKind::Null)]
    );
    let all_null = ColumnValidity { nullable_or_null: true, all_null: true, valids: None };
    assert_eq!(build_markers(2, true, &vec![not_null, all_null]), vec![Some(MarkerKind::Null); 2]);

    let mut markers = vec![Some(MarkerKind::True), Some(MarkerKind::False), Some(MarkerKind::Null)];
    let (validity, bits) = mark_join_output(&mut markers, true);
    assert_eq!(markers, vec![Some(MarkerKind::True), Some(MarkerKind::Null), Some(MarkerKind::Null)]);
    assert_eq!(validity, vec![true, true, false]);
    assert_eq!(bits, vec![true, false, false]);
    let mut markers = vec![Some(MarkerKind::False)];
    let (validity, bits) = mark_join_output(&mut markers, false);
    assert_eq!(markers, vec![Some(MarkerKind::False)]);
    assert_eq!((validity, bits), (vec![true], vec![false]));
}

#[test]
fn clickhouse_handler_decisions() {
    assert_eq!(InteractiveWorkerBase::route(true, false), QueryRoute::InsertFromClient);
    assert_eq!(InteractiveWorkerBase::route(true, true), QueryRoute::Query);
    assert_eq!(InteractiveWorkerBase::route(false, false), QueryRoute::Query);
    let prev = ProgressValues { rows: 10, bytes: 100 };
    let cur = ProgressValues { rows: 15, bytes: 180 };
    assert_eq!(InteractiveWorkerBase::progress_step(prev, cur), (cur, Some(ProgressValues { rows: 5, bytes: 80 })));
    let same_rows = ProgressValues { rows: 10, bytes: 120 };
    assert_eq!(InteractiveWorkerBase::progress_step(prev, same_rows), (prev, None));
    assert!(matches!(writer_action::<u8, String>(None), WriterAction::Finish));
    assert!(matches!(writer_action::<u8, String>(Some(BlockItem::Block(Ok(3)))), WriterAction::WriteBlock(3)));
    match writer_action::<u8, String>(Some(BlockItem::Block(Err("e".to_string())))) {
        WriterAction::WriteErrorAndStop(e) => assert_eq!(e, "e"),
        _ => panic!("unexpected"),
    }
    assert!(matches!(writer_action::<u8, String>(Some(BlockItem::InsertSample(0))), WriterAction::WriteHeader(0)));
    assert!(matches!(
        writer_action::<u8, String>(Some(BlockItem::ProgressTicker(prev))),
        WriterAction::WriteProgress(p) if p == prev
    ));
    assert_eq!(pump_action(None), PumpAction::Stop);
    assert_eq!(pump_action(Some(true)), PumpAction::ForwardBlock);
    assert_eq!(pump_action(Some(false)), PumpAction::ForwardErrorAndStop);
}

#[test]
fn insert_plan_sources() {
    let plan = |source| InsertPlan::<u8, u8> {
        catalog: "default".to_string(),
        database: "db".to_string(),
        table: "t".to_string(),
        table_id: 1,
        overwrite: false,
        source,
    };
    let p = plan(InsertInputSource::SelectPlan(Box::new(0)));
    assert!(p.has_select_plan());
    assert_eq!(p.format(), None);
    let p = plan(InsertInputSource::StreamingWithFormat("CSV".to_string()));
    assert!(!p.has_select_plan());
    assert_eq!(p.format(), Some("CSV"));
    assert_eq!(plan(InsertInputSource::Values(1)).format(), Some("values"));
}

#[test]
fn format_source_state_machine() {
    let mut s: SequentialInputFormatSource<u32> = SequentialInputFormatSource::create();
    assert!(s.wants_data());
    let e = s.event(false, true);
    assert_eq!(e.event, Event::Async);
    assert!(s.async_process(Some(Ok(vec![1, 2, 3]))).is_ok());
    assert_eq!(s.event(false, true).event, Event::Sync);
    match s.begin_process() {
        Ok(ProcessInput::Data(d)) => assert_eq!(d, vec![1, 2, 3]),
        other => panic!("unexpected {:?}", other),
    }
    assert!(!s.skipped_header());
    s.note_header_skip(3, 3);
    assert!(!s.skipped_header());
    s.note_header_skip(1, 3);
    assert!(s.skipped_header());
    s.add_blocks(vec![10, 11, 12]);
    // downstream full
    let e = s.event(false, false);
    assert_eq!(e.event, Event::NeedConsume);
    assert!(e.push.is_none());
    assert_eq!(s.event(false, true).push, Some(10));
    assert_eq!(s.event(false, true).push, Some(11));
    assert_eq!(s.event(false, true).push, Some(12));
    assert_eq!(s.event(false, true).event, Event::Async);
    // an empty chunk: another file begins
    assert!(s.async_process(Some(Ok(vec![]))).is_ok());
    assert!(!s.skipped_header());
    assert!(matches!(s.begin_process(), Ok(ProcessInput::Deserialize)));
    // a failure is handed on
    let err = ErrorCode::create(ErrorKind::LogicalError, "broken".to_string());
    match s.async_process(Some(Err(err))) {
        Err(e) => assert_eq!(e.message, "broken"),
        Ok(()) => panic!("expected an error"),
    }
    // the end of the upload: deserialize once more, then finish
    assert!(s.async_process(None).is_ok());
    assert_eq!(s.event(false, true).event, Event::Sync);
    assert!(matches!(s.begin_process(), Ok(ProcessInput::Deserialize)));
    let e = s.event(false, true);
    assert_eq!(e.event, Event::Finished);
    assert!(e.finish_output);
    let e = s.begin_process().unwrap_err();
    assert_eq!(e.kind, ErrorKind::LogicalError);
    assert_eq!(e.message, "State failure in Multipart format.");
    assert_eq!(s.event(true, true).event, Event::Finished);
}

#[test]
fn short_fixed_keys_state() {
    let mut s = ShortFixedKeysAggregatorState::create(256);
    assert_eq!(s.len(), 0);
    let mut inserted = false;
    assert_eq!(s.entity(7, &mut inserted), 7);
    assert!(inserted);
    s.set_place(7, 1000);
    assert_eq!(s.entity(7, &mut inserted), 7);
    assert!(!inserted);
    assert_eq!(s.entity(200, &mut inserted), 200);
    assert!(inserted);
    assert_eq!(s.len(), 2);
    assert_eq!(s.slot(7), ShortFixedKeysStateEntity { key: 7, fill: true, place: 1000 });
    assert_eq!(s.slot(8), ShortFixedKeysStateEntity { key: 0, fill: false, place: 0 });
    assert!(!s.is_two_level());
    s.convert_to_two_level();
    assert!(s.is_two_level());
    assert_eq!(s.len(), 2);
}
