//! Core logic of the Databend query and meta services: the data types and
//! their coercion rules, the errors of the meta service, share metadata and
//! the keys it is stored under, the decisions of the meta client and of the
//! query servers, pipelines, the binder and optimizer, and the helpers
//! around tables, stages and caches.
use vstd::prelude::*;

pub mod aggregator_state;
pub mod app_error;
pub mod bind_context;
pub mod cache_manager;
pub mod clickhouse_handler;
pub mod coercion_laws;
pub mod data_type;
pub mod flight_scatter;
pub mod error_code;
pub mod expr_display;
pub mod expr_rpn;
pub mod format_source;
pub mod fragments;
pub mod hash_join;
pub mod hive;
pub mod kv_api_key;
pub mod match_seq;
pub mod meta_client;
pub mod meta_error;
pub mod meta_storage_errors;
pub mod mysql_writer;
pub mod optimizer_property;
pub mod optimizer_rules;
pub mod pipe;
pub mod planner;
pub mod remote_expr;
pub mod scatters;
pub mod share;
pub mod share_api_keys;
pub mod sql_hint;
pub mod stage_files;
pub mod text;
pub mod type_coercion;

verus! {
} // verus!
