//! Audit cases: each public function builds a pipeline, DAG, batch or
//! handler over the audit world and runs it once, with a contract stating
//! the value it computes.
pub mod helpers;
pub mod pipeline;
pub mod preds;
pub mod dag;
pub mod batch;
pub mod stress;
pub mod adapters;
