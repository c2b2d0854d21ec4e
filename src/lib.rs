//! Rule configuration and dispatch engine for auditing dbt project artifacts.
//!
//! The manifest and the catalog of a dbt project are read elsewhere into the
//! plain records of [`objects`]. Rules ([`rules`]) are checked and completed
//! by [`config`], then [`engine`] decides for every object and rule whether
//! the rule is in scope (targets, materialization, path patterns of
//! [`path_matcher`]) and runs the matching evaluator of [`evaluators`] or
//! [`catalog_evaluators`]. Findings are ordered by [`finding`].

pub mod severity;
pub mod targets;
pub mod text;
pub mod order;
pub mod std_text;
pub mod regex_support;
pub mod path_matcher;
pub mod naming_convention;
pub mod data_types;
pub mod materialization;
pub mod finding;
pub mod objects;
pub mod rules;
pub mod evaluators;
pub mod catalog_evaluators;
pub mod engine;
pub mod config;
pub mod config_files;
