//! krops-bootstrap: brings up a Kubernetes management cluster that manages itself, and takes it down
//! again.
//!
//! A run is a script: a list of lines to print, actions to perform and questions whose replies decide
//! what comes next. The modules `bootstrap`, `pivot`, `teardown` and `sweep` hold the scripts;
//! `session` runs them, one move at a time; `runs` states what can happen while they run. Processes,
//! files and the network are left to the caller, who performs the actions and hands back replies.
pub mod aws;
pub mod bootstrap;
pub mod bucket_laws;
pub mod calendar;
pub mod checks;
pub mod cleanup_laws;
pub mod cluster_laws;
pub mod commands;
pub mod config;
pub mod context;
pub mod demolition_laws;
pub mod diagnosis_laws;
pub mod discovery_laws;
pub mod duties;
pub mod engine;
pub mod engine_laws;
pub mod failure;
pub mod handover_laws;
pub mod iam_laws;
pub mod install_laws;
pub mod json;
pub mod judgement_laws;
pub mod kube;
pub mod manifest;
pub mod move_laws;
pub mod network_laws;
pub mod number;
pub mod orphans;
pub mod passage_laws;
pub mod patience_laws;
pub mod pivot;
pub mod pivot_laws;
pub mod preflight;
pub mod preflight_laws;
pub mod question;
pub mod reading_laws;
pub mod report;
pub mod report_laws;
pub mod rerun_laws;
pub mod route_laws;
pub mod runs;
pub mod scan_laws;
pub mod script;
pub mod session;
pub mod settings;
pub mod setup_laws;
pub mod stretches;
pub mod suspension_laws;
pub mod sweep;
pub mod sweep_laws;
pub mod target_laws;
pub mod teardown;
pub mod teardown_laws;
pub mod text;
pub mod text_laws;
pub mod upkeep_laws;
pub mod vpc_laws;
