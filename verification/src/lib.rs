//! Registry text, paths, policies and plans, with proved contracts.

pub mod apply;
pub mod args;
pub mod audit;
pub mod batch;
pub mod change_laws;
pub mod change_report;
pub mod change_telling;
pub mod changing;
pub mod command;
pub mod command_laws;
pub mod continuation_laws;
pub mod copy_plan;
pub mod diff;
pub mod doc;
pub mod document;
pub mod encoding;
pub mod ending_laws;
pub mod exit;
pub mod file_laws;
pub mod find_report;
pub mod finding_laws;
pub mod guard;
pub mod hive_report;
pub mod input;
pub mod inspection;
pub mod json;
pub mod line_laws;
pub mod link_laws;
pub mod list_telling;
pub mod listing;
pub mod manifest_laws;
pub mod model;
pub mod mutation;
pub mod notice;
pub mod number;
pub mod outcome;
pub mod parser;
pub mod parser_laws;
pub mod parts;
pub mod paths;
pub mod pattern;
pub mod plan_telling;
pub mod planning;
pub mod policy;
pub mod preparing;
pub mod question;
pub mod read_report;
pub mod read_telling;
pub mod reading;
pub mod reconcile;
pub mod redirect;
pub mod redirecting;
pub mod report;
pub mod rooting_laws;
pub mod row_laws;
pub mod saved_plan;
pub mod saved_plan_laws;
pub mod search;
pub mod select;
pub mod selection_laws;
pub mod selfcheck;
pub mod sha256;
pub mod shell;
pub mod shortcut;
pub mod shortcut_changes;
pub mod shortcut_manifest;
pub mod shortcut_run;
pub mod source;
pub mod starting;
pub mod state_reader;
pub mod telling;
pub mod text;
pub mod text_laws;
pub mod text_report;
pub mod transaction;
pub mod utf16;
pub mod views;
pub mod writer;
