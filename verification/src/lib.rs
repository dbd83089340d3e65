//! The logic of an agent that works through the Codex program, and of the terminals beside it.
//!
//! - The agent: its settings ([`agent_settings`], [`codex_agent_server`]), what can be chosen for a
//!   session ([`codex_config`]), sessions ([`codex_session`], [`history`]), runs of the program
//!   ([`codex_run`], [`codex_events`]), transcripts ([`rollout`], [`rollout_files`]) and the names
//!   of sessions ([`aliases`]).
//! - Terminals: sessions that outlive their windows ([`terminal_sessions`]) and the settings of
//!   the terminal ([`terminal_settings`]).
//! - What both rest on: [`text`], [`text_map`], [`json`] and [`identity`].
//!
//! Each function states what it does over mathematical values, and proof functions whose names
//! begin with `law_` state what holds of the functions together, beside them and in [`laws`].
//! Processes, files, threads and settings stores are left to the caller: functions take what was
//! read and return what is to be done.
pub mod agent_settings;
pub mod aliases;
pub mod codex_agent_server;
pub mod codex_config;
pub mod codex_events;
pub mod codex_run;
pub mod codex_session;
pub mod history;
pub mod identity;
pub mod json;
pub mod laws;
pub mod rollout;
pub mod rollout_files;
pub mod terminal_sessions;
pub mod terminal_settings;
pub mod text;
pub mod text_map;
