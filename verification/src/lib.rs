//! PaperFlow: the search, filtering, scoring, prompt and configuration logic of a
//! terminal assistant for academic papers, with its contracts proved by Verus.

pub mod text;
pub mod time;
pub mod paper;
pub mod filter;
pub mod feed;
pub mod arxiv;
pub mod order;
pub mod scholar;
pub mod prompt;
pub mod llm;
pub mod config;
pub mod api;
pub mod commands;
pub mod scheduler;
pub mod speech;
pub mod tui;
pub mod storage;
