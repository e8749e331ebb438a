//! A status bar's aggregator, as a library of decisions.
//!
//! Several sources keep the values of a bar up to date: programs that
//! write one record per line, and one mode program that can be swapped
//! while it runs. Whenever a value changes, the bar's line is composed
//! anew. The modules hold what is decided on the way: when a value has
//! changed ([`cell`], [`source`]), which line of which mode program counts
//! ([`controller`], [`reader`], [`listener`]), what becomes of the child
//! processes ([`supervisor`]), and what the line looks like ([`server`]).
//! The threads, pipes and processes themselves belong to the caller, who
//! hands over what it read and carries out what comes back.
//!
//! Beside these stand the panel with named widgets ([`panel`], [`widgets`],
//! [`command`], [`daemon`], [`printers`]) and two simpler status lines
//! ([`fields`], [`bratus`]).

pub mod bratus;
pub mod cell;
pub mod client;
pub mod color;
pub mod colors;
pub mod command;
pub mod controller;
pub mod daemon;
pub mod error;
pub mod fields;
pub mod listener;
pub mod mode;
pub mod panel;
pub mod path;
pub mod printers;
pub mod reader;
pub mod remote;
pub mod server;
pub mod source;
pub mod supervisor;
pub mod text;
pub mod widget;
pub mod widgets;
