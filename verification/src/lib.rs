//! Plugin-set management for a game's text configuration.
//!
//! A configuration names search directories and plugin files. An *export*
//! copies the plugins that the configuration names into an output directory,
//! records in a manifest which files it added and which stood there before,
//! and rewrites the content list of the game's INI file. A *cleanup* deletes,
//! by that manifest, the files that the export added, and never one that
//! stood there before. An *import* goes the other way: it takes the plugins
//! of a data directory, from the oldest to the youngest, and writes them
//! into the configuration as its content list.
//!
//! The library decides and computes; it touches neither files nor the
//! environment. The three engines ([`export::export`], [`cleanup::cleanup`],
//! [`import::import`]) are asked, with all that was found out so far, what
//! to do next, and answer with a step to take or with the result. Whoever
//! runs an engine takes the step, notes what came of it, and asks again.
//!
//! Every function states what it returns over the mathematical value of its
//! arguments: a string is the sequence of its characters, a list the
//! sequence of its items. What holds of several functions together is
//! stated and proved beside them: that a cleanup spares what the export
//! found in place, that an export into an empty directory followed by a
//! cleanup deletes what was copied and nothing else, that an import lists
//! the plugins by age, and that a rewritten file reads back as intended.
//!
//! - [`text`]: prefixes, suffixes, case and numerals on strings
//! - [`sequences`]: facts about `filter`, `filter_map` and `flat_map`
//! - [`config`]: the configuration reader
//! - [`plugins`]: the plugin locator and the resolver
//! - [`paths`]: checks on given paths, and the default place of the configuration
//! - [`manifest`]: the manifest, what a copy phase records and what a cleanup deletes
//! - [`rewrite`]: the content lists of the INI file and of the configuration
//! - [`export`], [`cleanup`], [`import`]: the engines
//! - [`profile`]: the mods and plugins of a mod manager's profile

pub mod cleanup;
pub mod config;
pub mod export;
pub mod import;
pub mod manifest;
pub mod paths;
pub mod plugins;
pub mod profile;
pub mod rewrite;
pub mod sequences;
pub mod text;
