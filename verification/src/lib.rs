//! Core of a Node.js version manager: version resolution, install
//! planning, alias bookkeeping and per-shell version links, all with
//! verified contracts. Process, network and filesystem plumbing
//! lives outside this crate and only executes the decisions made
//! here.
//!
//! - [`version`], [`specifier`], [`range`]: versions, the specifier
//!   grammar and semver ranges, each parser proved equal to its
//!   spec-level grammar;
//! - [`resolver`]: one concrete version out of a specifier or the
//!   precedence chain of ambient sources;
//! - [`store`], [`installer`]: the published installations, the
//!   staging slot, the atomic publish and the install decisions;
//! - [`alias`], [`shell`], [`namemap`]: named pointers at versions —
//!   user aliases and per-session links — over one verified table;
//! - [`catalog`], [`mirror`], [`config`], [`commands`], [`cli`]: the
//!   remote version list, mirror validation, the configuration
//!   record and path layout, and the command surface.
use vstd::prelude::*;

pub mod alias;
pub mod catalog;
pub mod cli;
pub mod commands;
pub mod config;
pub mod installer;
pub mod mirror;
pub mod namemap;
pub mod shell;
pub mod store;
pub mod range;
pub mod resolver;
pub mod specifier;
pub mod strutil;
pub mod version;

verus! {

} // verus!
