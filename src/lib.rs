//! Compilation of provisioning scenarios: a line parser for the scenario
//! language, the command model with its per-keyword grammar rules, an
//! include-resolving composer, and the resolver that decides conditional
//! commands from the outcomes of earlier ones.
use vstd::prelude::*;

pub mod line;
pub mod error;
pub mod command;
pub mod text;
pub mod scenario;
pub mod vars;
pub mod resolver;

verus! {

} // verus!
