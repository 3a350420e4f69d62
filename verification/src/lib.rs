//! Static substitution and free-variable analysis for an effect- and
//! name-tracking calculus of incremental computation.

pub mod ast;
pub mod binders;
pub mod cloning;
pub mod equal;
pub mod fv_lemmas;
pub mod fv_spec;
pub mod laws;
pub mod model;
pub mod rewrite;
pub mod round_trip;
pub mod size;
pub mod subst;
pub mod subst_lemmas;
pub mod subst_spec;
pub mod tgt_ast;
pub mod unchanged;
