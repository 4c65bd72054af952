//! Two passes over a model of ECMAScript modules.
//!
//! The import classifier ([`import_analysis`]) reads a module's import and
//! export declarations and decides, for each module specifier they name,
//! which interop helper its importers need. Name synthesis
//! ([`display_name`]) gives each component factory call the name under
//! which its result is bound, as a `displayName` property; the candidate
//! propagator ([`propagate`]) carries one such name down one expression.
//!
//! A tree is a closed union of node shapes ([`node`]). Each pass is a
//! depth-first walk in source order, written as one exhaustive match per
//! kind of node: a shape that the pass has no rule for has its children
//! walked and is rebuilt as it was. Contracts speak of the views of the
//! nodes, and of the pure functions on views that say what each pass makes
//! of a tree; the `*_laws` modules prove what holds of those functions.
//!
//! What the grammar rules out is left out by `requires`; [`grammar`] and
//! the `is_normal` functions test it at run time.

pub mod copy;
pub mod display_name;
pub mod display_name_laws;
pub mod grammar;
pub mod import_analysis;
pub mod import_laws;
pub mod node;
pub mod propagate;
pub mod propagate_laws;
pub mod scope;
pub mod text;
