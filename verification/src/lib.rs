//! Self-contained dynamic symbol resolution for the currently running
//! executable.
//!
//! The library answers "what is the live address of the exported symbol with
//! this name?" without going through the operating system's dynamic loader.
//! It works from two plain inputs that the embedding program supplies: the
//! raw bytes of the on-disk image of the running executable, and the true
//! in-memory address of one distinguished exported function (the *anchor*),
//! which the program can observe directly because the anchor is part of its
//! own code. From the image it extracts the exported-symbol table (name,
//! static address); from the anchor it computes the load bias, the constant
//! offset between static and in-memory addresses; and it resolves any other
//! exported name by applying that bias to the name's static address.
//!
//! Reading the image from disk, and reinterpreting a resolved address as a
//! callable function pointer, are both left to the embedding program: the
//! first is plain file I/O, the second is an unchecked cast whose safety only
//! the caller can assert.

use vstd::prelude::*;

pub mod resolver;
pub mod symtab;

verus! {

/// Everything that can go wrong while loading the symbol table or resolving
/// a name. Each failure is surfaced as a distinct, inspectable value; nothing
/// is retried and no failure is folded into a default address.
#[derive(Debug, PartialEq, Eq)]
pub enum ResolveError {
    /// The executable image could not be read from disk. The library itself
    /// never performs the read; the embedding program reports a failed read
    /// through this variant so that all failures share one taxonomy.
    IOError,
    /// The image bytes do not parse as an executable format this loader
    /// supports.
    FormatError,
    /// The anchor symbol is absent from the exported table (for instance in a
    /// stripped build). Fatal: without the anchor no load bias can be
    /// computed, so resolver construction fails before any lookup.
    AnchorMissing,
    /// The requested name has no entry in the exported table. Carries the
    /// name that was asked for.
    SymbolNotFound(String),
}

} // verus!
