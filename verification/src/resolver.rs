//! The runtime resolver: corrects static addresses by the load bias computed
//! from the anchor symbol.

use vstd::arithmetic::div_mod::lemma_mod_add_multiples_vanish;
use vstd::arithmetic::div_mod::lemma_mod_sub_multiples_vanish;
use vstd::arithmetic::div_mod::lemma_sub_mod_noop;
use vstd::prelude::*;

use crate::symtab::lookup_spec;
use crate::symtab::SymbolTable;
use crate::ResolveError;

verus! {

/// Addition modulo 2^64, as the machine's wrapping addition performs it.
/// Static addresses are corrected by the load bias in this arithmetic, so a
/// bias that wrapped (image loaded below its linked base) still cancels
/// exactly.
pub open spec fn wadd(a: u64, b: u64) -> u64 {
    vstd::wrapping::u64_specs::wrapping_add(a, b)
}

/// Subtraction modulo 2^64, as the machine's wrapping subtraction performs
/// it. The load bias is this difference between the anchor's in-memory and
/// static addresses.
pub open spec fn wsub(a: u64, b: u64) -> u64 {
    vstd::wrapping::u64_specs::wrapping_sub(a, b)
}

/// The address a resolver with this table and bias answers for `name`: the
/// name's static address shifted by the bias, or nothing when the table has
/// no such name. Resolution is a pure function of table, bias and name, so
/// repeated calls in one process run agree.
pub open spec fn resolve_spec(
    table: Seq<(Seq<char>, u64)>,
    bias: u64,
    name: Seq<char>,
) -> Option<u64> {
    match lookup_spec(table, name) {
        Some(static_addr) => Some(wadd(static_addr, bias)),
        None => None,
    }
}

/// The anchor function. Its body is empty: the function exists so that the
/// running program owns one exported symbol whose in-memory address it can
/// take by ordinary reference, without going through the resolver. An
/// embedding program exports it (or a function like it) under an unmangled
/// name and hands its address to `Resolver::new`.
pub fn indicator() {
}

/// Answers live addresses for exported names of the running executable.
///
/// Construction is the bootstrap step: it fixes the load bias from the
/// anchor symbol once; every later `resolve` only shifts a static address by
/// that constant.
pub struct Resolver {
    pub table: SymbolTable,
    pub bias: u64,
}

impl Resolver {
    /// Computes the load bias from the anchor: the difference between the
    /// anchor's true in-memory address, observed by the caller, and its
    /// static address in `table`. An absent anchor is fatal
    /// (`AnchorMissing`): no bias, and so no resolution, can be produced
    /// without it.
    pub fn new(table: SymbolTable, anchor_name: &str, anchor_runtime_addr: u64) -> (r: Result<
        Resolver,
        ResolveError,
    >)
        ensures
            match r {
                Ok(res) => {
                    &&& lookup_spec(table@, anchor_name@) matches Some(anchor_static)
                    &&& res.table@ == table@
                    &&& res.bias == wsub(anchor_runtime_addr, anchor_static)
                },
                Err(e) => {
                    &&& e == ResolveError::AnchorMissing
                    &&& lookup_spec(table@, anchor_name@) is None
                },
            },
    {
        match table.lookup(anchor_name) {
            Some(anchor_static) => Ok(
                Resolver { table, bias: anchor_runtime_addr.wrapping_sub(anchor_static) },
            ),
            None => Err(ResolveError::AnchorMissing),
        }
    }

    /// The live address of the exported symbol `name`: its static address
    /// plus the load bias. A name with no entry fails with
    /// `SymbolNotFound` carrying that name — never a defaulted or zero
    /// address.
    pub fn resolve(&self, name: &str) -> (r: Result<u64, ResolveError>)
        ensures
            match r {
                Ok(addr) => resolve_spec(self.table@, self.bias, name@) == Some(addr),
                Err(e) => {
                    &&& lookup_spec(self.table@, name@) is None
                    &&& e matches ResolveError::SymbolNotFound(missing) && missing@ == name@
                },
            },
    {
        match self.table.lookup(name) {
            Some(static_addr) => Ok(static_addr.wrapping_add(self.bias)),
            None => Err(ResolveError::SymbolNotFound(name.to_owned())),
        }
    }
}

/// The whole pipeline in one call, as a caller that keeps no resolver around
/// uses it: extract the symbol table from the image bytes, compute the bias
/// from the anchor, and answer the live address of `name`. Each failure is
/// the distinct error of the stage that failed.
pub fn get_sym(
    image: &[u8],
    anchor_name: &str,
    anchor_runtime_addr: u64,
    name: &str,
) -> (r: Result<u64, ResolveError>)
    ensures
        match r {
            Ok(addr) => {
                &&& crate::symtab::elf_exports(image@) matches Some(table)
                &&& lookup_spec(table, anchor_name@) matches Some(anchor_static)
                &&& resolve_spec(table, wsub(anchor_runtime_addr, anchor_static), name@)
                    == Some(addr)
            },
            Err(e) => match e {
                ResolveError::IOError => false,
                ResolveError::FormatError => crate::symtab::elf_exports(image@) is None,
                ResolveError::AnchorMissing => {
                    &&& crate::symtab::elf_exports(image@) matches Some(table)
                    &&& lookup_spec(table, anchor_name@) is None
                },
                ResolveError::SymbolNotFound(missing) => {
                    &&& missing@ == name@
                    &&& crate::symtab::elf_exports(image@) matches Some(table)
                    &&& lookup_spec(table, anchor_name@) is Some
                    &&& lookup_spec(table, name@) is None
                },
            },
        },
{
    let table = match crate::symtab::load_symbol_table(image) {
        Ok(table) => table,
        Err(e) => {
            return Err(e);
        },
    };
    let resolver = match Resolver::new(table, anchor_name, anchor_runtime_addr) {
        Ok(resolver) => resolver,
        Err(e) => {
            return Err(e);
        },
    };
    resolver.resolve(name)
}

/// Wrapping addition is addition modulo 2^64.
proof fn lemma_wadd_is_mod(a: u64, b: u64)
    ensures
        wadd(a, b) == (a + b) % 0x1_0000_0000_0000_0000,
{
    if a + b > u64::MAX {
        lemma_mod_sub_multiples_vanish(a + b, 0x1_0000_0000_0000_0000);
        vstd::arithmetic::div_mod::lemma_small_mod(
            (a + b - 0x1_0000_0000_0000_0000) as nat,
            0x1_0000_0000_0000_0000,
        );
    } else {
        vstd::arithmetic::div_mod::lemma_small_mod((a + b) as nat, 0x1_0000_0000_0000_0000);
    }
}

/// Wrapping subtraction is subtraction modulo 2^64.
proof fn lemma_wsub_is_mod(a: u64, b: u64)
    ensures
        wsub(a, b) == (a - b) % 0x1_0000_0000_0000_0000,
{
    if a - b < 0 {
        lemma_mod_add_multiples_vanish(a - b, 0x1_0000_0000_0000_0000);
        vstd::arithmetic::div_mod::lemma_small_mod(
            (a - b + 0x1_0000_0000_0000_0000) as nat,
            0x1_0000_0000_0000_0000,
        );
    } else {
        vstd::arithmetic::div_mod::lemma_small_mod((a - b) as nat, 0x1_0000_0000_0000_0000);
    }
}

/// Shifting two addresses by one common bias leaves their wrapping
/// difference unchanged.
proof fn lemma_wadd_wsub_cancel(x: u64, y: u64, bias: u64)
    ensures
        wsub(wadd(x, bias), wadd(y, bias)) == wsub(x, y),
{
    let m = 0x1_0000_0000_0000_0000int;
    lemma_wadd_is_mod(x, bias);
    lemma_wadd_is_mod(y, bias);
    lemma_wsub_is_mod(wadd(x, bias), wadd(y, bias));
    lemma_wsub_is_mod(x, y);
    lemma_sub_mod_noop(x + bias, y + bias, m);
    assert((x + bias) - (y + bias) == x - y);
}

/// The bootstrap is self-consistent: a resolver whose bias was computed from
/// the anchor answers, for the anchor itself, exactly the in-memory address
/// the caller observed for it.
pub proof fn lemma_anchor_resolves_to_itself(
    table: Seq<(Seq<char>, u64)>,
    anchor: Seq<char>,
    anchor_runtime_addr: u64,
)
    requires
        lookup_spec(table, anchor) is Some,
    ensures
        resolve_spec(
            table,
            wsub(anchor_runtime_addr, lookup_spec(table, anchor)->Some_0),
            anchor,
        ) == Some(anchor_runtime_addr),
{
    let m = 0x1_0000_0000_0000_0000int;
    let s = lookup_spec(table, anchor)->Some_0;
    lemma_wsub_is_mod(anchor_runtime_addr, s);
    lemma_wadd_is_mod(s, wsub(anchor_runtime_addr, s));
    vstd::arithmetic::div_mod::lemma_add_mod_noop_right(s as int, anchor_runtime_addr - s, m);
    vstd::arithmetic::div_mod::lemma_small_mod(anchor_runtime_addr as nat, m as nat);
}

/// The load bias cancels: for any two names present in the table, the
/// wrapping difference of their resolved addresses equals the wrapping
/// difference of their static addresses, whatever the bias. In particular
/// the difference between any resolved symbol and the resolved anchor is
/// exactly their static distance in the image.
pub proof fn lemma_bias_cancels(
    table: Seq<(Seq<char>, u64)>,
    bias: u64,
    name: Seq<char>,
    anchor: Seq<char>,
)
    requires
        lookup_spec(table, name) is Some,
        lookup_spec(table, anchor) is Some,
    ensures
        wsub(
            resolve_spec(table, bias, name)->Some_0,
            resolve_spec(table, bias, anchor)->Some_0,
        ) == wsub(lookup_spec(table, name)->Some_0, lookup_spec(table, anchor)->Some_0),
{
    lemma_wadd_wsub_cancel(
        lookup_spec(table, name)->Some_0,
        lookup_spec(table, anchor)->Some_0,
        bias,
    );
}

} // verus!
