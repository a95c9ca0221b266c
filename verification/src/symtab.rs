//! The static symbol table: exported (name, static address) pairs extracted
//! from the on-disk image of the running executable.

use vstd::prelude::*;

use crate::ResolveError;

verus! {

/// One exported symbol: its name and the static (link-time) address recorded
/// in the on-disk image.
#[derive(Debug)]
pub struct SymbolEntry {
    pub name: String,
    pub static_addr: u64,
}

/// The exported-symbol table of one executable image, in the order the image
/// lists the symbols. Consumers rely on no ordering; lookups take the first
/// entry with a matching name.
#[derive(Debug)]
pub struct SymbolTable {
    pub entries: Vec<SymbolEntry>,
}

impl View for SymbolEntry {
    type V = (Seq<char>, u64);

    open spec fn view(&self) -> (Seq<char>, u64) {
        (self.name@, self.static_addr)
    }
}

/// The abstract content of a run of entries: each entry as a (name, static
/// address) pair.
pub open spec fn entries_view(entries: Seq<SymbolEntry>) -> Seq<(Seq<char>, u64)> {
    entries.map_values(|e: SymbolEntry| e@)
}

impl View for SymbolTable {
    type V = Seq<(Seq<char>, u64)>;

    open spec fn view(&self) -> Seq<(Seq<char>, u64)> {
        entries_view(self.entries@)
    }
}

/// The exported-symbol table that an executable image's bytes describe, as
/// the binary-format parser reads it: `Some` pairs for an image in the
/// supported format, `None` for anything else. A pure function of the bytes.
pub uninterp spec fn elf_exports(image: Seq<u8>) -> Option<Seq<(Seq<char>, u64)>>;

/// Relies on `goblin::Object::parse`: it recognizes the bytes of an ELF image
/// and exposes its dynamic symbols as `elf.dynsyms`, with each name found in
/// `elf.dynstrtab` at the symbol's name offset; any other or unrecognized
/// format is reported as a different `Object` variant or an error. The pairs
/// depend on the bytes alone.
#[verifier::external_body]
fn parse_elf_exports(image: &[u8]) -> (r: Option<Vec<SymbolEntry>>)
    ensures
        match r {
            Some(v) => elf_exports(image@) == Some(entries_view(v@)),
            None => elf_exports(image@) is None,
        },
{
    match goblin::Object::parse(image) {
        Ok(goblin::Object::Elf(elf)) => Some(
            elf.dynsyms.iter().filter_map(
                |sym| elf.dynstrtab.get_at(sym.st_name).map(
                    |n| SymbolEntry { name: n.to_string(), static_addr: sym.st_value },
                ),
            ).collect(),
        ),
        _ => None,
    }
}

/// Extracts the exported-symbol table from the raw bytes of an executable
/// image. Bytes that do not parse as a supported executable format are
/// reported as `FormatError`, never as a silently empty table.
pub fn load_symbol_table(image: &[u8]) -> (r: Result<SymbolTable, ResolveError>)
    ensures
        match r {
            Ok(t) => elf_exports(image@) == Some(t@),
            Err(e) => e == ResolveError::FormatError && elf_exports(image@) is None,
        },
{
    match parse_elf_exports(image) {
        Some(entries) => Ok(SymbolTable { entries }),
        None => Err(ResolveError::FormatError),
    }
}

/// The static address of the first entry named `name`, or `None` when no
/// entry matches.
pub open spec fn lookup_spec(table: Seq<(Seq<char>, u64)>, name: Seq<char>) -> Option<u64>
    decreases table.len(),
{
    if table.len() == 0 {
        None
    } else if table[0].0 == name {
        Some(table[0].1)
    } else {
        lookup_spec(table.skip(1), name)
    }
}

impl SymbolTable {
    /// Finds the static address recorded for `name`, scanning the table in
    /// order. A name with no entry is reported as `None`, never as a
    /// defaulted address.
    pub fn lookup(&self, name: &str) -> (r: Option<u64>)
        ensures
            r == lookup_spec(self@, name@),
    {
        let wanted = name.to_owned();
        let n = self.entries.len();
        let mut i: usize = 0;
        proof {
            assert(self@.skip(0) =~= self@);
        }
        while i < n
            invariant
                n == self.entries@.len(),
                0 <= i <= n,
                wanted@ == name@,
                lookup_spec(self@, name@) == lookup_spec(self@.skip(i as int), name@),
            decreases n - i,
        {
            if self.entries[i].name == wanted {
                assert(self@.skip(i as int)[0] == self@[i as int]);
                return Some(self.entries[i].static_addr);
            }
            proof {
                assert(self@.skip(i as int)[0] == self@[i as int]);
                assert(self@.skip(i as int).skip(1) =~= self@.skip(i as int + 1));
            }
            i = i + 1;
        }
        None
    }
}

} // verus!
