use selfsym::resolver::get_sym;
use selfsym::symtab::load_symbol_table;
use selfsym::ResolveError;

fn push_u16(v: &mut Vec<u8>, x: u16) {
    v.extend_from_slice(&x.to_le_bytes());
}

fn push_u32(v: &mut Vec<u8>, x: u32) {
    v.extend_from_slice(&x.to_le_bytes());
}

fn push_u64(v: &mut Vec<u8>, x: u64) {
    v.extend_from_slice(&x.to_le_bytes());
}

/// One dynamic symbol table entry (Elf64_Sym).
fn push_sym(v: &mut Vec<u8>, st_name: u32, st_value: u64) {
    push_u32(v, st_name);
    v.push(0x12); // st_info: GLOBAL, FUNC
    v.push(0); // st_other
    push_u16(v, 1); // st_shndx
    push_u64(v, st_value);
    push_u64(v, 0); // st_size
}

/// A minimal 64-bit little-endian ELF image whose dynamic symbol table
/// exports `indicator` at 0x1000, `inc` at 0x1100 and `triple` at 0x1200.
///
/// Layout: ELF header (0..64), two program headers (64..176), the dynamic
/// section (176..272), a SysV hash table giving the symbol count
/// (272..304, padded), four symbol entries (304..400), and the string
/// table (400..422). The single PT_LOAD segment maps the file at virtual
/// address 0, so virtual addresses equal file offsets.
fn minimal_elf() -> Vec<u8> {
    let total: u64 = 422;
    let mut v: Vec<u8> = Vec::new();

    // ELF header.
    v.extend_from_slice(&[0x7f, b'E', b'L', b'F', 2, 1, 1, 0, 0, 0, 0, 0, 0, 0, 0, 0]);
    push_u16(&mut v, 3); // e_type: ET_DYN
    push_u16(&mut v, 62); // e_machine: x86-64
    push_u32(&mut v, 1); // e_version
    push_u64(&mut v, 0); // e_entry
    push_u64(&mut v, 64); // e_phoff
    push_u64(&mut v, 0); // e_shoff: no section headers
    push_u32(&mut v, 0); // e_flags
    push_u16(&mut v, 64); // e_ehsize
    push_u16(&mut v, 56); // e_phentsize
    push_u16(&mut v, 2); // e_phnum
    push_u16(&mut v, 64); // e_shentsize
    push_u16(&mut v, 0); // e_shnum
    push_u16(&mut v, 0); // e_shstrndx

    // Program header: PT_LOAD mapping the whole file at vaddr 0.
    push_u32(&mut v, 1); // p_type
    push_u32(&mut v, 5); // p_flags: R+X
    push_u64(&mut v, 0); // p_offset
    push_u64(&mut v, 0); // p_vaddr
    push_u64(&mut v, 0); // p_paddr
    push_u64(&mut v, total); // p_filesz
    push_u64(&mut v, total); // p_memsz
    push_u64(&mut v, 0x1000); // p_align

    // Program header: PT_DYNAMIC.
    push_u32(&mut v, 2); // p_type
    push_u32(&mut v, 4); // p_flags: R
    push_u64(&mut v, 176); // p_offset
    push_u64(&mut v, 176); // p_vaddr
    push_u64(&mut v, 176); // p_paddr
    push_u64(&mut v, 96); // p_filesz
    push_u64(&mut v, 96); // p_memsz
    push_u64(&mut v, 8); // p_align

    // Dynamic section: six (d_tag, d_val) pairs.
    push_u64(&mut v, 4); // DT_HASH
    push_u64(&mut v, 272);
    push_u64(&mut v, 5); // DT_STRTAB
    push_u64(&mut v, 400);
    push_u64(&mut v, 6); // DT_SYMTAB
    push_u64(&mut v, 304);
    push_u64(&mut v, 10); // DT_STRSZ
    push_u64(&mut v, 22);
    push_u64(&mut v, 11); // DT_SYMENT
    push_u64(&mut v, 24);
    push_u64(&mut v, 0); // DT_NULL
    push_u64(&mut v, 0);

    // SysV hash table: nbucket=1, nchain=4 (the symbol count), then the
    // bucket and the chains, then padding to offset 304.
    push_u32(&mut v, 1);
    push_u32(&mut v, 4);
    for _ in 0..5 {
        push_u32(&mut v, 0);
    }
    push_u32(&mut v, 0); // padding

    // Dynamic symbols: the null symbol, then the three exports.
    push_sym(&mut v, 0, 0);
    push_sym(&mut v, 1, 0x1000); // "indicator"
    push_sym(&mut v, 11, 0x1100); // "inc"
    push_sym(&mut v, 15, 0x1200); // "triple"

    // String table.
    v.extend_from_slice(b"\0indicator\0inc\0triple\0");

    assert_eq!(v.len() as u64, total);
    v
}

#[test]
fn garbage_is_format_error() {
    let blob = b"this is not an executable image at all, just bytes";
    match load_symbol_table(blob) {
        Err(ResolveError::FormatError) => {}
        other => panic!("expected FormatError, got {:?}", other),
    }
}

#[test]
fn empty_image_is_format_error() {
    let blob: Vec<u8> = Vec::new();
    assert!(matches!(
        load_symbol_table(&blob),
        Err(ResolveError::FormatError)
    ));
}

#[test]
fn truncated_magic_is_format_error() {
    // A correct four-byte magic with nothing behind it must still be
    // rejected, not read out of bounds or returned as an empty table.
    let blob = [0x7f, b'E', b'L', b'F'];
    assert!(matches!(
        load_symbol_table(&blob),
        Err(ResolveError::FormatError)
    ));
}

#[test]
fn minimal_elf_lists_its_exports() {
    let image = minimal_elf();
    let table = load_symbol_table(&image).unwrap();
    assert_eq!(table.lookup("indicator"), Some(0x1000));
    assert_eq!(table.lookup("inc"), Some(0x1100));
    assert_eq!(table.lookup("triple"), Some(0x1200));
    assert_eq!(table.lookup("nonexistent_symbol_xyz"), None);
    // The null symbol comes through as an empty name with address zero.
    assert_eq!(table.entries.len(), 4);
    assert_eq!(table.lookup(""), Some(0));
}

#[test]
fn get_sym_end_to_end() {
    let image = minimal_elf();
    // The anchor's true address says the image sits 0x7000_0000_0000 above
    // its static base.
    let anchor_rt: u64 = 0x7000_0000_1000;
    assert_eq!(
        get_sym(&image, "indicator", anchor_rt, "inc"),
        Ok(0x7000_0000_1100)
    );
    assert_eq!(
        get_sym(&image, "indicator", anchor_rt, "triple"),
        Ok(0x7000_0000_1200)
    );
    assert_eq!(
        get_sym(&image, "indicator", anchor_rt, "indicator"),
        Ok(anchor_rt)
    );
}

#[test]
fn get_sym_reports_each_failure_distinctly() {
    let image = minimal_elf();
    assert!(matches!(
        get_sym(b"junk", "indicator", 0x1000, "inc"),
        Err(ResolveError::FormatError)
    ));
    assert!(matches!(
        get_sym(&image, "stripped_anchor", 0x1000, "inc"),
        Err(ResolveError::AnchorMissing)
    ));
    match get_sym(&image, "indicator", 0x1000, "nonexistent_symbol_xyz") {
        Err(ResolveError::SymbolNotFound(name)) => {
            assert_eq!(name, "nonexistent_symbol_xyz");
        }
        other => panic!("expected SymbolNotFound, got {:?}", other),
    }
}
