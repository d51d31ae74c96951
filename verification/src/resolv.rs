//! A reconstructed remote module and symbol resolution within it.
//!
//! The module's byte image is parsed as an ELF object through goblin; the
//! lookup of a name in the extracted dynamic-symbol list, and the
//! rebasing of its file-relative offset onto the module's load address,
//! are verified here.

use vstd::prelude::*;

use crate::errors::InjectionError;

verus! {

/// A reconstructed image of one loaded shared object.
#[derive(Debug)]
pub struct RemoteModule {
    /// Path of the backing file of the module's first mapping.
    pub name: String,
    /// Virtual address the module is loaded at (its first mapping's start).
    pub vm_addr: usize,
    /// Flattened byte image, as read back from the target's memory.
    pub image: Vec<u8>,
}

/// The symbol tables goblin extracts from an ELF image — the dynamic
/// symbols first, then the section-header symbol table — as each entry's
/// name and file-relative value, in table order. A function of the image
/// bytes alone.
pub uninterp spec fn elf_dynsyms_of(image: Seq<u8>) -> Seq<(Seq<char>, u64)>;

/// Relies on goblin's `Elf::parse`, `Symtab::iter` and `Strtab::get_at`:
/// parses the image and hands out each symbol's name and value as plain
/// values, dynamic symbols first; an unparsable image yields the empty
/// list.
#[verifier::external_body]
fn elf_dynamic_symbols(image: &Vec<u8>) -> (r: Vec<(String, u64)>)
    ensures
        r@.map_values(|p: (String, u64)| (p.0@, p.1)) == elf_dynsyms_of(image@),
{
    let mut out: Vec<(String, u64)> = Vec::new();
    if let Ok(elf) = goblin::elf::Elf::parse(image.as_slice()) {
        for sym in elf.dynsyms.iter() {
            if let Some(name) = elf.dynstrtab.get_at(sym.st_name) {
                out.push((name.to_string(), sym.st_value));
            }
        }
        for sym in elf.syms.iter() {
            if let Some(name) = elf.strtab.get_at(sym.st_name) {
                out.push((name.to_string(), sym.st_value));
            }
        }
    }
    out
}

/// The value of the first entry of `syms` named `name`.
pub open spec fn sym_lookup(syms: Seq<(Seq<char>, u64)>, name: Seq<char>) -> Option<u64>
    decreases syms.len(),
{
    if syms.len() == 0 {
        None
    } else if syms.first().0 == name {
        Some(syms.first().1)
    } else {
        sym_lookup(syms.drop_first(), name)
    }
}

/// File-relative offset of `name` within the ELF image, when it has one.
pub open spec fn sym_offset_in(image: Seq<u8>, name: Seq<char>) -> Option<u64> {
    sym_lookup(elf_dynsyms_of(image), name)
}

impl RemoteModule {
    pub fn new(name: String, vm_addr: usize, image: Vec<u8>) -> (m: RemoteModule)
        ensures
            m.name == name,
            m.vm_addr == vm_addr,
            m.image == image,
    {
        RemoteModule { name, vm_addr, image }
    }

    /// The absolute remote address `spec_dlsym` owes for `name`: the module
    /// base plus the symbol's file-relative offset; `SymbolNotFound` when
    /// the image holds no such dynamic symbol, or the sum does not fit an
    /// address.
    pub open spec fn spec_dlsym(self, name: Seq<char>) -> Result<usize, InjectionError> {
        match sym_offset_in(self.image@, name) {
            Option::None => Err(InjectionError::SymbolNotFound),
            Option::Some(off) => if self.vm_addr + off <= usize::MAX {
                Ok((self.vm_addr + off) as usize)
            } else {
                Err(InjectionError::SymbolNotFound)
            },
        }
    }

    /// Resolve `sym_name` to its absolute address in the target, from the
    /// reconstructed on-disk image.
    pub fn dlsym_from_fs(&self, sym_name: &str) -> (r: Result<usize, InjectionError>)
        ensures
            r == self.spec_dlsym(sym_name@),
    {
        let syms = elf_dynamic_symbols(&self.image);
        let key: String = sym_name.to_owned();
        let ghost sv = syms@.map_values(|p: (String, u64)| (p.0@, p.1));
        let n = syms.len();
        let mut i: usize = 0;
        proof {
            assert(sv.skip(0) =~= sv);
        }
        while i < n
            invariant
                i <= n,
                n == syms@.len(),
                n == sv.len(),
                sv == syms@.map_values(|p: (String, u64)| (p.0@, p.1)),
                sv == elf_dynsyms_of(self.image@),
                key@ == sym_name@,
                sym_lookup(sv.skip(i as int), sym_name@) == sym_lookup(sv, sym_name@),
            decreases n - i,
        {
            proof {
                assert(sv[i as int] == (syms@[i as int].0@, syms@[i as int].1));
                assert(sv.skip(i as int).len() > 0);
                assert(sv.skip(i as int).first() == sv[i as int]);
                assert(sv.skip(i as int).drop_first() =~= sv.skip(i + 1));
            }
            if syms[i].0 == key {
                proof {
                    assert(sym_lookup(sv.skip(i as int), sym_name@) == Some(sv[i as int].1));
                }
                let off = syms[i].1;
                if self.vm_addr as u64 <= u64::MAX - off && (off + self.vm_addr as u64)
                    <= usize::MAX as u64 {
                    return Ok(self.vm_addr + off as usize);
                } else {
                    return Err(InjectionError::SymbolNotFound);
                }
            }
            proof {
                assert(sym_lookup(sv.skip(i as int), sym_name@) == sym_lookup(
                    sv.skip(i + 1),
                    sym_name@,
                ));
            }
            i = i + 1;
        }
        proof {
            assert(sv.skip(n as int) =~= Seq::<(Seq<char>, u64)>::empty());
        }
        Err(InjectionError::SymbolNotFound)
    }
}

} // verus!
