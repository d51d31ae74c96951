//! 64-bit x86 shellcode, emitted as explicit instruction encodings.

use vstd::prelude::*;
use vstd::bytes::{spec_u32_to_le_bytes, spec_u64_to_le_bytes};
use vstd::string::StringSliceAdditionalSpecFns;
use vstd::string::StrSliceExecFns;

use crate::errors::InjectionError;
use crate::payloads::{blob_view, has_nul, push_u32, push_u64};

verus! {

/// `push rax; movabs rax, ...` — spin entry, saving rax around the lock.
pub open spec fn boot_spin_entry() -> Seq<u8> {
    seq![0x50u8, 0x48u8, 0xB8u8]
}

/// `lock bts dword [rax], 0; jc start; pop rax`, the saved-register pushes,
/// `mov eax, 9` (mmap), `mov edi, 0`, and the `movabs rsi, ...` opcode for
/// the allocation length.
pub open spec fn boot_lock_save() -> Seq<u8> {
    seq![
        0xF0u8, 0x0Fu8, 0xBAu8, 0x28u8, 0x00u8, 0x72u8, 0xEEu8, 0x58u8, 0x50u8, 0x53u8, 0x51u8,
        0x52u8, 0x55u8, 0x56u8, 0x57u8, 0x41u8, 0x50u8, 0x41u8, 0x51u8, 0x41u8, 0x52u8, 0x41u8,
        0x53u8, 0x41u8, 0x54u8, 0x41u8, 0x55u8, 0x41u8, 0x56u8, 0x41u8, 0x57u8, 0xB8u8, 0x09u8,
        0x00u8, 0x00u8, 0x00u8, 0xBFu8, 0x00u8, 0x00u8, 0x00u8, 0x00u8, 0x48u8, 0xBEu8,
    ]
}

/// The remaining mmap arguments, `syscall`, `or al, 1`, and the
/// `movabs rbx, ...` opcode for the sync-slot address.
pub open spec fn boot_mmap_publish() -> Seq<u8> {
    seq![
        0xBAu8, 0x07u8, 0x00u8, 0x00u8, 0x00u8, 0x41u8, 0xBAu8, 0x22u8, 0x00u8, 0x00u8, 0x00u8,
        0x41u8, 0xB8u8, 0x00u8, 0x00u8, 0x00u8, 0x00u8, 0x41u8, 0xB9u8, 0x00u8, 0x00u8, 0x00u8,
        0x00u8, 0x0Fu8, 0x05u8, 0x0Cu8, 0x01u8, 0x48u8, 0xBBu8,
    ]
}

/// `mov [rbx], rax; xor al, al; mov dword [rax], 0xfeeb; jmp rax` — publish
/// the page, write its spin trampoline and jump into it.
pub open spec fn boot_tail() -> Seq<u8> {
    seq![
        0x48u8, 0x89u8, 0x03u8, 0x30u8, 0xC0u8, 0xC7u8, 0x00u8, 0xEBu8, 0xFEu8, 0x00u8, 0x00u8,
        0xFFu8, 0xE0u8,
    ]
}

/// The whole bootstrap stage, byte for byte.
pub open spec fn first_shellcode_bytes(var_addr: u64, alloc_len: u64) -> Seq<u8> {
    boot_spin_entry() + spec_u64_to_le_bytes(var_addr) + boot_lock_save() + spec_u64_to_le_bytes(
        alloc_len,
    ) + boot_mmap_publish() + spec_u64_to_le_bytes(var_addr) + boot_tail()
}

/// Bootstrap generation never fails on this architecture.
pub open spec fn spec_first_shellcode(var_addr: u64, alloc_len: u64) -> Result<
    Seq<u8>,
    InjectionError,
> {
    Ok(first_shellcode_bytes(var_addr, alloc_len))
}

pub fn first_shellcode(var_addr: u64, alloc_len: u64) -> (r: Result<Vec<u8>, InjectionError>)
    ensures
        blob_view(r) == spec_first_shellcode(var_addr, alloc_len),
{
    let mut v: Vec<u8> = Vec::new();
    v.push(0x50);
    v.push(0x48);
    v.push(0xB8);
    proof {
        assert(v@ =~= boot_spin_entry());
    }
    push_u64(&mut v, var_addr);
    let ghost c1 = v@;
    v.push(0xF0);
    v.push(0x0F);
    v.push(0xBA);
    v.push(0x28);
    v.push(0x00);
    v.push(0x72);
    v.push(0xEE);
    v.push(0x58);
    v.push(0x50);
    v.push(0x53);
    v.push(0x51);
    v.push(0x52);
    v.push(0x55);
    v.push(0x56);
    v.push(0x57);
    v.push(0x41);
    v.push(0x50);
    v.push(0x41);
    v.push(0x51);
    v.push(0x41);
    v.push(0x52);
    v.push(0x41);
    v.push(0x53);
    v.push(0x41);
    v.push(0x54);
    v.push(0x41);
    v.push(0x55);
    v.push(0x41);
    v.push(0x56);
    v.push(0x41);
    v.push(0x57);
    v.push(0xB8);
    v.push(0x09);
    v.push(0x00);
    v.push(0x00);
    v.push(0x00);
    v.push(0xBF);
    v.push(0x00);
    v.push(0x00);
    v.push(0x00);
    v.push(0x00);
    v.push(0x48);
    v.push(0xBE);
    proof {
        assert(v@ =~= c1 + boot_lock_save());
    }
    push_u64(&mut v, alloc_len);
    let ghost c2 = v@;
    v.push(0xBA);
    v.push(0x07);
    v.push(0x00);
    v.push(0x00);
    v.push(0x00);
    v.push(0x41);
    v.push(0xBA);
    v.push(0x22);
    v.push(0x00);
    v.push(0x00);
    v.push(0x00);
    v.push(0x41);
    v.push(0xB8);
    v.push(0x00);
    v.push(0x00);
    v.push(0x00);
    v.push(0x00);
    v.push(0x41);
    v.push(0xB9);
    v.push(0x00);
    v.push(0x00);
    v.push(0x00);
    v.push(0x00);
    v.push(0x0F);
    v.push(0x05);
    v.push(0x0C);
    v.push(0x01);
    v.push(0x48);
    v.push(0xBB);
    proof {
        assert(v@ =~= c2 + boot_mmap_publish());
    }
    push_u64(&mut v, var_addr);
    let ghost c3 = v@;
    v.push(0x48);
    v.push(0x89);
    v.push(0x03);
    v.push(0x30);
    v.push(0xC0);
    v.push(0xC7);
    v.push(0x00);
    v.push(0xEB);
    v.push(0xFE);
    v.push(0x00);
    v.push(0x00);
    v.push(0xFF);
    v.push(0xE0);
    proof {
        assert(v@ =~= c3 + boot_tail());
        assert(v@ =~= first_shellcode_bytes(var_addr, alloc_len));
    }
    Ok(v)
}

/// Longest embeddable path: the fixed code and data leave this many bytes
/// of the allocation for the path itself.
pub const X64_MAX_PATH: usize = 3965;

/// `mov esi, 2` (RTLD_NOW), `lea rdi, [rip+42]` (the embedded path), and
/// the `movabs rax, ...` opcode for the dlopen address.
pub open spec fn loader_call_setup() -> Seq<u8> {
    seq![
        0xBEu8, 0x02u8, 0x00u8, 0x00u8, 0x00u8, 0x48u8, 0x8Du8, 0x3Du8, 0x2Au8, 0x00u8, 0x00u8,
        0x00u8, 0x48u8, 0xB8u8,
    ]
}

/// `call rax`, the register-restoring pops, and the `push qword [rip+...]`
/// opcode whose displacement reaches the resume-address slot.
pub open spec fn loader_call_restore() -> Seq<u8> {
    seq![
        0xFFu8, 0xD0u8, 0x41u8, 0x5Fu8, 0x41u8, 0x5Eu8, 0x41u8, 0x5Du8, 0x41u8, 0x5Cu8, 0x41u8,
        0x5Bu8, 0x41u8, 0x5Au8, 0x41u8, 0x59u8, 0x41u8, 0x58u8, 0x5Fu8, 0x5Eu8, 0x5Du8, 0x5Au8,
        0x59u8, 0x5Bu8, 0x58u8, 0xFFu8, 0x35u8,
    ]
}

/// The whole loader stage, byte for byte: code, the NUL-terminated path,
/// and the resume-address slot.
pub open spec fn raw_dlopen_bytes(dlopen_addr: u64, path: Seq<u8>, jmp_addr: u64) -> Seq<u8> {
    loader_call_setup() + spec_u64_to_le_bytes(dlopen_addr) + loader_call_restore()
        + spec_u32_to_le_bytes((path.len() + 2) as u32) + seq![0xC3u8] + path + seq![0u8]
        + spec_u64_to_le_bytes(jmp_addr)
}

/// Loader generation fails exactly when the path cannot be embedded: it
/// holds a NUL, or it is longer than the allocation leaves room for.
pub open spec fn spec_raw_dlopen_shellcode(dlopen_addr: u64, path: Seq<u8>, jmp_addr: u64) -> Result<
    Seq<u8>,
    InjectionError,
> {
    if path.contains(0u8) || path.len() > X64_MAX_PATH {
        Err(InjectionError::ShellcodeError)
    } else {
        Ok(raw_dlopen_bytes(dlopen_addr, path, jmp_addr))
    }
}

pub fn raw_dlopen_shellcode(dlopen_addr: u64, dlopen_path: &str, jmp_addr: u64) -> (r: Result<
    Vec<u8>,
    InjectionError,
>)
    ensures
        blob_view(r) == spec_raw_dlopen_shellcode(dlopen_addr, dlopen_path.spec_bytes(), jmp_addr),
{
    let pb = dlopen_path.as_bytes_vec();
    if has_nul(&pb) || pb.len() > X64_MAX_PATH {
        return Err(InjectionError::ShellcodeError);
    }
    let mut v: Vec<u8> = Vec::new();
    v.push(0xBE);
    v.push(0x02);
    v.push(0x00);
    v.push(0x00);
    v.push(0x00);
    v.push(0x48);
    v.push(0x8D);
    v.push(0x3D);
    v.push(0x2A);
    v.push(0x00);
    v.push(0x00);
    v.push(0x00);
    v.push(0x48);
    v.push(0xB8);
    proof {
        assert(v@ =~= loader_call_setup());
    }
    push_u64(&mut v, dlopen_addr);
    let ghost c1 = v@;
    v.push(0xFF);
    v.push(0xD0);
    v.push(0x41);
    v.push(0x5F);
    v.push(0x41);
    v.push(0x5E);
    v.push(0x41);
    v.push(0x5D);
    v.push(0x41);
    v.push(0x5C);
    v.push(0x41);
    v.push(0x5B);
    v.push(0x41);
    v.push(0x5A);
    v.push(0x41);
    v.push(0x59);
    v.push(0x41);
    v.push(0x58);
    v.push(0x5F);
    v.push(0x5E);
    v.push(0x5D);
    v.push(0x5A);
    v.push(0x59);
    v.push(0x5B);
    v.push(0x58);
    v.push(0xFF);
    v.push(0x35);
    proof {
        assert(v@ =~= c1 + loader_call_restore());
    }
    push_u32(&mut v, (pb.len() + 2) as u32);
    let ghost c2 = v@;
    v.push(0xC3);
    proof {
        assert(v@ =~= c2 + seq![0xC3u8]);
    }
    crate::maps::append_bytes(&mut v, &pb);
    let ghost c3 = v@;
    v.push(0x00);
    proof {
        assert(v@ =~= c3 + seq![0u8]);
    }
    push_u64(&mut v, jmp_addr);
    proof {
        assert(v@ =~= raw_dlopen_bytes(dlopen_addr, dlopen_path.spec_bytes(), jmp_addr));
    }
    Ok(v)
}

} // verus!
