//! 32-bit x86 shellcode, emitted as explicit instruction encodings.
//!
//! Addresses on this target are 32 bits wide; a 64-bit operand that does
//! not fit is a generation failure, not a truncation.

use vstd::prelude::*;
use vstd::bytes::spec_u32_to_le_bytes;
use vstd::string::StringSliceAdditionalSpecFns;
use vstd::string::StrSliceExecFns;

use crate::errors::InjectionError;
use crate::payloads::{blob_view, has_nul, push_u32};

verus! {

/// `push ebx; mov ebx, ...` — spin entry, saving ebx around the lock.
pub open spec fn boot_spin_entry() -> Seq<u8> {
    seq![0x53u8, 0xBBu8]
}

/// `lock bts word [ebx], 0; jc start; pop ebx; pushad`, `mov ebx, 0`
/// (mmap2 addr), and the `mov ecx, ...` opcode for the allocation length.
pub open spec fn boot_lock_save() -> Seq<u8> {
    seq![
        0xF0u8, 0x66u8, 0x0Fu8, 0xBAu8, 0x2Bu8, 0x00u8, 0x72u8, 0xF2u8, 0x5Bu8, 0x60u8, 0xBBu8,
        0x00u8, 0x00u8, 0x00u8, 0x00u8, 0xB9u8,
    ]
}

/// The remaining mmap2 arguments, `int 0x80`, `or al, 1`, and the
/// `mov ebx, ...` opcode for the sync-slot address.
pub open spec fn boot_mmap_publish() -> Seq<u8> {
    seq![
        0xBAu8, 0x07u8, 0x00u8, 0x00u8, 0x00u8, 0xBEu8, 0x22u8, 0x00u8, 0x00u8, 0x00u8, 0xBFu8,
        0xFFu8, 0xFFu8, 0xFFu8, 0xFFu8, 0xBDu8, 0x00u8, 0x00u8, 0x00u8, 0x00u8, 0xB8u8, 0xC0u8,
        0x00u8, 0x00u8, 0x00u8, 0xCDu8, 0x80u8, 0x0Cu8, 0x01u8, 0xBBu8,
    ]
}

/// `mov [ebx], eax; xor al, al; mov dword [eax], 0xfeeb; jmp eax`.
pub open spec fn boot_tail() -> Seq<u8> {
    seq![
        0x89u8, 0x03u8, 0x30u8, 0xC0u8, 0xC7u8, 0x00u8, 0xEBu8, 0xFEu8, 0x00u8, 0x00u8, 0xFFu8,
        0xE0u8,
    ]
}

/// The whole bootstrap stage, byte for byte, for 32-bit operands.
pub open spec fn first_shellcode_bytes(var_addr: u32, alloc_len: u32) -> Seq<u8> {
    boot_spin_entry() + spec_u32_to_le_bytes(var_addr) + boot_lock_save() + spec_u32_to_le_bytes(
        alloc_len,
    ) + boot_mmap_publish() + spec_u32_to_le_bytes(var_addr) + boot_tail()
}

/// Bootstrap generation fails exactly when an operand does not fit 32
/// bits.
pub open spec fn spec_first_shellcode(var_addr: u64, alloc_len: u64) -> Result<
    Seq<u8>,
    InjectionError,
> {
    if var_addr > 0xFFFF_FFFF || alloc_len > 0xFFFF_FFFF {
        Err(InjectionError::ShellcodeError)
    } else {
        Ok(first_shellcode_bytes(var_addr as u32, alloc_len as u32))
    }
}

pub fn first_shellcode(var_addr: u64, alloc_len: u64) -> (r: Result<Vec<u8>, InjectionError>)
    ensures
        blob_view(r) == spec_first_shellcode(var_addr, alloc_len),
{
    if var_addr > 0xFFFF_FFFF || alloc_len > 0xFFFF_FFFF {
        return Err(InjectionError::ShellcodeError);
    }
    let var32 = var_addr as u32;
    let alloc32 = alloc_len as u32;
    let mut v: Vec<u8> = Vec::new();
    v.push(0x53);
    v.push(0xBB);
    proof {
        assert(v@ =~= boot_spin_entry());
    }
    push_u32(&mut v, var32);
    let ghost c1 = v@;
    v.push(0xF0);
    v.push(0x66);
    v.push(0x0F);
    v.push(0xBA);
    v.push(0x2B);
    v.push(0x00);
    v.push(0x72);
    v.push(0xF2);
    v.push(0x5B);
    v.push(0x60);
    v.push(0xBB);
    v.push(0x00);
    v.push(0x00);
    v.push(0x00);
    v.push(0x00);
    v.push(0xB9);
    proof {
        assert(v@ =~= c1 + boot_lock_save());
    }
    push_u32(&mut v, alloc32);
    let ghost c2 = v@;
    v.push(0xBA);
    v.push(0x07);
    v.push(0x00);
    v.push(0x00);
    v.push(0x00);
    v.push(0xBE);
    v.push(0x22);
    v.push(0x00);
    v.push(0x00);
    v.push(0x00);
    v.push(0xBF);
    v.push(0xFF);
    v.push(0xFF);
    v.push(0xFF);
    v.push(0xFF);
    v.push(0xBD);
    v.push(0x00);
    v.push(0x00);
    v.push(0x00);
    v.push(0x00);
    v.push(0xB8);
    v.push(0xC0);
    v.push(0x00);
    v.push(0x00);
    v.push(0x00);
    v.push(0xCD);
    v.push(0x80);
    v.push(0x0C);
    v.push(0x01);
    v.push(0xBB);
    proof {
        assert(v@ =~= c2 + boot_mmap_publish());
    }
    push_u32(&mut v, var32);
    let ghost c3 = v@;
    v.push(0x89);
    v.push(0x03);
    v.push(0x30);
    v.push(0xC0);
    v.push(0xC7);
    v.push(0x00);
    v.push(0xEB);
    v.push(0xFE);
    v.push(0x00);
    v.push(0x00);
    v.push(0xFF);
    v.push(0xE0);
    proof {
        assert(v@ =~= c3 + boot_tail());
        assert(v@ =~= first_shellcode_bytes(var32, alloc32));
    }
    Ok(v)
}

/// Longest embeddable path on this architecture.
pub const X86_MAX_PATH: usize = 3984;

/// `call +0; pop ebx` (current address into ebx), `lea eax, [43]` (the
/// path's blob offset), `add ebx, eax; add ebx, -5`, and the
/// `mov eax, ...` opcode for the dlopen address.
pub open spec fn loader_pic_setup() -> Seq<u8> {
    seq![
        0xE8u8, 0x00u8, 0x00u8, 0x00u8, 0x00u8, 0x5Bu8, 0x8Du8, 0x05u8, 0x2Bu8, 0x00u8, 0x00u8,
        0x00u8, 0x01u8, 0xC3u8, 0x83u8, 0xC3u8, 0xFBu8, 0xB8u8,
    ]
}

/// A fresh call frame, the pushed flags (RTLD_NOW) and path, `call eax`,
/// frame teardown, `popad`, and the `push ...` opcode for the resume
/// address.
pub open spec fn loader_call_restore() -> Seq<u8> {
    seq![
        0x55u8, 0x89u8, 0xE5u8, 0x68u8, 0x02u8, 0x00u8, 0x00u8, 0x00u8, 0x53u8, 0xFFu8, 0xD0u8,
        0x89u8, 0xECu8, 0x5Du8, 0x61u8, 0x68u8,
    ]
}

/// The whole loader stage, byte for byte, for 32-bit operands.
pub open spec fn raw_dlopen_bytes(dlopen_addr: u32, path: Seq<u8>, jmp_addr: u32) -> Seq<u8> {
    loader_pic_setup() + spec_u32_to_le_bytes(dlopen_addr) + loader_call_restore()
        + spec_u32_to_le_bytes(jmp_addr) + seq![0xC3u8] + path + seq![0u8]
}

/// Loader generation fails exactly when an address does not fit 32 bits or
/// the path cannot be embedded.
pub open spec fn spec_raw_dlopen_shellcode(dlopen_addr: u64, path: Seq<u8>, jmp_addr: u64) -> Result<
    Seq<u8>,
    InjectionError,
> {
    if dlopen_addr > 0xFFFF_FFFF || jmp_addr > 0xFFFF_FFFF || path.contains(0u8) || path.len()
        > X86_MAX_PATH {
        Err(InjectionError::ShellcodeError)
    } else {
        Ok(raw_dlopen_bytes(dlopen_addr as u32, path, jmp_addr as u32))
    }
}

pub fn raw_dlopen_shellcode(dlopen_addr: u64, dlopen_path: &str, jmp_addr: u64) -> (r: Result<
    Vec<u8>,
    InjectionError,
>)
    ensures
        blob_view(r) == spec_raw_dlopen_shellcode(dlopen_addr, dlopen_path.spec_bytes(), jmp_addr),
{
    let pb = dlopen_path.as_bytes_vec();
    if dlopen_addr > 0xFFFF_FFFF || jmp_addr > 0xFFFF_FFFF || has_nul(&pb) || pb.len()
        > X86_MAX_PATH {
        return Err(InjectionError::ShellcodeError);
    }
    let mut v: Vec<u8> = Vec::new();
    v.push(0xE8);
    v.push(0x00);
    v.push(0x00);
    v.push(0x00);
    v.push(0x00);
    v.push(0x5B);
    v.push(0x8D);
    v.push(0x05);
    v.push(0x2B);
    v.push(0x00);
    v.push(0x00);
    v.push(0x00);
    v.push(0x01);
    v.push(0xC3);
    v.push(0x83);
    v.push(0xC3);
    v.push(0xFB);
    v.push(0xB8);
    proof {
        assert(v@ =~= loader_pic_setup());
    }
    push_u32(&mut v, dlopen_addr as u32);
    let ghost c1 = v@;
    v.push(0x55);
    v.push(0x89);
    v.push(0xE5);
    v.push(0x68);
    v.push(0x02);
    v.push(0x00);
    v.push(0x00);
    v.push(0x00);
    v.push(0x53);
    v.push(0xFF);
    v.push(0xD0);
    v.push(0x89);
    v.push(0xEC);
    v.push(0x5D);
    v.push(0x61);
    v.push(0x68);
    proof {
        assert(v@ =~= c1 + loader_call_restore());
    }
    push_u32(&mut v, jmp_addr as u32);
    let ghost c2 = v@;
    v.push(0xC3);
    proof {
        assert(v@ =~= c2 + seq![0xC3u8]);
    }
    crate::maps::append_bytes(&mut v, &pb);
    let ghost c3 = v@;
    v.push(0x00);
    proof {
        assert(v@ =~= c3 + seq![0u8]);
        assert(v@ =~= raw_dlopen_bytes(
            dlopen_addr as u32,
            dlopen_path.spec_bytes(),
            jmp_addr as u32,
        ));
    }
    Ok(v)
}

} // verus!
