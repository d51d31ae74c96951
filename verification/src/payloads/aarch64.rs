//! AArch64 shellcode, emitted as explicit instruction encodings.
//!
//! Instructions are fixed 32-bit words; data the code reads through
//! pc-relative literal loads sits behind the code at fixed word offsets.

use vstd::prelude::*;
use vstd::bytes::{spec_u32_to_le_bytes, spec_u64_to_le_bytes};
use vstd::string::StringSliceAdditionalSpecFns;
use vstd::string::StrSliceExecFns;

use crate::errors::InjectionError;
use crate::payloads::{blob_view, has_nul, push_u32, push_u64};

verus! {

/// The spin entry (literal load of the sync slot, `ldxrb`/`stxrb`
/// test-and-set with retry), the stack frame, the saves of x0..x30, and
/// `mov x0, #0` (mmap addr).
pub open spec fn boot_head() -> Seq<u8> {
    seq![
        0xE6u8, 0x04u8, 0x00u8, 0x58u8, 0xC1u8, 0x7Cu8, 0x5Fu8, 0x08u8, 0xC1u8, 0xFFu8, 0xFFu8, 0x35u8,
        0x22u8, 0x00u8, 0x80u8, 0x52u8, 0xC2u8, 0x7Cu8, 0x01u8, 0x08u8, 0x61u8, 0xFFu8, 0xFFu8, 0x35u8,
        0xFFu8, 0x03u8, 0x04u8, 0xD1u8, 0xE0u8, 0x07u8, 0x00u8, 0xA9u8, 0xE2u8, 0x0Fu8, 0x01u8, 0xA9u8,
        0xE4u8, 0x17u8, 0x02u8, 0xA9u8, 0xE6u8, 0x1Fu8, 0x03u8, 0xA9u8, 0xE8u8, 0x27u8, 0x04u8, 0xA9u8,
        0xEAu8, 0x2Fu8, 0x05u8, 0xA9u8, 0xECu8, 0x37u8, 0x06u8, 0xA9u8, 0xEEu8, 0x3Fu8, 0x07u8, 0xA9u8,
        0xF0u8, 0x47u8, 0x08u8, 0xA9u8, 0xF2u8, 0x4Fu8, 0x09u8, 0xA9u8, 0xF4u8, 0x57u8, 0x0Au8, 0xA9u8,
        0xF6u8, 0x5Fu8, 0x0Bu8, 0xA9u8, 0xF8u8, 0x67u8, 0x0Cu8, 0xA9u8, 0xFAu8, 0x6Fu8, 0x0Du8, 0xA9u8,
        0xFCu8, 0x77u8, 0x0Eu8, 0xA9u8, 0xFEu8, 0x7Fu8, 0x0Fu8, 0xA9u8, 0x00u8, 0x00u8, 0x80u8, 0xD2u8,
    ]
}

/// The remaining mmap arguments and `svc #0`, the trampoline word written
/// into the new page, the `dsb ish; isb` cache synchronization, the
/// publish with the lock bit kept (`orr x0, x0, #1; str x0, [x6]`), and
/// the jump into the page.
pub open spec fn boot_tail() -> Seq<u8> {
    seq![
        0xE2u8, 0x00u8, 0x80u8, 0xD2u8, 0x43u8, 0x04u8, 0x80u8, 0xD2u8, 0xE4u8, 0x03u8, 0x3Fu8, 0xAAu8,
        0x05u8, 0x00u8, 0x80u8, 0xD2u8, 0xC8u8, 0x1Bu8, 0x80u8, 0xD2u8, 0x01u8, 0x00u8, 0x00u8, 0xD4u8,
        0x41u8, 0x01u8, 0x00u8, 0x18u8, 0x01u8, 0x00u8, 0x00u8, 0xB9u8, 0x9Fu8, 0x3Bu8, 0x03u8, 0xD5u8,
        0xDFu8, 0x3Fu8, 0x03u8, 0xD5u8, 0x00u8, 0x00u8, 0x40u8, 0xB2u8, 0xC0u8, 0x00u8, 0x00u8, 0xF9u8,
        0x00u8, 0x00u8, 0x40u8, 0xD2u8, 0x00u8, 0x00u8, 0x1Fu8, 0xD6u8,
    ]
}

/// The `b .` self-jump word.
pub open spec fn self_jmp_bytes() -> Seq<u8> {
    seq![0x00u8, 0x00u8, 0x00u8, 0x14u8]
}

/// `movz x1, #alloc_len` — the allocation length must fit one `movz`
/// immediate.
pub open spec fn movz_x1_word(alloc_len: u64) -> u32 {
    0xD2800001u32 | ((alloc_len as u32) << 5)
}

/// The whole bootstrap stage: 39 instruction words, the sync-slot address
/// as a literal qword, and the self-jump word the code copies into the
/// fresh page.
pub open spec fn first_shellcode_bytes(var_addr: u64, alloc_len: u64) -> Seq<u8> {
    boot_head() + spec_u32_to_le_bytes(movz_x1_word(alloc_len)) + boot_tail()
        + spec_u64_to_le_bytes(var_addr) + self_jmp_bytes()
}

/// Bootstrap generation fails exactly when the allocation length cannot be
/// encoded as a `movz` immediate.
pub open spec fn spec_first_shellcode(var_addr: u64, alloc_len: u64) -> Result<
    Seq<u8>,
    InjectionError,
> {
    if alloc_len > 0xFFFF {
        Err(InjectionError::ShellcodeError)
    } else {
        Ok(first_shellcode_bytes(var_addr, alloc_len))
    }
}

#[verifier::rlimit(100)]
#[verifier::spinoff_prover]
pub fn first_shellcode(var_addr: u64, alloc_len: u64) -> (r: Result<Vec<u8>, InjectionError>)
    ensures
        blob_view(r) == spec_first_shellcode(var_addr, alloc_len),
{
    if alloc_len > 0xFFFF {
        return Err(InjectionError::ShellcodeError);
    }
    let mut v: Vec<u8> = Vec::new();
    v.push(0xE6);
    v.push(0x04);
    v.push(0x00);
    v.push(0x58);
    v.push(0xC1);
    v.push(0x7C);
    v.push(0x5F);
    v.push(0x08);
    v.push(0xC1);
    v.push(0xFF);
    v.push(0xFF);
    v.push(0x35);
    v.push(0x22);
    v.push(0x00);
    v.push(0x80);
    v.push(0x52);
    v.push(0xC2);
    v.push(0x7C);
    v.push(0x01);
    v.push(0x08);
    v.push(0x61);
    v.push(0xFF);
    v.push(0xFF);
    v.push(0x35);
    v.push(0xFF);
    v.push(0x03);
    v.push(0x04);
    v.push(0xD1);
    v.push(0xE0);
    v.push(0x07);
    v.push(0x00);
    v.push(0xA9);
    v.push(0xE2);
    v.push(0x0F);
    v.push(0x01);
    v.push(0xA9);
    v.push(0xE4);
    v.push(0x17);
    v.push(0x02);
    v.push(0xA9);
    v.push(0xE6);
    v.push(0x1F);
    v.push(0x03);
    v.push(0xA9);
    v.push(0xE8);
    v.push(0x27);
    v.push(0x04);
    v.push(0xA9);
    v.push(0xEA);
    v.push(0x2F);
    v.push(0x05);
    v.push(0xA9);
    v.push(0xEC);
    v.push(0x37);
    v.push(0x06);
    v.push(0xA9);
    v.push(0xEE);
    v.push(0x3F);
    v.push(0x07);
    v.push(0xA9);
    v.push(0xF0);
    v.push(0x47);
    v.push(0x08);
    v.push(0xA9);
    v.push(0xF2);
    v.push(0x4F);
    v.push(0x09);
    v.push(0xA9);
    v.push(0xF4);
    v.push(0x57);
    v.push(0x0A);
    v.push(0xA9);
    v.push(0xF6);
    v.push(0x5F);
    v.push(0x0B);
    v.push(0xA9);
    v.push(0xF8);
    v.push(0x67);
    v.push(0x0C);
    v.push(0xA9);
    v.push(0xFA);
    v.push(0x6F);
    v.push(0x0D);
    v.push(0xA9);
    v.push(0xFC);
    v.push(0x77);
    v.push(0x0E);
    v.push(0xA9);
    v.push(0xFE);
    v.push(0x7F);
    v.push(0x0F);
    v.push(0xA9);
    v.push(0x00);
    v.push(0x00);
    v.push(0x80);
    v.push(0xD2);
    proof {
        assert(v@ =~= boot_head());
    }
    push_u32(&mut v, 0xD2800001u32 | ((alloc_len as u32) << 5));
    let ghost c1 = v@;
    v.push(0xE2);
    v.push(0x00);
    v.push(0x80);
    v.push(0xD2);
    v.push(0x43);
    v.push(0x04);
    v.push(0x80);
    v.push(0xD2);
    v.push(0xE4);
    v.push(0x03);
    v.push(0x3F);
    v.push(0xAA);
    v.push(0x05);
    v.push(0x00);
    v.push(0x80);
    v.push(0xD2);
    v.push(0xC8);
    v.push(0x1B);
    v.push(0x80);
    v.push(0xD2);
    v.push(0x01);
    v.push(0x00);
    v.push(0x00);
    v.push(0xD4);
    v.push(0x41);
    v.push(0x01);
    v.push(0x00);
    v.push(0x18);
    v.push(0x01);
    v.push(0x00);
    v.push(0x00);
    v.push(0xB9);
    v.push(0x9F);
    v.push(0x3B);
    v.push(0x03);
    v.push(0xD5);
    v.push(0xDF);
    v.push(0x3F);
    v.push(0x03);
    v.push(0xD5);
    v.push(0x00);
    v.push(0x00);
    v.push(0x40);
    v.push(0xB2);
    v.push(0xC0);
    v.push(0x00);
    v.push(0x00);
    v.push(0xF9);
    v.push(0x00);
    v.push(0x00);
    v.push(0x40);
    v.push(0xD2);
    v.push(0x00);
    v.push(0x00);
    v.push(0x1F);
    v.push(0xD6);
    proof {
        assert(v@ =~= c1 + boot_tail());
    }
    push_u64(&mut v, var_addr);
    let ghost c2 = v@;
    v.push(0x00);
    v.push(0x00);
    v.push(0x00);
    v.push(0x14);
    proof {
        assert(v@ =~= c2 + self_jmp_bytes());
        assert(v@ =~= first_shellcode_bytes(var_addr, alloc_len));
    }
    Ok(v)
}

/// `adr x0, +100` — the embedded path's address into x0.
pub open spec fn loader_adr() -> Seq<u8> {
    seq![
        0x20u8, 0x03u8, 0x00u8, 0x10u8,
    ]
}

/// `blr x8` (the dlopen call), `cbz x0, crash`, the restores of x0..x30,
/// and the stack-frame teardown.
pub open spec fn loader_body() -> Seq<u8> {
    seq![
        0x00u8, 0x01u8, 0x3Fu8, 0xD6u8, 0x80u8, 0x02u8, 0x00u8, 0xB4u8, 0xE0u8, 0x07u8, 0x40u8, 0xA9u8,
        0xE2u8, 0x0Fu8, 0x41u8, 0xA9u8, 0xE4u8, 0x17u8, 0x42u8, 0xA9u8, 0xE6u8, 0x1Fu8, 0x43u8, 0xA9u8,
        0xE8u8, 0x27u8, 0x44u8, 0xA9u8, 0xEAu8, 0x2Fu8, 0x45u8, 0xA9u8, 0xECu8, 0x37u8, 0x46u8, 0xA9u8,
        0xEEu8, 0x3Fu8, 0x47u8, 0xA9u8, 0xF0u8, 0x47u8, 0x48u8, 0xA9u8, 0xF2u8, 0x4Fu8, 0x49u8, 0xA9u8,
        0xF4u8, 0x57u8, 0x4Au8, 0xA9u8, 0xF6u8, 0x5Fu8, 0x4Bu8, 0xA9u8, 0xF8u8, 0x67u8, 0x4Cu8, 0xA9u8,
        0xFAu8, 0x6Fu8, 0x4Du8, 0xA9u8, 0xFCu8, 0x77u8, 0x4Eu8, 0xA9u8, 0xFEu8, 0x7Fu8, 0x4Fu8, 0xA9u8,
        0xFFu8, 0x03u8, 0x04u8, 0x91u8,
    ]
}

/// `br x8` into the original entry, and the `brk #1` a failed load traps
/// into.
pub open spec fn loader_end() -> Seq<u8> {
    seq![
        0x00u8, 0x01u8, 0x1Fu8, 0xD6u8, 0x20u8, 0x00u8, 0x20u8, 0xD4u8,
    ]
}

/// A pc-relative literal load word: `ldr x<rt>, +<delta_bytes>`.
pub open spec fn ldr_lit_word(rt: u32, delta_bytes: int) -> u32 {
    0x58000000u32 | ((((delta_bytes / 4) as u32)) << 5) | rt
}

/// Zero bytes that align the literal pool after the NUL-terminated path.
pub open spec fn loader_pad(plen: int) -> int {
    (4 - ((101 + plen) % 4)) % 4
}

/// Blob offset of the literal pool (flags, dlopen address, resume
/// address), after code, path, NUL and alignment.
pub open spec fn flags_off(plen: int) -> int {
    101 + plen + loader_pad(plen)
}

/// The whole loader stage: 25 instruction words (three of them literal
/// loads whose offsets depend on the path length), the NUL-terminated
/// path, alignment, and the literal pool.
pub open spec fn raw_dlopen_bytes(dlopen_addr: u64, path: Seq<u8>, jmp_addr: u64) -> Seq<u8> {
    let fo = flags_off(path.len() as int);
    loader_adr() + spec_u32_to_le_bytes(ldr_lit_word(1, fo - 4)) + spec_u32_to_le_bytes(
        ldr_lit_word(8, fo),
    ) + loader_body() + spec_u32_to_le_bytes(ldr_lit_word(8, fo - 72)) + loader_end() + path
        + seq![0u8] + Seq::new(loader_pad(path.len() as int) as nat, |i: int| 0u8)
        + spec_u64_to_le_bytes(2u64) + spec_u64_to_le_bytes(dlopen_addr) + spec_u64_to_le_bytes(
        jmp_addr,
    )
}

/// Loader generation fails exactly when the path cannot be embedded: it
/// holds a NUL, or code, path, alignment and literal pool would outgrow
/// the allocation.
pub open spec fn spec_raw_dlopen_shellcode(dlopen_addr: u64, path: Seq<u8>, jmp_addr: u64) -> Result<
    Seq<u8>,
    InjectionError,
> {
    if path.contains(0u8) || flags_off(path.len() as int) + 24 > 4028 {
        Err(InjectionError::ShellcodeError)
    } else {
        Ok(raw_dlopen_bytes(dlopen_addr, path, jmp_addr))
    }
}

#[verifier::rlimit(100)]
#[verifier::spinoff_prover]
pub fn raw_dlopen_shellcode(dlopen_addr: u64, dlopen_path: &str, jmp_addr: u64) -> (r: Result<
    Vec<u8>,
    InjectionError,
>)
    ensures
        blob_view(r) == spec_raw_dlopen_shellcode(dlopen_addr, dlopen_path.spec_bytes(), jmp_addr),
{
    let pb = dlopen_path.as_bytes_vec();
    if has_nul(&pb) {
        return Err(InjectionError::ShellcodeError);
    }
    let plen = pb.len();
    if plen > 4000 {
        return Err(InjectionError::ShellcodeError);
    }
    let pad: usize = (4 - ((101 + plen) % 4)) % 4;
    let fo: usize = 101 + plen + pad;
    proof {
        assert(pad == loader_pad(plen as int));
        assert(fo == flags_off(plen as int));
    }
    if fo + 24 > 4028 {
        return Err(InjectionError::ShellcodeError);
    }
    let w_flags: u32 = 0x58000000u32 | ((((fo as u32) - 4) / 4) << 5) | 1;
    let w_dlopen: u32 = 0x58000000u32 | (((fo as u32) / 4) << 5) | 8;
    let w_old: u32 = 0x58000000u32 | ((((fo as u32) - 72) / 4) << 5) | 8;
    proof {
        assert(w_flags == ldr_lit_word(1, fo as int - 4));
        assert(w_dlopen == ldr_lit_word(8, fo as int));
        assert(w_old == ldr_lit_word(8, fo as int - 72));
    }
    let mut v: Vec<u8> = Vec::new();
    v.push(0x20);
    v.push(0x03);
    v.push(0x00);
    v.push(0x10);
    proof {
        assert(v@ =~= loader_adr());
    }
    push_u32(&mut v, w_flags);
    push_u32(&mut v, w_dlopen);
    let ghost c1 = v@;
    v.push(0x00);
    v.push(0x01);
    v.push(0x3F);
    v.push(0xD6);
    v.push(0x80);
    v.push(0x02);
    v.push(0x00);
    v.push(0xB4);
    v.push(0xE0);
    v.push(0x07);
    v.push(0x40);
    v.push(0xA9);
    v.push(0xE2);
    v.push(0x0F);
    v.push(0x41);
    v.push(0xA9);
    v.push(0xE4);
    v.push(0x17);
    v.push(0x42);
    v.push(0xA9);
    v.push(0xE6);
    v.push(0x1F);
    v.push(0x43);
    v.push(0xA9);
    v.push(0xE8);
    v.push(0x27);
    v.push(0x44);
    v.push(0xA9);
    v.push(0xEA);
    v.push(0x2F);
    v.push(0x45);
    v.push(0xA9);
    v.push(0xEC);
    v.push(0x37);
    v.push(0x46);
    v.push(0xA9);
    v.push(0xEE);
    v.push(0x3F);
    v.push(0x47);
    v.push(0xA9);
    v.push(0xF0);
    v.push(0x47);
    v.push(0x48);
    v.push(0xA9);
    v.push(0xF2);
    v.push(0x4F);
    v.push(0x49);
    v.push(0xA9);
    v.push(0xF4);
    v.push(0x57);
    v.push(0x4A);
    v.push(0xA9);
    v.push(0xF6);
    v.push(0x5F);
    v.push(0x4B);
    v.push(0xA9);
    v.push(0xF8);
    v.push(0x67);
    v.push(0x4C);
    v.push(0xA9);
    v.push(0xFA);
    v.push(0x6F);
    v.push(0x4D);
    v.push(0xA9);
    v.push(0xFC);
    v.push(0x77);
    v.push(0x4E);
    v.push(0xA9);
    v.push(0xFE);
    v.push(0x7F);
    v.push(0x4F);
    v.push(0xA9);
    v.push(0xFF);
    v.push(0x03);
    v.push(0x04);
    v.push(0x91);
    proof {
        assert(v@ =~= c1 + loader_body());
    }
    push_u32(&mut v, w_old);
    let ghost c2 = v@;
    v.push(0x00);
    v.push(0x01);
    v.push(0x1F);
    v.push(0xD6);
    v.push(0x20);
    v.push(0x00);
    v.push(0x20);
    v.push(0xD4);
    proof {
        assert(v@ =~= c2 + loader_end());
    }
    crate::maps::append_bytes(&mut v, &pb);
    let ghost c3 = v@;
    v.push(0x00);
    proof {
        assert(v@ =~= c3 + seq![0u8]);
    }
    let ghost c4 = v@;
    let mut k: usize = 0;
    proof {
        assert(v@ =~= c4 + Seq::new(0nat, |i: int| 0u8));
    }
    while k < pad
        invariant
            k <= pad,
            v@ == c4 + Seq::new(k as nat, |i: int| 0u8),
        decreases pad - k,
    {
        v.push(0x00);
        proof {
            assert(v@ =~= c4 + Seq::new((k + 1) as nat, |i: int| 0u8));
        }
        k = k + 1;
    }
    push_u64(&mut v, 2);
    push_u64(&mut v, dlopen_addr);
    push_u64(&mut v, jmp_addr);
    proof {
        assert(v@ =~= raw_dlopen_bytes(dlopen_addr, dlopen_path.spec_bytes(), jmp_addr));
    }
    Ok(v)
}

/// The standalone spin trampoline: one `b .` instruction.
pub fn self_jmp() -> (r: Result<Vec<u8>, InjectionError>)
    ensures
        r matches Ok(v) && v@ == self_jmp_bytes(),
{
    let mut v: Vec<u8> = Vec::new();
    v.push(0x00);
    v.push(0x00);
    v.push(0x00);
    v.push(0x14);
    proof {
        assert(v@ =~= self_jmp_bytes());
    }
    Ok(v)
}

} // verus!
