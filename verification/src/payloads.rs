//! Machine-code generation for the two-stage bootstrap-and-load protocol.
//!
//! Each architecture emits two position-independent blobs as explicit byte
//! buffers: a *bootstrap stage* that serializes the target's threads on a
//! spinlock, maps one readable-writable-executable page and publishes its
//! address, and a *loader stage* that calls the dynamic loader on an
//! embedded path and resumes the original entry point. Every builder's
//! output is pinned byte for byte by a specification function of its
//! arguments alone, so identical inputs give identical blobs.

use vstd::prelude::*;
use vstd::string::StringSliceAdditionalSpecFns;

use crate::errors::InjectionError;
use crate::proc::{Arch, ProcClass};

pub mod aarch64;
pub mod x86;
pub mod x86_64;

verus! {

/// Bytes the bootstrap stage asks the target to map: the fixed allocation
/// every loader stage must fit into, together with its embedded path.
pub const ALLOC_SIZE: u64 = 4028;

/// A built blob seen at the specification level: its bytes on success, the
/// error otherwise.
pub open spec fn blob_view(r: Result<Vec<u8>, InjectionError>) -> Result<
    Seq<u8>,
    InjectionError,
> {
    match r {
        Ok(v) => Ok(v@),
        Err(e) => Err(e),
    }
}

/// What [`first_shellcode`] returns for each architecture pair.
pub open spec fn spec_first_shellcode(
    host: Arch,
    class: ProcClass,
    var_addr: u64,
    alloc_len: u64,
) -> Result<Seq<u8>, InjectionError> {
    match (host, class) {
        (Arch::Aarch64, _) => aarch64::spec_first_shellcode(var_addr, alloc_len),
        (Arch::X86, ProcClass::ThirtyTwo) => x86::spec_first_shellcode(var_addr, alloc_len),
        (Arch::X86, ProcClass::SixtyFour) => Err(InjectionError::ShellcodeError),
        (Arch::X86_64, ProcClass::ThirtyTwo) => x86::spec_first_shellcode(var_addr, alloc_len),
        (Arch::X86_64, ProcClass::SixtyFour) => x86_64::spec_first_shellcode(var_addr, alloc_len),
    }
}

/// The bootstrap stage for the host family and target class: when written
/// over a hot function, it takes a spinlock at `var_addr`, maps an
/// `alloc_len`-byte executable page, parks execution there and publishes
/// the page's address into `var_addr` with the lock bit still set.
///
/// A 64-bit target on a 32-bit x86 host has no generator.
pub fn first_shellcode(host: Arch, class: &ProcClass, var_addr: u64, alloc_len: u64) -> (r:
    Result<Vec<u8>, InjectionError>)
    requires
        !(host == Arch::X86 && *class == ProcClass::SixtyFour),
    ensures
        blob_view(r) == spec_first_shellcode(host, *class, var_addr, alloc_len),
{
    match (host, *class) {
        (Arch::Aarch64, _) => aarch64::first_shellcode(var_addr, alloc_len),
        (Arch::X86, ProcClass::ThirtyTwo) => x86::first_shellcode(var_addr, alloc_len),
        (Arch::X86, ProcClass::SixtyFour) => Err(InjectionError::ShellcodeError),
        (Arch::X86_64, ProcClass::ThirtyTwo) => x86::first_shellcode(var_addr, alloc_len),
        (Arch::X86_64, ProcClass::SixtyFour) => x86_64::first_shellcode(var_addr, alloc_len),
    }
}

/// What [`raw_dlopen_shellcode`] returns for each architecture pair.
pub open spec fn spec_raw_dlopen_shellcode(
    host: Arch,
    class: ProcClass,
    dlopen_addr: u64,
    path: Seq<u8>,
    jmp_addr: u64,
) -> Result<Seq<u8>, InjectionError> {
    match (host, class) {
        (Arch::Aarch64, _) => aarch64::spec_raw_dlopen_shellcode(dlopen_addr, path, jmp_addr),
        (Arch::X86, ProcClass::ThirtyTwo) => x86::spec_raw_dlopen_shellcode(
            dlopen_addr,
            path,
            jmp_addr,
        ),
        (Arch::X86, ProcClass::SixtyFour) => Err(InjectionError::ShellcodeError),
        (Arch::X86_64, ProcClass::ThirtyTwo) => x86::spec_raw_dlopen_shellcode(
            dlopen_addr,
            path,
            jmp_addr,
        ),
        (Arch::X86_64, ProcClass::SixtyFour) => x86_64::spec_raw_dlopen_shellcode(
            dlopen_addr,
            path,
            jmp_addr,
        ),
    }
}

/// The loader stage: calls the resolved library-open entry at `dlopen_addr`
/// on the embedded, NUL-terminated `dlopen_path`, restores the registers
/// the bootstrap saved, and jumps to `jmp_addr`, the original entry of the
/// hijacked function. Fails with `ShellcodeError` when the path cannot be
/// embedded (it holds a NUL, or the blob would outgrow the allocation).
pub fn raw_dlopen_shellcode(
    host: Arch,
    class: &ProcClass,
    dlopen_addr: u64,
    dlopen_path: &str,
    jmp_addr: u64,
) -> (r: Result<Vec<u8>, InjectionError>)
    requires
        !(host == Arch::X86 && *class == ProcClass::SixtyFour),
    ensures
        blob_view(r) == spec_raw_dlopen_shellcode(
            host,
            *class,
            dlopen_addr,
            dlopen_path.spec_bytes(),
            jmp_addr,
        ),
{
    match (host, *class) {
        (Arch::Aarch64, _) => aarch64::raw_dlopen_shellcode(dlopen_addr, dlopen_path, jmp_addr),
        (Arch::X86, ProcClass::ThirtyTwo) => x86::raw_dlopen_shellcode(
            dlopen_addr,
            dlopen_path,
            jmp_addr,
        ),
        (Arch::X86, ProcClass::SixtyFour) => Err(InjectionError::ShellcodeError),
        (Arch::X86_64, ProcClass::ThirtyTwo) => x86::raw_dlopen_shellcode(
            dlopen_addr,
            dlopen_path,
            jmp_addr,
        ),
        (Arch::X86_64, ProcClass::SixtyFour) => x86_64::raw_dlopen_shellcode(
            dlopen_addr,
            dlopen_path,
            jmp_addr,
        ),
    }
}

/// The standalone spin trampoline: one self-referential jump, used to park
/// late-arriving threads at the hijacked entry while originals are
/// restored.
pub fn self_jmp() -> (r: Result<Vec<u8>, InjectionError>)
    ensures
        r matches Ok(v) && v@ == aarch64::self_jmp_bytes(),
{
    aarch64::self_jmp()
}

/// Shellcode generation is deterministic: two bootstrap stages built from
/// identical inputs are byte-identical, because each builder's output is a
/// function of its arguments alone — no timestamps, no randomness.
pub proof fn lemma_first_shellcode_deterministic(
    r1: Result<Vec<u8>, InjectionError>,
    r2: Result<Vec<u8>, InjectionError>,
    host: Arch,
    class: ProcClass,
    var_addr: u64,
    alloc_len: u64,
)
    requires
        blob_view(r1) == spec_first_shellcode(host, class, var_addr, alloc_len),
        blob_view(r2) == spec_first_shellcode(host, class, var_addr, alloc_len),
    ensures
        blob_view(r1) == blob_view(r2),
{
}

/// The loader-stage counterpart of
/// [`lemma_first_shellcode_deterministic`].
pub proof fn lemma_raw_dlopen_deterministic(
    r1: Result<Vec<u8>, InjectionError>,
    r2: Result<Vec<u8>, InjectionError>,
    host: Arch,
    class: ProcClass,
    dlopen_addr: u64,
    path: Seq<u8>,
    jmp_addr: u64,
)
    requires
        blob_view(r1) == spec_raw_dlopen_shellcode(host, class, dlopen_addr, path, jmp_addr),
        blob_view(r2) == spec_raw_dlopen_shellcode(host, class, dlopen_addr, path, jmp_addr),
    ensures
        blob_view(r1) == blob_view(r2),
{
}

/// Every loader stage that generation accepts fits the fixed allocation
/// the bootstrap stage requests: a path too long to leave room is
/// rejected instead.
pub proof fn lemma_loader_fits_allocation(
    host: Arch,
    class: ProcClass,
    dlopen_addr: u64,
    path: Seq<u8>,
    jmp_addr: u64,
)
    requires
        spec_raw_dlopen_shellcode(host, class, dlopen_addr, path, jmp_addr) is Ok,
    ensures
        spec_raw_dlopen_shellcode(host, class, dlopen_addr, path, jmp_addr)->Ok_0.len()
            <= ALLOC_SIZE,
{
    vstd::bytes::lemma_auto_spec_u32_to_from_le_bytes();
    vstd::bytes::lemma_auto_spec_u64_to_from_le_bytes();
}

/// Append the little-endian bytes of `x` to `v`.
pub fn push_u32(v: &mut Vec<u8>, x: u32)
    ensures
        final(v)@ == old(v)@ + vstd::bytes::spec_u32_to_le_bytes(x),
        final(v)@.len() == old(v)@.len() + 4,
{
    let b = vstd::bytes::u32_to_le_bytes(x);
    crate::maps::append_bytes(v, &b);
}

/// Append the little-endian bytes of `x` to `v`.
pub fn push_u64(v: &mut Vec<u8>, x: u64)
    ensures
        final(v)@ == old(v)@ + vstd::bytes::spec_u64_to_le_bytes(x),
        final(v)@.len() == old(v)@.len() + 8,
{
    let b = vstd::bytes::u64_to_le_bytes(x);
    crate::maps::append_bytes(v, &b);
}

/// Does `b` hold a NUL byte?
pub fn has_nul(b: &Vec<u8>) -> (r: bool)
    ensures
        r == b@.contains(0u8),
{
    let n = b.len();
    let mut i: usize = 0;
    while i < n
        invariant
            i <= n,
            n == b@.len(),
            forall|k: int| 0 <= k < i ==> b@[k] != 0u8,
        decreases n - i,
    {
        if b[i] == 0 {
            assert(b@[i as int] == 0u8);
            assert(b@.contains(0u8));
            return true;
        }
        i = i + 1;
    }
    proof {
        if b@.contains(0u8) {
            let w = choose|k: int| 0 <= k < b@.len() && b@[k] == 0u8;
            assert(b@[w] != 0u8);
        }
    }
    false
}

} // verus!
