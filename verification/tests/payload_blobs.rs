//! Byte-level checks of the generated shellcode blobs.

use goauld::errors::InjectionError;
use goauld::payloads;
use goauld::proc::{Arch, ProcClass};

fn x64_bootstrap(var: u64, len: u64) -> Vec<u8> {
    payloads::first_shellcode(Arch::X86_64, &ProcClass::SixtyFour, var, len).unwrap()
}

#[test]
fn x64_bootstrap_layout() {
    let var: u64 = 0x1122_3344_5566_7788;
    let blob = x64_bootstrap(var, 4028);
    assert_eq!(blob.len(), 112);
    // push rax; movabs rax, var_addr
    assert_eq!(&blob[0..3], &[0x50, 0x48, 0xB8]);
    assert_eq!(&blob[3..11], &var.to_le_bytes());
    // lock bts dword [rax], 0; jc start (-18); pop rax
    assert_eq!(&blob[11..19], &[0xF0, 0x0F, 0xBA, 0x28, 0x00, 0x72, 0xEE, 0x58]);
    // the mmap length is embedded as a movabs immediate
    assert_eq!(&blob[54..62], &4028u64.to_le_bytes());
    // the blob ends with mov dword [rax], 0xfeeb; jmp rax
    assert_eq!(&blob[104..112], &[0xC7, 0x00, 0xEB, 0xFE, 0x00, 0x00, 0xFF, 0xE0]);
}

#[test]
fn x64_bootstrap_deterministic() {
    let a = x64_bootstrap(0x2000, 4028);
    let b = x64_bootstrap(0x2000, 4028);
    assert_eq!(a, b);
    let c = x64_bootstrap(0x2008, 4028);
    assert_ne!(a, c);
}

#[test]
fn x64_loader_embeds_path_and_resume() {
    let path = "/data/local/tmp/libpayload.so";
    let blob = payloads::raw_dlopen_shellcode(
        Arch::X86_64,
        &ProcClass::SixtyFour,
        0xAAAA_BBBB,
        path,
        0x1000,
    )
    .unwrap();
    let plen = path.len();
    assert_eq!(blob.len(), 54 + plen + 1 + 8);
    // mov esi, 2 (RTLD_NOW)
    assert_eq!(&blob[0..5], &[0xBE, 0x02, 0x00, 0x00, 0x00]);
    // the path sits at offset 54, NUL-terminated
    assert_eq!(&blob[54..54 + plen], path.as_bytes());
    assert_eq!(blob[54 + plen], 0);
    // the resume address closes the blob
    assert_eq!(&blob[55 + plen..], &0x1000u64.to_le_bytes());
    // dlopen address as a movabs immediate at offset 14
    assert_eq!(&blob[14..22], &0xAAAA_BBBBu64.to_le_bytes());
}

#[test]
fn x64_loader_deterministic() {
    let a = payloads::raw_dlopen_shellcode(Arch::X86_64, &ProcClass::SixtyFour, 1, "/p.so", 2)
        .unwrap();
    let b = payloads::raw_dlopen_shellcode(Arch::X86_64, &ProcClass::SixtyFour, 1, "/p.so", 2)
        .unwrap();
    assert_eq!(a, b);
}

#[test]
fn loader_rejects_oversized_path_on_every_arch() {
    let long = "a".repeat(4001);
    for (host, class) in [
        (Arch::X86_64, ProcClass::SixtyFour),
        (Arch::X86_64, ProcClass::ThirtyTwo),
        (Arch::X86, ProcClass::ThirtyTwo),
        (Arch::Aarch64, ProcClass::SixtyFour),
        (Arch::Aarch64, ProcClass::ThirtyTwo),
    ] {
        let r = payloads::raw_dlopen_shellcode(host, &class, 0x1000, &long, 0x2000);
        assert_eq!(r.unwrap_err(), InjectionError::ShellcodeError);
    }
}

#[test]
fn loader_rejects_interior_nul() {
    let bad = "/tmp/\0evil.so";
    let r = payloads::raw_dlopen_shellcode(Arch::X86_64, &ProcClass::SixtyFour, 1, bad, 2);
    assert_eq!(r.unwrap_err(), InjectionError::ShellcodeError);
}

#[test]
fn x86_bootstrap_layout_and_range_check() {
    let blob = payloads::first_shellcode(Arch::X86, &ProcClass::ThirtyTwo, 0x2000, 4028).unwrap();
    // push ebx; mov ebx, var
    assert_eq!(&blob[0..2], &[0x53, 0xBB]);
    assert_eq!(&blob[2..6], &0x2000u32.to_le_bytes());
    // lock bts word [ebx], 0
    assert_eq!(&blob[6..12], &[0xF0, 0x66, 0x0F, 0xBA, 0x2B, 0x00]);
    // an address over 32 bits cannot be encoded
    let r = payloads::first_shellcode(Arch::X86, &ProcClass::ThirtyTwo, 0x1_0000_0000, 4028);
    assert_eq!(r.unwrap_err(), InjectionError::ShellcodeError);
}

#[test]
fn x86_loader_pushes_resume_address() {
    let path = "/lib/x.so";
    let blob =
        payloads::raw_dlopen_shellcode(Arch::X86, &ProcClass::ThirtyTwo, 0x4000, path, 0x5000)
            .unwrap();
    assert_eq!(blob.len(), 43 + path.len() + 1);
    // call +0; pop ebx
    assert_eq!(&blob[0..6], &[0xE8, 0x00, 0x00, 0x00, 0x00, 0x5B]);
    // push <resume>; ret just before the path
    assert_eq!(blob[37], 0x68);
    assert_eq!(&blob[38..42], &0x5000u32.to_le_bytes());
    assert_eq!(blob[42], 0xC3);
    assert_eq!(&blob[43..43 + path.len()], path.as_bytes());
    assert_eq!(blob[43 + path.len()], 0);
}

#[test]
fn aarch64_bootstrap_layout() {
    let var: u64 = 0xFFEE_DDCC_BBAA_0000;
    let blob = payloads::first_shellcode(Arch::Aarch64, &ProcClass::SixtyFour, var, 4028).unwrap();
    assert_eq!(blob.len(), 168);
    // ldr x6, <sync slot literal>
    assert_eq!(&blob[0..4], &[0xE6, 0x04, 0x00, 0x58]);
    // movz x1, #4028 at word 24
    let movz = 0xD2800001u32 | ((4028u32) << 5);
    assert_eq!(&blob[96..100], &movz.to_le_bytes());
    // the sync-slot address literal at byte 156
    assert_eq!(&blob[156..164], &var.to_le_bytes());
    // the self-jump word closes the blob
    assert_eq!(&blob[164..168], &[0x00, 0x00, 0x00, 0x14]);
}

#[test]
fn aarch64_bootstrap_rejects_wide_allocation() {
    let r = payloads::first_shellcode(Arch::Aarch64, &ProcClass::SixtyFour, 0x2000, 0x1_0000);
    assert_eq!(r.unwrap_err(), InjectionError::ShellcodeError);
}

#[test]
fn aarch64_loader_layout() {
    let path = "/data/p.so"; // 10 bytes
    let blob =
        payloads::raw_dlopen_shellcode(Arch::Aarch64, &ProcClass::SixtyFour, 0x7777, path, 0x1234)
            .unwrap();
    let plen = path.len();
    // code is 100 bytes, then path, NUL, padding to 4, then three qwords
    let pad = (4 - ((101 + plen) % 4)) % 4;
    let fo = 101 + plen + pad;
    assert_eq!(blob.len(), fo + 24);
    // adr x0, +100
    assert_eq!(&blob[0..4], &[0x20, 0x03, 0x00, 0x10]);
    // the embedded path
    assert_eq!(&blob[100..100 + plen], path.as_bytes());
    assert_eq!(blob[100 + plen], 0);
    // literal pool: RTLD_NOW flags, dlopen address, resume address
    assert_eq!(&blob[fo..fo + 8], &2u64.to_le_bytes());
    assert_eq!(&blob[fo + 8..fo + 16], &0x7777u64.to_le_bytes());
    assert_eq!(&blob[fo + 16..fo + 24], &0x1234u64.to_le_bytes());
    // the three literal loads aim at the pool
    let w_flags = 0x58000000u32 | ((((fo as u32) - 4) / 4) << 5) | 1;
    assert_eq!(&blob[4..8], &w_flags.to_le_bytes());
}

#[test]
fn self_jmp_is_one_branch_word() {
    let blob = payloads::self_jmp().unwrap();
    assert_eq!(blob, vec![0x00, 0x00, 0x00, 0x14]);
}
