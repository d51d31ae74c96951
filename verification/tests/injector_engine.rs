//! Session construction, symbol binding with memoization, and the full
//! injection sequence driven against a simulated target process.

use std::collections::HashMap;

use goauld::engine::{Action, Event, Phase};
use goauld::errors::InjectionError;
use goauld::proc::{Arch, PtraceScope};
use goauld::resolv::RemoteModule;
use goauld::Injector;

fn put_u32(b: &mut [u8], off: usize, v: u32) {
    b[off..off + 4].copy_from_slice(&v.to_le_bytes());
}

fn put_u64(b: &mut [u8], off: usize, v: u64) {
    b[off..off + 8].copy_from_slice(&v.to_le_bytes());
}

/// A 64-byte little-endian ELF64 header with the given machine number.
fn elf64_header(machine: u16) -> Vec<u8> {
    let mut h = vec![0u8; 64];
    h[0..4].copy_from_slice(&[0x7F, b'E', b'L', b'F']);
    h[4] = 2;
    h[5] = 1;
    h[6] = 1;
    h[16..18].copy_from_slice(&2u16.to_le_bytes());
    h[18..20].copy_from_slice(&machine.to_le_bytes());
    h[20..24].copy_from_slice(&1u32.to_le_bytes());
    h[52..54].copy_from_slice(&64u16.to_le_bytes());
    h
}

/// A minimal ELF64 image whose symbol table holds the given
/// (name, value) pairs.
fn elf_with_syms(syms: &[(&str, u64)]) -> Vec<u8> {
    let mut img = elf64_header(62);
    put_u64(&mut img, 40, 64);
    img[58..60].copy_from_slice(&64u16.to_le_bytes());
    img[60..62].copy_from_slice(&4u16.to_le_bytes());
    img[62..64].copy_from_slice(&3u16.to_le_bytes());

    let symtab_off: u64 = 64 + 4 * 64;
    let symtab_size: u64 = 24 * (1 + syms.len() as u64);
    let mut strtab: Vec<u8> = vec![0];
    let mut name_offs: Vec<u32> = Vec::new();
    for (name, _) in syms {
        name_offs.push(strtab.len() as u32);
        strtab.extend_from_slice(name.as_bytes());
        strtab.push(0);
    }
    let strtab_off = symtab_off + symtab_size;
    let shstrtab: &[u8] = b"\0.symtab\0.strtab\0.shstrtab\0";
    let shstrtab_off = strtab_off + strtab.len() as u64;

    let mut shdrs = vec![0u8; 4 * 64];
    put_u32(&mut shdrs, 64, 1);
    put_u32(&mut shdrs, 64 + 4, 2);
    put_u64(&mut shdrs, 64 + 24, symtab_off);
    put_u64(&mut shdrs, 64 + 32, symtab_size);
    put_u32(&mut shdrs, 64 + 40, 2);
    put_u32(&mut shdrs, 64 + 44, 1);
    put_u64(&mut shdrs, 64 + 48, 8);
    put_u64(&mut shdrs, 64 + 56, 24);
    put_u32(&mut shdrs, 128, 9);
    put_u32(&mut shdrs, 128 + 4, 3);
    put_u64(&mut shdrs, 128 + 24, strtab_off);
    put_u64(&mut shdrs, 128 + 32, strtab.len() as u64);
    put_u64(&mut shdrs, 128 + 48, 1);
    put_u32(&mut shdrs, 192, 17);
    put_u32(&mut shdrs, 192 + 4, 3);
    put_u64(&mut shdrs, 192 + 24, shstrtab_off);
    put_u64(&mut shdrs, 192 + 32, shstrtab.len() as u64);
    put_u64(&mut shdrs, 192 + 48, 1);
    img.extend_from_slice(&shdrs);

    let mut symtab = vec![0u8; 24];
    for (i, (_, value)) in syms.iter().enumerate() {
        let mut e = vec![0u8; 24];
        put_u32(&mut e, 0, name_offs[i]);
        e[4] = 0x12;
        e[6..8].copy_from_slice(&1u16.to_le_bytes());
        put_u64(&mut e, 8, *value);
        symtab.extend_from_slice(&e);
    }
    img.extend_from_slice(&symtab);
    img.extend_from_slice(&strtab);
    img.extend_from_slice(shstrtab);
    img
}

fn session() -> Injector {
    Injector::new(4242, true, 1000, 1000, PtraceScope::All, 1000).unwrap()
}

/// Supply the crafted target module if the session does not hold it yet,
/// counting how often a fetch was needed.
fn supply_if_needed(inj: &mut Injector, fetches: &mut u32) {
    if !inj.module_cached("libtgt.so") {
        *fetches += 1;
        let img = elf_with_syms(&[("alloc_fn", 0x1000), ("sync_var", 0x2000), ("dlopen", 0x3000)]);
        inj.supply_module("libtgt.so", RemoteModule::new("/lib/libtgt.so".to_string(), 0, img));
    }
}

#[test]
fn new_rejects_missing_process() {
    let r = Injector::new(99, false, 0, 0, PtraceScope::All, 0);
    assert_eq!(r.err().unwrap(), InjectionError::ProcessNotRunning);
}

#[test]
fn new_applies_attachment_policy() {
    // scope 3 forbids everything
    let r = Injector::new(1, true, 1000, 1000, PtraceScope::NoAttach, 0);
    assert_eq!(r.err().unwrap(), InjectionError::InsufficientPrivileges);
    // a root-owned target needs a root controller under scope 0
    let r = Injector::new(1, true, 0, 0, PtraceScope::All, 1000);
    assert_eq!(r.err().unwrap(), InjectionError::InsufficientPrivileges);
    assert!(Injector::new(1, true, 0, 0, PtraceScope::All, 0).is_ok());
    // restricted scopes need a root controller
    let r = Injector::new(1, true, 1000, 1000, PtraceScope::Restricted, 1000);
    assert_eq!(r.err().unwrap(), InjectionError::InsufficientPrivileges);
    assert!(Injector::new(1, true, 1000, 1000, PtraceScope::Admin, 0).is_ok());
}

#[test]
fn set_file_path_needs_openable_file() {
    let mut inj = session();
    assert_eq!(
        inj.set_file_path("/no/such/file.so".to_string(), false).unwrap_err(),
        InjectionError::FileError
    );
    assert!(inj.set_file_path("/tmp/lib.so".to_string(), true).is_ok());
}

#[test]
fn restart_app_pid_validation() {
    assert_eq!(Injector::restart_app_and_get_pid(123).unwrap(), 123);
    assert_eq!(
        Injector::restart_app_and_get_pid(0).unwrap_err(),
        InjectionError::PidNotFound
    );
}

#[test]
fn binding_a_symbol_without_its_module_fails() {
    let mut inj = session();
    assert_eq!(
        inj.set_func_sym("libtgt.so", "alloc_fn").unwrap_err(),
        InjectionError::ModuleNotFound
    );
}

#[test]
fn binding_a_missing_symbol_fails() {
    let mut inj = session();
    let mut fetches = 0;
    supply_if_needed(&mut inj, &mut fetches);
    assert_eq!(
        inj.set_func_sym("libtgt.so", "no_such_symbol").unwrap_err(),
        InjectionError::SymbolNotFound
    );
}

#[test]
fn symbol_resolution_is_memoized() {
    let mut inj = session();
    let mut fetches = 0;
    supply_if_needed(&mut inj, &mut fetches);
    inj.set_func_sym("libtgt.so", "alloc_fn").unwrap();
    let first = inj.target_func_sym_addr;
    // a second resolution of the same name needs no new fetch
    supply_if_needed(&mut inj, &mut fetches);
    inj.set_func_sym("libtgt.so", "alloc_fn").unwrap();
    assert_eq!(fetches, 1);
    assert_eq!(inj.target_func_sym_addr, first);
    assert_eq!(inj.sym_cache.len(), 1);
    // a distinct name populates a distinct cache entry
    supply_if_needed(&mut inj, &mut fetches);
    inj.set_var_sym("libtgt.so", "sync_var").unwrap();
    assert_eq!(fetches, 1);
    assert_eq!(inj.sym_cache.len(), 2);
}

#[test]
fn rebinding_same_symbol_is_idempotent() {
    let mut inj = session();
    let mut fetches = 0;
    supply_if_needed(&mut inj, &mut fetches);
    inj.set_func_sym("libtgt.so", "alloc_fn").unwrap();
    let name1 = inj.target_func_sym_name.clone();
    let addr1 = inj.target_func_sym_addr;
    let syms1 = inj.sym_cache.clone();
    let mods1 = inj.module_cache.len();
    inj.set_func_sym("libtgt.so", "alloc_fn").unwrap();
    assert_eq!(inj.target_func_sym_name, name1);
    assert_eq!(inj.target_func_sym_addr, addr1);
    assert_eq!(inj.sym_cache, syms1);
    assert_eq!(inj.module_cache.len(), mods1);
}

#[test]
fn default_syms_resolve_from_libc() {
    let mut inj = session();
    if !inj.module_cached("libc.so") {
        let img = elf_with_syms(&[("malloc", 0x111), ("timezone", 0x222)]);
        inj.supply_module("libc.so", RemoteModule::new("/lib/libc.so.6".to_string(), 0x7000_0000, img));
    }
    assert!(inj.needs_default_syms());
    inj.set_default_syms().unwrap();
    assert!(!inj.needs_default_syms());
    assert_eq!(inj.target_func_sym_addr, 0x7000_0111);
    assert_eq!(inj.target_var_sym_addr, 0x7000_0222);
}

/// The simulated target: a sparse byte memory, a log of every write, and
/// a bootstrap that publishes its page after the first poll.
struct FakeTarget {
    mem: HashMap<u64, u8>,
    writes: Vec<(u64, usize)>,
    sleeps: u32,
    page: u64,
    bootstrap_armed: bool,
}

impl FakeTarget {
    fn new() -> FakeTarget {
        FakeTarget {
            mem: HashMap::new(),
            writes: Vec::new(),
            sleeps: 0,
            page: 0x5_0000,
            bootstrap_armed: false,
        }
    }

    fn load(&mut self, addr: u64, bytes: &[u8]) {
        for (i, b) in bytes.iter().enumerate() {
            self.mem.insert(addr + i as u64, *b);
        }
    }

    fn read(&self, addr: u64, len: u64) -> Vec<u8> {
        (0..len).map(|i| *self.mem.get(&(addr + i)).unwrap_or(&0)).collect()
    }

    fn perform(&mut self, action: Action) -> Event {
        match action {
            Action::ReadMem { addr, len } => Event::ReadDone(self.read(addr, len)),
            Action::WriteMem { addr, data } => {
                self.writes.push((addr, data.len()));
                self.load(addr, &data);
                Event::WriteDone
            }
            Action::Sleep { ms: _ } => {
                self.sleeps += 1;
                // after the engine's first polling pause, the hijacked
                // function "runs": the bootstrap maps its page and
                // publishes it with the lock bit held
                if self.bootstrap_armed {
                    let word = self.page | 1;
                    self.load(0x2000, &word.to_le_bytes());
                    self.bootstrap_armed = false;
                }
                Event::SleepDone
            }
        }
    }
}

#[test]
fn end_to_end_injection_restores_originals_and_plants_loader() {
    let mut inj = session();
    let mut fetches = 0;
    supply_if_needed(&mut inj, &mut fetches);
    inj.use_raw_dlopen("libtgt.so").unwrap();
    inj.set_func_sym("libtgt.so", "alloc_fn").unwrap();
    inj.set_var_sym("libtgt.so", "sync_var").unwrap();
    inj.set_file_path("/data/local/tmp/libpayload.so".to_string(), true).unwrap();

    let header = elf64_header(62);
    let mut run = inj
        .start_inject("/data/local/tmp/libpayload.so", &header, Arch::X86_64)
        .unwrap();
    assert_eq!(run.phase, Phase::ReadFuncOrig);

    let mut target = FakeTarget::new();
    let func_orig: Vec<u8> = (0..run.bootstrap.len()).map(|i| (i % 251) as u8).collect();
    let var_orig: Vec<u8> = vec![0xA1, 0xB2, 0xC3, 0xD4, 0xE5, 0xF6, 0x07, 0x18];
    target.load(0x1000, &func_orig);
    target.load(0x2000, &var_orig);

    let mut steps = 0;
    while let Some(action) = run.next_action() {
        if let Action::WriteMem { addr, ref data } = action {
            // arm the fake bootstrap once its code is in place
            if addr == 0x1000 && data[..] == run.bootstrap[..] {
                target.bootstrap_armed = true;
            }
        }
        let ev = target.perform(action);
        run.step(ev);
        steps += 1;
        assert!(steps < 100, "the sequence must terminate");
    }
    assert_eq!(run.phase, Phase::Finished);
    assert_eq!(run.error(), None);

    // the originals are back in place
    assert_eq!(target.read(0x1000, func_orig.len() as u64), func_orig);
    assert_eq!(target.read(0x2000, 8), var_orig);
    // the loader stage sits in the published page, lock bit masked off
    assert_eq!(run.new_map, 0x5_0000);
    let planted = target.read(0x5_0000, run.loader.len() as u64);
    assert_eq!(planted, run.loader);
    // and it embeds the payload path for the dynamic loader
    let path = b"/data/local/tmp/libpayload.so";
    let pos = planted.windows(path.len()).position(|w| w == *path);
    assert!(pos.is_some());
    // the engine paused at least once while polling and once to settle
    assert!(target.sleeps >= 2);
}

#[test]
fn oversized_path_aborts_before_any_remote_write() {
    let mut inj = session();
    let mut fetches = 0;
    supply_if_needed(&mut inj, &mut fetches);
    inj.use_raw_dlopen("libtgt.so").unwrap();
    inj.set_func_sym("libtgt.so", "alloc_fn").unwrap();
    inj.set_var_sym("libtgt.so", "sync_var").unwrap();
    let long_path = "p".repeat(4100);
    let header = elf64_header(62);
    let r = inj.start_inject(&long_path, &header, Arch::X86_64);
    // no InjectRun exists, so no action was ever emitted: the target's
    // memory is untouched
    assert_eq!(r.err().unwrap(), InjectionError::ShellcodeError);
}

#[test]
fn unreadable_class_aborts_injection() {
    let mut inj = session();
    let mut fetches = 0;
    supply_if_needed(&mut inj, &mut fetches);
    inj.use_raw_dlopen("libtgt.so").unwrap();
    inj.set_func_sym("libtgt.so", "alloc_fn").unwrap();
    inj.set_var_sym("libtgt.so", "sync_var").unwrap();
    let garbage = vec![0u8; 64];
    let r = inj.start_inject("/tmp/p.so", &garbage, Arch::X86_64);
    assert_eq!(r.err().unwrap(), InjectionError::UnsupportedArch);
}

#[test]
fn poll_keeps_waiting_on_locked_but_unpublished_word() {
    let mut inj = session();
    let mut fetches = 0;
    supply_if_needed(&mut inj, &mut fetches);
    inj.use_raw_dlopen("libtgt.so").unwrap();
    inj.set_func_sym("libtgt.so", "alloc_fn").unwrap();
    inj.set_var_sym("libtgt.so", "sync_var").unwrap();
    let header = elf64_header(62);
    let mut run = inj.start_inject("/tmp/p.so", &header, Arch::X86_64).unwrap();
    // walk to the first poll read
    run.step(Event::ReadDone(vec![0; run.bootstrap.len()]));
    run.step(Event::ReadDone(vec![0; 8]));
    run.step(Event::WriteDone);
    run.step(Event::WriteDone);
    assert_eq!(run.phase, Phase::PollSleep);
    run.step(Event::SleepDone);
    assert_eq!(run.phase, Phase::PollRead);
    // lock bit set but no address published yet: a transient state
    run.step(Event::ReadDone(1u64.to_le_bytes().to_vec()));
    assert_eq!(run.phase, Phase::PollSleep);
    run.step(Event::SleepDone);
    // a published page moves the sequence on
    run.step(Event::ReadDone((0x6_0000u64 | 1).to_le_bytes().to_vec()));
    assert_eq!(run.phase, Phase::SettleSleep);
    assert_eq!(run.new_map, 0x6_0000);
}

#[test]
fn io_failure_stops_the_sequence() {
    let mut inj = session();
    let mut fetches = 0;
    supply_if_needed(&mut inj, &mut fetches);
    inj.use_raw_dlopen("libtgt.so").unwrap();
    inj.set_func_sym("libtgt.so", "alloc_fn").unwrap();
    inj.set_var_sym("libtgt.so", "sync_var").unwrap();
    let header = elf64_header(62);
    let mut run = inj.start_inject("/tmp/p.so", &header, Arch::X86_64).unwrap();
    run.step(Event::IoFailed(InjectionError::ReadMemoryError));
    assert_eq!(run.phase, Phase::Failed);
    assert_eq!(run.error(), Some(InjectionError::ReadMemoryError));
    assert!(run.next_action().is_none());
}

#[test]
fn write_failure_mid_sequence_is_reported() {
    let mut inj = session();
    let mut fetches = 0;
    supply_if_needed(&mut inj, &mut fetches);
    inj.use_raw_dlopen("libtgt.so").unwrap();
    inj.set_func_sym("libtgt.so", "alloc_fn").unwrap();
    inj.set_var_sym("libtgt.so", "sync_var").unwrap();
    let header = elf64_header(62);
    let mut run = inj.start_inject("/tmp/p.so", &header, Arch::X86_64).unwrap();
    run.step(Event::ReadDone(vec![0; run.bootstrap.len()]));
    run.step(Event::ReadDone(vec![0; 8]));
    // the zeroing write fails: the sequence stops with that error
    run.step(Event::IoFailed(InjectionError::WriteMemoryError));
    assert_eq!(run.phase, Phase::Failed);
    assert_eq!(run.error(), Some(InjectionError::WriteMemoryError));
}

#[test]
fn aarch64_sequence_parks_the_entry_before_restoring() {
    let mut inj = session();
    if !inj.module_cached("libtgt.so") {
        let img = elf_with_syms(&[("alloc_fn", 0x1000), ("sync_var", 0x2000), ("dlopen", 0x3000)]);
        inj.supply_module("libtgt.so", RemoteModule::new("/lib/libtgt.so".to_string(), 0, img));
    }
    inj.use_raw_dlopen("libtgt.so").unwrap();
    inj.set_func_sym("libtgt.so", "alloc_fn").unwrap();
    inj.set_var_sym("libtgt.so", "sync_var").unwrap();
    let header = elf64_header(183);
    let mut run = inj.start_inject("/tmp/p.so", &header, Arch::Aarch64).unwrap();
    run.step(Event::ReadDone(vec![0; run.bootstrap.len()]));
    run.step(Event::ReadDone(vec![0; 8]));
    run.step(Event::WriteDone);
    run.step(Event::WriteDone);
    run.step(Event::SleepDone);
    run.step(Event::ReadDone((0x7_0000u64 | 1).to_le_bytes().to_vec()));
    // on this host the entry is parked with the spin trampoline first
    assert_eq!(run.phase, Phase::ParkEntry);
    match run.next_action().unwrap() {
        Action::WriteMem { addr, data } => {
            assert_eq!(addr, 0x1000);
            assert_eq!(data, vec![0x00, 0x00, 0x00, 0x14]);
        }
        _ => panic!("expected the parking write"),
    }
}

#[test]
fn lock_simulation_grants_exclusive_eventual_access() {
    // many simulated threads fight for the bootstrap's spinlock under a
    // fair round-robin schedule
    let threads = 8;
    let mut word: u64 = 0;
    let mut holder: Option<usize> = None;
    let mut acquired = vec![false; threads];
    let mut rounds = 0;
    while acquired.iter().any(|a| !a) {
        rounds += 1;
        assert!(rounds < 1000, "every thread must eventually acquire the lock");
        for t in 0..threads {
            if acquired[t] {
                continue;
            }
            if holder == Some(t) {
                // the holder finishes its critical section and releases
                word = goauld::engine::lock_release(word);
                holder = None;
                acquired[t] = true;
            } else {
                let (next, got) = goauld::engine::lock_try_acquire(word);
                if got {
                    // mutual exclusion: nobody else may hold it now
                    assert_eq!(holder, None);
                    holder = Some(t);
                }
                word = next;
            }
        }
    }
    assert_eq!(holder, None);
}
