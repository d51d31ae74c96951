//! Model of the target process: its `/proc` handle, its owner, the kernel's
//! attachment policy, and the architecture class of its main executable.
//!
//! Everything read from the filesystem (existence of `/proc/<pid>`, the
//! owner of that directory, the executable's header bytes, the ptrace scope)
//! is read at the I/O edge and handed in as plain values; the decisions taken
//! on those values live here and are verified.

use vstd::prelude::*;

verus! {

pub type Uid = u32;
pub type Gid = u32;

/// ELF machine number of 32-bit Arm.
pub const EM_ARM: u16 = 40;
/// ELF machine number of 64-bit Arm.
pub const EM_AARCH64: u16 = 183;
/// ELF machine number of 32-bit x86.
pub const EM_386: u16 = 3;
/// ELF machine number of 64-bit x86.
pub const EM_X86_64: u16 = 62;

/// Pointer-width class of the target process.
#[derive(Clone, Copy, Debug, PartialEq, Eq, Structural)]
pub enum ProcClass {
    ThirtyTwo,
    SixtyFour,
}

/// Instruction-set family of the machine the controller runs on.
///
/// Shellcode generation is selected at run time from this value together
/// with the target's [`ProcClass`], so one controller build can describe
/// every supported combination.
#[derive(Clone, Copy, Debug, PartialEq, Eq, Structural)]
pub enum Arch {
    Aarch64,
    X86,
    X86_64,
}

/// The kernel's Yama ptrace attachment policy, as read from
/// `/proc/sys/kernel/yama/ptrace_scope` at the I/O edge.
#[derive(Clone, Copy, Debug, PartialEq, Eq, Structural)]
pub enum PtraceScope {
    /// Scope 0: any process may attach to any other of the same owner.
    All,
    /// Scope 1: only ancestors or privileged processes may attach.
    Restricted,
    /// Scope 2: only privileged processes may attach.
    Admin,
    /// Scope 3: no process may attach at all.
    NoAttach,
}

/// Whether a controller with privilege `current_privileged` may attach to a
/// target with privilege `target_privileged` under `scope`.
pub open spec fn spec_may_attach(
    scope: PtraceScope,
    target_privileged: bool,
    current_privileged: bool,
) -> bool {
    match scope {
        PtraceScope::All => !target_privileged || current_privileged,
        PtraceScope::Restricted | PtraceScope::Admin => current_privileged,
        PtraceScope::NoAttach => false,
    }
}

/// The attachment gate consulted once before an engine is constructed:
/// under scope `All` the controller must be privileged if the target is;
/// under `Restricted` and `Admin` it must be privileged outright; under
/// `NoAttach` nothing may attach.
pub fn may_attach(scope: PtraceScope, target_privileged: bool, current_privileged: bool) -> (r:
    bool)
    ensures
        r == spec_may_attach(scope, target_privileged, current_privileged),
{
    match scope {
        PtraceScope::All => !target_privileged || current_privileged,
        PtraceScope::Restricted | PtraceScope::Admin => current_privileged,
        PtraceScope::NoAttach => false,
    }
}

/// A handle to the `/proc/<pid>` entry of one process, with its owner
/// cached at construction.
#[derive(Clone, Copy, Debug)]
pub struct Proc {
    pub pid: i32,
    pub uid: Uid,
    pub gid: Gid,
}

/// What goblin reports as `e_machine` for these executable header bytes;
/// a function of the bytes alone.
pub uninterp spec fn elf_machine_of(header: Seq<u8>) -> Option<u16>;

/// Relies on goblin's `Elf::parse_header`: reads the ELF identification from
/// the byte buffer and returns the header's `e_machine` field, failing on
/// short or non-ELF input.
#[verifier::external_body]
fn parse_elf_machine(header: &Vec<u8>) -> (r: Option<u16>)
    ensures
        r == elf_machine_of(header@),
{
    match goblin::elf::Elf::parse_header(header.as_slice()) {
        Ok(h) => Some(h.e_machine),
        Err(_) => None,
    }
}

/// The class a host of family `host` can inject into, given the target
/// executable's ELF machine number; `None` when the combination is
/// unsupported.
pub open spec fn spec_class_for(host: Arch, machine: u16) -> Option<ProcClass> {
    match host {
        Arch::Aarch64 => if machine == EM_ARM {
            Some(ProcClass::ThirtyTwo)
        } else if machine == EM_AARCH64 {
            Some(ProcClass::SixtyFour)
        } else {
            None
        },
        Arch::X86 => if machine == EM_386 {
            Some(ProcClass::ThirtyTwo)
        } else {
            None
        },
        Arch::X86_64 => if machine == EM_386 {
            Some(ProcClass::ThirtyTwo)
        } else if machine == EM_X86_64 {
            Some(ProcClass::SixtyFour)
        } else {
            None
        },
    }
}

/// [`spec_class_for`] applied to the machine number goblin reads from the
/// header bytes, when it reads one.
pub open spec fn spec_class(machine: Option<u16>, host: Arch) -> Option<ProcClass> {
    match machine {
        Option::None => None,
        Option::Some(m) => spec_class_for(host, m),
    }
}

impl Proc {
    /// Handle to the controller's own process, `/proc/self`; its owner is
    /// read at the I/O edge and handed in.
    pub fn current(uid: Uid, gid: Gid) -> (p: Proc)
        ensures
            p.pid == 0,
            p.uid == uid,
            p.gid == gid,
    {
        Proc { pid: 0, uid, gid }
    }

    /// Handle to the process `pid`. Whether `/proc/<pid>` exists, and who
    /// owns it, is checked at the I/O edge and handed in; absence yields
    /// `None`.
    pub fn new(pid: i32, exists: bool, uid: Uid, gid: Gid) -> (p: Option<Proc>)
        ensures
            exists ==> p == Some(Proc { pid, uid, gid }),
            !exists ==> p is None,
    {
        if exists {
            Some(Proc { pid, uid, gid })
        } else {
            None
        }
    }

    /// The owner of this process's `/proc` entry.
    pub fn owner(&self) -> (r: (Uid, Gid))
        ensures
            r.0 == self.uid,
            r.1 == self.gid,
    {
        (self.uid, self.gid)
    }

    /// Is this a root-owned process?
    pub fn privileged(&self) -> (r: bool)
        ensures
            r == (self.uid == 0),
    {
        self.uid == 0
    }

    /// Architecture class of the target's main executable, derived from the
    /// header bytes read from `/proc/<pid>/exe`, for a controller of family
    /// `host`; `None` when the header cannot be parsed or the combination
    /// is unsupported.
    pub fn class(&self, exe_header: &Vec<u8>, host: Arch) -> (r: Option<ProcClass>)
        ensures
            r == spec_class(elf_machine_of(exe_header@), host),
    {
        match parse_elf_machine(exe_header) {
            Option::None => None,
            Option::Some(m) => {
                match host {
                    Arch::Aarch64 => if m == EM_ARM {
                        Some(ProcClass::ThirtyTwo)
                    } else if m == EM_AARCH64 {
                        Some(ProcClass::SixtyFour)
                    } else {
                        None
                    },
                    Arch::X86 => if m == EM_386 {
                        Some(ProcClass::ThirtyTwo)
                    } else {
                        None
                    },
                    Arch::X86_64 => if m == EM_386 {
                        Some(ProcClass::ThirtyTwo)
                    } else if m == EM_X86_64 {
                        Some(ProcClass::SixtyFour)
                    } else {
                        None
                    },
                }
            },
        }
    }
}

} // verus!
