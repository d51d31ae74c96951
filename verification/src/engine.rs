//! The injection sequence as an explicit state machine.
//!
//! The engine cannot perform remote I/O itself; instead [`InjectRun`]
//! names, one at a time, the read, write or pause the caller must perform
//! next ([`InjectRun::next_action`]), and consumes the outcome
//! ([`InjectRun::step`]). Every transition is pinned by [`spec_step`], so
//! the exact order of patches — save originals, arm the sync slot, write
//! the bootstrap, poll for the published page, park, settle, restore both
//! originals, write the loader — is proved, not hoped for.

use vstd::prelude::*;
use vstd::bytes::spec_u64_from_le_bytes;

use crate::errors::InjectionError;
use crate::proc::Arch;

verus! {

/// Low bit of the sync word: the spinlock the bootstrap takes.
pub const SYNC_LOCK_BIT: u64 = 1;

/// High bits of the sync word: the published page address.
pub const SYNC_ADDR_MASK: u64 = 0xFFFF_FFFF_FFFF_FFF0;

/// The sync word signals completion when the lock bit is held and a
/// non-zero address has been published beside it. A set lock bit with a
/// zero address is the bootstrap still at work, not a ready state.
pub open spec fn sync_ready(w: u64) -> bool {
    w & SYNC_LOCK_BIT != 0 && w & SYNC_ADDR_MASK != 0
}

/// Exec mirror of [`sync_ready`].
pub fn sync_ready_exec(w: u64) -> (r: bool)
    ensures
        r == sync_ready(w),
{
    w & SYNC_LOCK_BIT != 0 && w & SYNC_ADDR_MASK != 0
}

/// One atomic test-and-set on the sync word, as the bootstrap's spin entry
/// performs it: the lock bit is set unconditionally, and the caller enters
/// only if it was clear before.
pub fn lock_try_acquire(w: u64) -> (r: (u64, bool))
    ensures
        r.0 == w | SYNC_LOCK_BIT,
        r.1 == (w & SYNC_LOCK_BIT == 0),
{
    (w | SYNC_LOCK_BIT, w & SYNC_LOCK_BIT == 0)
}

/// Clearing the lock bit of the sync word.
pub fn lock_release(w: u64) -> (r: u64)
    ensures
        r == w & 0xFFFF_FFFF_FFFF_FFFE,
        r & SYNC_LOCK_BIT == 0,
{
    proof {
        assert(w & 0xFFFF_FFFF_FFFF_FFFE & 1 == 0) by (bit_vector);
    }
    w & 0xFFFF_FFFF_FFFF_FFFE
}

/// Mutual exclusion of the bootstrap's spinlock: whatever the sync word
/// held, after one test-and-set it reads locked, so a second test-and-set
/// before a release cannot succeed — at most one thread passes the spin
/// entry at a time.
pub proof fn lemma_lock_mutual_exclusion(w: u64)
    ensures
        (w | SYNC_LOCK_BIT) & SYNC_LOCK_BIT != 0,
{
    assert((w | 1u64) & 1u64 != 0) by (bit_vector);
}

/// Progress of the bootstrap's spinlock: a test-and-set on an unlocked
/// word always succeeds, and a release always unlocks, so under fair
/// scheduling every spinning thread eventually enters.
pub proof fn lemma_lock_progress(w: u64)
    ensures
        w & SYNC_LOCK_BIT == 0 ==> ((w | SYNC_LOCK_BIT) & SYNC_LOCK_BIT != 0 && (w
            & SYNC_LOCK_BIT == 0)),
        (w & 0xFFFF_FFFF_FFFF_FFFE) & SYNC_LOCK_BIT == 0,
{
    assert((w & 0xFFFF_FFFF_FFFF_FFFE) & 1u64 == 0) by (bit_vector);
    assert((w | 1u64) & 1u64 != 0) by (bit_vector);
}

/// What the bootstrap publishes, the engine recovers exactly: for any
/// 16-byte-aligned non-zero page address, the sync word written with the
/// lock bit kept is a ready state, and masking the lock bit off yields
/// the page address back.
pub proof fn lemma_publish_roundtrip(page: u64)
    requires
        page & 0xF == 0,
        page != 0,
    ensures
        sync_ready(page | SYNC_LOCK_BIT),
        (page | SYNC_LOCK_BIT) & SYNC_ADDR_MASK == page,
{
    assert((page | 1u64) & 1u64 != 0) by (bit_vector);
    assert((page | 1u64) & 0xFFFF_FFFF_FFFF_FFF0u64 == page) by (bit_vector)
        requires
            page & 0xFu64 == 0,
    ;
}

/// A remote operation the caller must perform for the engine.
pub enum Action {
    /// Read `len` bytes at remote address `addr`, exactly.
    ReadMem { addr: u64, len: u64 },
    /// Write `data` at remote address `addr`, exactly.
    WriteMem { addr: u64, data: Vec<u8> },
    /// Pause for `ms` milliseconds.
    Sleep { ms: u64 },
}

/// The outcome of the action the engine last asked for.
pub enum Event {
    /// The read returned these bytes (their length equals the requested
    /// length; partial reads are failures).
    ReadDone(Vec<u8>),
    /// The write completed in full.
    WriteDone,
    /// The pause elapsed.
    SleepDone,
    /// The read or write failed with this error.
    IoFailed(InjectionError),
}

/// Where the injection sequence stands; each non-terminal phase names the
/// one action the caller must perform next.
#[derive(Clone, Copy, Debug, PartialEq, Eq, Structural)]
pub enum Phase {
    /// Read the original bytes under the trigger function.
    ReadFuncOrig,
    /// Read the original bytes of the sync slot.
    ReadVarOrig,
    /// Zero the sync slot so the lock starts open.
    ZeroVar,
    /// Write the bootstrap stage over the trigger function.
    WriteBootstrap,
    /// Pause briefly between polls of the sync slot.
    PollSleep,
    /// Read the sync slot, looking for the published page.
    PollRead,
    /// Park late-arriving threads with the spin trampoline (hosts with a
    /// separate instruction cache only).
    ParkEntry,
    /// Let in-flight threads settle before restoration.
    SettleSleep,
    /// Restore the original bytes of the trigger function.
    RestoreFunc,
    /// Restore the original bytes of the sync slot.
    RestoreVar,
    /// Write the loader stage into the published page.
    WriteLoader,
    /// The sequence completed.
    Finished,
    /// A remote operation failed; the sequence stopped there.
    Failed,
}

/// The engine's working state for one injection attempt.
pub struct InjectRun {
    pub phase: Phase,
    pub host: Arch,
    /// Absolute address of the hijacked trigger function.
    pub func_addr: u64,
    /// Absolute address of the data symbol reused as sync slot.
    pub var_addr: u64,
    /// The bootstrap stage to plant over the trigger function.
    pub bootstrap: Vec<u8>,
    /// The loader stage to plant into the published page.
    pub loader: Vec<u8>,
    /// The spin trampoline used while restoring (empty on hosts that skip
    /// the parking step).
    pub park: Vec<u8>,
    /// Original bytes under the trigger function, as read back.
    pub func_orig: Vec<u8>,
    /// Original bytes of the sync slot, as read back.
    pub var_orig: Vec<u8>,
    /// The published page address, lock bit masked off.
    pub new_map: u64,
    /// The error that stopped the sequence, when one did.
    pub fail: Option<InjectionError>,
}

/// Does the engine, standing at `s`, expect this event?
pub open spec fn step_enabled(s: InjectRun, ev: Event) -> bool {
    match s.phase {
        Phase::Finished | Phase::Failed => false,
        _ => match ev {
            Event::IoFailed(_) => true,
            Event::ReadDone(d) => match s.phase {
                Phase::ReadFuncOrig => d@.len() == s.bootstrap@.len(),
                Phase::ReadVarOrig | Phase::PollRead => d@.len() == 8,
                _ => false,
            },
            Event::WriteDone => match s.phase {
                Phase::ZeroVar | Phase::WriteBootstrap | Phase::ParkEntry | Phase::RestoreFunc
                    | Phase::RestoreVar | Phase::WriteLoader => true,
                _ => false,
            },
            Event::SleepDone => match s.phase {
                Phase::PollSleep | Phase::SettleSleep => true,
                _ => false,
            },
        },
    }
}

/// The engine's one-step transition: what [`InjectRun::step`] does to the
/// state for each phase and event.
pub open spec fn spec_step(s: InjectRun, ev: Event) -> InjectRun {
    match ev {
        Event::IoFailed(e) => InjectRun { phase: Phase::Failed, fail: Some(e), ..s },
        Event::ReadDone(d) => match s.phase {
            Phase::ReadFuncOrig => InjectRun { phase: Phase::ReadVarOrig, func_orig: d, ..s },
            Phase::ReadVarOrig => InjectRun { phase: Phase::ZeroVar, var_orig: d, ..s },
            Phase::PollRead => {
                let w = spec_u64_from_le_bytes(d@);
                if sync_ready(w) {
                    InjectRun {
                        phase: if s.host == Arch::Aarch64 {
                            Phase::ParkEntry
                        } else {
                            Phase::SettleSleep
                        },
                        new_map: w & SYNC_ADDR_MASK,
                        ..s
                    }
                } else {
                    InjectRun { phase: Phase::PollSleep, ..s }
                }
            },
            _ => s,
        },
        Event::WriteDone => match s.phase {
            Phase::ZeroVar => InjectRun { phase: Phase::WriteBootstrap, ..s },
            Phase::WriteBootstrap => InjectRun { phase: Phase::PollSleep, ..s },
            Phase::ParkEntry => InjectRun { phase: Phase::SettleSleep, ..s },
            Phase::RestoreFunc => InjectRun { phase: Phase::RestoreVar, ..s },
            Phase::RestoreVar => InjectRun { phase: Phase::WriteLoader, ..s },
            Phase::WriteLoader => InjectRun { phase: Phase::Finished, ..s },
            _ => s,
        },
        Event::SleepDone => match s.phase {
            Phase::PollSleep => InjectRun { phase: Phase::PollRead, ..s },
            Phase::SettleSleep => InjectRun { phase: Phase::RestoreFunc, ..s },
            _ => s,
        },
    }
}

/// The sequence cannot finish early: `Finished` is reached only from the
/// loader write, which is reached only after both restorations, which
/// follow the settling pause. Together with [`InjectRun::next_action`]
/// this pins the tail of every successful run: settle, restore the
/// trigger function, restore the sync slot, write the loader.
pub proof fn lemma_restoration_precedes_loader(s: InjectRun, ev: Event)
    requires
        step_enabled(s, ev),
    ensures
        spec_step(s, ev).phase == Phase::Finished ==> s.phase == Phase::WriteLoader,
        spec_step(s, ev).phase == Phase::WriteLoader ==> s.phase == Phase::RestoreVar,
        spec_step(s, ev).phase == Phase::RestoreVar ==> s.phase == Phase::RestoreFunc,
        spec_step(s, ev).phase == Phase::RestoreFunc ==> s.phase == Phase::SettleSleep,
{
}

/// What restoration writes is what was read: no step changes the planned
/// blobs or addresses, and the saved originals change only at their own
/// initial read.
pub proof fn lemma_step_preserves_saved_state(s: InjectRun, ev: Event)
    requires
        step_enabled(s, ev),
    ensures
        spec_step(s, ev).func_addr == s.func_addr,
        spec_step(s, ev).var_addr == s.var_addr,
        spec_step(s, ev).host == s.host,
        spec_step(s, ev).bootstrap == s.bootstrap,
        spec_step(s, ev).loader == s.loader,
        spec_step(s, ev).park == s.park,
        s.phase != Phase::ReadFuncOrig ==> spec_step(s, ev).func_orig == s.func_orig,
        s.phase != Phase::ReadVarOrig ==> spec_step(s, ev).var_orig == s.var_orig,
{
}

/// A copy of `src`'s bytes.
pub fn copy_bytes(src: &Vec<u8>) -> (r: Vec<u8>)
    ensures
        r@ == src@,
{
    let mut out: Vec<u8> = Vec::new();
    crate::maps::append_bytes(&mut out, src);
    proof {
        assert(out@ =~= src@);
    }
    out
}

/// Eight zero bytes: the value that opens the sync slot's lock.
pub fn zeros8() -> (r: Vec<u8>)
    ensures
        r@ == Seq::new(8, |i: int| 0u8),
{
    let mut v: Vec<u8> = Vec::new();
    let mut k: usize = 0;
    while k < 8
        invariant
            k <= 8,
            v@ == Seq::new(k as nat, |i: int| 0u8),
        decreases 8 - k,
    {
        v.push(0);
        proof {
            assert(v@ =~= Seq::new((k + 1) as nat, |i: int| 0u8));
        }
        k = k + 1;
    }
    v
}

impl InjectRun {
    /// Has the sequence ended, well or badly?
    pub fn done(&self) -> (r: bool)
        ensures
            r == (self.phase == Phase::Finished || self.phase == Phase::Failed),
    {
        self.phase == Phase::Finished || self.phase == Phase::Failed
    }

    /// The error that stopped the sequence, when one did.
    pub fn error(&self) -> (r: Option<InjectionError>)
        ensures
            r == self.fail,
    {
        self.fail
    }

    /// The one remote operation the caller must perform next; `None` once
    /// the sequence has ended.
    pub fn next_action(&self) -> (r: Option<Action>)
        ensures
            match self.phase {
                Phase::ReadFuncOrig => r matches Some(Action::ReadMem { addr, len }) && addr
                    == self.func_addr && len == self.bootstrap@.len(),
                Phase::ReadVarOrig | Phase::PollRead => r matches Some(
                    Action::ReadMem { addr, len },
                ) && addr == self.var_addr && len == 8,
                Phase::ZeroVar => r matches Some(Action::WriteMem { addr, data }) && addr
                    == self.var_addr && data@ == Seq::new(8, |i: int| 0u8),
                Phase::WriteBootstrap => r matches Some(Action::WriteMem { addr, data }) && addr
                    == self.func_addr && data@ == self.bootstrap@,
                Phase::PollSleep => r matches Some(Action::Sleep { ms }) && ms == 1,
                Phase::ParkEntry => r matches Some(Action::WriteMem { addr, data }) && addr
                    == self.func_addr && data@ == self.park@,
                Phase::SettleSleep => r matches Some(Action::Sleep { ms }) && ms == 1000,
                Phase::RestoreFunc => r matches Some(Action::WriteMem { addr, data }) && addr
                    == self.func_addr && data@ == self.func_orig@,
                Phase::RestoreVar => r matches Some(Action::WriteMem { addr, data }) && addr
                    == self.var_addr && data@ == self.var_orig@,
                Phase::WriteLoader => r matches Some(Action::WriteMem { addr, data }) && addr
                    == self.new_map && data@ == self.loader@,
                Phase::Finished | Phase::Failed => r is None,
            },
    {
        match self.phase {
            Phase::ReadFuncOrig => Some(
                Action::ReadMem { addr: self.func_addr, len: self.bootstrap.len() as u64 },
            ),
            Phase::ReadVarOrig | Phase::PollRead => Some(
                Action::ReadMem { addr: self.var_addr, len: 8 },
            ),
            Phase::ZeroVar => Some(Action::WriteMem { addr: self.var_addr, data: zeros8() }),
            Phase::WriteBootstrap => Some(
                Action::WriteMem { addr: self.func_addr, data: copy_bytes(&self.bootstrap) },
            ),
            Phase::PollSleep => Some(Action::Sleep { ms: 1 }),
            Phase::ParkEntry => Some(
                Action::WriteMem { addr: self.func_addr, data: copy_bytes(&self.park) },
            ),
            Phase::SettleSleep => Some(Action::Sleep { ms: 1000 }),
            Phase::RestoreFunc => Some(
                Action::WriteMem { addr: self.func_addr, data: copy_bytes(&self.func_orig) },
            ),
            Phase::RestoreVar => Some(
                Action::WriteMem { addr: self.var_addr, data: copy_bytes(&self.var_orig) },
            ),
            Phase::WriteLoader => Some(
                Action::WriteMem { addr: self.new_map, data: copy_bytes(&self.loader) },
            ),
            Phase::Finished | Phase::Failed => None,
        }
    }

    /// Consume the outcome of the action last asked for and move to the
    /// next phase, exactly as [`spec_step`] says.
    pub fn step(&mut self, ev: Event)
        requires
            step_enabled(*old(self), ev),
        ensures
            *final(self) == spec_step(*old(self), ev),
    {
        match ev {
            Event::IoFailed(e) => {
                self.phase = Phase::Failed;
                self.fail = Some(e);
            },
            Event::ReadDone(d) => {
                match self.phase {
                    Phase::ReadFuncOrig => {
                        self.func_orig = d;
                        self.phase = Phase::ReadVarOrig;
                    },
                    Phase::ReadVarOrig => {
                        self.var_orig = d;
                        self.phase = Phase::ZeroVar;
                    },
                    Phase::PollRead => {
                        let w = vstd::bytes::u64_from_le_bytes(d.as_slice());
                        if sync_ready_exec(w) {
                            self.new_map = w & SYNC_ADDR_MASK;
                            self.phase = if self.host == Arch::Aarch64 {
                                Phase::ParkEntry
                            } else {
                                Phase::SettleSleep
                            };
                        } else {
                            self.phase = Phase::PollSleep;
                        }
                    },
                    _ => {
                        proof {
                            assert(false);
                        }
                    },
                }
            },
            Event::WriteDone => {
                match self.phase {
                    Phase::ZeroVar => {
                        self.phase = Phase::WriteBootstrap;
                    },
                    Phase::WriteBootstrap => {
                        self.phase = Phase::PollSleep;
                    },
                    Phase::ParkEntry => {
                        self.phase = Phase::SettleSleep;
                    },
                    Phase::RestoreFunc => {
                        self.phase = Phase::RestoreVar;
                    },
                    Phase::RestoreVar => {
                        self.phase = Phase::WriteLoader;
                    },
                    Phase::WriteLoader => {
                        self.phase = Phase::Finished;
                    },
                    _ => {
                        proof {
                            assert(false);
                        }
                    },
                }
            },
            Event::SleepDone => {
                match self.phase {
                    Phase::PollSleep => {
                        self.phase = Phase::PollRead;
                    },
                    Phase::SettleSleep => {
                        self.phase = Phase::RestoreFunc;
                    },
                    _ => {
                        proof {
                            assert(false);
                        }
                    },
                }
            },
        }
    }
}

} // verus!
