//! Injection of a shared library into a running process through
//! `/proc/<pid>/mem`: remote-memory planning, module and symbol resolution
//! from live mappings, architecture-specific shellcode generation, and the
//! orchestration state machine that sequences the memory patches.
//!
//! All reads and writes of another process's memory, and every other
//! filesystem touch, are performed by the caller at the I/O edge; this
//! crate decides what to read and write, in what order, and proves those
//! decisions against the contracts below.

use vstd::prelude::*;
use vstd::string::StringSliceAdditionalSpecFns;

pub mod engine;
pub mod errors;
pub mod maps;
pub mod payloads;
pub mod proc;
pub mod resolv;

use crate::engine::{InjectRun, Phase};
use crate::errors::InjectionError;
use crate::proc::{
    elf_machine_of, may_attach, spec_class, spec_may_attach, Arch, Gid, Proc, ProcClass,
    PtraceScope, Uid,
};
use crate::resolv::RemoteModule;

verus! {

/// First-match lookup in an association list keyed by strings.
pub open spec fn assoc<T>(c: Seq<(String, T)>, k: Seq<char>) -> Option<T>
    decreases c.len(),
{
    if c.len() == 0 {
        None
    } else if c.first().0@ == k {
        Some(c.first().1)
    } else {
        assoc(c.drop_first(), k)
    }
}

/// Appending a fresh pair changes the lookup only for its own key, and
/// only when that key was absent.
pub proof fn lemma_assoc_push<T>(c: Seq<(String, T)>, p: (String, T), k: Seq<char>)
    ensures
        assoc(c.push(p), k) == if assoc(c, k) is Some {
            assoc(c, k)
        } else if p.0@ == k {
            Some(p.1)
        } else {
            None::<T>
        },
    decreases c.len(),
{
    if c.len() == 0 {
        assert(c.push(p).first() == p);
        assert(c.push(p).drop_first() =~= Seq::<(String, T)>::empty());
        assert(assoc(c, k) is None);
        if p.0@ == k {
            assert(assoc(c.push(p), k) == Some(p.1));
        } else {
            assert(assoc(c.push(p), k) == assoc(c.push(p).drop_first(), k));
            assert(assoc(c.push(p).drop_first(), k) is None);
        }
    } else {
        assert(c.push(p).len() > 0);
        assert(c.push(p).first() == c.first());
        assert(c.push(p).drop_first() =~= c.drop_first().push(p));
        lemma_assoc_push(c.drop_first(), p, k);
        if c.first().0@ == k {
            assert(assoc(c.push(p), k) == Some(c.first().1));
            assert(assoc(c, k) == Some(c.first().1));
        } else {
            assert(assoc(c.push(p), k) == assoc(c.drop_first().push(p), k));
            assert(assoc(c, k) == assoc(c.drop_first(), k));
        }
    }
}

/// First matching module in the cache, as a borrowed index.
fn find_key_module(cache: &Vec<(String, RemoteModule)>, k: &String) -> (r: Option<usize>)
    ensures
        match r {
            Some(i) => i < cache@.len() && cache@[i as int].0@ == k@ && assoc(cache@, k@) == Some(
                cache@[i as int].1,
            ),
            None => assoc(cache@, k@) is None,
        },
{
    let n = cache.len();
    let mut i: usize = 0;
    proof {
        assert(cache@.skip(0) =~= cache@);
    }
    while i < n
        invariant
            i <= n,
            n == cache@.len(),
            assoc(cache@.skip(i as int), k@) == assoc(cache@, k@),
        decreases n - i,
    {
        proof {
            assert(cache@.skip(i as int).first() == cache@[i as int]);
            assert(cache@.skip(i as int).drop_first() =~= cache@.skip(i + 1));
        }
        if cache[i].0 == *k {
            return Some(i);
        }
        i = i + 1;
    }
    proof {
        assert(cache@.skip(n as int) =~= Seq::<(String, RemoteModule)>::empty());
    }
    None
}

/// First matching symbol address in the cache.
fn find_key_sym(cache: &Vec<(String, usize)>, k: &String) -> (r: Option<usize>)
    ensures
        r == assoc(cache@, k@),
{
    let n = cache.len();
    let mut i: usize = 0;
    proof {
        assert(cache@.skip(0) =~= cache@);
    }
    while i < n
        invariant
            i <= n,
            n == cache@.len(),
            assoc(cache@.skip(i as int), k@) == assoc(cache@, k@),
        decreases n - i,
    {
        proof {
            assert(cache@.skip(i as int).first() == cache@[i as int]);
            assert(cache@.skip(i as int).drop_first() =~= cache@.skip(i + 1));
        }
        if cache[i].0 == *k {
            return Some(cache[i].1);
        }
        i = i + 1;
    }
    proof {
        assert(cache@.skip(n as int) =~= Seq::<(String, usize)>::empty());
    }
    None
}

/// One injection session: the target process handle, the payload path,
/// the chosen trigger and sync symbols, and the per-session module and
/// symbol caches (each populated at most once per name).
pub struct Injector {
    pub remote_proc: Proc,
    pub file_path: String,
    pub target_func_sym_name: String,
    pub target_func_sym_addr: usize,
    pub target_var_sym_name: String,
    pub target_var_sym_addr: usize,
    pub module_cache: Vec<(String, RemoteModule)>,
    pub sym_cache: Vec<(String, usize)>,
}

/// What binding `sym_name` from `module_name` answers, given the caches:
/// the cached address when the symbol is cached, a fresh resolution from
/// the cached module image otherwise, `ModuleNotFound` when the module was
/// never supplied.
pub open spec fn bind_result(s: Injector, module_name: Seq<char>, sym_name: Seq<char>) -> Result<
    usize,
    InjectionError,
> {
    match assoc(s.module_cache@, module_name) {
        Option::None => Err(InjectionError::ModuleNotFound),
        Option::Some(md) => match assoc(s.sym_cache@, sym_name) {
            Option::Some(a) => Ok(a),
            Option::None => md.spec_dlsym(sym_name),
        },
    }
}

/// How one bind call changes the caches: the module cache never changes;
/// the symbol cache gains exactly one entry — the freshly resolved
/// address under the symbol's name — and only when the bind succeeded on
/// a symbol not yet cached.
pub open spec fn caches_after_bind(
    pre: Injector,
    post: Injector,
    module_name: Seq<char>,
    sym_name: Seq<char>,
) -> bool {
    &&& post.module_cache == pre.module_cache
    &&& match bind_result(pre, module_name, sym_name) {
        Ok(a) => if assoc(pre.sym_cache@, sym_name) is Some {
            post.sym_cache == pre.sym_cache
        } else {
            &&& post.sym_cache@.len() == pre.sym_cache@.len() + 1
            &&& post.sym_cache@.drop_last() == pre.sym_cache@
            &&& post.sym_cache@.last().0@ == sym_name
            &&& post.sym_cache@.last().1 == a
        },
        Err(_) => post.sym_cache == pre.sym_cache,
    }
}

/// Everything a bind call through [`Injector::set_func_sym`] does to the
/// session: the caches move as [`caches_after_bind`] says, the function
/// target is bound on success and untouched on failure, and nothing else
/// changes.
pub open spec fn bind_applied_func(
    pre: Injector,
    post: Injector,
    module_name: Seq<char>,
    sym_name: Seq<char>,
) -> bool {
    &&& caches_after_bind(pre, post, module_name, sym_name)
    &&& post.remote_proc == pre.remote_proc
    &&& post.file_path == pre.file_path
    &&& post.target_var_sym_name == pre.target_var_sym_name
    &&& post.target_var_sym_addr == pre.target_var_sym_addr
    &&& match bind_result(pre, module_name, sym_name) {
        Ok(a) => post.target_func_sym_name@ == sym_name && post.target_func_sym_addr == a,
        Err(_) => post.target_func_sym_name == pre.target_func_sym_name
            && post.target_func_sym_addr == pre.target_func_sym_addr,
    }
}

/// The variable-symbol counterpart of [`bind_applied_func`].
pub open spec fn bind_applied_var(
    pre: Injector,
    post: Injector,
    module_name: Seq<char>,
    sym_name: Seq<char>,
) -> bool {
    &&& caches_after_bind(pre, post, module_name, sym_name)
    &&& post.remote_proc == pre.remote_proc
    &&& post.file_path == pre.file_path
    &&& post.target_func_sym_name == pre.target_func_sym_name
    &&& post.target_func_sym_addr == pre.target_func_sym_addr
    &&& match bind_result(pre, module_name, sym_name) {
        Ok(a) => post.target_var_sym_name@ == sym_name && post.target_var_sym_addr == a,
        Err(_) => post.target_var_sym_name == pre.target_var_sym_name && post.target_var_sym_addr
            == pre.target_var_sym_addr,
    }
}

/// Binding the same pair twice is idempotent: after a successful bind,
/// repeating it answers the same address from the symbol cache and leaves
/// every engine-visible value — the bound address, both caches' lookups —
/// exactly as the first bind left them.
pub proof fn lemma_bind_func_idempotent(
    pre: Injector,
    mid: Injector,
    post: Injector,
    module_name: Seq<char>,
    sym_name: Seq<char>,
)
    requires
        bind_result(pre, module_name, sym_name) is Ok,
        bind_applied_func(pre, mid, module_name, sym_name),
        bind_applied_func(mid, post, module_name, sym_name),
    ensures
        bind_result(mid, module_name, sym_name) == bind_result(pre, module_name, sym_name),
        post.target_func_sym_addr == mid.target_func_sym_addr,
        post.target_func_sym_name@ == mid.target_func_sym_name@,
        post.module_cache == mid.module_cache,
        post.sym_cache == mid.sym_cache,
        post.target_var_sym_name == mid.target_var_sym_name,
        post.target_var_sym_addr == mid.target_var_sym_addr,
        post.file_path == mid.file_path,
        post.remote_proc == mid.remote_proc,
{
    let a = bind_result(pre, module_name, sym_name)->Ok_0;
    if assoc(pre.sym_cache@, sym_name) is Some {
        assert(bind_result(mid, module_name, sym_name) == bind_result(pre, module_name, sym_name));
    } else {
        let p = mid.sym_cache@.last();
        assert(mid.sym_cache@ =~= pre.sym_cache@.push(p));
        lemma_assoc_push(pre.sym_cache@, p, sym_name);
        assert(assoc(mid.sym_cache@, sym_name) == Some(a));
    }
}

/// Memoization: resolving a symbol whose module and address are already
/// cached performs no fresh resolution — the bind answers from the symbol
/// cache and both caches stay exactly as they were.
pub proof fn lemma_bind_memoized(
    pre: Injector,
    post: Injector,
    module_name: Seq<char>,
    sym_name: Seq<char>,
)
    requires
        assoc(pre.module_cache@, module_name) is Some,
        assoc(pre.sym_cache@, sym_name) is Some,
        caches_after_bind(pre, post, module_name, sym_name),
    ensures
        bind_result(pre, module_name, sym_name) == Ok::<usize, InjectionError>(
            assoc(pre.sym_cache@, sym_name)->0,
        ),
        post.module_cache == pre.module_cache,
        post.sym_cache == pre.sym_cache,
{
}

impl Injector {
    /// A fresh session for the process `pid`. The existence of
    /// `/proc/<pid>`, its owner, the kernel's ptrace scope and the
    /// controller's own uid are read at the I/O edge and handed in.
    /// An absent process yields `ProcessNotRunning`; a process the
    /// attachment policy forbids yields `InsufficientPrivileges`.
    pub fn new(pid: i32, exists: bool, uid: Uid, gid: Gid, scope: PtraceScope, current_uid: Uid)
        -> (r: Result<Injector, InjectionError>)
        ensures
            match r {
                Ok(inj) => {
                    &&& exists
                    &&& spec_may_attach(scope, uid == 0, current_uid == 0)
                    &&& inj.remote_proc == (Proc { pid, uid, gid })
                    &&& inj.file_path@ == Seq::<char>::empty()
                    &&& inj.target_func_sym_name@ == Seq::<char>::empty()
                    &&& inj.target_func_sym_addr == 0
                    &&& inj.target_var_sym_name@ == Seq::<char>::empty()
                    &&& inj.target_var_sym_addr == 0
                    &&& inj.module_cache@ == Seq::<(String, RemoteModule)>::empty()
                    &&& inj.sym_cache@ == Seq::<(String, usize)>::empty()
                },
                Err(e) => (!exists && e == InjectionError::ProcessNotRunning) || (exists
                    && !spec_may_attach(scope, uid == 0, current_uid == 0) && e
                    == InjectionError::InsufficientPrivileges),
            },
    {
        let p = match Proc::new(pid, exists, uid, gid) {
            Option::Some(p) => p,
            Option::None => {
                return Err(InjectionError::ProcessNotRunning);
            },
        };
        let target_privileged = p.privileged();
        if !may_attach(scope, target_privileged, current_uid == 0) {
            return Err(InjectionError::InsufficientPrivileges);
        }
        Ok(
            Injector {
                remote_proc: p,
                file_path: String::new(),
                target_func_sym_name: String::new(),
                target_func_sym_addr: 0,
                target_var_sym_name: String::new(),
                target_var_sym_addr: 0,
                module_cache: Vec::new(),
                sym_cache: Vec::new(),
            },
        )
    }

    /// Record the payload path. Whether the file can be opened is checked
    /// at the I/O edge and handed in; an unopenable file yields
    /// `FileError` and leaves the session untouched.
    pub fn set_file_path(&mut self, file_path: String, openable: bool) -> (r: Result<
        (),
        InjectionError,
    >)
        ensures
            match r {
                Ok(_) => openable && *final(self) == (Injector { file_path, ..*old(self) }),
                Err(e) => !openable && e == InjectionError::FileError && *final(self) == *old(
                    self,
                ),
            },
    {
        if !openable {
            return Err(InjectionError::FileError);
        }
        self.file_path = file_path;
        Ok(())
    }

    /// Is this module's reconstructed image already cached?
    pub fn module_cached(&self, module_name: &str) -> (r: bool)
        ensures
            r == (assoc(self.module_cache@, module_name@) is Some),
    {
        let key: String = module_name.to_owned();
        match find_key_module(&self.module_cache, &key) {
            Option::Some(_) => true,
            Option::None => false,
        }
    }

    /// Store a freshly reconstructed module under `module_name`. A name
    /// already cached is kept as it is: entries are never invalidated
    /// within a session.
    pub fn supply_module(&mut self, module_name: &str, module: RemoteModule)
        ensures
            assoc(old(self).module_cache@, module_name@) is Some ==> *final(self) == *old(self),
            assoc(old(self).module_cache@, module_name@) is None ==> {
                &&& final(self).module_cache@.len() == old(self).module_cache@.len() + 1
                &&& final(self).module_cache@.drop_last() == old(self).module_cache@
                &&& final(self).module_cache@.last().0@ == module_name@
                &&& final(self).module_cache@.last().1 == module
                &&& final(self).remote_proc == old(self).remote_proc
                &&& final(self).file_path == old(self).file_path
                &&& final(self).target_func_sym_name == old(self).target_func_sym_name
                &&& final(self).target_func_sym_addr == old(self).target_func_sym_addr
                &&& final(self).target_var_sym_name == old(self).target_var_sym_name
                &&& final(self).target_var_sym_addr == old(self).target_var_sym_addr
                &&& final(self).sym_cache == old(self).sym_cache
            },
    {
        let key: String = module_name.to_owned();
        match find_key_module(&self.module_cache, &key) {
            Option::Some(_) => {},
            Option::None => {
                self.module_cache.push((key, module));
            },
        }
    }

    /// Resolve `sym_name` within the cached image of `module_name`,
    /// memoizing the address: a cached symbol is answered without touching
    /// the module image again, and a fresh resolution is recorded in the
    /// symbol cache.
    pub fn add_sym(&mut self, module_name: &str, sym_name: &str) -> (r: Result<
        usize,
        InjectionError,
    >)
        ensures
            r == bind_result(*old(self), module_name@, sym_name@),
            caches_after_bind(*old(self), *final(self), module_name@, sym_name@),
            final(self).remote_proc == old(self).remote_proc,
            final(self).file_path == old(self).file_path,
            final(self).target_func_sym_name == old(self).target_func_sym_name,
            final(self).target_func_sym_addr == old(self).target_func_sym_addr,
            final(self).target_var_sym_name == old(self).target_var_sym_name,
            final(self).target_var_sym_addr == old(self).target_var_sym_addr,
    {
        let mkey: String = module_name.to_owned();
        let skey: String = sym_name.to_owned();
        let mi = match find_key_module(&self.module_cache, &mkey) {
            Option::Some(i) => i,
            Option::None => {
                return Err(InjectionError::ModuleNotFound);
            },
        };
        match find_key_sym(&self.sym_cache, &skey) {
            Option::Some(a) => Ok(a),
            Option::None => {
                let res = self.module_cache[mi].1.dlsym_from_fs(sym_name);
                match res {
                    Ok(a) => {
                        self.sym_cache.push((skey, a));
                        proof {
                            assert(self.sym_cache@.drop_last() =~= old(self).sym_cache@);
                        }
                        Ok(a)
                    },
                    Err(e) => Err(e),
                }
            },
        }
    }

    /// Bind the trigger function symbol: the function whose entry will be
    /// overwritten with the bootstrap stage.
    pub fn set_func_sym(&mut self, module_name: &str, sym_name: &str) -> (r: Result<
        (),
        InjectionError,
    >)
        ensures
            bind_applied_func(*old(self), *final(self), module_name@, sym_name@),
            match r {
                Ok(_) => bind_result(*old(self), module_name@, sym_name@) is Ok,
                Err(e) => bind_result(*old(self), module_name@, sym_name@) == Err::<
                    usize,
                    InjectionError,
                >(e),
            },
    {
        match self.add_sym(module_name, sym_name) {
            Ok(a) => {
                self.target_func_sym_name = sym_name.to_owned();
                self.target_func_sym_addr = a;
                Ok(())
            },
            Err(e) => Err(e),
        }
    }

    /// Bind the data symbol whose slot is reused as the sync word.
    pub fn set_var_sym(&mut self, module_name: &str, sym_name: &str) -> (r: Result<
        (),
        InjectionError,
    >)
        ensures
            bind_applied_var(*old(self), *final(self), module_name@, sym_name@),
            match r {
                Ok(_) => bind_result(*old(self), module_name@, sym_name@) is Ok,
                Err(e) => bind_result(*old(self), module_name@, sym_name@) == Err::<
                    usize,
                    InjectionError,
                >(e),
            },
    {
        match self.add_sym(module_name, sym_name) {
            Ok(a) => {
                self.target_var_sym_name = sym_name.to_owned();
                self.target_var_sym_addr = a;
                Ok(())
            },
            Err(e) => Err(e),
        }
    }

    /// Bind the default pair from libc: a widely called allocator function
    /// as the trigger, an innocuous data symbol as the sync slot.
    pub fn set_default_syms(&mut self) -> (r: Result<(), InjectionError>)
        ensures
            match r {
                Ok(_) => exists|mid: Injector|
                    {
                        &&& bind_result(*old(self), "libc.so"@, "malloc"@) is Ok
                        &&& #[trigger] bind_applied_func(*old(self), mid, "libc.so"@, "malloc"@)
                        &&& bind_result(mid, "libc.so"@, "timezone"@) is Ok
                        &&& bind_applied_var(mid, *final(self), "libc.so"@, "timezone"@)
                    },
                Err(e) => {
                    ||| (bind_result(*old(self), "libc.so"@, "malloc"@) == Err::<
                        usize,
                        InjectionError,
                    >(e) && bind_applied_func(*old(self), *final(self), "libc.so"@, "malloc"@))
                    ||| (exists|mid: Injector|
                        {
                            &&& bind_result(*old(self), "libc.so"@, "malloc"@) is Ok
                            &&& #[trigger] bind_applied_func(*old(self), mid, "libc.so"@, "malloc"@)
                            &&& bind_result(mid, "libc.so"@, "timezone"@) == Err::<
                                usize,
                                InjectionError,
                            >(e)
                            &&& bind_applied_var(mid, *final(self), "libc.so"@, "timezone"@)
                        })
                },
            },
    {
        match self.set_func_sym("libc.so", "malloc") {
            Ok(_) => {},
            Err(e) => {
                return Err(e);
            },
        }
        let ghost mid = *self;
        match self.set_var_sym("libc.so", "timezone") {
            Ok(_) => {},
            Err(e) => {
                return Err(e);
            },
        }
        Ok(())
    }

    /// Bind the dynamic loader's library-open entry point as the trigger
    /// function. `dlopen_lib` is the library that exports `dlopen` on this
    /// platform, chosen at the I/O edge.
    pub fn use_raw_dlopen(&mut self, dlopen_lib: &str) -> (r: Result<(), InjectionError>)
        ensures
            bind_applied_func(*old(self), *final(self), dlopen_lib@, "dlopen"@),
            match r {
                Ok(_) => bind_result(*old(self), dlopen_lib@, "dlopen"@) is Ok,
                Err(e) => bind_result(*old(self), dlopen_lib@, "dlopen"@) == Err::<
                    usize,
                    InjectionError,
                >(e),
            },
    {
        self.set_func_sym(dlopen_lib, "dlopen")
    }

    /// Validate the pid the platform's application-restart helper
    /// reported: zero means the process was not found.
    pub fn restart_app_and_get_pid(pid: u32) -> (r: Result<u32, InjectionError>)
        ensures
            pid > 0 ==> r == Ok::<u32, InjectionError>(pid),
            pid == 0 ==> r == Err::<u32, InjectionError>(InjectionError::PidNotFound),
    {
        if pid > 0 {
            Ok(pid)
        } else {
            Err(InjectionError::PidNotFound)
        }
    }

    /// Must the default symbol pair be bound before injection proceeds?
    pub fn needs_default_syms(&self) -> (r: bool)
        ensures
            r == (self.target_func_sym_name@.len() == 0 || self.target_var_sym_name@.len() == 0),
    {
        self.target_func_sym_name.as_str().is_empty()
            || self.target_var_sym_name.as_str().is_empty()
    }

    /// Both symbols bound and the loader's call target resolved: what the
    /// injection sequence needs before it can be planned.
    pub open spec fn ready_to_inject(self) -> bool {
        &&& self.target_func_sym_name@.len() > 0
        &&& self.target_var_sym_name@.len() > 0
        &&& assoc(self.sym_cache@, "dlopen"@) is Some
    }

    /// Plan the injection: derive the target's class from its executable
    /// header, build the loader stage (rejecting a path that cannot be
    /// embedded, before any remote memory is touched) and the bootstrap
    /// stage, and hand back the state machine that sequences the remote
    /// operations, standing at its first read.
    pub fn start_inject(&self, prepared_path: &str, exe_header: &Vec<u8>, host: Arch) -> (r:
        Result<InjectRun, InjectionError>)
        requires
            self.ready_to_inject(),
        ensures
            match spec_class(elf_machine_of(exe_header@), host) {
                Option::None => r == Err::<InjectRun, InjectionError>(
                    InjectionError::UnsupportedArch,
                ),
                Option::Some(class) => {
                    let da = assoc(self.sym_cache@, "dlopen"@)->0;
                    match payloads::spec_raw_dlopen_shellcode(
                        host,
                        class,
                        da as u64,
                        prepared_path.spec_bytes(),
                        self.target_func_sym_addr as u64,
                    ) {
                        Err(e) => r == Err::<InjectRun, InjectionError>(e),
                        Ok(loader) => match payloads::spec_first_shellcode(
                            host,
                            class,
                            self.target_var_sym_addr as u64,
                            payloads::ALLOC_SIZE,
                        ) {
                            Err(e) => r == Err::<InjectRun, InjectionError>(e),
                            Ok(boot) => r matches Ok(run) && {
                                &&& run.phase == Phase::ReadFuncOrig
                                &&& run.host == host
                                &&& run.func_addr == self.target_func_sym_addr as u64
                                &&& run.var_addr == self.target_var_sym_addr as u64
                                &&& run.bootstrap@ == boot
                                &&& run.loader@ == loader
                                &&& run.park@ == if host == Arch::Aarch64 {
                                    payloads::aarch64::self_jmp_bytes()
                                } else {
                                    Seq::<u8>::empty()
                                }
                                &&& run.func_orig@ == Seq::<u8>::empty()
                                &&& run.var_orig@ == Seq::<u8>::empty()
                                &&& run.new_map == 0
                                &&& run.fail is None
                            },
                        },
                    }
                },
            },
    {
        let class = match self.remote_proc.class(exe_header, host) {
            Option::Some(c) => c,
            Option::None => {
                return Err(InjectionError::UnsupportedArch);
            },
        };
        let dlopen_key: String = String::from_str("dlopen");
        let dlopen_addr = match find_key_sym(&self.sym_cache, &dlopen_key) {
            Option::Some(a) => a,
            Option::None => {
                proof {
                    assert(false);
                }
                unreached()
            },
        };
        proof {
            assert(!(host == Arch::X86 && class == ProcClass::SixtyFour));
        }
        let loader = match payloads::raw_dlopen_shellcode(
            host,
            &class,
            dlopen_addr as u64,
            prepared_path,
            self.target_func_sym_addr as u64,
        ) {
            Ok(v) => v,
            Err(e) => {
                return Err(e);
            },
        };
        let bootstrap = match payloads::first_shellcode(
            host,
            &class,
            self.target_var_sym_addr as u64,
            payloads::ALLOC_SIZE,
        ) {
            Ok(v) => v,
            Err(e) => {
                return Err(e);
            },
        };
        let park = if host == Arch::Aarch64 {
            match payloads::self_jmp() {
                Ok(v) => v,
                Err(_) => {
                    proof {
                        assert(false);
                    }
                    unreached()
                },
            }
        } else {
            Vec::new()
        };
        Ok(
            InjectRun {
                phase: Phase::ReadFuncOrig,
                host,
                func_addr: self.target_func_sym_addr as u64,
                var_addr: self.target_var_sym_addr as u64,
                bootstrap,
                loader,
                park,
                func_orig: Vec::new(),
                var_orig: Vec::new(),
                new_map: 0,
                fail: None,
            },
        )
    }
}

} // verus!
