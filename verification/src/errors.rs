use vstd::prelude::*;

verus! {

/// Every failure the injection engine and its components can report.
///
/// Each operation returns the first failure it meets unchanged; no step
/// retries or masks one.
#[derive(Clone, Copy, Debug, PartialEq, Eq, Structural)]
pub enum InjectionError {
    /// `/proc/<pid>` does not exist for the requested pid.
    ProcessNotRunning,
    /// The ptrace attachment policy forbids attaching to the target.
    InsufficientPrivileges,
    /// The payload file could not be opened or prepared.
    FileError,
    /// The target's architecture class could not be resolved or is unsupported.
    UnsupportedArch,
    /// `/proc/<pid>/mem` could not be opened.
    OpenMemoryError,
    /// A remote memory read failed or was short.
    ReadMemoryError,
    /// A remote memory write failed or was short.
    WriteMemoryError,
    /// No mapping's backing file matches the requested module name.
    ModuleNotFound,
    /// The requested symbol is absent from the module's dynamic symbols.
    SymbolNotFound,
    /// The target's memory mappings could not be enumerated.
    RemoteProcessError,
    /// Machine-code generation failed (an operand cannot be encoded, or the
    /// blob would not fit the space reserved for it).
    ShellcodeError,
    /// Process discovery by package name reported no usable pid.
    PidNotFound,
}

} // verus!
