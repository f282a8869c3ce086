//! The platform descriptor: an immutable snapshot of target operating
//! system, CPU architecture and ABI, derived once per orchestration run,
//! plus the diagnostic type every later stage reports failures with.

use vstd::prelude::*;
use crate::text::str_eq;

verus! {

/// Target operating system.
#[derive(Clone, Copy, PartialEq, Eq, Structural, Debug)]
pub enum Os {
    Linux,
    Macos,
    Ios,
    Android,
    Windows,
    Freebsd,
    Other,
}

/// Target CPU architecture.
#[derive(Clone, Copy, PartialEq, Eq, Structural, Debug)]
pub enum Arch {
    X86_64,
    Aarch64,
    Arm,
    X86,
    Other,
}

/// Target environment / ABI.
#[derive(Clone, Copy, PartialEq, Eq, Structural, Debug)]
pub enum Abi {
    Gnu,
    Musl,
    Msvc,
    Unspecified,
}

/// Immutable snapshot of the target platform; every downstream decision is
/// a pure function of it.
#[derive(Clone, Copy, PartialEq, Eq, Structural, Debug)]
pub struct PlatformDescriptor {
    pub os: Os,
    pub arch: Arch,
    pub env: Abi,
}

/// Severity of a diagnostic: warnings are informational, fatal diagnostics
/// terminate the whole orchestration.
#[derive(Clone, Copy, PartialEq, Eq, Structural, Debug)]
pub enum Severity {
    Warning,
    Fatal,
}

/// A diagnostic message reported to the enclosing build system.
#[derive(Clone, PartialEq, Eq, Debug)]
pub struct Diagnostic {
    pub severity: Severity,
    pub message: String,
}

impl Diagnostic {
    /// Spec-level shape of a diagnostic.
    pub open spec fn is_fatal_with(self, msg: Seq<char>) -> bool {
        self.severity == Severity::Fatal && self.message@ == msg
    }

    /// Spec-level shape of a warning.
    pub open spec fn is_warning_with(self, msg: Seq<char>) -> bool {
        self.severity == Severity::Warning && self.message@ == msg
    }

    /// A fatal diagnostic carrying `msg`.
    pub fn fatal(msg: String) -> (r: Diagnostic)
        ensures
            r.is_fatal_with(msg@),
    {
        Diagnostic { severity: Severity::Fatal, message: msg }
    }

    /// A warning diagnostic carrying `msg`.
    pub fn warning(msg: String) -> (r: Diagnostic)
        ensures
            r.is_warning_with(msg@),
    {
        Diagnostic { severity: Severity::Warning, message: msg }
    }
}

/// Which operating system a target-os name denotes.
pub open spec fn os_of(s: Seq<char>) -> Os {
    if s == "linux"@ {
        Os::Linux
    } else if s == "macos"@ {
        Os::Macos
    } else if s == "ios"@ {
        Os::Ios
    } else if s == "android"@ {
        Os::Android
    } else if s == "windows"@ {
        Os::Windows
    } else if s == "freebsd"@ {
        Os::Freebsd
    } else {
        Os::Other
    }
}

/// Which architecture a target-arch name denotes.
pub open spec fn arch_of(s: Seq<char>) -> Arch {
    if s == "x86_64"@ {
        Arch::X86_64
    } else if s == "aarch64"@ {
        Arch::Aarch64
    } else if s == "arm"@ {
        Arch::Arm
    } else if s == "x86"@ {
        Arch::X86
    } else {
        Arch::Other
    }
}

/// Which ABI a target-env name denotes; an empty name means unspecified.
pub open spec fn abi_of(s: Seq<char>) -> Abi {
    if s == "gnu"@ {
        Abi::Gnu
    } else if s == "musl"@ {
        Abi::Musl
    } else if s == "msvc"@ {
        Abi::Msvc
    } else {
        Abi::Unspecified
    }
}

/// Parse a target operating-system name as the enclosing build system
/// reports it.
pub fn parse_os(s: &str) -> (r: Os)
    ensures
        r == os_of(s@),
{
    if str_eq(s, "linux") {
        Os::Linux
    } else if str_eq(s, "macos") {
        Os::Macos
    } else if str_eq(s, "ios") {
        Os::Ios
    } else if str_eq(s, "android") {
        Os::Android
    } else if str_eq(s, "windows") {
        Os::Windows
    } else if str_eq(s, "freebsd") {
        Os::Freebsd
    } else {
        Os::Other
    }
}

/// Parse a target architecture name.
pub fn parse_arch(s: &str) -> (r: Arch)
    ensures
        r == arch_of(s@),
{
    if str_eq(s, "x86_64") {
        Arch::X86_64
    } else if str_eq(s, "aarch64") {
        Arch::Aarch64
    } else if str_eq(s, "arm") {
        Arch::Arm
    } else if str_eq(s, "x86") {
        Arch::X86
    } else {
        Arch::Other
    }
}

/// Parse a target ABI name.
pub fn parse_abi(s: &str) -> (r: Abi)
    ensures
        r == abi_of(s@),
{
    if str_eq(s, "gnu") {
        Abi::Gnu
    } else if str_eq(s, "musl") {
        Abi::Musl
    } else if str_eq(s, "msvc") {
        Abi::Msvc
    } else {
        Abi::Unspecified
    }
}

/// Build the descriptor from the three target names.
pub fn descriptor_of(os: &str, arch: &str, env: &str) -> (r: PlatformDescriptor)
    ensures
        r.os == os_of(os@),
        r.arch == arch_of(arch@),
        r.env == abi_of(env@),
{
    PlatformDescriptor { os: parse_os(os), arch: parse_arch(arch), env: parse_abi(env) }
}

} // verus!
