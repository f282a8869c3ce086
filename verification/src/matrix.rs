//! The configuration matrix: pure mappings from the platform descriptor to
//! toolchain parameters for the vendored cryptography build and to compiler
//! flags and definitions for the native engine build, including the
//! MSVC output-subdirectory lookup.

use vstd::prelude::*;
use vstd::string::*;
use crate::platform::{Abi, Arch, Diagnostic, Os, PlatformDescriptor};

verus! {

/// The generator output subdirectory an MSVC build nests archives under,
/// decided by the optimization level and the debug-info toggle; `None` for
/// an unrecognized optimization level.
pub open spec fn msvc_subdir_of(opt_level: Seq<char>, debug_info: bool) -> Option<Seq<char>> {
    if opt_level == "0"@ {
        Some("Debug"@)
    } else if opt_level == "1"@ || opt_level == "2"@ || opt_level == "3"@ {
        if debug_info {
            Some("RelWithDebInfo"@)
        } else {
            Some("Release"@)
        }
    } else if opt_level == "s"@ || opt_level == "z"@ {
        Some("MinSizeRel"@)
    } else {
        None
    }
}

/// The message of the fatal diagnostic for an unrecognized optimization
/// level.
pub open spec fn msvc_subdir_error_of(opt_level: Seq<char>) -> Seq<char> {
    "unrecognized optimization level: "@ + opt_level
}

/// Resolve the MSVC output subdirectory, failing loudly on an unrecognized
/// optimization level.
pub fn msvc_build_subdir(opt_level: &str, debug_info: bool) -> (r: Result<String, Diagnostic>)
    ensures
        r is Ok <==> msvc_subdir_of(opt_level@, debug_info) is Some,
        r matches Ok(s) ==> Some(s@) == msvc_subdir_of(opt_level@, debug_info),
        r matches Err(d) ==> d.is_fatal_with(msvc_subdir_error_of(opt_level@)),
{
    if crate::text::str_eq(opt_level, "0") {
        Ok(String::from_str("Debug"))
    } else if crate::text::str_eq(opt_level, "1") || crate::text::str_eq(opt_level, "2")
        || crate::text::str_eq(opt_level, "3") {
        if debug_info {
            Ok(String::from_str("RelWithDebInfo"))
        } else {
            Ok(String::from_str("Release"))
        }
    } else if crate::text::str_eq(opt_level, "s") || crate::text::str_eq(opt_level, "z") {
        Ok(String::from_str("MinSizeRel"))
    } else {
        Err(Diagnostic::fatal(
            String::from_str("unrecognized optimization level: ").concat(opt_level),
        ))
    }
}

/// The platform-specific subdirectory under `<build-root>/build` where the
/// cryptography build's archives end up: the MSVC generator nests them by
/// configuration, every other toolchain leaves them at the top.
pub open spec fn platform_output_path_of(
    desc: PlatformDescriptor,
    opt_level: Seq<char>,
    debug_info: bool,
) -> Option<Seq<char>> {
    if desc.os == Os::Windows && desc.env == Abi::Msvc {
        msvc_subdir_of(opt_level, debug_info)
    } else {
        Some(""@)
    }
}

/// The output subdirectory of the cryptography build for this platform:
/// empty except for MSVC targets, where the build-type inputs decide it and
/// an unrecognized optimization level is a fatal configuration error.
pub fn get_boringssl_platform_output_path(
    desc: &PlatformDescriptor,
    opt_level: &str,
    debug_info: bool,
) -> (r: Result<String, Diagnostic>)
    ensures
        r is Ok <==> platform_output_path_of(*desc, opt_level@, debug_info) is Some,
        r matches Ok(s) ==> Some(s@) == platform_output_path_of(*desc, opt_level@, debug_info),
        r matches Err(d) ==> d.is_fatal_with(msvc_subdir_error_of(opt_level@)),
{
    if desc.os == Os::Windows && desc.env == Abi::Msvc {
        msvc_build_subdir(opt_level, debug_info)
    } else {
        let s = String::new();
        proof {
            reveal_strlit("");
            assert(s@ =~= ""@);
        }
        Ok(s)
    }
}

/// The NDK ABI name for an architecture; empty for an architecture the
/// NDK toolchain selection does not know.
pub open spec fn android_abi_of(arch: Arch) -> Seq<char> {
    match arch {
        Arch::Aarch64 => "arm64-v8a"@,
        Arch::Arm => "armeabi-v7a"@,
        Arch::X86 => "x86"@,
        Arch::X86_64 => "x86_64"@,
        Arch::Other => ""@,
    }
}

/// The iOS CPU-architecture name and SDK root for an architecture: the
/// x86_64 build targets the simulator SDK, everything else the device SDK.
pub open spec fn ios_arch_sdk_of(arch: Arch) -> (Seq<char>, Seq<char>) {
    match arch {
        Arch::Aarch64 => ("arm64"@, "iphoneos"@),
        Arch::X86_64 => ("x86_64"@, "iphonesimulator"@),
        _ => (""@, "iphoneos"@),
    }
}

/// The SDK the external SDK-path query tool is asked for on iOS.
pub fn ios_sdk_name(arch: Arch) -> (r: String)
    ensures
        r@ == ios_arch_sdk_of(arch).1,
{
    match arch {
        Arch::X86_64 => String::from_str("iphonesimulator"),
        _ => String::from_str("iphoneos"),
    }
}

/// The assembler/compiler flag string for an iOS cryptography build:
/// bitcode embedding, plus the simulator target override that works around
/// a toolchain defect, applied only to the x86_64 simulator architecture.
pub open spec fn ios_crypto_flags_of(arch: Arch) -> Seq<char> {
    if arch == Arch::X86_64 {
        "-fembed-bitcode -target x86_64-apple-ios-simulator"@
    } else {
        "-fembed-bitcode"@
    }
}

/// Toolchain parameters for the vendored cryptography build, as ordered
/// key/value pairs, for every platform descriptor. Total: platforms the
/// matrix holds nothing for get the empty sequence.
pub open spec fn crypto_params_of(
    desc: PlatformDescriptor,
    ndk_home: Seq<char>,
    api_level: Seq<char>,
) -> Seq<(Seq<char>, Seq<char>)> {
    if desc.os == Os::Android {
        seq![
            ("ANDROID_ABI"@, android_abi_of(desc.arch)),
            ("CMAKE_TOOLCHAIN_FILE"@, ndk_home + "/build/cmake/android.toolchain.cmake"@),
            ("ANDROID_NATIVE_API_LEVEL"@, api_level),
            ("ANDROID_STL"@, "c++_static"@),
        ]
    } else if desc.os == Os::Ios {
        seq![
            ("CMAKE_OSX_ARCHITECTURES"@, ios_arch_sdk_of(desc.arch).0),
            ("CMAKE_OSX_SYSROOT"@, ios_arch_sdk_of(desc.arch).1),
            ("CMAKE_ASM_FLAGS"@, ios_crypto_flags_of(desc.arch)),
            ("CMAKE_C_FLAGS"@, ios_crypto_flags_of(desc.arch)),
        ]
    } else if desc.os == Os::Linux && desc.arch == Arch::Arm {
        seq![
            ("CMAKE_SYSTEM_NAME"@, "Linux"@),
            ("CMAKE_SYSTEM_VERSION"@, "1"@),
            ("CMAKE_SYSTEM_PROCESSOR"@, "arm"@),
        ]
    } else if desc.arch == Arch::X86 && desc.os != Os::Windows {
        seq![
            ("CMAKE_TOOLCHAIN_FILE"@, "deps/boringssl/util/32-bit-toolchain.cmake"@),
        ]
    } else {
        Seq::empty()
    }
}

/// Compute the cryptography-build toolchain parameters for a platform.
/// Pure and total: defined for every descriptor, with no precondition;
/// `ndk_home` and `api_level` are the ambient values threaded in by the
/// caller and only read on Android.
pub fn crypto_cmake_params(
    desc: &PlatformDescriptor,
    ndk_home: &str,
    api_level: &str,
) -> (r: Vec<(String, String)>)
    ensures
        r.deep_view() == crypto_params_of(*desc, ndk_home@, api_level@),
{
    let mut r: Vec<(String, String)> = Vec::new();
    if desc.os == Os::Android {
        let abi: &str = match desc.arch {
            Arch::Aarch64 => "arm64-v8a",
            Arch::Arm => "armeabi-v7a",
            Arch::X86 => "x86",
            Arch::X86_64 => "x86_64",
            Arch::Other => "",
        };
        r.push((String::from_str("ANDROID_ABI"), String::from_str(abi)));
        r.push((
            String::from_str("CMAKE_TOOLCHAIN_FILE"),
            String::from_str(ndk_home).concat("/build/cmake/android.toolchain.cmake"),
        ));
        r.push((String::from_str("ANDROID_NATIVE_API_LEVEL"), String::from_str(api_level)));
        r.push((String::from_str("ANDROID_STL"), String::from_str("c++_static")));
    } else if desc.os == Os::Ios {
        let ios_arch: &str = match desc.arch {
            Arch::Aarch64 => "arm64",
            Arch::X86_64 => "x86_64",
            _ => "",
        };
        let sdk: &str = match desc.arch {
            Arch::X86_64 => "iphonesimulator",
            _ => "iphoneos",
        };
        let flags: &str = if matches!(desc.arch, Arch::X86_64) {
            "-fembed-bitcode -target x86_64-apple-ios-simulator"
        } else {
            "-fembed-bitcode"
        };
        r.push((String::from_str("CMAKE_OSX_ARCHITECTURES"), String::from_str(ios_arch)));
        r.push((String::from_str("CMAKE_OSX_SYSROOT"), String::from_str(sdk)));
        r.push((String::from_str("CMAKE_ASM_FLAGS"), String::from_str(flags)));
        r.push((String::from_str("CMAKE_C_FLAGS"), String::from_str(flags)));
    } else if desc.os == Os::Linux && desc.arch == Arch::Arm {
        r.push((String::from_str("CMAKE_SYSTEM_NAME"), String::from_str("Linux")));
        r.push((String::from_str("CMAKE_SYSTEM_VERSION"), String::from_str("1")));
        r.push((String::from_str("CMAKE_SYSTEM_PROCESSOR"), String::from_str("arm")));
    } else if desc.arch == Arch::X86 && desc.os != Os::Windows {
        r.push((
            String::from_str("CMAKE_TOOLCHAIN_FILE"),
            String::from_str("deps/boringssl/util/32-bit-toolchain.cmake"),
        ));
    }
    proof {
        assert(r.deep_view() =~= crypto_params_of(*desc, ndk_home@, api_level@));
    }
    r
}

/// The fuzz-mode preprocessor definitions applied to both compiler
/// families when fuzzing is requested.
pub open spec fn fuzz_flags_of() -> Seq<Seq<char>> {
    seq![
        "-DBORINGSSL_UNSAFE_DETERMINISTIC_MODE"@,
        "-DBORINGSSL_UNSAFE_FUZZER_MODE"@,
    ]
}

/// The fuzz-mode compiler flags, in application order.
pub fn crypto_fuzz_flags() -> (r: Vec<String>)
    ensures
        r.deep_view() == fuzz_flags_of(),
{
    let mut r: Vec<String> = Vec::new();
    r.push(String::from_str("-DBORINGSSL_UNSAFE_DETERMINISTIC_MODE"));
    r.push(String::from_str("-DBORINGSSL_UNSAFE_FUZZER_MODE"));
    proof {
        assert(r.deep_view() =~= fuzz_flags_of());
    }
    r
}

} // verus!
