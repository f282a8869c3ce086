use quiche_build::matrix::{
    crypto_cmake_params, crypto_fuzz_flags, get_boringssl_platform_output_path, ios_sdk_name,
    msvc_build_subdir,
};
use quiche_build::platform::{Abi, Arch, Os, PlatformDescriptor, Severity};

fn desc(os: Os, arch: Arch, env: Abi) -> PlatformDescriptor {
    PlatformDescriptor { os, arch, env }
}

#[test]
fn msvc_subdir_debug() {
    assert_eq!(msvc_build_subdir("0", false).unwrap(), "Debug");
}

#[test]
fn msvc_subdir_release() {
    assert_eq!(msvc_build_subdir("2", false).unwrap(), "Release");
}

#[test]
fn msvc_subdir_relwithdebinfo() {
    assert_eq!(msvc_build_subdir("2", true).unwrap(), "RelWithDebInfo");
}

#[test]
fn msvc_subdir_minsizerel() {
    assert_eq!(msvc_build_subdir("s", false).unwrap(), "MinSizeRel");
}

#[test]
fn msvc_subdir_unknown_is_fatal() {
    let d = msvc_build_subdir("fast", false).unwrap_err();
    assert_eq!(d.severity, Severity::Fatal);
    assert_eq!(d.message, "unrecognized optimization level: fast");
}

#[test]
fn output_path_empty_off_msvc() {
    let d = desc(Os::Linux, Arch::X86_64, Abi::Gnu);
    assert_eq!(get_boringssl_platform_output_path(&d, "0", false).unwrap(), "");
    let d = desc(Os::Windows, Arch::X86_64, Abi::Gnu);
    assert_eq!(get_boringssl_platform_output_path(&d, "junk", false).unwrap(), "");
}

#[test]
fn output_path_msvc_follows_build_type() {
    let d = desc(Os::Windows, Arch::X86_64, Abi::Msvc);
    assert_eq!(get_boringssl_platform_output_path(&d, "2", true).unwrap(), "RelWithDebInfo");
    let err = get_boringssl_platform_output_path(&d, "fast", false).unwrap_err();
    assert_eq!(err.severity, Severity::Fatal);
}

#[test]
fn crypto_params_total_over_all_platforms() {
    let oses = [
        Os::Linux,
        Os::Macos,
        Os::Ios,
        Os::Android,
        Os::Windows,
        Os::Freebsd,
        Os::Other,
    ];
    let arches = [Arch::X86_64, Arch::Aarch64, Arch::Arm, Arch::X86, Arch::Other];
    let envs = [Abi::Gnu, Abi::Musl, Abi::Msvc, Abi::Unspecified];
    for os in oses {
        for arch in arches {
            for env in envs {
                // every supported triple yields a defined (possibly empty) result
                let _ = crypto_cmake_params(&desc(os, arch, env), "/ndk", "21");
            }
        }
    }
}

#[test]
fn crypto_params_android() {
    let p = crypto_cmake_params(&desc(Os::Android, Arch::Aarch64, Abi::Unspecified), "/opt/ndk", "24");
    assert_eq!(
        p,
        vec![
            ("ANDROID_ABI".to_string(), "arm64-v8a".to_string()),
            (
                "CMAKE_TOOLCHAIN_FILE".to_string(),
                "/opt/ndk/build/cmake/android.toolchain.cmake".to_string()
            ),
            ("ANDROID_NATIVE_API_LEVEL".to_string(), "24".to_string()),
            ("ANDROID_STL".to_string(), "c++_static".to_string()),
        ]
    );
}

#[test]
fn crypto_params_ios_simulator_workaround() {
    let p = crypto_cmake_params(&desc(Os::Ios, Arch::X86_64, Abi::Unspecified), "", "21");
    assert_eq!(p[0], ("CMAKE_OSX_ARCHITECTURES".to_string(), "x86_64".to_string()));
    assert_eq!(p[1], ("CMAKE_OSX_SYSROOT".to_string(), "iphonesimulator".to_string()));
    assert_eq!(
        p[2],
        (
            "CMAKE_ASM_FLAGS".to_string(),
            "-fembed-bitcode -target x86_64-apple-ios-simulator".to_string()
        )
    );
    let p = crypto_cmake_params(&desc(Os::Ios, Arch::Aarch64, Abi::Unspecified), "", "21");
    assert_eq!(p[0], ("CMAKE_OSX_ARCHITECTURES".to_string(), "arm64".to_string()));
    assert_eq!(p[1], ("CMAKE_OSX_SYSROOT".to_string(), "iphoneos".to_string()));
    assert_eq!(p[2], ("CMAKE_ASM_FLAGS".to_string(), "-fembed-bitcode".to_string()));
}

#[test]
fn crypto_params_arm_linux_cross() {
    let p = crypto_cmake_params(&desc(Os::Linux, Arch::Arm, Abi::Gnu), "", "21");
    assert_eq!(
        p,
        vec![
            ("CMAKE_SYSTEM_NAME".to_string(), "Linux".to_string()),
            ("CMAKE_SYSTEM_VERSION".to_string(), "1".to_string()),
            ("CMAKE_SYSTEM_PROCESSOR".to_string(), "arm".to_string()),
        ]
    );
}

#[test]
fn crypto_params_x86_toolchain_override() {
    let p = crypto_cmake_params(&desc(Os::Linux, Arch::X86, Abi::Gnu), "", "21");
    assert_eq!(
        p,
        vec![(
            "CMAKE_TOOLCHAIN_FILE".to_string(),
            "deps/boringssl/util/32-bit-toolchain.cmake".to_string()
        )]
    );
    // on Windows the 32-bit override does not apply
    let p = crypto_cmake_params(&desc(Os::Windows, Arch::X86, Abi::Msvc), "", "21");
    assert!(p.is_empty());
}

#[test]
fn crypto_params_plain_x86_64_linux_empty() {
    let p = crypto_cmake_params(&desc(Os::Linux, Arch::X86_64, Abi::Gnu), "", "21");
    assert!(p.is_empty());
}

#[test]
fn fuzz_flags_both_modes() {
    assert_eq!(
        crypto_fuzz_flags(),
        vec![
            "-DBORINGSSL_UNSAFE_DETERMINISTIC_MODE".to_string(),
            "-DBORINGSSL_UNSAFE_FUZZER_MODE".to_string(),
        ]
    );
}

#[test]
fn sdk_name_by_arch() {
    assert_eq!(ios_sdk_name(Arch::X86_64), "iphonesimulator");
    assert_eq!(ios_sdk_name(Arch::Aarch64), "iphoneos");
}
