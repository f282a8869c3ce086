use quiche_build::engine::{
    build_cpp_engine, check_cpp_compiler_version, compile_cpp_engine, configure_apple,
    configure_linux_android, configure_windows, engine_rerun_triggers, link_cpp_engine,
};
use quiche_build::model::{Directive, LibrarySpec, LinkKind};
use quiche_build::platform::{Abi, Arch, Os, PlatformDescriptor, Severity};

fn desc(os: Os, arch: Arch, env: Abi) -> PlatformDescriptor {
    PlatformDescriptor { os, arch, env }
}

fn libev() -> LibrarySpec {
    LibrarySpec {
        name: "libev".to_string(),
        include_paths: vec!["/usr/include".to_string()],
        link_paths: vec!["/usr/lib".to_string()],
        link_names: vec!["ev".to_string()],
    }
}

#[test]
fn apple_flags_ios_use_queried_sdk() {
    assert_eq!(
        configure_apple(Os::Ios, "/sdk/iPhoneOS.sdk"),
        vec![
            "-isysroot".to_string(),
            "/sdk/iPhoneOS.sdk".to_string(),
            "-fembed-bitcode".to_string(),
            "-framework".to_string(),
            "Security".to_string(),
            "-framework".to_string(),
            "Foundation".to_string(),
        ]
    );
}

#[test]
fn apple_flags_macos_frameworks_only() {
    assert_eq!(
        configure_apple(Os::Macos, ""),
        vec![
            "-framework".to_string(),
            "Security".to_string(),
            "-framework".to_string(),
            "Foundation".to_string(),
        ]
    );
}

#[test]
fn linux_flags_pthread_only() {
    assert_eq!(
        configure_linux_android(Os::Linux, None, None).unwrap(),
        vec!["-pthread".to_string()]
    );
}

#[test]
fn android_flags_default_api_level() {
    assert_eq!(
        configure_linux_android(Os::Android, Some("/opt/ndk"), None).unwrap(),
        vec!["-D__ANDROID_API__=21".to_string(), "-pthread".to_string()]
    );
}

#[test]
fn android_flags_ambient_api_level() {
    assert_eq!(
        configure_linux_android(Os::Android, Some("/opt/ndk"), Some("28")).unwrap(),
        vec!["-D__ANDROID_API__=28".to_string(), "-pthread".to_string()]
    );
}

#[test]
fn android_without_ndk_is_fatal() {
    let d = configure_linux_android(Os::Android, None, Some("28")).unwrap_err();
    assert_eq!(d.severity, Severity::Fatal);
    assert_eq!(d.message, "ANDROID_NDK_HOME or NDK_HOME must be set for Android builds");
}

#[test]
fn windows_flags_and_defines() {
    let (flags, defines) = configure_windows();
    assert_eq!(flags, vec!["/std:c++17".to_string(), "/EHsc".to_string()]);
    assert_eq!(
        defines,
        vec![("_WIN32_WINNT".to_string(), Some("0x0601".to_string()))]
    );
}

#[test]
fn engine_plan_accumulates_sources_and_headers() {
    let plan = compile_cpp_engine(&desc(Os::Linux, Arch::X86_64, Abi::Gnu), &libev(), "", None, None)
        .unwrap();
    assert_eq!(
        plan.sources,
        vec![
            "api/src/quiche_engine_api.cpp".to_string(),
            "api/src/quiche_engine_impl.cpp".to_string(),
            "api/src/thread_utils.cpp".to_string(),
        ]
    );
    assert_eq!(
        plan.include_paths,
        vec![
            "api/include".to_string(),
            "api/src".to_string(),
            "include".to_string(),
            "/usr/include".to_string(),
        ]
    );
    assert_eq!(plan.flags, vec!["-std=c++17".to_string(), "-pthread".to_string()]);
    assert!(plan.defines.is_empty());
}

#[test]
fn link_order_linux_gnu() {
    let dirs = link_cpp_engine(&desc(Os::Linux, Arch::X86_64, Abi::Gnu), &libev());
    assert_eq!(
        dirs,
        vec![
            Directive::LinkSearch("/usr/lib".to_string()),
            Directive::LinkLib(LinkKind::Default, "ev".to_string()),
            Directive::LinkLib(LinkKind::Default, "stdc++".to_string()),
            Directive::LinkLib(LinkKind::Default, "pthread".to_string()),
            Directive::LinkLib(LinkKind::Default, "dl".to_string()),
            Directive::LinkLib(LinkKind::Default, "m".to_string()),
        ]
    );
}

#[test]
fn link_order_musl_uses_libcxx() {
    let dirs = link_cpp_engine(&desc(Os::Linux, Arch::X86_64, Abi::Musl), &libev());
    assert_eq!(dirs[2], Directive::LinkLib(LinkKind::Default, "c++".to_string()));
}

#[test]
fn link_order_apple_frameworks() {
    let dirs = link_cpp_engine(&desc(Os::Macos, Arch::Aarch64, Abi::Unspecified), &libev());
    assert_eq!(
        &dirs[2..],
        &[
            Directive::LinkLib(LinkKind::Default, "c++".to_string()),
            Directive::LinkLib(LinkKind::Framework, "Security".to_string()),
            Directive::LinkLib(LinkKind::Framework, "Foundation".to_string()),
        ]
    );
}

#[test]
fn link_order_windows() {
    let dirs = link_cpp_engine(&desc(Os::Windows, Arch::X86_64, Abi::Msvc), &libev());
    assert_eq!(
        &dirs[2..],
        &[
            Directive::LinkLib(LinkKind::Default, "ws2_32".to_string()),
            Directive::LinkLib(LinkKind::Default, "userenv".to_string()),
        ]
    );
}

#[test]
fn link_order_is_stable_across_runs() {
    let d = desc(Os::Linux, Arch::X86_64, Abi::Gnu);
    let first = link_cpp_engine(&d, &libev());
    let second = link_cpp_engine(&d, &libev());
    assert_eq!(first, second);
}

#[test]
fn rerun_triggers_watch_engine_tree() {
    assert_eq!(
        engine_rerun_triggers(),
        vec![
            Directive::RerunIfChanged("api/src".to_string()),
            Directive::RerunIfChanged("api/include".to_string()),
        ]
    );
}

#[test]
fn compiler_probe_judgement() {
    assert!(check_cpp_compiler_version(true).is_ok());
    let d = check_cpp_compiler_version(false).unwrap_err();
    assert_eq!(d.severity, Severity::Fatal);
    assert_eq!(d.message, "a C++17-capable compiler (GCC 7+ or Clang 5+) is required");
}

#[test]
fn engine_stage_combines_plan_and_directives() {
    let d = desc(Os::Linux, Arch::X86_64, Abi::Gnu);
    let b = build_cpp_engine(&d, true, &libev(), "", None, None).unwrap();
    assert_eq!(b.rerun, engine_rerun_triggers());
    assert_eq!(b.plan, compile_cpp_engine(&d, &libev(), "", None, None).unwrap());
    assert_eq!(b.link, link_cpp_engine(&d, &libev()));
}

#[test]
fn engine_stage_fails_without_cxx17() {
    let d = desc(Os::Linux, Arch::X86_64, Abi::Gnu);
    let err = build_cpp_engine(&d, false, &libev(), "", None, None).unwrap_err();
    assert_eq!(err.severity, Severity::Fatal);
}
