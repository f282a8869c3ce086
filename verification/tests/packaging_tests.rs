use quiche_build::model::{ArtifactKind, ToolInvocation};
use quiche_build::packaging::{
    android_link_invocation, android_toolchain_triple, degraded_packaging_warnings,
    ios_fallback_merge, ios_merge_after_primary, ios_primary_merge, plan_packaging,
    PackagingAction,
};
use quiche_build::model::Directive;
use quiche_build::platform::{Abi, Arch, Os, PlatformDescriptor, Severity};

fn desc(os: Os) -> PlatformDescriptor {
    PlatformDescriptor { os, arch: Arch::Aarch64, env: Abi::Unspecified }
}

#[test]
fn toolchain_triple_aarch64() {
    assert_eq!(
        android_toolchain_triple("aarch64-linux-android").unwrap(),
        "aarch64-linux-android"
    );
}

#[test]
fn toolchain_triple_armv7() {
    assert_eq!(
        android_toolchain_triple("armv7-linux-androideabi").unwrap(),
        "armv7a-linux-androideabi"
    );
}

#[test]
fn toolchain_triple_i686() {
    assert_eq!(
        android_toolchain_triple("i686-linux-android").unwrap(),
        "i686-linux-android"
    );
}

#[test]
fn toolchain_triple_x86_64() {
    assert_eq!(
        android_toolchain_triple("x86_64-linux-android").unwrap(),
        "x86_64-linux-android"
    );
}

#[test]
fn toolchain_triple_unsupported_is_fatal() {
    let d = android_toolchain_triple("riscv64gc-unknown-linux-gnu").unwrap_err();
    assert_eq!(d.severity, Severity::Fatal);
    assert_eq!(d.message, "unsupported target: riscv64gc-unknown-linux-gnu");
}

#[test]
fn ndk_link_invocation_shape() {
    let inv = android_link_invocation(
        "/opt/ndk",
        "aarch64-linux-android",
        "21",
        "libquiche_engine.a",
        "libcrypto.a",
        "out/libquiche_engine.so",
    );
    assert_eq!(
        inv.program,
        "/opt/ndk/toolchains/llvm/prebuilt/linux-x86_64/bin/aarch64-linux-android21-clang++"
    );
    assert_eq!(
        inv.args,
        vec![
            "-shared".to_string(),
            "-o".to_string(),
            "out/libquiche_engine.so".to_string(),
            "-Wl,--whole-archive".to_string(),
            "libquiche_engine.a".to_string(),
            "libcrypto.a".to_string(),
            "-Wl,--no-whole-archive".to_string(),
            "-lc++_shared".to_string(),
            "-llog".to_string(),
            "-lm".to_string(),
        ]
    );
}

#[test]
fn packaging_failure_degrades_to_warnings() {
    let w = degraded_packaging_warnings("linker output", "linker errors");
    assert_eq!(
        w,
        vec![
            Directive::Warning("packaging step failed; continuing with unmerged archives".to_string()),
            Directive::Warning("linker output".to_string()),
            Directive::Warning("linker errors".to_string()),
        ]
    );
}

#[test]
fn merge_tools_take_equivalent_inputs() {
    let primary = ios_primary_merge("engine.a", "crypto.a", "out.a");
    let fallback = ios_fallback_merge("engine.a", "crypto.a", "out.a");
    assert_eq!(primary.program, "libtool");
    assert_eq!(
        primary.args,
        vec![
            "-static".to_string(),
            "-o".to_string(),
            "out.a".to_string(),
            "engine.a".to_string(),
            "crypto.a".to_string(),
        ]
    );
    assert_eq!(fallback.program, "ar");
    assert_eq!(
        fallback.args,
        vec![
            "crs".to_string(),
            "out.a".to_string(),
            "engine.a".to_string(),
            "crypto.a".to_string(),
        ]
    );
    // past each tool's mode arguments, the effective inputs agree
    assert_eq!(primary.args[2..], fallback.args[1..]);
}

#[test]
fn fallback_runs_only_after_primary_failure() {
    assert_eq!(ios_merge_after_primary(true, "e.a", "c.a", "o.a"), None);
    let f = ios_merge_after_primary(false, "e.a", "c.a", "o.a").unwrap();
    assert_eq!(f, ios_fallback_merge("e.a", "c.a", "o.a"));
}

#[test]
fn packaging_state_machine_android() {
    let a = plan_packaging(
        &desc(Os::Android),
        "aarch64-linux-android",
        "/opt/ndk",
        "21",
        "engine.a",
        "crypto.a",
        "out",
    )
    .unwrap();
    match a {
        PackagingAction::BuildSharedObject(inv, artifact) => {
            assert_eq!(artifact.kind, ArtifactKind::SharedObject);
            assert_eq!(artifact.path, "out/libquiche_engine.so");
            let expect: ToolInvocation = android_link_invocation(
                "/opt/ndk",
                "aarch64-linux-android",
                "21",
                "engine.a",
                "crypto.a",
                "out/libquiche_engine.so",
            );
            assert_eq!(inv, expect);
        }
        other => panic!("unexpected action: {:?}", other),
    }
}

#[test]
fn packaging_state_machine_android_bad_triple() {
    let err = plan_packaging(
        &desc(Os::Android),
        "mips64-linux-android",
        "/opt/ndk",
        "21",
        "engine.a",
        "crypto.a",
        "out",
    )
    .unwrap_err();
    assert_eq!(err.severity, Severity::Fatal);
    assert_eq!(err.message, "unsupported target: mips64-linux-android");
}

#[test]
fn packaging_state_machine_ios() {
    let a = plan_packaging(&desc(Os::Ios), "", "", "", "engine.a", "crypto.a", "out").unwrap();
    match a {
        PackagingAction::MergeFatArchive(primary, fallback, artifact) => {
            assert_eq!(artifact.kind, ArtifactKind::FatArchive);
            assert_eq!(artifact.path, "out/libquiche_engine.a");
            assert_eq!(primary, ios_primary_merge("engine.a", "crypto.a", "out/libquiche_engine.a"));
            assert_eq!(
                fallback,
                ios_fallback_merge("engine.a", "crypto.a", "out/libquiche_engine.a")
            );
        }
        other => panic!("unexpected action: {:?}", other),
    }
}

#[test]
fn packaging_state_machine_pass_through() {
    for os in [Os::Macos, Os::Linux, Os::Windows, Os::Freebsd, Os::Other] {
        let a = plan_packaging(&desc(os), "", "", "", "e.a", "c.a", "out").unwrap();
        assert_eq!(a, PackagingAction::PassThrough);
    }
}
