use quiche_build::model::LibrarySpec;
use quiche_build::platform::{Diagnostic, Severity};
use quiche_build::resolver::{
    advance_resolution, common_prefixes, failure_message, library_file_names,
    library_spec_at_prefix, scan_common_paths, start_resolution, vendored_build_plan, PathProbe,
    ProbeOutcome, ProbeStrategy, Resolution, ResolverConfig,
};

fn libev_config(override_path: Option<String>, vendored: bool) -> ResolverConfig {
    ResolverConfig {
        library: "libev".to_string(),
        link_name: "ev".to_string(),
        header: "ev.h".to_string(),
        override_path,
        vendored_enabled: vendored,
    }
}

fn found(prefix: &str) -> LibrarySpec {
    LibrarySpec {
        name: "libev".to_string(),
        include_paths: vec![format!("{}/include", prefix)],
        link_paths: vec![format!("{}/lib", prefix)],
        link_names: vec!["ev".to_string()],
    }
}

#[test]
fn override_wins_unconditionally() {
    // the override decides alone, vendored or not
    for vendored in [false, true] {
        let cfg = libev_config(Some("/custom/libev".to_string()), vendored);
        match start_resolution(&cfg) {
            Resolution::Resolved(spec) => {
                assert_eq!(spec.include_paths, vec!["/custom/libev/include".to_string()]);
                assert_eq!(spec.link_paths, vec!["/custom/libev/lib".to_string()]);
                assert_eq!(spec.link_names, vec!["ev".to_string()]);
            }
            other => panic!("override did not resolve: {:?}", other),
        }
    }
}

#[test]
fn chain_starts_at_package_metadata() {
    let cfg = libev_config(None, false);
    assert_eq!(
        start_resolution(&cfg),
        Resolution::Next(ProbeStrategy::PackageMetadata)
    );
}

#[test]
fn first_success_ends_the_chain() {
    let cfg = libev_config(None, true);
    let spec = found("/usr");
    // a success at any strategy is returned as-is and asks for no probe
    for s in [
        ProbeStrategy::PackageMetadata,
        ProbeStrategy::CommonPaths,
        ProbeStrategy::VendoredBuild,
    ] {
        match advance_resolution(&cfg, s, ProbeOutcome::Success(spec.clone())) {
            Resolution::Resolved(r) => assert_eq!(r, spec),
            other => panic!("success did not resolve: {:?}", other),
        }
    }
}

#[test]
fn misses_walk_the_chain_in_order() {
    let cfg = libev_config(None, true);
    assert_eq!(
        advance_resolution(&cfg, ProbeStrategy::PackageMetadata, ProbeOutcome::Miss),
        Resolution::Next(ProbeStrategy::CommonPaths)
    );
    assert_eq!(
        advance_resolution(&cfg, ProbeStrategy::CommonPaths, ProbeOutcome::Miss),
        Resolution::Next(ProbeStrategy::VendoredBuild)
    );
}

#[test]
fn vendored_disabled_is_skipped() {
    let cfg = libev_config(None, false);
    match advance_resolution(&cfg, ProbeStrategy::CommonPaths, ProbeOutcome::Miss) {
        Resolution::Failed(d) => assert_eq!(d.severity, Severity::Fatal),
        other => panic!("expected terminal failure: {:?}", other),
    }
}

#[test]
fn exhausted_chain_gives_install_hints() {
    let cfg = libev_config(None, true);
    match advance_resolution(&cfg, ProbeStrategy::VendoredBuild, ProbeOutcome::Miss) {
        Resolution::Failed(d) => {
            assert_eq!(d.severity, Severity::Fatal);
            assert_eq!(d.message, failure_message("libev"));
            assert!(d.message.contains("apt-get install libev-dev"));
            assert!(d.message.contains("brew install libev"));
            assert!(d.message.contains("yum install libev-devel"));
            assert!(d.message.contains("vcpkg install libev"));
            assert!(d.message.contains("vendored-build"));
        }
        other => panic!("expected terminal failure: {:?}", other),
    }
}

#[test]
fn fatal_probe_stops_the_chain() {
    let cfg = libev_config(None, true);
    let d = Diagnostic::fatal("vendored build failed".to_string());
    match advance_resolution(&cfg, ProbeStrategy::PackageMetadata, ProbeOutcome::Fatal(d.clone())) {
        Resolution::Failed(e) => assert_eq!(e, d),
        other => panic!("fatal outcome did not stop the chain: {:?}", other),
    }
}

fn probe(prefix: &str, header: bool, st: bool, dylib: bool, so: bool) -> PathProbe {
    PathProbe {
        prefix: prefix.to_string(),
        header_found: header,
        static_lib_found: st,
        apple_dylib_found: dylib,
        unix_dylib_found: so,
    }
}

#[test]
fn scan_picks_first_matching_prefix() {
    let cfg = libev_config(None, false);
    let probes = vec![
        probe("/usr/local", true, false, false, false), // header but no library file
        probe("/usr", true, false, false, true),
        probe("/opt/local", true, true, true, true), // later match must not win
    ];
    let spec = scan_common_paths(&cfg, &probes).unwrap();
    assert_eq!(spec, found("/usr"));
}

#[test]
fn scan_requires_header_and_library() {
    let cfg = libev_config(None, false);
    let probes = vec![
        probe("/usr/local", false, true, true, true), // library without header
        probe("/usr", true, false, false, false),     // header without library
    ];
    assert!(scan_common_paths(&cfg, &probes).is_none());
    assert!(scan_common_paths(&cfg, &Vec::new()).is_none());
}

#[test]
fn scan_prefix_order_is_fixed() {
    assert_eq!(
        common_prefixes(),
        vec![
            "/usr/local".to_string(),
            "/usr".to_string(),
            "/opt/local".to_string(),
            "/opt/homebrew".to_string(),
        ]
    );
}

#[test]
fn recognized_library_file_names() {
    let (a, dylib, so) = library_file_names("ev");
    assert_eq!(a, "libev.a");
    assert_eq!(dylib, "libev.dylib");
    assert_eq!(so, "libev.so");
}

#[test]
fn prefix_spec_shape() {
    let cfg = libev_config(None, false);
    assert_eq!(library_spec_at_prefix(&cfg, "/opt/homebrew"), found("/opt/homebrew"));
}

#[test]
fn vendored_plan_builds_static_release() {
    let plan = vendored_build_plan();
    assert_eq!(plan.source_dir, "deps/libev");
    assert_eq!(
        plan.params,
        vec![
            ("CMAKE_BUILD_TYPE".to_string(), "Release".to_string()),
            ("BUILD_SHARED_LIBS".to_string(), "OFF".to_string()),
        ]
    );
    assert!(plan.build_targets.is_empty());
}
