//! The engine build driver: plans the compilation of the native engine
//! sources against per-platform flags and definitions, declares the
//! rebuild triggers that keep repeat runs idempotent, and emits the
//! directives that link the produced archive and its dependencies.

use vstd::prelude::*;
use vstd::string::*;
use crate::model::{BuildPlan, BuildPlanView, Directive, DirectiveView, LibrarySpec, LibrarySpecView, LinkKind};
use crate::platform::{Abi, Diagnostic, Os, PlatformDescriptor};

verus! {

broadcast use crate::model::lemma_deep_view_index;

/// Append clones of all of `src` to `dst`.
fn append_all(dst: &mut Vec<String>, src: &Vec<String>)
    ensures
        final(dst).deep_view() == old(dst).deep_view() + src.deep_view(),
{
    let n = src.len();
    let mut i: usize = 0;
    while i < n
        invariant
            n == src.len(),
            i <= n,
            dst@.len() == old(dst)@.len() + i,
            forall|k: int| 0 <= k < old(dst)@.len() ==> dst@[k] == old(dst)@[k],
            forall|k: int| old(dst)@.len() <= k < dst@.len() ==> dst@[k] == src@[k - old(
                dst,
            )@.len()],
        decreases n - i,
    {
        dst.push(src[i].clone());
        i = i + 1;
    }
    proof {
        let lhs = dst.deep_view();
        let rhs = old(dst).deep_view() + src.deep_view();
        assert forall|k: int| 0 <= k < lhs.len() implies lhs[k] == rhs[k] by {
            assert(lhs[k] == dst@[k].deep_view());
            if k < old(dst)@.len() {
                assert(old(dst).deep_view()[k] == old(dst)@[k].deep_view());
            } else {
                assert(src.deep_view()[k - old(dst)@.len()] == src@[k - old(
                    dst,
                )@.len()].deep_view());
            }
        }
        assert(lhs =~~= rhs);
    }
}

/// The engine compiler flags for Apple targets: on iOS, the SDK sysroot
/// (queried from the external SDK-path tool by the caller) and bitcode
/// embedding; on every Apple target, the security and foundation
/// frameworks.
pub open spec fn apple_flags_of(os: Os, sdk_path: Seq<char>) -> Seq<Seq<char>> {
    if os == Os::Ios {
        seq![
            "-isysroot"@,
            sdk_path,
            "-fembed-bitcode"@,
            "-framework"@,
            "Security"@,
            "-framework"@,
            "Foundation"@,
        ]
    } else {
        seq!["-framework"@, "Security"@, "-framework"@, "Foundation"@]
    }
}

/// Engine compiler flags for macOS and iOS targets.
pub fn configure_apple(os: Os, sdk_path: &str) -> (r: Vec<String>)
    ensures
        r.deep_view() == apple_flags_of(os, sdk_path@),
{
    let mut r: Vec<String> = Vec::new();
    if os == Os::Ios {
        r.push(String::from_str("-isysroot"));
        r.push(String::from_str(sdk_path));
        r.push(String::from_str("-fembed-bitcode"));
    }
    r.push(String::from_str("-framework"));
    r.push(String::from_str("Security"));
    r.push(String::from_str("-framework"));
    r.push(String::from_str("Foundation"));
    proof {
        assert(r.deep_view() =~= apple_flags_of(os, sdk_path@));
    }
    r
}

/// The message of the fatal diagnostic for an Android build without an
/// NDK home.
pub open spec fn ndk_missing_message_of() -> Seq<char> {
    "ANDROID_NDK_HOME or NDK_HOME must be set for Android builds"@
}

/// The Android API level in effect: the ambient value, or the default.
pub open spec fn android_api_of(api_level: Option<Seq<char>>) -> Seq<char> {
    match api_level {
        Some(a) => a,
        None => "21"@,
    }
}

/// The engine compiler flags for Linux and Android targets: the Android
/// API-level definition (Android only, and only with an NDK home), then
/// the thread-library flag. `None` is the fatal missing-NDK case.
pub open spec fn linux_android_flags_of(
    os: Os,
    ndk_home: Option<Seq<char>>,
    api_level: Option<Seq<char>>,
) -> Option<Seq<Seq<char>>> {
    if os == Os::Android {
        match ndk_home {
            Some(_) => Some(seq!["-D__ANDROID_API__="@ + android_api_of(api_level), "-pthread"@]),
            None => None,
        }
    } else {
        Some(seq!["-pthread"@])
    }
}

/// Engine compiler flags for Linux and Android targets; an Android build
/// without an NDK home is a fatal configuration error.
pub fn configure_linux_android(os: Os, ndk_home: Option<&str>, api_level: Option<&str>) -> (r:
    Result<Vec<String>, Diagnostic>)
    ensures
        r is Ok <==> linux_android_flags_of(os, ndk_home.deep_view(), api_level.deep_view())
            is Some,
        r matches Ok(v) ==> Some(v.deep_view()) == linux_android_flags_of(
            os,
            ndk_home.deep_view(),
            api_level.deep_view(),
        ),
        r matches Err(d) ==> d.is_fatal_with(ndk_missing_message_of()),
{
    if os == Os::Android {
        match ndk_home {
            Some(_) => {
                let api_flag: String = match api_level {
                    Some(a) => String::from_str("-D__ANDROID_API__=").concat(a),
                    None => String::from_str("-D__ANDROID_API__=").concat("21"),
                };
                let mut v: Vec<String> = Vec::new();
                v.push(api_flag);
                v.push(String::from_str("-pthread"));
                proof {
                    assert(v.deep_view() =~= linux_android_flags_of(
                        os,
                        ndk_home.deep_view(),
                        api_level.deep_view(),
                    )->0);
                }
                Ok(v)
            },
            None => Err(
                Diagnostic::fatal(
                    String::from_str("ANDROID_NDK_HOME or NDK_HOME must be set for Android builds"),
                ),
            ),
        }
    } else {
        let mut v: Vec<String> = Vec::new();
        v.push(String::from_str("-pthread"));
        proof {
            assert(v.deep_view() =~= linux_android_flags_of(
                os,
                ndk_home.deep_view(),
                api_level.deep_view(),
            )->0);
        }
        Ok(v)
    }
}

/// The engine compiler flags for Windows targets: the language standard
/// and C++ exception handling.
pub open spec fn windows_flags_of() -> Seq<Seq<char>> {
    seq!["/std:c++17"@, "/EHsc"@]
}

/// The engine preprocessor definitions for Windows targets: the minimum
/// supported Windows version.
pub open spec fn windows_defines_of() -> Seq<(Seq<char>, Option<Seq<char>>)> {
    seq![("_WIN32_WINNT"@, Some("0x0601"@))]
}

/// Engine compiler flags and definitions for Windows targets.
pub fn configure_windows() -> (r: (Vec<String>, Vec<(String, Option<String>)>))
    ensures
        r.0.deep_view() == windows_flags_of(),
        r.1.deep_view() == windows_defines_of(),
{
    let mut flags: Vec<String> = Vec::new();
    flags.push(String::from_str("/std:c++17"));
    flags.push(String::from_str("/EHsc"));
    let mut defines: Vec<(String, Option<String>)> = Vec::new();
    defines.push((String::from_str("_WIN32_WINNT"), Some(String::from_str("0x0601"))));
    proof {
        assert(flags.deep_view() =~= windows_flags_of());
        assert(defines.deep_view() =~= windows_defines_of());
    }
    (flags, defines)
}

/// The per-platform engine flags and definitions; `None` is the fatal
/// missing-NDK case on Android.
pub open spec fn platform_config_of(
    desc: PlatformDescriptor,
    sdk_path: Seq<char>,
    ndk_home: Option<Seq<char>>,
    api_level: Option<Seq<char>>,
) -> Option<(Seq<Seq<char>>, Seq<(Seq<char>, Option<Seq<char>>)>)> {
    match desc.os {
        Os::Macos | Os::Ios => Some((apple_flags_of(desc.os, sdk_path), Seq::empty())),
        Os::Linux | Os::Android => match linux_android_flags_of(desc.os, ndk_home, api_level) {
            Some(f) => Some((f, Seq::empty())),
            None => None,
        },
        Os::Windows => Some((windows_flags_of(), windows_defines_of())),
        _ => Some((Seq::empty(), Seq::empty())),
    }
}

/// The fixed engine source files, in compilation order.
pub open spec fn engine_sources_of() -> Seq<Seq<char>> {
    seq![
        "api/src/quiche_engine_api.cpp"@,
        "api/src/quiche_engine_impl.cpp"@,
        "api/src/thread_utils.cpp"@,
    ]
}

/// The engine's header search paths: public engine headers, internal
/// engine sources, the top-level public header directory, then the
/// resolved dependency's header paths, in accumulation order.
pub open spec fn engine_include_paths_of(libev: LibrarySpecView) -> Seq<Seq<char>> {
    seq!["api/include"@, "api/src"@, "include"@] + libev.include_paths
}

/// The full engine compilation plan; `None` is the fatal missing-NDK case.
pub open spec fn engine_plan_of(
    desc: PlatformDescriptor,
    libev: LibrarySpecView,
    sdk_path: Seq<char>,
    ndk_home: Option<Seq<char>>,
    api_level: Option<Seq<char>>,
) -> Option<BuildPlanView> {
    match platform_config_of(desc, sdk_path, ndk_home, api_level) {
        Some(pc) => Some(
            BuildPlanView {
                sources: engine_sources_of(),
                include_paths: engine_include_paths_of(libev),
                defines: pc.1,
                flags: seq!["-std=c++17"@] + pc.0,
            },
        ),
        None => None,
    }
}

/// Plan the compilation of the engine sources against the resolved
/// dependency and the platform flag matrix.
pub fn compile_cpp_engine(
    desc: &PlatformDescriptor,
    libev: &LibrarySpec,
    sdk_path: &str,
    ndk_home: Option<&str>,
    api_level: Option<&str>,
) -> (r: Result<BuildPlan, Diagnostic>)
    ensures
        r is Ok <==> engine_plan_of(
            *desc,
            libev.deep_view(),
            sdk_path@,
            ndk_home.deep_view(),
            api_level.deep_view(),
        ) is Some,
        r matches Ok(p) ==> Some(p.deep_view()) == engine_plan_of(
            *desc,
            libev.deep_view(),
            sdk_path@,
            ndk_home.deep_view(),
            api_level.deep_view(),
        ),
        r matches Err(d) ==> d.is_fatal_with(ndk_missing_message_of()),
{
    let pc: (Vec<String>, Vec<(String, Option<String>)>) = match desc.os {
        Os::Macos | Os::Ios => (configure_apple(desc.os, sdk_path), Vec::new()),
        Os::Linux | Os::Android => {
            match configure_linux_android(desc.os, ndk_home, api_level) {
                Ok(f) => (f, Vec::new()),
                Err(d) => {
                    return Err(d);
                },
            }
        },
        Os::Windows => configure_windows(),
        _ => (Vec::new(), Vec::new()),
    };
    let mut sources: Vec<String> = Vec::new();
    sources.push(String::from_str("api/src/quiche_engine_api.cpp"));
    sources.push(String::from_str("api/src/quiche_engine_impl.cpp"));
    sources.push(String::from_str("api/src/thread_utils.cpp"));
    let mut include_paths: Vec<String> = Vec::new();
    include_paths.push(String::from_str("api/include"));
    include_paths.push(String::from_str("api/src"));
    include_paths.push(String::from_str("include"));
    append_all(&mut include_paths, &libev.include_paths);
    let mut flags: Vec<String> = Vec::new();
    flags.push(String::from_str("-std=c++17"));
    append_all(&mut flags, &pc.0);
    let plan = BuildPlan { sources, include_paths, defines: pc.1, flags };
    proof {
        let expect = engine_plan_of(
            *desc,
            libev.deep_view(),
            sdk_path@,
            ndk_home.deep_view(),
            api_level.deep_view(),
        )->0;
        assert(plan.deep_view().sources =~= expect.sources);
        assert(plan.deep_view().include_paths =~= expect.include_paths);
        assert(plan.deep_view().flags =~= expect.flags);
        assert(plan.deep_view() =~~= expect);
    }
    Ok(plan)
}

/// The platform runtime libraries the engine needs: the platform C++
/// runtime (`c++` on Apple and musl targets, `stdc++` otherwise), thread,
/// loader and math libraries on Unix-like systems, socket and user
/// environment libraries on Windows, system frameworks on Apple targets.
pub open spec fn runtime_libs_of(desc: PlatformDescriptor) -> Seq<DirectiveView> {
    match desc.os {
        Os::Macos | Os::Ios => seq![
            DirectiveView::LinkLib(LinkKind::Default, "c++"@),
            DirectiveView::LinkLib(LinkKind::Framework, "Security"@),
            DirectiveView::LinkLib(LinkKind::Framework, "Foundation"@),
        ],
        Os::Linux | Os::Android => (
        if desc.env == Abi::Musl {
            seq![DirectiveView::LinkLib(LinkKind::Default, "c++"@)]
        } else {
            seq![DirectiveView::LinkLib(LinkKind::Default, "stdc++"@)]
        }) + seq![
            DirectiveView::LinkLib(LinkKind::Default, "pthread"@),
            DirectiveView::LinkLib(LinkKind::Default, "dl"@),
            DirectiveView::LinkLib(LinkKind::Default, "m"@),
        ],
        Os::Windows => seq![
            DirectiveView::LinkLib(LinkKind::Default, "ws2_32"@),
            DirectiveView::LinkLib(LinkKind::Default, "userenv"@),
        ],
        _ => Seq::empty(),
    }
}

/// The engine link directives: a search path per resolved dependency
/// path, a library name per resolved link name, then the platform runtime
/// libraries, in exactly this order.
pub open spec fn engine_link_of(desc: PlatformDescriptor, libev: LibrarySpecView) -> Seq<
    DirectiveView,
> {
    libev.link_paths.map_values(|p: Seq<char>| DirectiveView::LinkSearch(p))
        + libev.link_names.map_values(|n: Seq<char>| DirectiveView::LinkLib(LinkKind::Default, n))
        + runtime_libs_of(desc)
}

/// Push one library search-path directive per path.
fn push_search_directives(dst: &mut Vec<Directive>, paths: &Vec<String>)
    ensures
        final(dst).deep_view() == old(dst).deep_view() + paths.deep_view().map_values(
            |p: Seq<char>| DirectiveView::LinkSearch(p),
        ),
{
    let ghost target = paths.deep_view().map_values(|p: Seq<char>| DirectiveView::LinkSearch(p));
    let n = paths.len();
    let mut i: usize = 0;
    while i < n
        invariant
            n == paths.len(),
            i <= n,
            target == paths.deep_view().map_values(|p: Seq<char>| DirectiveView::LinkSearch(p)),
            dst@.len() == old(dst)@.len() + i,
            forall|k: int| 0 <= k < old(dst)@.len() ==> dst@[k] == old(dst)@[k],
            forall|k: int|
                old(dst)@.len() <= k < dst@.len() ==> dst@[k].deep_view() == target[k - old(
                    dst,
                )@.len()],
        decreases n - i,
    {
        dst.push(Directive::LinkSearch(paths[i].clone()));
        proof {
            assert(paths.deep_view()[i as int] == paths@[i as int]@);
        }
        i = i + 1;
    }
    proof {
        let lhs = dst.deep_view();
        let rhs = old(dst).deep_view() + target;
        assert forall|k: int| 0 <= k < lhs.len() implies lhs[k] == rhs[k] by {
            assert(lhs[k] == dst@[k].deep_view());
            if k < old(dst)@.len() {
                assert(old(dst).deep_view()[k] == old(dst)@[k].deep_view());
            }
        }
        assert(lhs =~~= rhs);
    }
}

/// Push one library-name directive per resolved link name.
fn push_lib_directives(dst: &mut Vec<Directive>, names: &Vec<String>)
    ensures
        final(dst).deep_view() == old(dst).deep_view() + names.deep_view().map_values(
            |n: Seq<char>| DirectiveView::LinkLib(LinkKind::Default, n),
        ),
{
    let ghost target = names.deep_view().map_values(
        |n: Seq<char>| DirectiveView::LinkLib(LinkKind::Default, n),
    );
    let n = names.len();
    let mut i: usize = 0;
    while i < n
        invariant
            n == names.len(),
            i <= n,
            target == names.deep_view().map_values(
                |n: Seq<char>| DirectiveView::LinkLib(LinkKind::Default, n),
            ),
            dst@.len() == old(dst)@.len() + i,
            forall|k: int| 0 <= k < old(dst)@.len() ==> dst@[k] == old(dst)@[k],
            forall|k: int|
                old(dst)@.len() <= k < dst@.len() ==> dst@[k].deep_view() == target[k - old(
                    dst,
                )@.len()],
        decreases n - i,
    {
        dst.push(Directive::LinkLib(LinkKind::Default, names[i].clone()));
        proof {
            assert(names.deep_view()[i as int] == names@[i as int]@);
        }
        i = i + 1;
    }
    proof {
        let lhs = dst.deep_view();
        let rhs = old(dst).deep_view() + target;
        assert forall|k: int| 0 <= k < lhs.len() implies lhs[k] == rhs[k] by {
            assert(lhs[k] == dst@[k].deep_view());
            if k < old(dst)@.len() {
                assert(old(dst).deep_view()[k] == old(dst)@[k].deep_view());
            }
        }
        assert(lhs =~~= rhs);
    }
}

/// Emit the engine link directives in their required order.
pub fn link_cpp_engine(desc: &PlatformDescriptor, libev: &LibrarySpec) -> (r: Vec<Directive>)
    ensures
        r.deep_view() == engine_link_of(*desc, libev.deep_view()),
{
    let mut r: Vec<Directive> = Vec::new();
    push_search_directives(&mut r, &libev.link_paths);
    push_lib_directives(&mut r, &libev.link_names);
    let ghost head = r.deep_view();
    match desc.os {
        Os::Macos | Os::Ios => {
            r.push(Directive::LinkLib(LinkKind::Default, String::from_str("c++")));
            r.push(Directive::LinkLib(LinkKind::Framework, String::from_str("Security")));
            r.push(Directive::LinkLib(LinkKind::Framework, String::from_str("Foundation")));
        },
        Os::Linux | Os::Android => {
            if desc.env == Abi::Musl {
                r.push(Directive::LinkLib(LinkKind::Default, String::from_str("c++")));
            } else {
                r.push(Directive::LinkLib(LinkKind::Default, String::from_str("stdc++")));
            }
            r.push(Directive::LinkLib(LinkKind::Default, String::from_str("pthread")));
            r.push(Directive::LinkLib(LinkKind::Default, String::from_str("dl")));
            r.push(Directive::LinkLib(LinkKind::Default, String::from_str("m")));
        },
        Os::Windows => {
            r.push(Directive::LinkLib(LinkKind::Default, String::from_str("ws2_32")));
            r.push(Directive::LinkLib(LinkKind::Default, String::from_str("userenv")));
        },
        _ => {},
    }
    proof {
        let lhs = r.deep_view();
        let rhs = head + runtime_libs_of(*desc);
        assert forall|k: int| 0 <= k < lhs.len() implies lhs[k] == rhs[k] by {
            assert(lhs[k] == r@[k].deep_view());
        }
        assert(lhs =~~= rhs);
        assert(lhs =~~= engine_link_of(*desc, libev.deep_view()));
    }
    r
}

/// The source-tree paths whose changes must invalidate cached engine
/// outputs.
pub open spec fn engine_watch_paths_of() -> Seq<Seq<char>> {
    seq!["api/src"@, "api/include"@]
}

/// The engine's rebuild triggers, one per watched source tree.
pub open spec fn engine_rerun_of() -> Seq<DirectiveView> {
    seq![
        DirectiveView::RerunIfChanged("api/src"@),
        DirectiveView::RerunIfChanged("api/include"@),
    ]
}

/// Declare the engine's rebuild triggers.
pub fn engine_rerun_triggers() -> (r: Vec<Directive>)
    ensures
        r.deep_view() == engine_rerun_of(),
{
    let mut r: Vec<Directive> = Vec::new();
    r.push(Directive::RerunIfChanged(String::from_str("api/src")));
    r.push(Directive::RerunIfChanged(String::from_str("api/include")));
    proof {
        assert(r.deep_view() =~= engine_rerun_of());
    }
    r
}

/// The message of the fatal diagnostic for a compiler that cannot build
/// the engine sources.
pub open spec fn cxx17_required_message_of() -> Seq<char> {
    "a C++17-capable compiler (GCC 7+ or Clang 5+) is required"@
}

/// Judge the compiler probe: the caller reports whether a C++17 test
/// compilation succeeded; failure is a fatal configuration error.
pub fn check_cpp_compiler_version(cxx17_ok: bool) -> (r: Result<(), Diagnostic>)
    ensures
        r is Ok <==> cxx17_ok,
        r matches Err(d) ==> d.is_fatal_with(cxx17_required_message_of()),
{
    if cxx17_ok {
        Ok(())
    } else {
        Err(Diagnostic::fatal(String::from_str("a C++17-capable compiler (GCC 7+ or Clang 5+) is required")))
    }
}

/// Everything the engine stage decides: rebuild triggers, the compilation
/// plan, and the link directives.
#[derive(Clone, PartialEq, Eq, Debug)]
pub struct EngineBuild {
    pub rerun: Vec<Directive>,
    pub plan: BuildPlan,
    pub link: Vec<Directive>,
}

/// Spec-level model of the engine stage's output.
#[verifier::ext_equal]
pub struct EngineBuildView {
    pub rerun: Seq<DirectiveView>,
    pub plan: BuildPlanView,
    pub link: Seq<DirectiveView>,
}

impl View for EngineBuild {
    type V = EngineBuildView;

    open spec fn view(&self) -> EngineBuildView {
        EngineBuildView {
            rerun: self.rerun.deep_view(),
            plan: self.plan.deep_view(),
            link: self.link.deep_view(),
        }
    }
}

impl DeepView for EngineBuild {
    type V = EngineBuildView;

    open spec fn deep_view(&self) -> EngineBuildView {
        self.view()
    }
}

/// The engine stage's whole output; `None` is the fatal missing-NDK case.
pub open spec fn engine_build_of(
    desc: PlatformDescriptor,
    libev: LibrarySpecView,
    sdk_path: Seq<char>,
    ndk_home: Option<Seq<char>>,
    api_level: Option<Seq<char>>,
) -> Option<EngineBuildView> {
    match engine_plan_of(desc, libev, sdk_path, ndk_home, api_level) {
        Some(p) => Some(
            EngineBuildView {
                rerun: engine_rerun_of(),
                plan: p,
                link: engine_link_of(desc, libev),
            },
        ),
        None => None,
    }
}

/// Run the engine stage's decisions: judge the compiler probe, plan the
/// compilation, and emit rebuild triggers and link directives. The caller
/// performs the probe, the compilation and the linking.
pub fn build_cpp_engine(
    desc: &PlatformDescriptor,
    cxx17_ok: bool,
    libev: &LibrarySpec,
    sdk_path: &str,
    ndk_home: Option<&str>,
    api_level: Option<&str>,
) -> (r: Result<EngineBuild, Diagnostic>)
    ensures
        r is Ok <==> (cxx17_ok && engine_plan_of(
            *desc,
            libev.deep_view(),
            sdk_path@,
            ndk_home.deep_view(),
            api_level.deep_view(),
        ) is Some),
        r matches Ok(b) ==> Some(b.deep_view()) == engine_build_of(
            *desc,
            libev.deep_view(),
            sdk_path@,
            ndk_home.deep_view(),
            api_level.deep_view(),
        ),
        !cxx17_ok ==> (r matches Err(d) && d.is_fatal_with(cxx17_required_message_of())),
        r matches Err(d) ==> d.severity == crate::platform::Severity::Fatal,
{
    match check_cpp_compiler_version(cxx17_ok) {
        Ok(_) => {},
        Err(d) => {
            return Err(d);
        },
    }
    let plan = match compile_cpp_engine(desc, libev, sdk_path, ndk_home, api_level) {
        Ok(p) => p,
        Err(d) => {
            return Err(d);
        },
    };
    let b = EngineBuild {
        rerun: engine_rerun_triggers(),
        plan,
        link: link_cpp_engine(desc, libev),
    };
    proof {
        assert(b.deep_view() =~~= engine_build_of(
            *desc,
            libev.deep_view(),
            sdk_path@,
            ndk_home.deep_view(),
            api_level.deep_view(),
        )->0);
    }
    Ok(b)
}

} // verus!
