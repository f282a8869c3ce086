//! The final stage: platform-specific setup directives, the generated
//! package-metadata text, and the orchestration-level laws — every stage's
//! output is a pure function of the declared inputs, so a repeat run over
//! unchanged inputs emits identical plans and directives, and the declared
//! rebuild triggers cover every compiled engine source.

use vstd::prelude::*;
use vstd::string::*;
use crate::crypto::{boringssl_directives_of, boringssl_plan_of, build_dir_of, CmakePlanView};
use crate::engine::{engine_build_of, engine_link_of, engine_sources_of, engine_watch_paths_of, EngineBuildView};
use crate::matrix::platform_output_path_of;
use crate::model::{BuildPlan, BuildPlanView, Directive, DirectiveView, LibrarySpecView, LinkKind};
use crate::packaging::{packaging_action_of, PackagingActionView};
use crate::platform::{Diagnostic, Os, PlatformDescriptor};
use crate::text::has_prefix;

verus! {

broadcast use crate::model::lemma_deep_view_index;

/// The extra directives a platform needs before anything is compiled:
/// macOS lets a C dynamic library leave symbols undefined for dynamic
/// lookup; iOS compiles a stack-probe support file and watches it.
pub open spec fn setup_directives_of(os: Os) -> Seq<DirectiveView> {
    if os == Os::Macos {
        seq![DirectiveView::CdylibLinkArg("-Wl,-undefined,dynamic_lookup"@)]
    } else if os == Os::Ios {
        seq![DirectiveView::RerunIfChanged("chkstk_darwin.c"@)]
    } else {
        Seq::empty()
    }
}

/// The compilation plan for the iOS stack-probe support file.
pub open spec fn chkstk_plan_of() -> BuildPlanView {
    BuildPlanView {
        sources: seq!["chkstk_darwin.c"@],
        include_paths: Seq::empty(),
        defines: Seq::empty(),
        flags: seq!["-O2"@],
    }
}

/// Platform-specific setup: the extra directives, and on iOS the plan for
/// the stack-probe support file.
pub fn configure_platform_specific(os: Os) -> (r: (Vec<Directive>, Option<BuildPlan>))
    ensures
        r.0.deep_view() == setup_directives_of(os),
        os == Os::Ios <==> r.1 is Some,
        r.1 matches Some(p) ==> p.deep_view() == chkstk_plan_of(),
{
    let mut directives: Vec<Directive> = Vec::new();
    let mut plan: Option<BuildPlan> = None;
    if os == Os::Macos {
        directives.push(
            Directive::CdylibLinkArg(String::from_str("-Wl,-undefined,dynamic_lookup")),
        );
    } else if os == Os::Ios {
        directives.push(Directive::RerunIfChanged(String::from_str("chkstk_darwin.c")));
        let mut sources: Vec<String> = Vec::new();
        sources.push(String::from_str("chkstk_darwin.c"));
        let mut flags: Vec<String> = Vec::new();
        flags.push(String::from_str("-O2"));
        let p = BuildPlan { sources, include_paths: Vec::new(), defines: Vec::new(), flags };
        proof {
            assert(p.deep_view() =~~= chkstk_plan_of());
        }
        plan = Some(p);
    }
    proof {
        assert(directives.deep_view() =~~= setup_directives_of(os));
    }
    (directives, plan)
}

/// The package-metadata text: library name, version, header directory,
/// library directory and link name, for downstream native build systems.
pub open spec fn pkg_config_text_of(
    name: Seq<char>,
    version: Seq<char>,
    include_dir: Seq<char>,
    lib_dir: Seq<char>,
    link_name: Seq<char>,
) -> Seq<char> {
    "Name: "@ + name + "\nVersion: "@ + version + "\nCflags: -I"@ + include_dir + "\nLibs: -L"@
        + lib_dir + " -l"@ + link_name + "\n"@
}

/// The message of the fatal diagnostic for metadata writing without a
/// package version.
pub open spec fn missing_version_message_of() -> Seq<char> {
    "a package version must be set to write package metadata"@
}

/// Generate the package-metadata text; writing was explicitly enabled, so
/// a missing package version is a fatal configuration error.
pub fn write_pkg_config(
    name: &str,
    version: Option<&str>,
    include_dir: &str,
    lib_dir: &str,
    link_name: &str,
) -> (r: Result<String, Diagnostic>)
    ensures
        r is Ok <==> version is Some,
        r matches Ok(s) ==> version matches Some(v) && s@ == pkg_config_text_of(
            name@,
            v@,
            include_dir@,
            lib_dir@,
            link_name@,
        ),
        r matches Err(d) ==> d.is_fatal_with(missing_version_message_of()),
{
    match version {
        Some(v) => {
            let s = String::from_str("Name: ").concat(name).concat("\nVersion: ").concat(
                v,
            ).concat("\nCflags: -I").concat(include_dir).concat("\nLibs: -L").concat(
                lib_dir,
            ).concat(" -l").concat(link_name).concat("\n");
            proof {
                assert(s@ =~= pkg_config_text_of(name@, v@, include_dir@, lib_dir@, link_name@));
            }
            Ok(s)
        },
        None => Err(
            Diagnostic::fatal(
                String::from_str("a package version must be set to write package metadata"),
            ),
        ),
    }
}

/// Everything one orchestration run reads: the platform descriptor and
/// every ambient value and external-tool outcome a stage consumes.
pub struct OrchestrationInputs {
    pub desc: PlatformDescriptor,
    pub target: Seq<char>,
    pub fuzzing: bool,
    pub ndk_home: Option<Seq<char>>,
    pub api_level: Option<Seq<char>>,
    pub sdk_path: Seq<char>,
    pub opt_level: Seq<char>,
    pub debug_info: bool,
    pub link_kind: LinkKind,
    pub bssl_root: Seq<char>,
    pub candidate_is_dir: bool,
    pub libev: LibrarySpecView,
    pub cxx17_ok: bool,
    pub engine_archive: Seq<char>,
    pub crypto_archive: Seq<char>,
    pub out_dir: Seq<char>,
}

/// Everything one orchestration run decides.
#[verifier::ext_equal]
pub struct OrchestrationView {
    pub crypto_plan: CmakePlanView,
    pub output_subdir: Option<Seq<char>>,
    pub crypto_directives: Option<Seq<DirectiveView>>,
    pub engine: Option<EngineBuildView>,
    pub packaging: Option<PackagingActionView>,
    pub setup: Seq<DirectiveView>,
}

/// The ambient NDK home handed to the cryptography configuration matrix.
pub open spec fn ndk_home_or_empty(ndk_home: Option<Seq<char>>) -> Seq<char> {
    match ndk_home {
        Some(n) => n,
        None => ""@,
    }
}

/// One orchestration run's decisions as a pure function of its inputs.
/// A `None` stage is one that aborted on a fatal configuration error.
pub open spec fn orchestration_of(i: OrchestrationInputs) -> OrchestrationView {
    let subdir = platform_output_path_of(i.desc, i.opt_level, i.debug_info);
    OrchestrationView {
        crypto_plan: boringssl_plan_of(
            i.desc,
            i.fuzzing,
            ndk_home_or_empty(i.ndk_home),
            crate::engine::android_api_of(i.api_level),
        ),
        output_subdir: subdir,
        crypto_directives: match subdir {
            Some(s) => Some(
                boringssl_directives_of(
                    i.bssl_root,
                    build_dir_of(i.bssl_root, s, i.candidate_is_dir),
                    i.link_kind,
                ),
            ),
            None => None,
        },
        engine: if i.cxx17_ok {
            engine_build_of(i.desc, i.libev, i.sdk_path, i.ndk_home, i.api_level)
        } else {
            None
        },
        packaging: packaging_action_of(
            i.desc,
            i.target,
            ndk_home_or_empty(i.ndk_home),
            crate::engine::android_api_of(i.api_level),
            i.engine_archive,
            i.crypto_archive,
            i.out_dir,
        ),
        setup: setup_directives_of(i.desc.os),
    }
}

/// Idempotence of the orchestration's decisions: no stage reads anything
/// outside the declared inputs, so two runs over unchanged inputs decide
/// the very same plans, invocations and directives. (Whether the external
/// build tools then redo work is governed by the declared rebuild
/// triggers; the watched paths cover every compiled engine source.)
pub proof fn lemma_orchestration_idempotent(first: OrchestrationInputs, second: OrchestrationInputs)
    requires
        first == second,
    ensures
        orchestration_of(first) == orchestration_of(second),
{
}

/// The declared rebuild triggers cover the compiled engine sources: every
/// engine source file lies under a watched path, so an unchanged source
/// tree never invalidates the cached outputs.
pub proof fn lemma_rebuild_triggers_cover_sources()
    ensures
        forall|i: int|
            0 <= i < engine_sources_of().len() ==> exists|w: int|
                0 <= w < engine_watch_paths_of().len() && has_prefix(
                    #[trigger] engine_sources_of()[i],
                    engine_watch_paths_of()[w],
                ),
{
    reveal_strlit("api/src");
    reveal_strlit("api/src/quiche_engine_api.cpp");
    reveal_strlit("api/src/quiche_engine_impl.cpp");
    reveal_strlit("api/src/thread_utils.cpp");
    assert("api/src/quiche_engine_api.cpp"@.subrange(0, 7) =~= "api/src"@);
    assert("api/src/quiche_engine_impl.cpp"@.subrange(0, 7) =~= "api/src"@);
    assert("api/src/thread_utils.cpp"@.subrange(0, 7) =~= "api/src"@);
    assert forall|i: int| 0 <= i < engine_sources_of().len() implies exists|w: int|
        0 <= w < engine_watch_paths_of().len() && has_prefix(
            #[trigger] engine_sources_of()[i],
            engine_watch_paths_of()[w],
        ) by {
        assert(has_prefix(engine_sources_of()[i], engine_watch_paths_of()[0]));
    }
}

/// Stability of the emitted link order: the library-link directives are a
/// pure function of the platform descriptor, the resolved dependency and
/// the configured link kind, so repeated runs emit them in the same order.
pub proof fn lemma_link_order_stable(
    desc: PlatformDescriptor,
    libev: LibrarySpecView,
    root: Seq<char>,
    build_dir: Seq<char>,
    kind: LinkKind,
    first_engine: Seq<DirectiveView>,
    second_engine: Seq<DirectiveView>,
    first_crypto: Seq<DirectiveView>,
    second_crypto: Seq<DirectiveView>,
)
    requires
        first_engine == engine_link_of(desc, libev),
        second_engine == engine_link_of(desc, libev),
        first_crypto == boringssl_directives_of(root, build_dir, kind),
        second_crypto == boringssl_directives_of(root, build_dir, kind),
    ensures
        first_engine == second_engine,
        first_crypto == second_crypto,
{
}

} // verus!
