//! The packaging stage: a state machine keyed on the operating system.
//! Android builds a shared object through the NDK's C++ driver with
//! whole-archive linking; iOS merges the intermediate archives into one
//! fat static archive, with an automatic fallback tool; every other
//! platform passes the intermediate archives through unchanged.

use vstd::prelude::*;
use vstd::string::*;
use crate::model::{Artifact, ArtifactKind, ArtifactView, Directive, DirectiveView, ToolInvocation, ToolInvocationView};
use crate::platform::{Diagnostic, Os, PlatformDescriptor};
use crate::text::{has_prefix, str_has_prefix};

verus! {

broadcast use crate::model::lemma_deep_view_index;

/// The NDK toolchain prefix for a target triple, selected by
/// architecture prefix-matching; `None` for an unsupported target.
pub open spec fn android_triple_of(target: Seq<char>) -> Option<Seq<char>> {
    if has_prefix(target, "aarch64"@) {
        Some("aarch64-linux-android"@)
    } else if has_prefix(target, "armv7"@) {
        Some("armv7a-linux-androideabi"@)
    } else if has_prefix(target, "i686"@) {
        Some("i686-linux-android"@)
    } else if has_prefix(target, "x86_64"@) {
        Some("x86_64-linux-android"@)
    } else {
        None
    }
}

/// The message of the fatal diagnostic for a target triple no NDK
/// toolchain serves.
pub open spec fn unsupported_target_message_of(target: Seq<char>) -> Seq<char> {
    "unsupported target: "@ + target
}

/// Select the NDK toolchain prefix for a target triple; an unrecognized
/// triple is a fatal unsupported-target error.
pub fn android_toolchain_triple(target: &str) -> (r: Result<String, Diagnostic>)
    ensures
        r is Ok <==> android_triple_of(target@) is Some,
        r matches Ok(s) ==> Some(s@) == android_triple_of(target@),
        r matches Err(d) ==> d.is_fatal_with(unsupported_target_message_of(target@)),
{
    if str_has_prefix(target, "aarch64") {
        Ok(String::from_str("aarch64-linux-android"))
    } else if str_has_prefix(target, "armv7") {
        Ok(String::from_str("armv7a-linux-androideabi"))
    } else if str_has_prefix(target, "i686") {
        Ok(String::from_str("i686-linux-android"))
    } else if str_has_prefix(target, "x86_64") {
        Ok(String::from_str("x86_64-linux-android"))
    } else {
        Err(Diagnostic::fatal(String::from_str("unsupported target: ").concat(target)))
    }
}

/// The NDK C++ driver binary for a toolchain prefix and API level.
pub open spec fn android_linker_of(
    ndk_home: Seq<char>,
    triple: Seq<char>,
    api_level: Seq<char>,
) -> Seq<char> {
    ndk_home + "/toolchains/llvm/prebuilt/linux-x86_64/bin/"@ + triple + api_level + "-clang++"@
}

/// The NDK driver's arguments: a shared object from both intermediate
/// archives under whole-archive linking, plus the platform runtime, log
/// and math libraries, in exactly this order.
pub open spec fn android_link_args_of(
    engine_archive: Seq<char>,
    crypto_archive: Seq<char>,
    output: Seq<char>,
) -> Seq<Seq<char>> {
    seq![
        "-shared"@,
        "-o"@,
        output,
        "-Wl,--whole-archive"@,
        engine_archive,
        crypto_archive,
        "-Wl,--no-whole-archive"@,
        "-lc++_shared"@,
        "-llog"@,
        "-lm"@,
    ]
}

/// The whole Android shared-object link step.
pub open spec fn android_link_of(
    ndk_home: Seq<char>,
    triple: Seq<char>,
    api_level: Seq<char>,
    engine_archive: Seq<char>,
    crypto_archive: Seq<char>,
    output: Seq<char>,
) -> ToolInvocationView {
    ToolInvocationView {
        program: android_linker_of(ndk_home, triple, api_level),
        args: android_link_args_of(engine_archive, crypto_archive, output),
    }
}

/// Build the Android shared-object link invocation.
pub fn android_link_invocation(
    ndk_home: &str,
    triple: &str,
    api_level: &str,
    engine_archive: &str,
    crypto_archive: &str,
    output: &str,
) -> (r: ToolInvocation)
    ensures
        r.deep_view() == android_link_of(
            ndk_home@,
            triple@,
            api_level@,
            engine_archive@,
            crypto_archive@,
            output@,
        ),
{
    let program = String::from_str(ndk_home).concat(
        "/toolchains/llvm/prebuilt/linux-x86_64/bin/",
    ).concat(triple).concat(api_level).concat("-clang++");
    let mut args: Vec<String> = Vec::new();
    args.push(String::from_str("-shared"));
    args.push(String::from_str("-o"));
    args.push(String::from_str(output));
    args.push(String::from_str("-Wl,--whole-archive"));
    args.push(String::from_str(engine_archive));
    args.push(String::from_str(crypto_archive));
    args.push(String::from_str("-Wl,--no-whole-archive"));
    args.push(String::from_str("-lc++_shared"));
    args.push(String::from_str("-llog"));
    args.push(String::from_str("-lm"));
    let r = ToolInvocation { program, args };
    proof {
        assert(r.deep_view() =~~= android_link_of(
            ndk_home@,
            triple@,
            api_level@,
            engine_archive@,
            crypto_archive@,
            output@,
        ));
    }
    r
}

/// The warnings a failed packaging sub-step degrades to: the run
/// continues with the unmerged intermediate archives, and the captured
/// tool output is surfaced without aborting.
pub open spec fn degraded_packaging_warnings_of(
    captured_stdout: Seq<char>,
    captured_stderr: Seq<char>,
) -> Seq<DirectiveView> {
    seq![
        DirectiveView::Warning("packaging step failed; continuing with unmerged archives"@),
        DirectiveView::Warning(captured_stdout),
        DirectiveView::Warning(captured_stderr),
    ]
}

/// Report a failed packaging sub-step as warnings.
pub fn degraded_packaging_warnings(captured_stdout: &str, captured_stderr: &str) -> (r: Vec<
    Directive,
>)
    ensures
        r.deep_view() == degraded_packaging_warnings_of(captured_stdout@, captured_stderr@),
{
    let mut r: Vec<Directive> = Vec::new();
    r.push(
        Directive::Warning(
            String::from_str("packaging step failed; continuing with unmerged archives"),
        ),
    );
    r.push(Directive::Warning(String::from_str(captured_stdout)));
    r.push(Directive::Warning(String::from_str(captured_stderr)));
    proof {
        assert(r.deep_view() =~~= degraded_packaging_warnings_of(captured_stdout@, captured_stderr@));
    }
    r
}

/// What both merge tools are told: the merged output first, then the two
/// member archives, in the same order.
pub open spec fn merge_tail_of(
    engine_archive: Seq<char>,
    crypto_archive: Seq<char>,
    output: Seq<char>,
) -> Seq<Seq<char>> {
    seq![output, engine_archive, crypto_archive]
}

/// The primary fat-archive merge tool invocation.
pub open spec fn primary_merge_of(
    engine_archive: Seq<char>,
    crypto_archive: Seq<char>,
    output: Seq<char>,
) -> ToolInvocationView {
    ToolInvocationView {
        program: "libtool"@,
        args: seq!["-static"@, "-o"@] + merge_tail_of(engine_archive, crypto_archive, output),
    }
}

/// The fallback generic archive tool invocation.
pub open spec fn fallback_merge_of(
    engine_archive: Seq<char>,
    crypto_archive: Seq<char>,
    output: Seq<char>,
) -> ToolInvocationView {
    ToolInvocationView {
        program: "ar"@,
        args: seq!["crs"@] + merge_tail_of(engine_archive, crypto_archive, output),
    }
}

/// Build the primary fat-archive merge invocation.
pub fn ios_primary_merge(engine_archive: &str, crypto_archive: &str, output: &str) -> (r:
    ToolInvocation)
    ensures
        r.deep_view() == primary_merge_of(engine_archive@, crypto_archive@, output@),
{
    let mut args: Vec<String> = Vec::new();
    args.push(String::from_str("-static"));
    args.push(String::from_str("-o"));
    args.push(String::from_str(output));
    args.push(String::from_str(engine_archive));
    args.push(String::from_str(crypto_archive));
    let r = ToolInvocation { program: String::from_str("libtool"), args };
    proof {
        assert(r.deep_view() =~~= primary_merge_of(engine_archive@, crypto_archive@, output@));
    }
    r
}

/// Build the fallback merge invocation.
pub fn ios_fallback_merge(engine_archive: &str, crypto_archive: &str, output: &str) -> (r:
    ToolInvocation)
    ensures
        r.deep_view() == fallback_merge_of(engine_archive@, crypto_archive@, output@),
{
    let mut args: Vec<String> = Vec::new();
    args.push(String::from_str("crs"));
    args.push(String::from_str(output));
    args.push(String::from_str(engine_archive));
    args.push(String::from_str(crypto_archive));
    let r = ToolInvocation { program: String::from_str("ar"), args };
    proof {
        assert(r.deep_view() =~~= fallback_merge_of(engine_archive@, crypto_archive@, output@));
    }
    r
}

/// Decide the step after the primary merge: a failed or absent primary
/// tool hands the same inputs to the fallback tool; a successful primary
/// ends the merge.
pub fn ios_merge_after_primary(
    primary_succeeded: bool,
    engine_archive: &str,
    crypto_archive: &str,
    output: &str,
) -> (r: Option<ToolInvocation>)
    ensures
        primary_succeeded <==> r is None,
        r matches Some(t) ==> t.deep_view() == fallback_merge_of(
            engine_archive@,
            crypto_archive@,
            output@,
        ),
{
    if primary_succeeded {
        None
    } else {
        Some(ios_fallback_merge(engine_archive, crypto_archive, output))
    }
}

/// The fallback merge is invoked with inputs equivalent to the primary's:
/// past each tool's own mode arguments, both name the same output and the
/// same member archives, in the same order.
pub proof fn lemma_merge_fallback_equivalent(
    engine_archive: Seq<char>,
    crypto_archive: Seq<char>,
    output: Seq<char>,
)
    ensures
        primary_merge_of(engine_archive, crypto_archive, output).args == seq!["-static"@, "-o"@]
            + merge_tail_of(engine_archive, crypto_archive, output),
        fallback_merge_of(engine_archive, crypto_archive, output).args == seq!["crs"@]
            + merge_tail_of(engine_archive, crypto_archive, output),
        primary_merge_of(engine_archive, crypto_archive, output).args.skip(2)
            == fallback_merge_of(engine_archive, crypto_archive, output).args.skip(1),
{
    assert(primary_merge_of(engine_archive, crypto_archive, output).args.skip(2) =~= merge_tail_of(
        engine_archive,
        crypto_archive,
        output,
    ));
    assert(fallback_merge_of(engine_archive, crypto_archive, output).args.skip(1) =~= merge_tail_of(
        engine_archive,
        crypto_archive,
        output,
    ));
}

/// What the packaging stage does for a platform.
#[derive(Clone, PartialEq, Eq, Debug)]
pub enum PackagingAction {
    /// Run the NDK link invocation; the shared object lands at the
    /// artifact's stable location.
    BuildSharedObject(ToolInvocation, Artifact),
    /// Run the primary merge; on its failure, run the fallback; the merged
    /// fat archive lands at the artifact's stable location.
    MergeFatArchive(ToolInvocation, ToolInvocation, Artifact),
    /// Pass the intermediate archives through unchanged.
    PassThrough,
}

/// Spec-level model of a packaging action.
#[verifier::ext_equal]
pub enum PackagingActionView {
    BuildSharedObject(ToolInvocationView, ArtifactView),
    MergeFatArchive(ToolInvocationView, ToolInvocationView, ArtifactView),
    PassThrough,
}

impl View for PackagingAction {
    type V = PackagingActionView;

    open spec fn view(&self) -> PackagingActionView {
        match self {
            PackagingAction::BuildSharedObject(t, a) => PackagingActionView::BuildSharedObject(
                t.deep_view(),
                a.deep_view(),
            ),
            PackagingAction::MergeFatArchive(p, f, a) => PackagingActionView::MergeFatArchive(
                p.deep_view(),
                f.deep_view(),
                a.deep_view(),
            ),
            PackagingAction::PassThrough => PackagingActionView::PassThrough,
        }
    }
}

impl DeepView for PackagingAction {
    type V = PackagingActionView;

    open spec fn deep_view(&self) -> PackagingActionView {
        self.view()
    }
}

/// The shared-object output location for the packaging stage.
pub open spec fn shared_object_path_of(out_dir: Seq<char>) -> Seq<char> {
    out_dir + "/libquiche_engine.so"@
}

/// The fat-archive output location for the packaging stage.
pub open spec fn fat_archive_path_of(out_dir: Seq<char>) -> Seq<char> {
    out_dir + "/libquiche_engine.a"@
}

/// The packaging decision for a platform; `None` is the fatal
/// unsupported-target case on Android.
pub open spec fn packaging_action_of(
    desc: PlatformDescriptor,
    target: Seq<char>,
    ndk_home: Seq<char>,
    api_level: Seq<char>,
    engine_archive: Seq<char>,
    crypto_archive: Seq<char>,
    out_dir: Seq<char>,
) -> Option<PackagingActionView> {
    if desc.os == Os::Android {
        match android_triple_of(target) {
            Some(triple) => Some(
                PackagingActionView::BuildSharedObject(
                    android_link_of(
                        ndk_home,
                        triple,
                        api_level,
                        engine_archive,
                        crypto_archive,
                        shared_object_path_of(out_dir),
                    ),
                    ArtifactView {
                        kind: ArtifactKind::SharedObject,
                        path: shared_object_path_of(out_dir),
                    },
                ),
            ),
            None => None,
        }
    } else if desc.os == Os::Ios {
        Some(
            PackagingActionView::MergeFatArchive(
                primary_merge_of(engine_archive, crypto_archive, fat_archive_path_of(out_dir)),
                fallback_merge_of(engine_archive, crypto_archive, fat_archive_path_of(out_dir)),
                ArtifactView { kind: ArtifactKind::FatArchive, path: fat_archive_path_of(out_dir) },
            ),
        )
    } else {
        Some(PackagingActionView::PassThrough)
    }
}

/// Plan the packaging stage for a platform; on Android an unrecognized
/// target triple is a fatal unsupported-target error.
pub fn plan_packaging(
    desc: &PlatformDescriptor,
    target: &str,
    ndk_home: &str,
    api_level: &str,
    engine_archive: &str,
    crypto_archive: &str,
    out_dir: &str,
) -> (r: Result<PackagingAction, Diagnostic>)
    ensures
        r is Ok <==> packaging_action_of(
            *desc,
            target@,
            ndk_home@,
            api_level@,
            engine_archive@,
            crypto_archive@,
            out_dir@,
        ) is Some,
        r matches Ok(a) ==> Some(a.deep_view()) == packaging_action_of(
            *desc,
            target@,
            ndk_home@,
            api_level@,
            engine_archive@,
            crypto_archive@,
            out_dir@,
        ),
        r matches Err(d) ==> d.is_fatal_with(unsupported_target_message_of(target@)),
{
    if desc.os == Os::Android {
        let triple = match android_toolchain_triple(target) {
            Ok(t) => t,
            Err(d) => {
                return Err(d);
            },
        };
        let output = String::from_str(out_dir).concat("/libquiche_engine.so");
        let inv = android_link_invocation(
            ndk_home,
            triple.as_str(),
            api_level,
            engine_archive,
            crypto_archive,
            output.as_str(),
        );
        let a = PackagingAction::BuildSharedObject(
            inv,
            Artifact { kind: ArtifactKind::SharedObject, path: output },
        );
        proof {
            assert(a.deep_view() =~~= packaging_action_of(
                *desc,
                target@,
                ndk_home@,
                api_level@,
                engine_archive@,
                crypto_archive@,
                out_dir@,
            )->0);
        }
        Ok(a)
    } else if desc.os == Os::Ios {
        let output = String::from_str(out_dir).concat("/libquiche_engine.a");
        let primary = ios_primary_merge(engine_archive, crypto_archive, output.as_str());
        let fallback = ios_fallback_merge(engine_archive, crypto_archive, output.as_str());
        let a = PackagingAction::MergeFatArchive(
            primary,
            fallback,
            Artifact { kind: ArtifactKind::FatArchive, path: output },
        );
        proof {
            assert(a.deep_view() =~~= packaging_action_of(
                *desc,
                target@,
                ndk_home@,
                api_level@,
                engine_archive@,
                crypto_archive@,
                out_dir@,
            )->0);
        }
        Ok(a)
    } else {
        Ok(PackagingAction::PassThrough)
    }
}

} // verus!
