//! The cryptography build driver: plans the external CMake-driven build of
//! the vendored cryptography library (two sub-targets, optional fuzz-mode
//! definitions), corrects the archive directory for toolchain-specific
//! output nesting, and emits the directives that link the result.

use vstd::prelude::*;
use vstd::string::*;
use crate::matrix::{crypto_cmake_params, crypto_fuzz_flags, crypto_params_of, fuzz_flags_of};
use crate::model::{Directive, DirectiveView, LinkKind};
use crate::platform::PlatformDescriptor;
use crate::text::str_eq;

verus! {

/// Everything the external CMake build needs: the bundled source
/// directory, the toolchain parameters, per-family compiler flags, and the
/// sub-targets to build, in order.
#[derive(Clone, PartialEq, Eq, Debug)]
pub struct CmakePlan {
    pub source_dir: String,
    pub params: Vec<(String, String)>,
    pub cflags: Vec<String>,
    pub cxxflags: Vec<String>,
    pub build_targets: Vec<String>,
}

/// Spec-level model of a CMake build plan.
#[verifier::ext_equal]
pub struct CmakePlanView {
    pub source_dir: Seq<char>,
    pub params: Seq<(Seq<char>, Seq<char>)>,
    pub cflags: Seq<Seq<char>>,
    pub cxxflags: Seq<Seq<char>>,
    pub build_targets: Seq<Seq<char>>,
}

impl View for CmakePlan {
    type V = CmakePlanView;

    open spec fn view(&self) -> CmakePlanView {
        CmakePlanView {
            source_dir: self.source_dir@,
            params: self.params.deep_view(),
            cflags: self.cflags.deep_view(),
            cxxflags: self.cxxflags.deep_view(),
            build_targets: self.build_targets.deep_view(),
        }
    }
}

impl DeepView for CmakePlan {
    type V = CmakePlanView;

    open spec fn deep_view(&self) -> CmakePlanView {
        self.view()
    }
}

/// The plan for the vendored cryptography build: bundled sources, the
/// configuration matrix's parameters, fuzz-mode definitions for both
/// compiler families when fuzzing is requested, and the two sub-targets
/// (signing/record layer, then primitives), in order.
pub open spec fn boringssl_plan_of(
    desc: PlatformDescriptor,
    fuzzing: bool,
    ndk_home: Seq<char>,
    api_level: Seq<char>,
) -> CmakePlanView {
    CmakePlanView {
        source_dir: "deps/boringssl"@,
        params: crypto_params_of(desc, ndk_home, api_level),
        cflags: if fuzzing {
            fuzz_flags_of()
        } else {
            Seq::empty()
        },
        cxxflags: if fuzzing {
            fuzz_flags_of()
        } else {
            Seq::empty()
        },
        build_targets: seq!["ssl"@, "crypto"@],
    }
}

/// Plan the vendored cryptography build for a platform.
pub fn boringssl_cmake_plan(
    desc: &PlatformDescriptor,
    fuzzing: bool,
    ndk_home: &str,
    api_level: &str,
) -> (r: CmakePlan)
    ensures
        r.deep_view() == boringssl_plan_of(*desc, fuzzing, ndk_home@, api_level@),
{
    let cflags: Vec<String> = if fuzzing {
        crypto_fuzz_flags()
    } else {
        Vec::new()
    };
    let cxxflags: Vec<String> = if fuzzing {
        crypto_fuzz_flags()
    } else {
        Vec::new()
    };
    let mut build_targets: Vec<String> = Vec::new();
    build_targets.push(String::from_str("ssl"));
    build_targets.push(String::from_str("crypto"));
    let r = CmakePlan {
        source_dir: String::from_str("deps/boringssl"),
        params: crypto_cmake_params(desc, ndk_home, api_level),
        cflags,
        cxxflags,
        build_targets,
    };
    proof {
        assert(r.deep_view() =~~= boringssl_plan_of(*desc, fuzzing, ndk_home@, api_level@));
    }
    r
}

/// Where the built archives are expected: nested under
/// `<build-root>/build/<platform-subdir>`.
pub open spec fn build_dir_candidate_of(root: Seq<char>, subdir: Seq<char>) -> Seq<char> {
    root + "/build/"@ + subdir
}

/// The nested directory the generator may have placed the archives in.
pub fn boringssl_build_dir_candidate(root: &str, subdir: &str) -> (r: String)
    ensures
        r@ == build_dir_candidate_of(root@, subdir@),
{
    String::from_str(root).concat("/build/").concat(subdir)
}

/// The true archive directory: the nested candidate when it exists as a
/// directory, else the build root itself (generators that do not nest by
/// configuration).
pub open spec fn build_dir_of(root: Seq<char>, subdir: Seq<char>, candidate_is_dir: bool) -> Seq<
    char,
> {
    if candidate_is_dir {
        build_dir_candidate_of(root, subdir)
    } else {
        root
    }
}

/// Correct the archive directory for output nesting; `candidate_is_dir`
/// reports whether the nested candidate exists as a directory.
pub fn boringssl_build_dir(root: &str, subdir: &str, candidate_is_dir: bool) -> (r: String)
    ensures
        r@ == build_dir_of(root@, subdir@, candidate_is_dir),
{
    if candidate_is_dir {
        boringssl_build_dir_candidate(root, subdir)
    } else {
        String::from_str(root)
    }
}

/// Which link kind a link-kind override name denotes; anything but the
/// dynamic name keeps the static default.
pub open spec fn link_kind_of(s: Seq<char>) -> LinkKind {
    if s == "dylib"@ {
        LinkKind::Dylib
    } else {
        LinkKind::Static
    }
}

/// Parse the link-kind override.
pub fn parse_link_kind(s: &str) -> (r: LinkKind)
    ensures
        r == link_kind_of(s@),
{
    if str_eq(s, "dylib") {
        LinkKind::Dylib
    } else {
        LinkKind::Static
    }
}

/// The directives that make the cryptography build's output consumable:
/// a runtime search path embedded at the build root, the corrected archive
/// directory as a native search path, and the two library names under the
/// configured link kind, in this order.
pub open spec fn boringssl_directives_of(
    root: Seq<char>,
    build_dir: Seq<char>,
    kind: LinkKind,
) -> Seq<DirectiveView> {
    seq![
        DirectiveView::LinkArg("-Wl,-rpath,"@ + root),
        DirectiveView::LinkSearch(build_dir),
        DirectiveView::LinkLib(kind, "ssl"@),
        DirectiveView::LinkLib(kind, "crypto"@),
    ]
}

/// Emit the link directives for the cryptography build's output.
pub fn boringssl_directives(root: &str, build_dir: &str, kind: LinkKind) -> (r: Vec<Directive>)
    ensures
        r.deep_view() == boringssl_directives_of(root@, build_dir@, kind),
{
    let mut r: Vec<Directive> = Vec::new();
    r.push(Directive::LinkArg(String::from_str("-Wl,-rpath,").concat(root)));
    r.push(Directive::LinkSearch(String::from_str(build_dir)));
    r.push(Directive::LinkLib(kind, String::from_str("ssl")));
    r.push(Directive::LinkLib(kind, String::from_str("crypto")));
    proof {
        assert(r.deep_view() =~~= boringssl_directives_of(root@, build_dir@, kind));
    }
    r
}

} // verus!
