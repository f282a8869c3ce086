//! Data model of the orchestration: resolved library locations, build
//! plans, produced artifacts, external tool invocations, and the directives
//! handed to the enclosing build system, together with their spec-level
//! views over character sequences.

use vstd::prelude::*;

verus! {

/// An element of a vector's deep view is the element's deep view.
pub broadcast proof fn lemma_deep_view_index<T: DeepView>(v: Vec<T>, i: int)
    requires
        0 <= i < v@.len(),
    ensures
        #[trigger] v.deep_view()[i] == v@[i].deep_view(),
{
}

/// How a library-name directive asks the linker to bind the library.
#[derive(Clone, Copy, PartialEq, Eq, Structural, Debug)]
pub enum LinkKind {
    /// Let the linker pick its default.
    Default,
    Static,
    Dylib,
    Framework,
}

/// One directive emitted to the enclosing build system. Order of emission
/// is significant to the external linker and is part of every contract.
#[derive(Clone, PartialEq, Eq, Debug)]
pub enum Directive {
    /// A path whose modification must invalidate cached build outputs.
    RerunIfChanged(String),
    /// A native library search path.
    LinkSearch(String),
    /// A library to link, with its link kind.
    LinkLib(LinkKind, String),
    /// A raw linker argument passed through unchanged.
    LinkArg(String),
    /// A linker argument applied only when producing a C dynamic library.
    CdylibLinkArg(String),
    /// Informational warning text.
    Warning(String),
}

/// Spec-level model of a directive.
#[verifier::ext_equal]
pub enum DirectiveView {
    RerunIfChanged(Seq<char>),
    LinkSearch(Seq<char>),
    LinkLib(LinkKind, Seq<char>),
    LinkArg(Seq<char>),
    CdylibLinkArg(Seq<char>),
    Warning(Seq<char>),
}

impl View for Directive {
    type V = DirectiveView;

    open spec fn view(&self) -> DirectiveView {
        match self {
            Directive::RerunIfChanged(s) => DirectiveView::RerunIfChanged(s@),
            Directive::LinkSearch(s) => DirectiveView::LinkSearch(s@),
            Directive::LinkLib(k, s) => DirectiveView::LinkLib(*k, s@),
            Directive::LinkArg(s) => DirectiveView::LinkArg(s@),
            Directive::CdylibLinkArg(s) => DirectiveView::CdylibLinkArg(s@),
            Directive::Warning(s) => DirectiveView::Warning(s@),
        }
    }
}

impl DeepView for Directive {
    type V = DirectiveView;

    open spec fn deep_view(&self) -> DirectiveView {
        self.view()
    }
}

/// Resolved locations of a native library: where its headers live, where
/// its binary objects live, and under which names they are linked.
#[derive(Clone, PartialEq, Eq, Debug)]
pub struct LibrarySpec {
    pub name: String,
    pub include_paths: Vec<String>,
    pub link_paths: Vec<String>,
    pub link_names: Vec<String>,
}

/// Spec-level model of a resolved library.
#[verifier::ext_equal]
pub struct LibrarySpecView {
    pub name: Seq<char>,
    pub include_paths: Seq<Seq<char>>,
    pub link_paths: Seq<Seq<char>>,
    pub link_names: Seq<Seq<char>>,
}

impl View for LibrarySpec {
    type V = LibrarySpecView;

    open spec fn view(&self) -> LibrarySpecView {
        LibrarySpecView {
            name: self.name@,
            include_paths: self.include_paths.deep_view(),
            link_paths: self.link_paths.deep_view(),
            link_names: self.link_names.deep_view(),
        }
    }
}

impl DeepView for LibrarySpec {
    type V = LibrarySpecView;

    open spec fn deep_view(&self) -> LibrarySpecView {
        self.view()
    }
}

/// A compilation plan: source files, header search paths, preprocessor
/// definitions and compiler flags, each in application order (when a later
/// entry contradicts an earlier one, the later wins).
#[derive(Clone, PartialEq, Eq, Debug)]
pub struct BuildPlan {
    pub sources: Vec<String>,
    pub include_paths: Vec<String>,
    pub defines: Vec<(String, Option<String>)>,
    pub flags: Vec<String>,
}

/// Spec-level model of a compilation plan.
#[verifier::ext_equal]
pub struct BuildPlanView {
    pub sources: Seq<Seq<char>>,
    pub include_paths: Seq<Seq<char>>,
    pub defines: Seq<(Seq<char>, Option<Seq<char>>)>,
    pub flags: Seq<Seq<char>>,
}

impl View for BuildPlan {
    type V = BuildPlanView;

    open spec fn view(&self) -> BuildPlanView {
        BuildPlanView {
            sources: self.sources.deep_view(),
            include_paths: self.include_paths.deep_view(),
            defines: self.defines.deep_view(),
            flags: self.flags.deep_view(),
        }
    }
}

impl DeepView for BuildPlan {
    type V = BuildPlanView;

    open spec fn deep_view(&self) -> BuildPlanView {
        self.view()
    }
}

/// The shape of a produced artifact.
#[derive(Clone, Copy, PartialEq, Eq, Structural, Debug)]
pub enum ArtifactKind {
    StaticArchive,
    SharedObject,
    FatArchive,
}

/// A produced build artifact, consumed only by the directive emitter.
#[derive(Clone, PartialEq, Eq, Debug)]
pub struct Artifact {
    pub kind: ArtifactKind,
    pub path: String,
}

/// Spec-level model of an artifact.
#[verifier::ext_equal]
pub struct ArtifactView {
    pub kind: ArtifactKind,
    pub path: Seq<char>,
}

impl View for Artifact {
    type V = ArtifactView;

    open spec fn view(&self) -> ArtifactView {
        ArtifactView { kind: self.kind, path: self.path@ }
    }
}

impl DeepView for Artifact {
    type V = ArtifactView;

    open spec fn deep_view(&self) -> ArtifactView {
        self.view()
    }
}

/// A fully determined external tool invocation: program name and ordered
/// argument list. The unverified shell runs it and reports the outcome.
#[derive(Clone, PartialEq, Eq, Debug)]
pub struct ToolInvocation {
    pub program: String,
    pub args: Vec<String>,
}

/// Spec-level model of a tool invocation.
#[verifier::ext_equal]
pub struct ToolInvocationView {
    pub program: Seq<char>,
    pub args: Seq<Seq<char>>,
}

impl View for ToolInvocation {
    type V = ToolInvocationView;

    open spec fn view(&self) -> ToolInvocationView {
        ToolInvocationView { program: self.program@, args: self.args.deep_view() }
    }
}

impl DeepView for ToolInvocation {
    type V = ToolInvocationView;

    open spec fn deep_view(&self) -> ToolInvocationView {
        self.view()
    }
}

} // verus!
