//! The dependency resolver: an ordered probe chain over independent
//! discovery strategies, tried strictly in order with first success
//! winning. The unverified shell performs each probe (a package-metadata
//! query, filesystem checks, a vendored build) and feeds its outcome back;
//! every decision between probes is made here.

use vstd::prelude::*;
use vstd::string::*;
use crate::model::{LibrarySpec, LibrarySpecView};
use crate::platform::Diagnostic;

verus! {

/// The discovery strategies, in chain order.
#[derive(Clone, Copy, PartialEq, Eq, Structural, Debug)]
pub enum ProbeStrategy {
    /// Trust an environment-provided path unconditionally.
    ExplicitOverride,
    /// Query the system package-metadata tool.
    PackageMetadata,
    /// Scan a fixed, ordered list of filesystem prefixes.
    CommonPaths,
    /// Build the library from bundled source.
    VendoredBuild,
}

/// Position of a strategy in the chain.
pub open spec fn rank(s: ProbeStrategy) -> int {
    match s {
        ProbeStrategy::ExplicitOverride => 0,
        ProbeStrategy::PackageMetadata => 1,
        ProbeStrategy::CommonPaths => 2,
        ProbeStrategy::VendoredBuild => 3,
    }
}

/// Everything the resolver needs to know about the library it resolves
/// and about the ambient configuration, gathered once by the caller.
#[derive(Clone, PartialEq, Eq, Debug)]
pub struct ResolverConfig {
    /// The name the package-metadata tool knows the library under.
    pub library: String,
    /// The name the linker binds the library under.
    pub link_name: String,
    /// The header file whose presence proves an installed copy.
    pub header: String,
    /// The environment-provided override path, when set.
    pub override_path: Option<String>,
    /// Whether the vendored-build strategy is enabled.
    pub vendored_enabled: bool,
}

/// Spec-level model of the resolver configuration.
#[verifier::ext_equal]
pub struct ResolverConfigView {
    pub library: Seq<char>,
    pub link_name: Seq<char>,
    pub header: Seq<char>,
    pub override_path: Option<Seq<char>>,
    pub vendored_enabled: bool,
}

impl View for ResolverConfig {
    type V = ResolverConfigView;

    open spec fn view(&self) -> ResolverConfigView {
        ResolverConfigView {
            library: self.library@,
            link_name: self.link_name@,
            header: self.header@,
            override_path: self.override_path.deep_view(),
            vendored_enabled: self.vendored_enabled,
        }
    }
}

/// What one probe reported back.
#[derive(Clone, PartialEq, Eq, Debug)]
pub enum ProbeOutcome {
    /// The strategy located (or built) the library.
    Success(LibrarySpec),
    /// The strategy did not find the library; the next one is tried.
    Miss,
    /// The strategy hit an unrecoverable condition; the chain stops here.
    Fatal(Diagnostic),
}

/// The resolver's verdict after a step: done, keep probing, or give up.
#[derive(Clone, PartialEq, Eq, Debug)]
pub enum Resolution {
    /// Resolution succeeded with these library locations.
    Resolved(LibrarySpec),
    /// Invoke this strategy next and report its outcome.
    Next(ProbeStrategy),
    /// A fatal, user-facing diagnostic: a strategy failed unrecoverably,
    /// or every strategy missed.
    Failed(Diagnostic),
}

/// The strategy tried after `cur` misses, if any: the chain is strictly
/// ordered, and the vendored build takes part only when enabled.
pub open spec fn next_strategy_of(cfg: ResolverConfigView, cur: ProbeStrategy) -> Option<
    ProbeStrategy,
> {
    match cur {
        ProbeStrategy::ExplicitOverride => Some(ProbeStrategy::PackageMetadata),
        ProbeStrategy::PackageMetadata => Some(ProbeStrategy::CommonPaths),
        ProbeStrategy::CommonPaths => if cfg.vendored_enabled {
            Some(ProbeStrategy::VendoredBuild)
        } else {
            None
        },
        ProbeStrategy::VendoredBuild => None,
    }
}

/// The library locations rooted at an installation prefix: headers under
/// `<prefix>/include`, binaries under `<prefix>/lib`, one link name.
pub open spec fn prefix_spec_of(cfg: ResolverConfigView, prefix: Seq<char>) -> LibrarySpecView {
    LibrarySpecView {
        name: cfg.library,
        include_paths: seq![prefix + "/include"@],
        link_paths: seq![prefix + "/lib"@],
        link_names: seq![cfg.link_name],
    }
}

/// Build the library locations rooted at an installation prefix.
pub fn library_spec_at_prefix(cfg: &ResolverConfig, prefix: &str) -> (r: LibrarySpec)
    ensures
        r.deep_view() == prefix_spec_of(cfg@, prefix@),
{
    let mut include_paths: Vec<String> = Vec::new();
    include_paths.push(String::from_str(prefix).concat("/include"));
    let mut link_paths: Vec<String> = Vec::new();
    link_paths.push(String::from_str(prefix).concat("/lib"));
    let mut link_names: Vec<String> = Vec::new();
    link_names.push(self_clone(&cfg.link_name));
    let r = LibrarySpec {
        name: self_clone(&cfg.library),
        include_paths,
        link_paths,
        link_names,
    };
    proof {
        assert(r.deep_view() =~~= prefix_spec_of(cfg@, prefix@));
    }
    r
}

/// Clone a string, keeping its characters.
fn self_clone(s: &String) -> (r: String)
    ensures
        r@ == s@,
{
    s.clone()
}

/// The message of the terminal diagnostic once every strategy has missed:
/// per-package-manager installation hints plus the switch that enables the
/// vendored build.
pub open spec fn failure_message_of(library: Seq<char>) -> Seq<char> {
    "failed to locate "@ + library + ": install it (Ubuntu/Debian: apt-get install "@ + library
        + "-dev; macOS: brew install "@ + library + "; Fedora/RHEL: yum install "@ + library
        + "-devel; Windows: vcpkg install "@ + library
        + "), or enable the vendored-build feature"@
}

/// Build the terminal installation-guidance diagnostic text.
pub fn failure_message(library: &str) -> (r: String)
    ensures
        r@ == failure_message_of(library@),
{
    let r = String::from_str("failed to locate ").concat(library).concat(
        ": install it (Ubuntu/Debian: apt-get install ",
    ).concat(library).concat("-dev; macOS: brew install ").concat(library).concat(
        "; Fedora/RHEL: yum install ",
    ).concat(library).concat("-devel; Windows: vcpkg install ").concat(library).concat(
        "), or enable the vendored-build feature",
    );
    proof {
        assert(r@ =~= failure_message_of(library@));
    }
    r
}

/// The CMake plan for the vendored-build strategy: the bundled source
/// tree, a release build of a static library, default target.
pub open spec fn vendored_plan_of() -> crate::crypto::CmakePlanView {
    crate::crypto::CmakePlanView {
        source_dir: "deps/libev"@,
        params: seq![("CMAKE_BUILD_TYPE"@, "Release"@), ("BUILD_SHARED_LIBS"@, "OFF"@)],
        cflags: Seq::empty(),
        cxxflags: Seq::empty(),
        build_targets: Seq::empty(),
    }
}

/// Plan the vendored build of the library from bundled source. The
/// resulting installation prefix, reported back by the caller, roots the
/// resolved library via [`library_spec_at_prefix`].
pub fn vendored_build_plan() -> (r: crate::crypto::CmakePlan)
    ensures
        r.deep_view() == vendored_plan_of(),
{
    let mut params: Vec<(String, String)> = Vec::new();
    params.push((String::from_str("CMAKE_BUILD_TYPE"), String::from_str("Release")));
    params.push((String::from_str("BUILD_SHARED_LIBS"), String::from_str("OFF")));
    let r = crate::crypto::CmakePlan {
        source_dir: String::from_str("deps/libev"),
        params,
        cflags: Vec::new(),
        cxxflags: Vec::new(),
        build_targets: Vec::new(),
    };
    proof {
        assert(r.deep_view() =~~= vendored_plan_of());
    }
    r
}

/// Open the chain: the explicit override, when set, wins immediately and
/// unconditionally; otherwise the package-metadata probe is tried first.
pub fn start_resolution(cfg: &ResolverConfig) -> (r: Resolution)
    ensures
        cfg@.override_path matches Some(p) ==> (r matches Resolution::Resolved(s)
            && s.deep_view() == prefix_spec_of(cfg@, p)),
        cfg@.override_path is None ==> (r matches Resolution::Next(n) && n
            == ProbeStrategy::PackageMetadata),
{
    match &cfg.override_path {
        Some(p) => Resolution::Resolved(library_spec_at_prefix(cfg, p.as_str())),
        None => Resolution::Next(ProbeStrategy::PackageMetadata),
    }
}

/// Consume one probe outcome: first success wins and ends the chain; an
/// unrecoverable failure stops the whole chain with its diagnostic; a
/// miss hands over to the next strategy, or to the terminal diagnostic
/// when none is left.
pub fn advance_resolution(cfg: &ResolverConfig, current: ProbeStrategy, outcome: ProbeOutcome) -> (r:
    Resolution)
    ensures
        outcome matches ProbeOutcome::Success(s) ==> (r matches Resolution::Resolved(t) && t
            == s),
        outcome matches ProbeOutcome::Fatal(d) ==> (r matches Resolution::Failed(e) && e == d),
        outcome is Miss ==> match next_strategy_of(cfg@, current) {
            Some(n) => r matches Resolution::Next(m) && m == n,
            None => r matches Resolution::Failed(d) && d.is_fatal_with(
                failure_message_of(cfg@.library),
            ),
        },
{
    match outcome {
        ProbeOutcome::Success(s) => Resolution::Resolved(s),
        ProbeOutcome::Fatal(d) => Resolution::Failed(d),
        ProbeOutcome::Miss => {
            let next: Option<ProbeStrategy> = match current {
                ProbeStrategy::ExplicitOverride => Some(ProbeStrategy::PackageMetadata),
                ProbeStrategy::PackageMetadata => Some(ProbeStrategy::CommonPaths),
                ProbeStrategy::CommonPaths => if cfg.vendored_enabled {
                    Some(ProbeStrategy::VendoredBuild)
                } else {
                    None
                },
                ProbeStrategy::VendoredBuild => None,
            };
            match next {
                Some(n) => Resolution::Next(n),
                None => Resolution::Failed(
                    Diagnostic::fatal(failure_message(cfg.library.as_str())),
                ),
            }
        },
    }
}

// ---------------------------------------------------------------------------
// The chain as a whole, at the specification level: what running the
// resolver against a fixed assignment of per-strategy outcomes yields, and
// which strategies it invokes along the way. The step functions above are
// exactly one unfolding of these definitions.
// ---------------------------------------------------------------------------

/// Spec-level result of the whole chain.
pub enum ChainResult {
    Resolved(LibrarySpecView),
    Failed,
}

/// Spec-level outcome of one strategy: what it would report if invoked.
pub enum ProbeReport {
    Success(LibrarySpecView),
    Miss,
    Fatal,
}

/// Result of running the chain from strategy `cur` onward, when strategy
/// `k` would report `f(k)`.
pub open spec fn chain_from(
    cfg: ResolverConfigView,
    cur: ProbeStrategy,
    f: spec_fn(ProbeStrategy) -> ProbeReport,
) -> ChainResult
    decreases 3 - rank(cur),
{
    match f(cur) {
        ProbeReport::Success(s) => ChainResult::Resolved(s),
        ProbeReport::Fatal => ChainResult::Failed,
        ProbeReport::Miss => match next_strategy_of(cfg, cur) {
            Some(n) => chain_from(cfg, n, f),
            None => ChainResult::Failed,
        },
    }
}

/// Result of the whole chain: the override, when set, decides alone;
/// otherwise the probes run in order.
pub open spec fn chain_result(
    cfg: ResolverConfigView,
    f: spec_fn(ProbeStrategy) -> ProbeReport,
) -> ChainResult {
    if cfg.override_path is Some {
        ChainResult::Resolved(prefix_spec_of(cfg, cfg.override_path->0))
    } else {
        chain_from(cfg, ProbeStrategy::PackageMetadata, f)
    }
}

/// The strategies the chain invokes from `cur` onward, in order.
pub open spec fn invoked_from(
    cfg: ResolverConfigView,
    cur: ProbeStrategy,
    f: spec_fn(ProbeStrategy) -> ProbeReport,
) -> Seq<ProbeStrategy>
    decreases 3 - rank(cur),
{
    match f(cur) {
        ProbeReport::Miss => match next_strategy_of(cfg, cur) {
            Some(n) => seq![cur] + invoked_from(cfg, n, f),
            None => seq![cur],
        },
        _ => seq![cur],
    }
}

/// The strategies the whole chain invokes; a set override invokes none.
pub open spec fn invoked(
    cfg: ResolverConfigView,
    f: spec_fn(ProbeStrategy) -> ProbeReport,
) -> Seq<ProbeStrategy> {
    if cfg.override_path is Some {
        Seq::empty()
    } else {
        invoked_from(cfg, ProbeStrategy::PackageMetadata, f)
    }
}

/// Every strategy invoked from `cur` onward ranks at least `cur`.
proof fn lemma_invoked_ranks_lower_bound(
    cfg: ResolverConfigView,
    cur: ProbeStrategy,
    f: spec_fn(ProbeStrategy) -> ProbeReport,
)
    ensures
        forall|j: int|
            0 <= j < invoked_from(cfg, cur, f).len() ==> rank(
                #[trigger] invoked_from(cfg, cur, f)[j],
            ) >= rank(cur),
    decreases 3 - rank(cur),
{
    let s = invoked_from(cfg, cur, f);
    if !(f(cur) is Miss) {
        assert(s =~= seq![cur]);
    } else {
        match next_strategy_of(cfg, cur) {
            Some(n) => {
                lemma_invoked_ranks_lower_bound(cfg, n, f);
                let rest = invoked_from(cfg, n, f);
                assert(s =~= seq![cur] + rest);
                assert forall|j: int| 0 <= j < s.len() implies rank(s[j]) >= rank(cur) by {
                    if j == 0 {
                        assert(s[j] == cur);
                    } else {
                        assert(s[j] == rest[j - 1]);
                        assert(rank(rest[j - 1]) >= rank(n));
                    }
                }
            },
            None => {
                assert(s =~= seq![cur]);
            },
        }
    }
}

/// From `cur` onward, if a strategy `k` whose outcome would end the
/// chain is invoked, nothing invoked ranks past `k`.
proof fn lemma_monotonic_from(
    cfg: ResolverConfigView,
    cur: ProbeStrategy,
    f: spec_fn(ProbeStrategy) -> ProbeReport,
    k: ProbeStrategy,
)
    requires
        !(f(k) is Miss),
        invoked_from(cfg, cur, f).contains(k),
    ensures
        forall|j: int|
            0 <= j < invoked_from(cfg, cur, f).len() ==> rank(
                #[trigger] invoked_from(cfg, cur, f)[j],
            ) <= rank(k),
    decreases 3 - rank(cur),
{
    let s = invoked_from(cfg, cur, f);
    if !(f(cur) is Miss) {
        assert(s =~= seq![cur]);
        assert(k == cur);
    } else {
        match next_strategy_of(cfg, cur) {
            Some(n) => {
                let rest = invoked_from(cfg, n, f);
                assert(s =~= seq![cur] + rest);
                assert(k != cur);
                let i = choose|i: int| 0 <= i < s.len() && s[i] == k;
                assert(s[i] == rest[i - 1]);
                assert(rest.contains(k));
                lemma_monotonic_from(cfg, n, f, k);
                lemma_invoked_ranks_lower_bound(cfg, n, f);
                let w = choose|w: int| 0 <= w < rest.len() && rest[w] == k;
                assert(rank(rest[w]) >= rank(n));
                assert(rank(k) >= rank(n));
                assert(rank(cur) < rank(n));
                assert forall|j: int| 0 <= j < s.len() implies rank(s[j]) <= rank(k) by {
                    if j == 0 {
                        assert(s[j] == cur);
                    } else {
                        assert(s[j] == rest[j - 1]);
                        assert(rank(rest[j - 1]) <= rank(k));
                    }
                }
            },
            None => {
                assert(s =~= seq![cur]);
                assert(k == cur);
            },
        }
    }
}

/// The probe chain is monotonic and short-circuits: when a strategy
/// whose outcome ends the chain — a success, or a fatal failure — is
/// reached, no strategy later in the chain is ever invoked.
pub proof fn lemma_probe_chain_monotonic(
    cfg: ResolverConfigView,
    f: spec_fn(ProbeStrategy) -> ProbeReport,
    k: ProbeStrategy,
)
    requires
        !(f(k) is Miss),
        invoked(cfg, f).contains(k),
    ensures
        forall|j: int|
            0 <= j < invoked(cfg, f).len() ==> rank(#[trigger] invoked(cfg, f)[j]) <= rank(k),
{
    lemma_monotonic_from(cfg, ProbeStrategy::PackageMetadata, f, k);
}

// ---------------------------------------------------------------------------
// The common-path scan: a fixed, ordered list of filesystem prefixes; a
// prefix matches when the library's header exists under `<prefix>/include`
// and at least one recognized library-file naming convention exists under
// `<prefix>/lib`. The unverified shell performs the existence checks; the
// first-match decision is made here.
// ---------------------------------------------------------------------------

/// The existence checks reported for one candidate prefix.
#[derive(Clone, PartialEq, Eq, Debug)]
pub struct PathProbe {
    /// The installation prefix that was checked.
    pub prefix: String,
    /// The library's header exists under `<prefix>/include`.
    pub header_found: bool,
    /// A static archive (`lib<name>.a`) exists under `<prefix>/lib`.
    pub static_lib_found: bool,
    /// An Apple dynamic library (`lib<name>.dylib`) exists there.
    pub apple_dylib_found: bool,
    /// A Unix shared object (`lib<name>.so`) exists there.
    pub unix_dylib_found: bool,
}

/// Spec-level model of one prefix's checks.
#[verifier::ext_equal]
pub struct PathProbeView {
    pub prefix: Seq<char>,
    pub header_found: bool,
    pub static_lib_found: bool,
    pub apple_dylib_found: bool,
    pub unix_dylib_found: bool,
}

impl View for PathProbe {
    type V = PathProbeView;

    open spec fn view(&self) -> PathProbeView {
        PathProbeView {
            prefix: self.prefix@,
            header_found: self.header_found,
            static_lib_found: self.static_lib_found,
            apple_dylib_found: self.apple_dylib_found,
            unix_dylib_found: self.unix_dylib_found,
        }
    }
}

impl DeepView for PathProbe {
    type V = PathProbeView;

    open spec fn deep_view(&self) -> PathProbeView {
        self.view()
    }
}

/// A prefix matches when the header and at least one recognized
/// library-file naming convention were found.
pub open spec fn probe_matches(p: PathProbeView) -> bool {
    p.header_found && (p.static_lib_found || p.apple_dylib_found || p.unix_dylib_found)
}

/// Index of the first matching prefix, if any.
pub open spec fn first_match_index(probes: Seq<PathProbeView>) -> Option<int>
    decreases probes.len(),
{
    if probes.len() == 0 {
        None
    } else if probe_matches(probes[0]) {
        Some(0)
    } else {
        match first_match_index(probes.drop_first()) {
            Some(i) => Some(i + 1),
            None => None,
        }
    }
}

/// A match at `i` with no match before it makes `i` the first match.
proof fn lemma_first_match_at(probes: Seq<PathProbeView>, i: int)
    requires
        0 <= i < probes.len(),
        probe_matches(probes[i]),
        forall|j: int| 0 <= j < i ==> !probe_matches(#[trigger] probes[j]),
    ensures
        first_match_index(probes) == Some(i),
    decreases i,
{
    if i == 0 {
    } else {
        assert(!probe_matches(probes[0]));
        assert(probes.drop_first()[i - 1] == probes[i]);
        assert(forall|j: int|
            0 <= j < i - 1 ==> #[trigger] probes.drop_first()[j] == probes[j + 1]);
        lemma_first_match_at(probes.drop_first(), i - 1);
    }
}

/// No match anywhere means no first match.
proof fn lemma_no_match(probes: Seq<PathProbeView>)
    requires
        forall|j: int| 0 <= j < probes.len() ==> !probe_matches(#[trigger] probes[j]),
    ensures
        first_match_index(probes) is None,
    decreases probes.len(),
{
    if probes.len() > 0 {
        assert(forall|j: int|
            0 <= j < probes.len() - 1 ==> #[trigger] probes.drop_first()[j] == probes[j + 1]);
        lemma_no_match(probes.drop_first());
    }
}

/// The fixed, ordered list of filesystem prefixes the scan checks.
pub open spec fn common_prefixes_of() -> Seq<Seq<char>> {
    seq!["/usr/local"@, "/usr"@, "/opt/local"@, "/opt/homebrew"@]
}

/// The candidate installation prefixes, in scan order; the last serves
/// Apple-silicon machines.
pub fn common_prefixes() -> (r: Vec<String>)
    ensures
        r.deep_view() == common_prefixes_of(),
{
    let mut r: Vec<String> = Vec::new();
    r.push(String::from_str("/usr/local"));
    r.push(String::from_str("/usr"));
    r.push(String::from_str("/opt/local"));
    r.push(String::from_str("/opt/homebrew"));
    proof {
        assert(r.deep_view() =~= common_prefixes_of());
    }
    r
}

/// The recognized library file names for a link name: static archive,
/// Apple dynamic library, Unix shared object.
pub fn library_file_names(link_name: &str) -> (r: (String, String, String))
    ensures
        r.0@ == "lib"@ + link_name@ + ".a"@,
        r.1@ == "lib"@ + link_name@ + ".dylib"@,
        r.2@ == "lib"@ + link_name@ + ".so"@,
{
    (
        String::from_str("lib").concat(link_name).concat(".a"),
        String::from_str("lib").concat(link_name).concat(".dylib"),
        String::from_str("lib").concat(link_name).concat(".so"),
    )
}

/// Decide the common-path scan from the reported existence checks: the
/// first matching prefix wins and roots the resolved library; no matching
/// prefix is a miss.
pub fn scan_common_paths(cfg: &ResolverConfig, probes: &Vec<PathProbe>) -> (r: Option<LibrarySpec>)
    ensures
        r is Some <==> first_match_index(probes.deep_view()) is Some,
        r matches Some(s) ==> first_match_index(probes.deep_view()) matches Some(i)
            && s.deep_view() == prefix_spec_of(cfg@, probes.deep_view()[i].prefix),
{
    let n = probes.len();
    let mut i: usize = 0;
    while i < n
        invariant
            n == probes.len(),
            i <= n,
            forall|j: int| 0 <= j < i ==> !probe_matches(#[trigger] probes.deep_view()[j]),
        decreases n - i,
    {
        let p = &probes[i];
        if p.header_found && (p.static_lib_found || p.apple_dylib_found || p.unix_dylib_found) {
            proof {
                lemma_first_match_at(probes.deep_view(), i as int);
            }
            return Some(library_spec_at_prefix(cfg, p.prefix.as_str()));
        }
        i = i + 1;
    }
    proof {
        lemma_no_match(probes.deep_view());
    }
    None
}

/// An explicit override decides resolution alone: the chain returns the
/// override path whatever any other strategy would report, and invokes no
/// probe at all.
pub proof fn lemma_override_wins(
    cfg: ResolverConfigView,
    f: spec_fn(ProbeStrategy) -> ProbeReport,
    g: spec_fn(ProbeStrategy) -> ProbeReport,
)
    requires
        cfg.override_path is Some,
    ensures
        chain_result(cfg, f) == ChainResult::Resolved(prefix_spec_of(cfg, cfg.override_path->0)),
        chain_result(cfg, f) == chain_result(cfg, g),
        invoked(cfg, f) == Seq::<ProbeStrategy>::empty(),
{
}

} // verus!
