//! Link-plan resolver.
//!
//! Produces, at build time, the ordered list of precompiled accelerator
//! library artifacts to link, as a pure function of the target
//! architecture, the resolved execution width and the configured library
//! directories. Identical inputs always yield the identical ordered list,
//! so builds are reproducible.

use vstd::prelude::*;

use crate::features::{
    baseline_names, directives_applied, split_baseline, FeatureSet,
};
use crate::flags::{extract_feature_directives, extracted_directives, CodegenFlag};
use crate::target::{
    classify_target, execution_width, spec_execution_width, spec_last_target_cpu,
    ConfigurationError, ExecutionWidth, Target,
};

verus! {

/// What role a link artifact plays in the plan.
#[derive(Clone, Copy, PartialEq, Eq, Structural, Debug)]
pub enum ArtifactKind {
    /// An architecture-independent helper library.
    HelperLib,
    /// The library for one architecture version.
    ArchitectureVersionLib,
    /// The library for the build-wide ABI version.
    AbiVersionLib,
    /// The library selecting the execution width.
    ExecutionWidthLib,
}

/// One artifact of the link plan: its role and its path.
#[derive(Debug)]
pub struct LinkArtifact {
    /// The role this artifact plays.
    pub kind: ArtifactKind,
    /// The full path of the artifact file.
    pub path: String,
}

impl View for LinkArtifact {
    type V = (ArtifactKind, Seq<char>);

    open spec fn view(&self) -> (ArtifactKind, Seq<char>) {
        (self.kind, self.path@)
    }
}

/// The mathematical value of a whole plan: each artifact's role and path.
pub open spec fn plan_views(artifacts: Seq<LinkArtifact>) -> Seq<(ArtifactKind, Seq<char>)> {
    artifacts.map_values(|a: LinkArtifact| a@)
}

/// Neither library-search-path source resolves to a usable directory: a
/// fatal build-time fault.
#[derive(Debug)]
pub struct MissingLibraryPath;

/// The library search root the two configured sources select: the
/// override source wins when it is set, else the primary; none when
/// neither is set.
pub open spec fn chosen_root(primary: Option<String>, override_path: Option<String>) -> Option<
    Seq<char>,
> {
    match override_path {
        Some(p) => Some(p@),
        None => match primary {
            Some(p) => Some(p@),
            None => None,
        },
    }
}

/// Selects the library search root from the two configured sources:
/// the override wins if set; fails when neither source is set.
pub fn select_search_path(primary: Option<String>, override_path: Option<String>) -> (r: Result<
    String,
    MissingLibraryPath,
>)
    ensures
        match r {
            Ok(p) => chosen_root(primary, override_path) == Some(p@),
            Err(_) => chosen_root(primary, override_path) is None,
        },
{
    match override_path {
        Some(p) => Ok(p),
        None => match primary {
            Some(p) => Ok(p),
            None => Err(MissingLibraryPath),
        },
    }
}

/// The directory holding the precompiled device libraries under a search
/// root.
pub open spec fn device_dir(root: Seq<char>) -> Seq<char> {
    root + "/amdgcn/bitcode"@
}

/// The marker the execution-width library's filename embeds.
pub open spec fn width_marker(w: ExecutionWidth) -> Seq<char> {
    if w == ExecutionWidth::W64 {
        "on"@
    } else {
        "off"@
    }
}

/// The numeric width the locally built helper's filename embeds.
pub open spec fn width_digits(w: ExecutionWidth) -> Seq<char> {
    if w == ExecutionWidth::W64 {
        "64"@
    } else {
        "32"@
    }
}

/// The ordered link plan: the architecture-independent helper, the
/// architecture-version library, the fixed ABI-version library, the
/// execution-width library, and the locally built helper variant for the
/// width.
pub open spec fn link_plan(
    gfxip: Seq<char>,
    w: ExecutionWidth,
    root: Seq<char>,
    local_dir: Seq<char>,
) -> Seq<(ArtifactKind, Seq<char>)> {
    let dev = device_dir(root);
    seq![
        (ArtifactKind::HelperLib, dev + "/ockl.bc"@),
        (ArtifactKind::ArchitectureVersionLib, dev + "/oclc_isa_version_"@ + gfxip + ".bc"@),
        (ArtifactKind::AbiVersionLib, dev + "/oclc_abi_version_500.bc"@),
        (ArtifactKind::ExecutionWidthLib, dev + "/oclc_wavefrontsize64_"@ + width_marker(w) + ".bc"@),
        (ArtifactKind::HelperLib, local_dir + "/util"@ + width_digits(w) + ".bc"@),
    ]
}

/// The width marker as a string slice.
fn width_marker_str(w: ExecutionWidth) -> (r: &'static str)
    ensures
        r@ == width_marker(w),
{
    match w {
        ExecutionWidth::W64 => "on",
        ExecutionWidth::W32 => "off",
    }
}

/// The numeric width as a string slice.
fn width_digits_str(w: ExecutionWidth) -> (r: &'static str)
    ensures
        r@ == width_digits(w),
{
    match w {
        ExecutionWidth::W64 => "64",
        ExecutionWidth::W32 => "32",
    }
}

/// Resolves the ordered link plan for one build. Pure: the result is
/// fully determined by the four inputs, so identical inputs yield the
/// identical ordered artifact list.
pub fn resolve_link_plan(
    gfxip: &str,
    width: ExecutionWidth,
    lib_root: &str,
    local_dir: &str,
) -> (r: Vec<LinkArtifact>)
    ensures
        plan_views(r@) == link_plan(gfxip@, width, lib_root@, local_dir@),
{
    let mut dev = String::from_str(lib_root);
    dev.append("/amdgcn/bitcode");

    let mut ockl = dev.clone();
    ockl.append("/ockl.bc");

    let mut isa = dev.clone();
    isa.append("/oclc_isa_version_");
    isa.append(gfxip);
    isa.append(".bc");

    let mut abi = dev.clone();
    abi.append("/oclc_abi_version_500.bc");

    let mut wave = dev.clone();
    wave.append("/oclc_wavefrontsize64_");
    wave.append(width_marker_str(width));
    wave.append(".bc");

    let mut local = String::from_str(local_dir);
    local.append("/util");
    local.append(width_digits_str(width));
    local.append(".bc");

    let mut r: Vec<LinkArtifact> = Vec::new();
    r.push(LinkArtifact { kind: ArtifactKind::HelperLib, path: ockl });
    r.push(LinkArtifact { kind: ArtifactKind::ArchitectureVersionLib, path: isa });
    r.push(LinkArtifact { kind: ArtifactKind::AbiVersionLib, path: abi });
    r.push(LinkArtifact { kind: ArtifactKind::ExecutionWidthLib, path: wave });
    r.push(LinkArtifact { kind: ArtifactKind::HelperLib, path: local });
    proof {
        assert(plan_views(r@) =~= link_plan(gfxip@, width, lib_root@, local_dir@));
    }
    r
}

/// Law: the resolver is pure. Its contract pins every artifact's role
/// and path to a function of the four inputs alone, so two plans
/// resolved from identical inputs hold identical ordered roles and
/// paths, character for character.
pub proof fn lemma_resolver_pure(
    a: Seq<LinkArtifact>,
    b: Seq<LinkArtifact>,
    gfxip: Seq<char>,
    w: ExecutionWidth,
    root: Seq<char>,
    local_dir: Seq<char>,
)
    requires
        plan_views(a) == link_plan(gfxip, w, root, local_dir),
        plan_views(b) == link_plan(gfxip, w, root, local_dir),
    ensures
        a.len() == b.len(),
        forall|i: int| 0 <= i < a.len() ==> a[i]@ == b[i]@,
{
    assert(plan_views(a).len() == a.len());
    assert(plan_views(b).len() == b.len());
    assert forall|i: int| 0 <= i < a.len() implies a[i]@ == b[i]@ by {
        assert(plan_views(a)[i] == a[i]@);
        assert(plan_views(b)[i] == b[i]@);
    }
}

/// The whole build-time decision, one error at a time.
#[derive(Debug)]
pub enum BuildError {
    /// The target-architecture directive is absent or malformed.
    Configuration(ConfigurationError),
    /// Neither library-search-path source is set.
    LibraryPath(MissingLibraryPath),
}

/// Everything the build needs to link: the classified target, the
/// normalized features, the resolved width and the ordered artifacts.
#[derive(Debug)]
pub struct BuildPlan {
    /// The classified target architecture.
    pub target: Target,
    /// The normalized feature set.
    pub features: FeatureSet,
    /// The resolved execution width.
    pub width: ExecutionWidth,
    /// The ordered link artifacts.
    pub artifacts: Vec<LinkArtifact>,
}

/// Computes the whole build-time decision from the raw inputs: selects
/// the library search root (checked first, as the build does), classifies
/// the target, normalizes the features over the baseline, derives the
/// execution width and resolves the ordered link plan.
pub fn plan_build(
    flags: &Vec<CodegenFlag>,
    baseline_raw: &str,
    primary: Option<String>,
    override_path: Option<String>,
    local_dir: &str,
) -> (r: Result<BuildPlan, BuildError>)
    ensures
        match r {
            Ok(plan) => {
                &&& chosen_root(primary, override_path) is Some
                &&& plan.target.wf()
                &&& spec_last_target_cpu(flags@) == Some(plan.target.name@)
                &&& plan.features.wf()
                &&& plan.features@ == directives_applied(
                    baseline_names(baseline_raw@).to_set(),
                    extracted_directives(flags@),
                )
                &&& plan.width == spec_execution_width(plan.target.gfxip@, plan.features@)
                &&& plan_views(plan.artifacts@) == link_plan(
                    plan.target.gfxip@,
                    plan.width,
                    chosen_root(primary, override_path)->0,
                    local_dir@,
                )
            },
            Err(BuildError::LibraryPath(_)) => chosen_root(primary, override_path) is None,
            Err(BuildError::Configuration(e)) => {
                &&& chosen_root(primary, override_path) is Some
                &&& match e {
                    ConfigurationError::MissingTargetCpu => spec_last_target_cpu(flags@) is None,
                    ConfigurationError::MissingFamilyPrefix(cpu) => {
                        &&& spec_last_target_cpu(flags@) == Some(cpu@)
                        &&& !crate::target::has_family_prefix(cpu@)
                    },
                }
            },
        },
{
    let root = match select_search_path(primary, override_path) {
        Ok(p) => p,
        Err(e) => {
            return Err(BuildError::LibraryPath(e));
        },
    };
    let target = match classify_target(flags) {
        Ok(t) => t,
        Err(e) => {
            return Err(BuildError::Configuration(e));
        },
    };
    let baseline = split_baseline(baseline_raw);
    let mut features = FeatureSet::from_baseline(&baseline);
    let directives = extract_feature_directives(flags);
    features.apply_all(&directives);
    let width = execution_width(&target, &features);
    let artifacts = resolve_link_plan(target.gfxip.as_str(), width, root.as_str(), local_dir);
    Ok(BuildPlan { target, features, width, artifacts })
}

} // verus!
