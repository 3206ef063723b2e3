use amdgpu_device_libs::features::FeatureSet;
use amdgpu_device_libs::flags::{extract_feature_directives, strip_plus, CodegenFlag, Directive};
use amdgpu_device_libs::linkplan::{
    plan_build, resolve_link_plan, select_search_path, ArtifactKind, BuildError,
};
use amdgpu_device_libs::target::{classify_target, execution_width, ConfigurationError, ExecutionWidth};

fn codegen(opt: &str, value: Option<&str>) -> CodegenFlag {
    CodegenFlag { opt: opt.to_string(), value: value.map(|v| v.to_string()) }
}

fn target_cpu(name: &str) -> CodegenFlag {
    codegen("target-cpu", Some(name))
}

#[test]
fn classifies_target_and_strips_family_prefix() {
    let flags = vec![target_cpu("gfx906")];
    let t = classify_target(&flags).unwrap();
    assert_eq!(t.name, "gfx906");
    assert_eq!(t.gfxip, "906");
}

#[test]
fn classifier_takes_the_last_target_cpu() {
    let flags = vec![target_cpu("gfx906"), codegen("opt-level", Some("2")), target_cpu("gfx1100")];
    let t = classify_target(&flags).unwrap();
    assert_eq!(t.gfxip, "1100");
}

#[test]
fn classifier_fails_without_target_cpu() {
    let flags = vec![codegen("opt-level", Some("2"))];
    let e = classify_target(&flags).unwrap_err();
    assert!(matches!(e, ConfigurationError::MissingTargetCpu));
}

#[test]
fn classifier_fails_when_last_target_cpu_has_no_value() {
    let flags = vec![target_cpu("gfx906"), codegen("target-cpu", None)];
    let e = classify_target(&flags).unwrap_err();
    assert!(matches!(e, ConfigurationError::MissingTargetCpu));
}

#[test]
fn classifier_reports_identifier_without_family_prefix() {
    let flags = vec![target_cpu("armv8")];
    match classify_target(&flags).unwrap_err() {
        ConfigurationError::MissingFamilyPrefix(cpu) => assert_eq!(cpu, "armv8"),
        other => panic!("unexpected error {:?}", other),
    }
}

#[test]
fn gfx9_family_resolves_width_64_regardless_of_features() {
    let flags = vec![target_cpu("gfx906")];
    let t = classify_target(&flags).unwrap();
    let empty = FeatureSet::new();
    assert_eq!(execution_width(&t, &empty), ExecutionWidth::W64);
    let mut many = FeatureSet::new();
    many.insert("sramecc".to_string());
    many.insert("xnack".to_string());
    assert_eq!(execution_width(&t, &many), ExecutionWidth::W64);
    // A letter suffix still counts: three characters starting with `9`.
    let flags = vec![target_cpu("gfx90a")];
    let t = classify_target(&flags).unwrap();
    let empty = FeatureSet::new();
    assert_eq!(execution_width(&t, &empty), ExecutionWidth::W64);
}

#[test]
fn gfx9_generic_resolves_width_64() {
    let flags = vec![target_cpu("gfx9-generic")];
    let t = classify_target(&flags).unwrap();
    let empty = FeatureSet::new();
    assert_eq!(execution_width(&t, &empty), ExecutionWidth::W64);
}

#[test]
fn other_targets_without_marker_resolve_width_32() {
    for name in ["gfx1100", "gfx803", "gfx10-3-generic", "gfx942x"] {
        let flags = vec![target_cpu(name)];
        let t = classify_target(&flags).unwrap();
        let empty = FeatureSet::new();
        assert_eq!(execution_width(&t, &empty), ExecutionWidth::W32, "target {}", name);
    }
}

#[test]
fn wave64_feature_marker_overrides_architecture_default() {
    let flags = vec![target_cpu("gfx1100")];
    let t = classify_target(&flags).unwrap();
    let mut features = FeatureSet::new();
    features.insert("wavefrontsize64".to_string());
    assert_eq!(execution_width(&t, &features), ExecutionWidth::W64);
}

#[test]
fn execution_width_lane_counts() {
    assert_eq!(ExecutionWidth::W32.lanes(), 32);
    assert_eq!(ExecutionWidth::W64.lanes(), 64);
}

#[test]
fn feature_normalizer_last_write_wins() {
    let mut fs = FeatureSet::new();
    let directives = vec![
        Directive::Add("x".to_string()),
        Directive::Remove("x".to_string()),
        Directive::Add("x".to_string()),
    ];
    fs.apply_all(&directives);
    assert!(fs.contains("x"));
    assert_eq!(fs.count(), 1);
}

#[test]
fn feature_normalizer_is_idempotent() {
    let directives = vec![
        Directive::Add("a".to_string()),
        Directive::Remove("b".to_string()),
        Directive::Add("+c".to_string()),
        Directive::Remove("a".to_string()),
    ];
    let baseline = vec!["b".to_string(), "d".to_string()];
    let mut once = FeatureSet::from_baseline(&baseline);
    once.apply_all(&directives);
    let mut twice = FeatureSet::from_baseline(&baseline);
    twice.apply_all(&directives);
    twice.apply_all(&directives);
    assert_eq!(once.count(), twice.count());
    for name in ["a", "b", "c", "d"] {
        assert_eq!(once.contains(name), twice.contains(name), "feature {}", name);
    }
    assert!(!once.contains("a"));
    assert!(!once.contains("b"));
    assert!(once.contains("c"));
    assert!(once.contains("d"));
}

#[test]
fn removing_an_absent_feature_is_a_no_op() {
    let mut fs = FeatureSet::new();
    fs.insert("a".to_string());
    fs.remove("missing");
    assert!(fs.contains("a"));
    assert_eq!(fs.count(), 1);
}

#[test]
fn inserting_a_present_feature_keeps_one_copy() {
    let mut fs = FeatureSet::new();
    fs.insert("a".to_string());
    fs.insert("a".to_string());
    assert_eq!(fs.count(), 1);
}

#[test]
fn add_directive_strips_enable_markers() {
    let mut fs = FeatureSet::new();
    fs.apply(&Directive::Add("++wavefrontsize64".to_string()));
    assert!(fs.contains("wavefrontsize64"));
    assert_eq!(strip_plus("++wavefrontsize64"), "wavefrontsize64");
    assert_eq!(strip_plus("plain"), "plain");
    assert_eq!(strip_plus(""), "");
}

#[test]
fn directive_extraction_reads_target_feature_flags_in_order() {
    let flags = vec![
        codegen("target-feature", Some("+xnack")),
        codegen("opt-level", Some("3")),
        codegen("target-feature", Some("-sramecc")),
        codegen("target-feature", None),
        target_cpu("gfx906"),
        codegen("target-feature", Some("wavefrontsize64")),
    ];
    let ds = extract_feature_directives(&flags);
    assert_eq!(ds.len(), 3);
    match &ds[0] {
        Directive::Add(n) => assert_eq!(n, "+xnack"),
        other => panic!("unexpected directive {:?}", directive_name(other)),
    }
    match &ds[1] {
        Directive::Remove(n) => assert_eq!(n, "sramecc"),
        other => panic!("unexpected directive {:?}", directive_name(other)),
    }
    match &ds[2] {
        Directive::Add(n) => assert_eq!(n, "wavefrontsize64"),
        other => panic!("unexpected directive {:?}", directive_name(other)),
    }
}

fn directive_name(d: &Directive) -> &str {
    match d {
        Directive::Add(_) => "Add",
        Directive::Remove(_) => "Remove",
    }
}

#[test]
fn baseline_splitting_drops_empty_entries() {
    let baseline = amdgpu_device_libs::features::split_baseline("a,,b,");
    let fs = FeatureSet::from_baseline(&baseline);
    assert!(fs.contains("a"));
    assert!(fs.contains("b"));
    assert_eq!(fs.count(), 2);
    let none = amdgpu_device_libs::features::split_baseline("");
    assert!(none.is_empty());
}

#[test]
fn search_path_override_wins() {
    let p = select_search_path(Some("/primary".to_string()), Some("/override".to_string()));
    assert_eq!(p.unwrap(), "/override");
    let p = select_search_path(Some("/primary".to_string()), None);
    assert_eq!(p.unwrap(), "/primary");
    let p = select_search_path(None, None);
    assert!(p.is_err());
}

#[test]
fn resolver_emits_the_five_artifacts_in_order() {
    let plan = resolve_link_plan("906", ExecutionWidth::W64, "/opt/rocm", "/work");
    assert_eq!(plan.len(), 5);
    assert_eq!(plan[0].kind, ArtifactKind::HelperLib);
    assert_eq!(plan[0].path, "/opt/rocm/amdgcn/bitcode/ockl.bc");
    assert_eq!(plan[1].kind, ArtifactKind::ArchitectureVersionLib);
    assert_eq!(plan[1].path, "/opt/rocm/amdgcn/bitcode/oclc_isa_version_906.bc");
    assert_eq!(plan[2].kind, ArtifactKind::AbiVersionLib);
    assert_eq!(plan[2].path, "/opt/rocm/amdgcn/bitcode/oclc_abi_version_500.bc");
    assert_eq!(plan[3].kind, ArtifactKind::ExecutionWidthLib);
    assert_eq!(plan[3].path, "/opt/rocm/amdgcn/bitcode/oclc_wavefrontsize64_on.bc");
    assert_eq!(plan[4].kind, ArtifactKind::HelperLib);
    assert_eq!(plan[4].path, "/work/util64.bc");
}

#[test]
fn resolver_is_pure() {
    let a = resolve_link_plan("1100", ExecutionWidth::W32, "/opt/rocm", "/work");
    let b = resolve_link_plan("1100", ExecutionWidth::W32, "/opt/rocm", "/work");
    assert_eq!(a.len(), b.len());
    for (x, y) in a.iter().zip(b.iter()) {
        assert_eq!(x.kind, y.kind);
        assert_eq!(x.path, y.path);
    }
}

#[test]
fn build_scenario_gfx906_defaults_to_wave64() {
    let flags = vec![target_cpu("gfx906")];
    let plan = plan_build(&flags, "", Some("/opt/rocm".to_string()), None, "/work").unwrap();
    assert_eq!(plan.width, ExecutionWidth::W64);
    assert_eq!(plan.artifacts[1].path, "/opt/rocm/amdgcn/bitcode/oclc_isa_version_906.bc");
    assert_eq!(plan.artifacts[3].path, "/opt/rocm/amdgcn/bitcode/oclc_wavefrontsize64_on.bc");
    assert_eq!(plan.artifacts[4].path, "/work/util64.bc");
}

#[test]
fn build_scenario_gfx1100_defaults_to_wave32() {
    let flags = vec![target_cpu("gfx1100")];
    let plan = plan_build(&flags, "", Some("/opt/rocm".to_string()), None, "/work").unwrap();
    assert_eq!(plan.width, ExecutionWidth::W32);
    assert_eq!(plan.artifacts[3].path, "/opt/rocm/amdgcn/bitcode/oclc_wavefrontsize64_off.bc");
    assert_eq!(plan.artifacts[4].path, "/work/util32.bc");
}

#[test]
fn build_scenario_gfx1100_with_wave64_marker() {
    let flags = vec![target_cpu("gfx1100")];
    let plan = plan_build(&flags, "wavefrontsize64", Some("/opt/rocm".to_string()), None, "/work")
        .unwrap();
    assert_eq!(plan.width, ExecutionWidth::W64);
    assert_eq!(plan.artifacts[3].path, "/opt/rocm/amdgcn/bitcode/oclc_wavefrontsize64_on.bc");
    assert_eq!(plan.artifacts[4].path, "/work/util64.bc");
}

#[test]
fn build_scenario_wave64_marker_from_directive() {
    let flags = vec![target_cpu("gfx1100"), codegen("target-feature", Some("+wavefrontsize64"))];
    let plan = plan_build(&flags, "", Some("/opt/rocm".to_string()), None, "/work").unwrap();
    assert_eq!(plan.width, ExecutionWidth::W64);
    assert!(plan.features.contains("wavefrontsize64"));
}

#[test]
fn build_fails_without_any_search_path() {
    let flags = vec![target_cpu("gfx906")];
    let e = plan_build(&flags, "", None, None, "/work").unwrap_err();
    assert!(matches!(e, BuildError::LibraryPath(_)));
}

#[test]
fn build_fails_on_bad_target_configuration() {
    let e = plan_build(&Vec::new(), "", Some("/opt/rocm".to_string()), None, "/work").unwrap_err();
    assert!(matches!(e, BuildError::Configuration(ConfigurationError::MissingTargetCpu)));
    let flags = vec![target_cpu("mips")];
    let e = plan_build(&flags, "", Some("/opt/rocm".to_string()), None, "/work").unwrap_err();
    assert!(matches!(
        e,
        BuildError::Configuration(ConfigurationError::MissingFamilyPrefix(_))
    ));
}

#[test]
fn baseline_feature_can_be_removed_by_directive() {
    let flags = vec![target_cpu("gfx906"), codegen("target-feature", Some("-sramecc"))];
    let plan = plan_build(&flags, "sramecc,xnack", Some("/opt/rocm".to_string()), None, "/work")
        .unwrap();
    assert!(!plan.features.contains("sramecc"));
    assert!(plan.features.contains("xnack"));
    assert_eq!(plan.features.count(), 1);
}
