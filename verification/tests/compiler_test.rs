use espm_core::compiler::detect_javascript_runtime;
use espm_core::compiler::plan_compile;
use espm_core::compiler::runtime_candidates;
use espm_core::compiler::target_out_dir;
use espm_core::manifest_settings::BuildOptimizePng;
use espm_core::manifest_settings::ManifestBuild;
use espm_core::package::Package;
use espm_core::package_name::PackageName;
use espm_core::source_files::SourceFiles;
use espm_core::target::EsTarget;

fn make_package() -> Package {
    Package::new(
        PackageName::parse("ns/example").unwrap(),
        ManifestBuild {
            decorators: None,
            exclude: vec![],
            optimize_png: BuildOptimizePng::Enabled(true),
        },
        "/work/example",
        true,
    )
    .unwrap()
}

fn mixed_sources() -> SourceFiles {
    SourceFiles {
        assets: vec!["icons/add.svg".to_string(), "img/help.png".to_string()],
        excluded: vec![],
        modules: vec!["index.ts".to_string(), "legacy.js".to_string()],
        tests: vec![],
        typescript: true,
    }
}

#[test]
fn builds_into_a_target_directory() {
    let package = make_package();
    assert_eq!(
        target_out_dir(&package, &EsTarget::Es2020),
        "/work/example/.espm/es2020"
    );
}

#[test]
fn plans_mirrored_asset_and_module_paths() {
    let package = make_package();
    let plan = plan_compile(&package, &mixed_sources(), &EsTarget::Es2018);

    assert_eq!(plan.out_dir, "/work/example/.espm/es2018");
    assert_eq!(plan.assets.len(), 2);
    assert_eq!(plan.assets[0].src_path, "/work/example/src/icons/add.svg");
    assert_eq!(plan.assets[0].out_path, "/work/example/.espm/es2018/icons/add.svg");

    // Modules always come out as .mjs, whatever they went in as.
    assert_eq!(plan.modules.len(), 2);
    assert_eq!(plan.modules[0].src_path, "/work/example/src/index.ts");
    assert_eq!(plan.modules[0].out_path, "/work/example/.espm/es2018/index.mjs");
    assert_eq!(plan.modules[1].src_path, "/work/example/src/legacy.js");
    assert_eq!(plan.modules[1].out_path, "/work/example/.espm/es2018/legacy.mjs");
}

#[test]
fn generates_dmts_for_ts_files() {
    // A package with TypeScript sources plans a declaration stage.
    let package = make_package();
    let plan = plan_compile(&package, &mixed_sources(), &EsTarget::Es2018);
    assert!(plan.declarations);
}

#[test]
fn doesnt_generate_dmts_for_js_files() {
    // A package with no TypeScript sources plans no declaration stage
    // at all: no runtime detection, no tool fetch.
    let package = make_package();
    let sources = SourceFiles {
        assets: vec![],
        excluded: vec![],
        modules: vec!["index.js".to_string()],
        tests: vec![],
        typescript: false,
    };
    let plan = plan_compile(&package, &sources, &EsTarget::Es2018);
    assert!(!plan.declarations);
}

#[test]
fn compiles_js_files_to_each_target() {
    // Every one of the eight supported targets resolves to its own
    // output directory and transform options.
    let package = make_package();
    let targets = [
        EsTarget::Es2015,
        EsTarget::Es2016,
        EsTarget::Es2017,
        EsTarget::Es2018,
        EsTarget::Es2019,
        EsTarget::Es2020,
        EsTarget::Es2021,
        EsTarget::Es2022,
    ];
    let sources = mixed_sources();
    for target in targets {
        let plan = plan_compile(&package, &sources, &target);
        assert_eq!(plan.out_dir, format!("/work/example/.espm/{}", target.as_str()));
        let options = plan.modules[0].create_transform_options(&target);
        assert_eq!(options.target, target);
        assert!(options.module_es6);
        assert!(options.is_module);
    }
}

#[test]
fn looks_for_node_then_bun() {
    let candidates = runtime_candidates(None);
    assert_eq!(candidates, vec!["node".to_string(), "bun".to_string()]);

    let overridden = runtime_candidates(Some("deno".to_string()));
    assert_eq!(overridden, vec!["deno".to_string()]);
}

#[test]
fn picks_the_first_available_runtime() {
    let candidates = vec!["node".to_string(), "bun".to_string()];
    assert_eq!(
        detect_javascript_runtime(&candidates, &vec![true, true]).unwrap(),
        "node"
    );
    assert_eq!(
        detect_javascript_runtime(&candidates, &vec![false, true]).unwrap(),
        "bun"
    );
}

#[test]
#[should_panic(expected = "Failed to detect a JavaScript runtime. Please install Node or Bun.")]
fn errors_when_unable_to_detect() {
    let candidates = vec!["node".to_string(), "bun".to_string()];
    let error = detect_javascript_runtime(&candidates, &vec![false, false]).unwrap_err();
    panic!("{}", error.message());
}
