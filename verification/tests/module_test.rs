use espm_core::manifest_settings::BuildDecorators;
use espm_core::manifest_settings::BuildOptimizePng;
use espm_core::manifest_settings::ManifestBuild;
use espm_core::manifest_settings::validate_png_level;
use espm_core::module::Module;
use espm_core::target::EsTarget;

fn make_module(src: &str, decorators: Option<BuildDecorators>) -> Module {
    Module::new(
        src.to_string(),
        "/out/index.mjs".to_string(),
        ManifestBuild {
            decorators,
            exclude: vec![],
            optimize_png: BuildOptimizePng::Enabled(true),
        },
    )
}

#[test]
fn detects_typescript_modules() {
    assert!(make_module("/src/index.ts", None).is_typescript());
    assert!(make_module("/src/ui/App.tsx", None).is_typescript());
    assert!(make_module("/src/mod.mts", None).is_typescript());
    assert!(!make_module("/src/index.js", None).is_typescript());
    assert!(!make_module("/src/index.jsx", None).is_typescript());
}

#[test]
fn chooses_syntax_from_the_extension() {
    let ts = make_module("/src/index.ts", None).create_transform_options(&EsTarget::Es2019);
    assert!(ts.syntax_typescript);
    assert_eq!(ts.target, EsTarget::Es2019);
    assert_eq!(ts.filename, "index.ts");
    assert_eq!(ts.output_path, "/out/index.mjs");

    let js = make_module("/src/index.js", None).create_transform_options(&EsTarget::Es2019);
    assert!(!js.syntax_typescript);
}

#[test]
fn always_emits_ecmascript_modules() {
    for src in ["/src/index.ts", "/src/index.js"] {
        let options = make_module(src, None).create_transform_options(&EsTarget::Es2015);
        assert!(options.is_module);
        assert!(options.module_es6);
        assert!(!options.minify);
        assert!(!options.swcrc);
    }
}

#[test]
fn uses_legacy_decorators_where_asked_or_for_typescript() {
    // Explicit legacy setting.
    assert!(make_module("/src/index.js", Some(BuildDecorators::Legacy)).is_legacy_decorators());
    // Decorators plus TypeScript implies legacy as well.
    assert!(make_module("/src/index.ts", Some(BuildDecorators::Legacy)).is_legacy_decorators());
    // No decorators at all: never legacy.
    assert!(!make_module("/src/index.ts", None).is_legacy_decorators());

    let with = make_module("/src/index.ts", Some(BuildDecorators::Legacy))
        .create_transform_options(&EsTarget::Es2018);
    assert!(with.decorators);
    assert!(with.decorator_metadata);
    assert!(with.decorator_version_2021_12);
    assert!(with.legacy_decorator);

    let without = make_module("/src/index.ts", None).create_transform_options(&EsTarget::Es2018);
    assert!(!without.decorators);
    assert!(!without.decorator_metadata);
    assert!(!without.decorator_version_2021_12);
    assert!(!without.legacy_decorator);
}

#[test]
fn can_set_optimize_png_level() {
    assert_eq!(BuildOptimizePng::Enabled(true).get_level(), 2);
    assert_eq!(BuildOptimizePng::Enabled(false).get_level(), 2);
    assert_eq!(BuildOptimizePng::Level(5).get_level(), 5);

    assert!(BuildOptimizePng::Enabled(true).is_enabled());
    assert!(!BuildOptimizePng::Enabled(false).is_enabled());
    assert!(BuildOptimizePng::Level(1).is_enabled());
    assert!(!BuildOptimizePng::Level(0).is_enabled());
}

#[test]
fn errors_optimize_png_level_out_of_range() {
    assert!(validate_png_level(&BuildOptimizePng::Level(6)));
    assert!(!validate_png_level(&BuildOptimizePng::Level(7)));
    assert!(validate_png_level(&BuildOptimizePng::Enabled(true)));
}
