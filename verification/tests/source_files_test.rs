use espm_core::manifest_settings::BuildOptimizePng;
use espm_core::manifest_settings::ManifestBuild;
use espm_core::package::Package;
use espm_core::package_name::PackageName;
use espm_core::source_files::SourceFiles;

fn make_package(name: &str, exclude: Vec<String>) -> Package {
    Package::new(
        PackageName::parse(name).unwrap(),
        ManifestBuild {
            decorators: None,
            exclude,
            optimize_png: BuildOptimizePng::Enabled(true),
        },
        "/sandbox",
        true,
    )
    .unwrap()
}

fn component_files() -> Vec<String> {
    vec![
        "helpers.ts".to_string(),
        "index.ts".to_string(),
        "forms/Input.tsx".to_string(),
        "forms/Input.test.tsx".to_string(),
        "forms/Select.tsx".to_string(),
        "forms/Select-test.tsx".to_string(),
        "ui/Button.tsx".to_string(),
        "ui/Button.spec.tsx".to_string(),
        "ui/Modal.tsx".to_string(),
        "ui/Modal_spec.tsx".to_string(),
        "icons/add.svg".to_string(),
        "icons/remove.svg".to_string(),
        "img/help.png".to_string(),
        "__tests__/helpers_test.ts".to_string(),
    ]
}

#[test]
#[should_panic(expected = "No src directory found in package ns/no-sources.")]
fn errors_no_src_dir() {
    let package = make_package("ns/no-sources", vec![]);
    let error = package.load_source_files(false, &vec![]).unwrap_err();
    panic!("{}", error.message());
}

#[test]
#[should_panic(expected = "CommonJS is not supported")]
fn errors_on_cjs_files() {
    let package = make_package("ns/detect-cjs", vec![]);
    let files = vec!["index.cjs".to_string()];
    let error = package.load_source_files(true, &files).unwrap_err();
    panic!("{}", error.message());
}

#[test]
#[should_panic(expected = "CommonJS is not supported")]
fn errors_on_cts_files() {
    let package = make_package("ns/detect-cjs", vec![]);
    let files = vec!["index.cts".to_string()];
    let error = package.load_source_files(true, &files).unwrap_err();
    panic!("{}", error.message());
}

#[test]
fn loads_files() {
    let package = make_package("ns/components", vec![]);
    let mut sources = package.load_source_files(true, &component_files()).unwrap();

    sources.assets.sort();
    sources.modules.sort();
    sources.tests.sort();

    assert_eq!(
        sources,
        SourceFiles {
            assets: vec![
                "icons/add.svg".to_string(),
                "icons/remove.svg".to_string(),
                "img/help.png".to_string(),
            ],
            excluded: vec![],
            modules: vec![
                "forms/Input.tsx".to_string(),
                "forms/Select.tsx".to_string(),
                "helpers.ts".to_string(),
                "index.ts".to_string(),
                "ui/Button.tsx".to_string(),
                "ui/Modal.tsx".to_string(),
            ],
            tests: vec![
                "__tests__/helpers_test.ts".to_string(),
                "forms/Input.test.tsx".to_string(),
                "forms/Select-test.tsx".to_string(),
                "ui/Button.spec.tsx".to_string(),
                "ui/Modal_spec.tsx".to_string(),
            ],
            typescript: true,
        }
    );
}

#[test]
fn can_exclude_files() {
    let package = make_package("ns/components", vec!["**/*.tsx".to_string()]);
    let mut sources = package.load_source_files(true, &component_files()).unwrap();

    sources.excluded.sort();

    assert_eq!(
        sources.excluded,
        vec![
            "forms/Input.test.tsx".to_string(),
            "forms/Input.tsx".to_string(),
            "forms/Select-test.tsx".to_string(),
            "forms/Select.tsx".to_string(),
            "ui/Button.spec.tsx".to_string(),
            "ui/Button.tsx".to_string(),
            "ui/Modal.tsx".to_string(),
            "ui/Modal_spec.tsx".to_string(),
        ]
    );

    assert_eq!(
        sources.modules,
        vec!["helpers.ts".to_string(), "index.ts".to_string()]
    );
}

#[test]
fn filters_typescript_declarations() {
    let package = make_package("ns/types", vec![]);
    let files = vec![
        "index.ts".to_string(),
        "types.d.ts".to_string(),
        "types.d.mts".to_string(),
    ];
    let mut sources = package.load_source_files(true, &files).unwrap();

    sources.excluded.sort();

    assert_eq!(
        sources.excluded,
        vec!["types.d.mts".to_string(), "types.d.ts".to_string()]
    );
    assert_eq!(sources.modules, vec!["index.ts".to_string()]);
}

#[test]
fn excludes_beat_the_test_heuristic() {
    let package = make_package("ns/components", vec!["**/*.test.tsx".to_string()]);
    let files = vec!["forms/Input.test.tsx".to_string()];
    let sources = package.load_source_files(true, &files).unwrap();

    assert_eq!(sources.excluded, vec!["forms/Input.test.tsx".to_string()]);
    assert!(sources.tests.is_empty());
}

#[test]
fn detects_test_files_by_substring() {
    assert!(SourceFiles::is_test_file("forms/Input.test.tsx"));
    assert!(SourceFiles::is_test_file("a/b/thing_spec.ts"));
    assert!(SourceFiles::is_test_file("__tests__/helpers.ts"));
    // The heuristic is a naive substring match over the whole path, so
    // an unrelated name can false-positive.
    assert!(SourceFiles::is_test_file("contests.ts"));
    assert!(!SourceFiles::is_test_file("index.ts"));
}

#[test]
fn normalizes_exclude_pattern_markers() {
    // Leading `/` and `./` are trimmed before the pattern is compiled.
    let package = make_package("ns/components", vec!["./**/*.tsx".to_string()]);
    let sources = package
        .load_source_files(true, &vec!["forms/Input.tsx".to_string()])
        .unwrap();
    assert_eq!(sources.excluded, vec!["forms/Input.tsx".to_string()]);

    let package = make_package("ns/components", vec!["/**/*.tsx".to_string()]);
    let sources = package
        .load_source_files(true, &vec!["forms/Input.tsx".to_string()])
        .unwrap();
    assert_eq!(sources.excluded, vec!["forms/Input.tsx".to_string()]);

    // A `!` pattern negates: a path it matches is kept out of the set.
    let package = make_package(
        "ns/components",
        vec!["**/*.tsx".to_string(), "!forms/**".to_string()],
    );
    let sources = package
        .load_source_files(
            true,
            &vec!["forms/Input.tsx".to_string(), "ui/Button.tsx".to_string()],
        )
        .unwrap();
    assert_eq!(sources.excluded, vec!["ui/Button.tsx".to_string()]);
    assert_eq!(sources.modules, vec!["forms/Input.tsx".to_string()]);
}

#[test]
fn errors_on_invalid_exclude_glob() {
    let package = make_package("ns/components", vec!["***".to_string()]);
    let error = package
        .load_source_files(true, &component_files())
        .unwrap_err();
    assert!(error.message().contains("Invalid exclude pattern"));
}
