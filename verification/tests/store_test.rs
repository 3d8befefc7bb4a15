use espm_core::errors::StoreError;
use espm_core::package_name::PackageName;
use espm_core::store::PackageItem;
use espm_core::store::StorageItem;
use espm_core::store::Store;
use espm_core::store::StoreAction;
use espm_core::store::StoreEvent;
use espm_core::store::StoreState;
use espm_core::store::TypeScriptItem;
use espm_core::store::Version;
use espm_core::target::EsTarget;

fn ts_item_version() -> Version {
    Version { major: 5, minor: 1, patch: 6 }
}

#[test]
fn renders_versions_in_decimal() {
    assert_eq!(ts_item_version().to_text(), "5.1.6");
    assert_eq!(Version { major: 0, minor: 10, patch: 123 }.to_text(), "0.10.123");
}

#[test]
fn computes_typescript_item_paths() {
    let version = ts_item_version();
    let item = TypeScriptItem { version: &version };
    assert_eq!(item.get_archive_ext(), "tar.gz");
    assert_eq!(item.get_archive_prefix(), Some("package"));
    assert_eq!(item.get_label(), "typescript");
    assert_eq!(item.to_file_path(), "__tool__/typescript/v5.1.6");
    assert_eq!(item.to_file_prefix(), "typescript_v5.1.6_npm");
}

#[test]
fn computes_package_item_paths() {
    let package = PackageName::parse("my-space/my-package").unwrap();
    let target = EsTarget::Es2018;
    let version = Version { major: 1, minor: 2, patch: 3 };
    let item = PackageItem { package: &package, target: &target, version: &version };
    assert_eq!(item.get_archive_ext(), "tar.xz");
    assert_eq!(item.get_archive_prefix(), None);
    assert_eq!(item.get_label(), "my-space/my-package");
    assert_eq!(item.to_file_path(), "my-space/my-package/v1.2.3/es2018");
    assert_eq!(item.to_file_prefix(), "my-space_my-package_v1.2.3_es2018");
}

#[test]
fn lays_out_store_directories() {
    let store = Store::load_from("/home/user/.espresso");
    assert_eq!(store.root, "/home/user/.espresso");
    assert_eq!(store.bin_dir, "/home/user/.espresso/bin");
    assert_eq!(store.cache_dir, "/home/user/.espresso/cache");
    assert_eq!(store.packages_dir, "/home/user/.espresso/packages");
}

fn typescript_task() -> espm_core::store::StoreItemTask {
    let store = Store::load_from("/store");
    let version = ts_item_version();
    let item = TypeScriptItem { version: &version };
    store.store_item_task("https://registry.npmjs.org/typescript/-/typescript-5.1.6.tgz", &item)
}

#[test]
fn task_resolves_cache_and_unpack_paths() {
    let task = typescript_task();
    assert_eq!(task.unpack_dir, "/store/packages/__tool__/typescript/v5.1.6");
    assert_eq!(task.cache_file, "/store/cache/typescript_v5.1.6_npm.tar.gz");
    assert_eq!(task.archive_prefix.as_deref(), Some("package"));
}

#[test]
fn cache_hit_returns_directory_with_zero_network_calls() {
    let task = typescript_task();
    let (state, action) = espm_core::store::store_step(
        &task,
        StoreState::Start,
        StoreEvent::Begin { unpacked_exists: true, lock_marker_exists: false },
    );
    assert_eq!(state, StoreState::Done);
    match action {
        StoreAction::Finish { dir } => {
            assert_eq!(dir, "/store/packages/__tool__/typescript/v5.1.6")
        }
        other => panic!("expected Finish, got {:?}", other),
    }
}

#[test]
fn full_run_downloads_saves_and_unpacks_once() {
    let task = typescript_task();
    let mut downloads = 0;

    let (state, action) = espm_core::store::store_step(
        &task,
        StoreState::Start,
        StoreEvent::Begin { unpacked_exists: false, lock_marker_exists: false },
    );
    assert!(matches!(action, StoreAction::AcquireLock { .. }));

    let (state, action) = espm_core::store::store_step(
        &task,
        state,
        StoreEvent::LockAcquired { cache_file_exists: false },
    );
    if matches!(action, StoreAction::Download { .. }) {
        downloads += 1;
    }
    assert_eq!(state, StoreState::Downloading);

    let (state, action) = espm_core::store::store_step(
        &task,
        state,
        StoreEvent::Response { status: 200, status_text: "200 OK".to_string() },
    );
    match &action {
        StoreAction::SaveArchive { file } => {
            assert_eq!(file, "/store/cache/typescript_v5.1.6_npm.tar.gz")
        }
        other => panic!("expected SaveArchive, got {:?}", other),
    }

    let (state, action) = espm_core::store::store_step(&task, state, StoreEvent::ArchiveSaved);
    assert!(matches!(action, StoreAction::CheckUnpacked { .. }));

    let (state, action) = espm_core::store::store_step(
        &task,
        state,
        StoreEvent::UnpackChecked { unpacked_exists: false },
    );
    match &action {
        StoreAction::Unpack { archive_file, dir, strip_prefix } => {
            assert_eq!(archive_file, "/store/cache/typescript_v5.1.6_npm.tar.gz");
            assert_eq!(dir, "/store/packages/__tool__/typescript/v5.1.6");
            assert_eq!(strip_prefix.as_deref(), Some("package"));
        }
        other => panic!("expected Unpack, got {:?}", other),
    }

    let (state, action) = espm_core::store::store_step(&task, state, StoreEvent::UnpackDone);
    assert_eq!(state, StoreState::Done);
    assert!(matches!(action, StoreAction::Finish { .. }));
    assert_eq!(downloads, 1);

    // A later run for the same item sees the unpacked directory and
    // performs zero network calls.
    let (state, action) = espm_core::store::store_step(
        &task,
        StoreState::Start,
        StoreEvent::Begin { unpacked_exists: true, lock_marker_exists: false },
    );
    assert_eq!(state, StoreState::Done);
    assert!(matches!(action, StoreAction::Finish { .. }));
}

#[test]
fn concurrent_caller_recheck_skips_download() {
    // A second caller blocks on the lock; once it acquires the lock the
    // archive is already cached, so it re-checks and skips the network.
    let task = typescript_task();
    let (state, _) = espm_core::store::store_step(
        &task,
        StoreState::Start,
        StoreEvent::Begin { unpacked_exists: false, lock_marker_exists: true },
    );
    assert_eq!(state, StoreState::Locking);
    let (state, action) = espm_core::store::store_step(
        &task,
        state,
        StoreEvent::LockAcquired { cache_file_exists: true },
    );
    assert_eq!(state, StoreState::Checking);
    assert!(matches!(action, StoreAction::CheckUnpacked { .. }));
    let (state, action) = espm_core::store::store_step(
        &task,
        state,
        StoreEvent::UnpackChecked { unpacked_exists: true },
    );
    assert_eq!(state, StoreState::Done);
    assert!(matches!(action, StoreAction::Finish { .. }));
}

#[test]
fn not_found_fails_without_unpacking() {
    let task = typescript_task();
    let (state, _) = espm_core::store::store_step(
        &task,
        StoreState::Start,
        StoreEvent::Begin { unpacked_exists: false, lock_marker_exists: false },
    );
    let (state, _) = espm_core::store::store_step(
        &task,
        state,
        StoreEvent::LockAcquired { cache_file_exists: false },
    );
    let (state, action) = espm_core::store::store_step(
        &task,
        state,
        StoreEvent::Response { status: 404, status_text: "404 Not Found".to_string() },
    );
    assert_eq!(state, StoreState::Failed);
    match action {
        StoreAction::Fail { error: StoreError::DownloadNotFound { url } } => {
            assert_eq!(url, "https://registry.npmjs.org/typescript/-/typescript-5.1.6.tgz");
        }
        other => panic!("expected DownloadNotFound, got {:?}", other),
    }
}

#[test]
fn other_statuses_fail_with_download_failed() {
    let task = typescript_task();
    let (state, action) = espm_core::store::store_step(
        &task,
        StoreState::Downloading,
        StoreEvent::Response { status: 500, status_text: "500 Internal Server Error".to_string() },
    );
    assert_eq!(state, StoreState::Failed);
    match action {
        StoreAction::Fail { error: StoreError::DownloadFailed { url, status } } => {
            assert_eq!(url, "https://registry.npmjs.org/typescript/-/typescript-5.1.6.tgz");
            assert_eq!(status, "500 Internal Server Error");
        }
        other => panic!("expected DownloadFailed, got {:?}", other),
    }
}

#[test]
fn http_errors_fail_the_run() {
    let task = typescript_task();
    let (state, action) = espm_core::store::store_step(
        &task,
        StoreState::Downloading,
        StoreEvent::HttpFailed { error: "connection reset".to_string() },
    );
    assert_eq!(state, StoreState::Failed);
    match action {
        StoreAction::Fail { error: StoreError::Http { error } } => {
            assert_eq!(error, "connection reset");
        }
        other => panic!("expected Http, got {:?}", other),
    }
}
