//! The content-addressed, lock-protected local store for downloaded
//! build tools and built package artifacts.
//!
//! The store's paths and its download/unpack decisions are computed
//! here. The surrounding process performs the filesystem and network
//! work one step at a time: it hands each observation (directory exists,
//! lock held, response status) to `store_step` as an event and carries
//! out the action the step answers, so every decision along the way is
//! verified.

use vstd::prelude::*;
use vstd::string::StringExecFns;

use crate::errors::StoreError;
use crate::package_name::PackageName;
use crate::package_name::spec_namespace_of;
use crate::package_name::spec_package_of;
use crate::paths::path_join;
use crate::paths::spec_join;
use crate::target::EsTarget;
use crate::target::spec_target_str;
use crate::text::spec_dec;
use crate::text::u64_to_string;

verus! {

/// A semantic version, held as its three numbers.
#[derive(Clone, Copy, Debug, PartialEq, Eq, Structural)]
pub struct Version {
    pub major: u64,
    pub minor: u64,
    pub patch: u64,
}

/// `major.minor.patch` in decimal.
pub open spec fn spec_version_str(v: Version) -> Seq<char> {
    spec_dec(v.major as int) + seq!['.'] + spec_dec(v.minor as int) + seq!['.'] + spec_dec(
        v.patch as int,
    )
}

impl Version {
    /// Renders `major.minor.patch`.
    pub fn to_text(&self) -> (r: String)
        ensures
            r@ == spec_version_str(*self),
    {
        let r = u64_to_string(self.major).concat(".").concat(u64_to_string(self.minor).as_str())
            .concat(".").concat(u64_to_string(self.patch).as_str());
        proof {
            reveal_strlit(".");
            assert(r@ =~= spec_version_str(*self));
        }
        r
    }
}

/// An addressable identity in the store: everything the store needs to
/// compute where an item lives, how its archive is named, and how it
/// unpacks.
pub trait StorageItem {
    /// The fields the paths are computed from are themselves valid.
    spec fn valid(&self) -> bool;

    /// The archive file extension, without a leading dot.
    spec fn spec_archive_ext(&self) -> Seq<char>;

    /// The internal path prefix to strip while unpacking, if any.
    spec fn spec_archive_prefix(&self) -> Option<Seq<char>>;

    /// A human-readable label.
    spec fn spec_label(&self) -> Seq<char>;

    /// The content-addressed path the item unpacks under.
    spec fn spec_file_path(&self) -> Seq<char>;

    /// The stem of the item's archive file in the cache.
    spec fn spec_file_prefix(&self) -> Seq<char>;

    fn get_archive_ext(&self) -> (r: &str)
        ensures
            r@ == self.spec_archive_ext(),
    ;

    fn get_archive_prefix(&self) -> (r: Option<&str>)
        ensures
            match r {
                Some(p) => self.spec_archive_prefix() == Some(p@),
                None => self.spec_archive_prefix() is None,
            },
    ;

    fn get_label(&self) -> (r: &str)
        requires
            self.valid(),
        ensures
            r@ == self.spec_label(),
    ;

    fn to_file_path(&self) -> (r: String)
        requires
            self.valid(),
        ensures
            r@ == self.spec_file_path(),
    ;

    fn to_file_prefix(&self) -> (r: String)
        requires
            self.valid(),
        ensures
            r@ == self.spec_file_prefix(),
    ;
}

/// A built package artifact: one package, at one version, for one
/// target.
pub struct PackageItem<'app> {
    pub package: &'app PackageName,
    pub target: &'app EsTarget,
    pub version: &'app Version,
}

impl<'app> StorageItem for PackageItem<'app> {
    open spec fn valid(&self) -> bool {
        self.package.wf()
    }

    open spec fn spec_archive_ext(&self) -> Seq<char> {
        "tar.xz"@
    }

    open spec fn spec_archive_prefix(&self) -> Option<Seq<char>> {
        None
    }

    open spec fn spec_label(&self) -> Seq<char> {
        self.package@
    }

    /// `namespace/package/vX.Y.Z/<target>`.
    open spec fn spec_file_path(&self) -> Seq<char> {
        spec_namespace_of(self.package@) + seq!['/'] + spec_package_of(self.package@) + seq![
            '/',
            'v',
        ] + spec_version_str(*self.version) + seq!['/'] + spec_target_str(*self.target)
    }

    /// `namespace_package_vX.Y.Z_<target>`.
    open spec fn spec_file_prefix(&self) -> Seq<char> {
        spec_namespace_of(self.package@) + seq!['_'] + spec_package_of(self.package@) + seq![
            '_',
            'v',
        ] + spec_version_str(*self.version) + seq!['_'] + spec_target_str(*self.target)
    }

    fn get_archive_ext(&self) -> (r: &str) {
        "tar.xz"
    }

    fn get_archive_prefix(&self) -> (r: Option<&str>) {
        None
    }

    fn get_label(&self) -> (r: &str) {
        self.package.as_str()
    }

    fn to_file_path(&self) -> (r: String) {
        let (namespace, package) = self.package.components();
        let r = namespace.to_owned().concat("/").concat(package).concat("/v").concat(
            self.version.to_text().as_str(),
        ).concat("/").concat(self.target.as_str());
        proof {
            reveal_strlit("/");
            reveal_strlit("/v");
            assert(r@ =~= self.spec_file_path());
        }
        r
    }

    fn to_file_prefix(&self) -> (r: String) {
        let (namespace, package) = self.package.components();
        let r = namespace.to_owned().concat("_").concat(package).concat("_v").concat(
            self.version.to_text().as_str(),
        ).concat("_").concat(self.target.as_str());
        proof {
            reveal_strlit("_");
            reveal_strlit("_v");
            assert(r@ =~= self.spec_file_prefix());
        }
        r
    }
}

/// The pinned TypeScript compiler release, vendored from the npm
/// registry into the store's tool area. Its tarballs nest content under
/// a `package/` directory, which unpacking strips.
pub struct TypeScriptItem<'app> {
    pub version: &'app Version,
}

impl<'app> StorageItem for TypeScriptItem<'app> {
    open spec fn valid(&self) -> bool {
        true
    }

    open spec fn spec_archive_ext(&self) -> Seq<char> {
        "tar.gz"@
    }

    open spec fn spec_archive_prefix(&self) -> Option<Seq<char>> {
        Some("package"@)
    }

    open spec fn spec_label(&self) -> Seq<char> {
        "typescript"@
    }

    /// `__tool__/typescript/vX.Y.Z`: vendored build tools live under
    /// the store's `__tool__` namespace.
    open spec fn spec_file_path(&self) -> Seq<char> {
        "__tool__/typescript/v"@ + spec_version_str(*self.version)
    }

    /// `typescript_vX.Y.Z_npm`.
    open spec fn spec_file_prefix(&self) -> Seq<char> {
        "typescript_v"@ + spec_version_str(*self.version) + "_npm"@
    }

    fn get_archive_ext(&self) -> (r: &str) {
        "tar.gz"
    }

    fn get_archive_prefix(&self) -> (r: Option<&str>) {
        Some("package")
    }

    fn get_label(&self) -> (r: &str) {
        "typescript"
    }

    fn to_file_path(&self) -> (r: String) {
        "__tool__/typescript/v".to_owned().concat(self.version.to_text().as_str())
    }

    fn to_file_prefix(&self) -> (r: String) {
        "typescript_v".to_owned().concat(self.version.to_text().as_str()).concat("_npm")
    }
}

/// The store's three root directories, under a configurable home.
#[derive(Clone, Debug)]
pub struct Store {
    pub bin_dir: String,
    pub cache_dir: String,
    pub packages_dir: String,
    pub root: String,
}

impl Store {
    /// The store rooted at `root`: `bin/`, `cache/` and `packages/`
    /// under it. The caller creates the directories.
    pub fn load_from(root: &str) -> (s: Store)
        ensures
            s.root@ == root@,
            s.bin_dir@ == spec_join(root@, "bin"@),
            s.cache_dir@ == spec_join(root@, "cache"@),
            s.packages_dir@ == spec_join(root@, "packages"@),
    {
        Store {
            bin_dir: path_join(root, "bin"),
            cache_dir: path_join(root, "cache"),
            packages_dir: path_join(root, "packages"),
            root: root.to_owned(),
        }
    }

    /// Everything one `store_item` run needs: where the item unpacks,
    /// where its archive is cached, and where it downloads from.
    pub fn store_item_task<I: StorageItem>(&self, url: &str, item: &I) -> (t: StoreItemTask)
        requires
            item.valid(),
        ensures
            t.url@ == url@,
            t.unpack_dir@ == spec_join(self.packages_dir@, item.spec_file_path()),
            t.cache_file@ == spec_join(
                self.cache_dir@,
                item.spec_file_prefix() + seq!['.'] + item.spec_archive_ext(),
            ),
            match t.archive_prefix {
                Some(p) => item.spec_archive_prefix() == Some(p@),
                None => item.spec_archive_prefix() is None,
            },
    {
        let file_name = item.to_file_prefix().concat(".").concat(item.get_archive_ext());
        proof {
            reveal_strlit(".");
            assert(file_name@ =~= item.spec_file_prefix() + seq!['.'] + item.spec_archive_ext());
        }
        let archive_prefix: Option<String> = match item.get_archive_prefix() {
            Some(p) => Some(p.to_owned()),
            None => None,
        };
        StoreItemTask {
            url: url.to_owned(),
            unpack_dir: path_join(self.packages_dir.as_str(), item.to_file_path().as_str()),
            cache_file: path_join(self.cache_dir.as_str(), file_name.as_str()),
            archive_prefix,
        }
    }
}

/// One `store_item` run: the item's resolved paths and source URL.
#[derive(Clone, Debug)]
pub struct StoreItemTask {
    pub url: String,
    pub unpack_dir: String,
    pub cache_file: String,
    pub archive_prefix: Option<String>,
}

/// Where a `store_item` run stands.
#[derive(Clone, Copy, Debug, PartialEq, Eq, Structural)]
pub enum StoreState {
    /// Nothing observed yet.
    Start,
    /// The exclusive per-item directory lock is being acquired.
    Locking,
    /// The archive is being downloaded.
    Downloading,
    /// The response body is being persisted into the cache.
    Saving,
    /// The unpack directory is re-checked while the lock is held.
    Checking,
    /// The archive is being unpacked.
    Unpacking,
    /// The run finished with the unpacked directory.
    Done,
    /// The run finished with an error.
    Failed,
}

/// What the surrounding process observed since the last step.
#[derive(Debug)]
pub enum StoreEvent {
    /// The run begins: whether the unpack directory already exists, and
    /// whether an in-progress lock marker stands for it.
    Begin { unpacked_exists: bool, lock_marker_exists: bool },
    /// The lock is held: whether the compressed archive already sits in
    /// the cache.
    LockAcquired { cache_file_exists: bool },
    /// The download answered with this status.
    Response { status: u16, status_text: String },
    /// The request itself failed.
    HttpFailed { error: String },
    /// The body was persisted into the cache.
    ArchiveSaved,
    /// The re-check under the lock: whether the unpack directory exists
    /// by now.
    UnpackChecked { unpacked_exists: bool },
    /// The archive was unpacked.
    UnpackDone,
}

/// What the surrounding process must do next.
#[derive(Debug)]
pub enum StoreAction {
    /// Acquire the exclusive, scope-bound lock for this directory;
    /// blocks while a concurrent caller holds it.
    AcquireLock { dir: String },
    /// Perform the HTTPS GET.
    Download { url: String },
    /// Persist the response body to this cache file.
    SaveArchive { file: String },
    /// Report whether this directory exists.
    CheckUnpacked { dir: String },
    /// Unpack the archive into the directory, stripping the prefix.
    Unpack { archive_file: String, dir: String, strip_prefix: Option<String> },
    /// Release the lock if held and answer the unpacked directory.
    Finish { dir: String },
    /// Release the lock if held and answer the error.
    Fail { error: StoreError },
}

/// Which events a state can take. `Done` and `Failed` take none: they
/// end the run, on every exit path.
pub open spec fn event_fits(state: StoreState, event: StoreEvent) -> bool {
    match (state, event) {
        (StoreState::Start, StoreEvent::Begin { .. }) => true,
        (StoreState::Locking, StoreEvent::LockAcquired { .. }) => true,
        (StoreState::Downloading, StoreEvent::Response { .. }) => true,
        (StoreState::Downloading, StoreEvent::HttpFailed { .. }) => true,
        (StoreState::Saving, StoreEvent::ArchiveSaved) => true,
        (StoreState::Checking, StoreEvent::UnpackChecked { .. }) => true,
        (StoreState::Unpacking, StoreEvent::UnpackDone) => true,
        _ => false,
    }
}

/// The next state and action after observing `event` in `state`.
pub open spec fn spec_store_step(task: StoreItemTask, state: StoreState, event: StoreEvent) -> (
    StoreState,
    StoreAction,
) {
    match (state, event) {
        (StoreState::Start, StoreEvent::Begin { unpacked_exists, lock_marker_exists }) => {
            if unpacked_exists && !lock_marker_exists {
                (StoreState::Done, StoreAction::Finish { dir: task.unpack_dir })
            } else {
                (StoreState::Locking, StoreAction::AcquireLock { dir: task.unpack_dir })
            }
        },
        (StoreState::Locking, StoreEvent::LockAcquired { cache_file_exists }) => {
            if cache_file_exists {
                (StoreState::Checking, StoreAction::CheckUnpacked { dir: task.unpack_dir })
            } else {
                (StoreState::Downloading, StoreAction::Download { url: task.url })
            }
        },
        (StoreState::Downloading, StoreEvent::Response { status, status_text }) => {
            if status == 404 {
                (
                    StoreState::Failed,
                    StoreAction::Fail { error: StoreError::DownloadNotFound { url: task.url } },
                )
            } else if !(200 <= status && status < 300) {
                (
                    StoreState::Failed,
                    StoreAction::Fail {
                        error: StoreError::DownloadFailed { url: task.url, status: status_text },
                    },
                )
            } else {
                (StoreState::Saving, StoreAction::SaveArchive { file: task.cache_file })
            }
        },
        (StoreState::Downloading, StoreEvent::HttpFailed { error }) => {
            (StoreState::Failed, StoreAction::Fail { error: StoreError::Http { error } })
        },
        (StoreState::Saving, StoreEvent::ArchiveSaved) => {
            (StoreState::Checking, StoreAction::CheckUnpacked { dir: task.unpack_dir })
        },
        (StoreState::Checking, StoreEvent::UnpackChecked { unpacked_exists }) => {
            if unpacked_exists {
                (StoreState::Done, StoreAction::Finish { dir: task.unpack_dir })
            } else {
                (
                    StoreState::Unpacking,
                    StoreAction::Unpack {
                        archive_file: task.cache_file,
                        dir: task.unpack_dir,
                        strip_prefix: task.archive_prefix,
                    },
                )
            }
        },
        (StoreState::Unpacking, StoreEvent::UnpackDone) => {
            (StoreState::Done, StoreAction::Finish { dir: task.unpack_dir })
        },
        _ => arbitrary(),
    }
}

/// One verified step of a `store_item` run.
pub fn store_step(task: &StoreItemTask, state: StoreState, event: StoreEvent) -> (r: (
    StoreState,
    StoreAction,
))
    requires
        event_fits(state, event),
    ensures
        r == spec_store_step(*task, state, event),
{
    match (state, event) {
        (StoreState::Start, StoreEvent::Begin { unpacked_exists, lock_marker_exists }) => {
            if unpacked_exists && !lock_marker_exists {
                (StoreState::Done, StoreAction::Finish { dir: task.unpack_dir.clone() })
            } else {
                (StoreState::Locking, StoreAction::AcquireLock { dir: task.unpack_dir.clone() })
            }
        },
        (StoreState::Locking, StoreEvent::LockAcquired { cache_file_exists }) => {
            if cache_file_exists {
                (StoreState::Checking, StoreAction::CheckUnpacked { dir: task.unpack_dir.clone() })
            } else {
                (StoreState::Downloading, StoreAction::Download { url: task.url.clone() })
            }
        },
        (StoreState::Downloading, StoreEvent::Response { status, status_text }) => {
            if status == 404 {
                (
                    StoreState::Failed,
                    StoreAction::Fail {
                        error: StoreError::DownloadNotFound { url: task.url.clone() },
                    },
                )
            } else if !(200 <= status && status < 300) {
                (
                    StoreState::Failed,
                    StoreAction::Fail {
                        error: StoreError::DownloadFailed {
                            url: task.url.clone(),
                            status: status_text,
                        },
                    },
                )
            } else {
                (StoreState::Saving, StoreAction::SaveArchive { file: task.cache_file.clone() })
            }
        },
        (StoreState::Downloading, StoreEvent::HttpFailed { error }) => {
            (StoreState::Failed, StoreAction::Fail { error: StoreError::Http { error } })
        },
        (StoreState::Saving, StoreEvent::ArchiveSaved) => {
            (StoreState::Checking, StoreAction::CheckUnpacked { dir: task.unpack_dir.clone() })
        },
        (StoreState::Checking, StoreEvent::UnpackChecked { unpacked_exists }) => {
            if unpacked_exists {
                (StoreState::Done, StoreAction::Finish { dir: task.unpack_dir.clone() })
            } else {
                (
                    StoreState::Unpacking,
                    StoreAction::Unpack {
                        archive_file: task.cache_file.clone(),
                        dir: task.unpack_dir.clone(),
                        strip_prefix: clone_prefix(&task.archive_prefix),
                    },
                )
            }
        },
        (StoreState::Unpacking, StoreEvent::UnpackDone) => {
            (StoreState::Done, StoreAction::Finish { dir: task.unpack_dir.clone() })
        },
        _ => {
            proof {
                assert(false);
            }
            (StoreState::Failed, StoreAction::Fail { error: StoreError::Http { error: String::new() } })
        },
    }
}

fn clone_prefix(p: &Option<String>) -> (r: Option<String>)
    ensures
        r == *p,
{
    match p {
        Some(s) => Some(s.clone()),
        None => None,
    }
}

/// The state a run stands in after the given events, from `Start`.
pub open spec fn state_after(task: StoreItemTask, events: Seq<StoreEvent>) -> StoreState
    decreases events.len(),
{
    if events.len() == 0 {
        StoreState::Start
    } else {
        spec_store_step(task, state_after(task, events.drop_last()), events.last()).0
    }
}

/// The action the run answers for its `i`-th event.
pub open spec fn action_at(task: StoreItemTask, events: Seq<StoreEvent>, i: int) -> StoreAction
    recommends
        0 <= i < events.len(),
{
    spec_store_step(task, state_after(task, events.take(i)), events[i]).1
}

/// Every event of the run fits the state it arrives in.
pub open spec fn valid_run(task: StoreItemTask, events: Seq<StoreEvent>) -> bool {
    forall|i: int|
        0 <= i < events.len() ==> event_fits(
            state_after(task, #[trigger] events.take(i)),
            events[i],
        )
}

/// How far along a run a state stands. Every step strictly advances it,
/// so no state is ever revisited.
pub open spec fn phase(s: StoreState) -> int {
    match s {
        StoreState::Start => 0,
        StoreState::Locking => 1,
        StoreState::Downloading => 2,
        StoreState::Saving => 3,
        StoreState::Checking => 4,
        StoreState::Unpacking => 5,
        StoreState::Done => 6,
        StoreState::Failed => 6,
    }
}

proof fn lemma_state_after_take(task: StoreItemTask, events: Seq<StoreEvent>, i: int)
    requires
        0 <= i < events.len(),
    ensures
        state_after(task, events.take(i + 1)) == spec_store_step(
            task,
            state_after(task, events.take(i)),
            events[i],
        ).0,
{
    assert(events.take(i + 1).drop_last() =~= events.take(i));
    assert(events.take(i + 1).last() == events[i]);
}

proof fn lemma_step_phase(task: StoreItemTask, s: StoreState, e: StoreEvent)
    requires
        event_fits(s, e),
    ensures
        phase(spec_store_step(task, s, e).0) > phase(s),
{
}

proof fn lemma_phase_monotone(task: StoreItemTask, events: Seq<StoreEvent>, i: int, j: int)
    requires
        valid_run(task, events),
        0 <= i < j <= events.len(),
    ensures
        phase(state_after(task, events.take(i))) < phase(state_after(task, events.take(j))),
    decreases j - i,
{
    assert(event_fits(state_after(task, events.take(j - 1)), events[j - 1]));
    lemma_step_phase(task, state_after(task, events.take(j - 1)), events[j - 1]);
    lemma_state_after_take(task, events, j - 1);
    if i < j - 1 {
        lemma_phase_monotone(task, events, i, j - 1);
    }
}

/// The `i`-th step answers `Download` only while the run holds the lock
/// for the first time, in state `Locking`.
proof fn lemma_download_only_from_locking(task: StoreItemTask, events: Seq<StoreEvent>, i: int)
    requires
        valid_run(task, events),
        0 <= i < events.len(),
        action_at(task, events, i) is Download,
    ensures
        state_after(task, events.take(i)) == StoreState::Locking,
{
    assert(event_fits(state_after(task, events.take(i)), events[i]));
}

/// A run performs at most one network download, however it ends: the
/// state that issues one is never revisited.
pub proof fn lemma_download_at_most_once(task: StoreItemTask, events: Seq<StoreEvent>)
    requires
        valid_run(task, events),
    ensures
        forall|i: int, j: int|
            0 <= i < j < events.len() ==> !(action_at(task, events, i) is Download && action_at(
                task,
                events,
                j,
            ) is Download),
{
    assert forall|i: int, j: int|
        0 <= i < j < events.len() implies !(action_at(task, events, i) is Download && action_at(
        task,
        events,
        j,
    ) is Download) by {
        if action_at(task, events, i) is Download && action_at(task, events, j) is Download {
            lemma_download_only_from_locking(task, events, i);
            lemma_download_only_from_locking(task, events, j);
            lemma_phase_monotone(task, events, i, j);
        }
    }
}

/// A run that begins with the unpack directory present and no lock
/// marker answers the directory at once: zero network calls, zero
/// further steps.
pub proof fn lemma_cache_hit_returns_at_once(task: StoreItemTask, events: Seq<StoreEvent>)
    requires
        valid_run(task, events),
        events.len() >= 1,
        events[0] matches StoreEvent::Begin { unpacked_exists: true, lock_marker_exists: false },
    ensures
        events.len() == 1,
        action_at(task, events, 0) == (StoreAction::Finish { dir: task.unpack_dir }),
{
    assert(events.take(0) =~= Seq::<StoreEvent>::empty());
    assert(event_fits(state_after(task, events.take(0)), events[0]));
    if events.len() >= 2 {
        lemma_state_after_take(task, events, 0);
        assert(state_after(task, events.take(1)) == StoreState::Done);
        assert(event_fits(state_after(task, events.take(1)), events[1]));
    }
}

/// A 404 answer ends the run with `DownloadNotFound` at that very step,
/// and no step of the run ever unpacks: no unpack directory appears.
pub proof fn lemma_not_found_never_unpacks(task: StoreItemTask, events: Seq<StoreEvent>, i: int)
    requires
        valid_run(task, events),
        0 <= i < events.len(),
        events[i] matches StoreEvent::Response { status, .. } && status == 404,
    ensures
        action_at(task, events, i) == (StoreAction::Fail {
            error: StoreError::DownloadNotFound { url: task.url },
        }),
        i == events.len() - 1,
        forall|j: int| 0 <= j < events.len() ==> !(action_at(task, events, j) is Unpack),
{
    assert(event_fits(state_after(task, events.take(i)), events[i]));
    assert(state_after(task, events.take(i)) == StoreState::Downloading);
    if i < events.len() - 1 {
        lemma_state_after_take(task, events, i);
        assert(state_after(task, events.take(i + 1)) == StoreState::Failed);
        assert(event_fits(state_after(task, events.take(i + 1)), events[i + 1]));
    }
    assert forall|j: int| 0 <= j < events.len() implies !(action_at(task, events, j) is Unpack) by {
        if action_at(task, events, j) is Unpack {
            assert(event_fits(state_after(task, events.take(j)), events[j]));
            assert(state_after(task, events.take(j)) == StoreState::Checking);
            if j < i {
                lemma_phase_monotone(task, events, j, i);
            }
        }
    }
}

} // verus!
