use vstd::prelude::*;
use vstd::string::*;
use crate::layout::EXECUTABLE_MODE;
use crate::path::{has_file_name, names_a_file, spec_extract_filename};
use crate::retry::{spec_backoff_delay, RetryPolicy};
use crate::text::str_eq;

pub use crate::path::extract_filename;

verus! {

/// The number of random characters in the name of a scratch path of a
/// synchronization.
pub const SCRATCH_NAME_LEN: usize = 15;

/// The number of attempts at one call of the object store.
pub const STORE_ATTEMPTS: u64 = 20;

/// The unit of the wait between two attempts at the object store, in
/// seconds.
pub const STORE_BASE_DELAY_SECS: u64 = 5;

/// How a call of the object store is tried again after a failure: up to 20
/// attempts, with waits of 5 seconds, 10 seconds and so on.
pub fn store_retry_policy() -> (policy: RetryPolicy)
    ensures
        policy.wf(),
        policy.spec_max_attempts() == 20,
        policy.spec_base_delay() == 5,
{
    match RetryPolicy::new(STORE_ATTEMPTS, STORE_BASE_DELAY_SECS) {
        Some(policy) => policy,
        None => vstd::pervasive::unreached(),
    }
}

/// Whether a transfer has to fetch its object: the local target is missing, or
/// existing files are to be replaced.
pub open spec fn spec_needs_download(target_exists: bool, overwrite: bool) -> bool {
    !target_exists || overwrite
}

/// Whether a transfer has to fetch its object.
pub fn needs_download(target_exists: bool, overwrite: bool) -> (needed: bool)
    ensures
        needed == spec_needs_download(target_exists, overwrite),
{
    !target_exists || overwrite
}

/// A name that stands for the plugin directory itself, not for a plugin.
pub open spec fn spec_is_placeholder(name: Seq<char>) -> bool {
    name == "plugin"@ || name == "plugin/"@
}

/// Whether `name` stands for the plugin directory itself.
pub fn is_placeholder(name: &str) -> (placeholder: bool)
    ensures
        placeholder == spec_is_placeholder(name@),
{
    str_eq(name, "plugin") || str_eq(name, "plugin/")
}

/// Where the plugin stored under `key` is placed: in `dir`, under the name
/// extracted from the key.
pub open spec fn spec_plugin_target(dir: Seq<char>, key: Seq<char>) -> Seq<char> {
    dir + "/"@ + spec_extract_filename(key)
}

/// Where the plugin stored under `key` is placed.
pub fn plugin_target(dir: &str, key: &str) -> (target: String)
    requires
        has_file_name(key@),
    ensures
        target@ == spec_plugin_target(dir@, key@),
{
    let name = extract_filename(key);
    let mut target = String::from_str(dir);
    target.append("/");
    target.append(name.as_str());
    target
}

/// How a call of the object store ended.
#[derive(Clone, Copy, Debug, PartialEq, Eq, Structural)]
pub enum StoreOutcome {
    Done,
    /// It failed, and trying again may help.
    Retryable,
    /// It failed for good.
    Fatal,
}

/// Why a synchronization was given up.
#[derive(Clone, Copy, Debug, PartialEq, Eq, Structural)]
pub enum SyncFailure {
    /// The store failed for good.
    NonRetryable,
    /// The store failed on every attempt that the policy allows.
    RetriesExhausted,
    /// A listed key names no file.
    NamelessKey,
    /// No scratch path could be made.
    NoScratch,
    /// The fetched object could not be put in its place.
    NotPlaced,
    /// The plugin directory could not be made.
    NoPluginDir,
}

/// What a synchronization is waiting for.
#[derive(Clone, Copy, Debug, PartialEq, Eq, Structural)]
pub enum SyncStage {
    /// Whether the target of the current transfer exists.
    Probing,
    /// A scratch path for the current transfer.
    AwaitingScratch,
    /// The store's answer to a `get`.
    Fetching,
    /// The end of the wait after a failed `get`.
    FetchBackoff,
    /// The fetched object to be put in its place.
    Placing,
    /// The store's answer to a `list`.
    Listing,
    /// The end of the wait after a failed `list`.
    ListBackoff,
    /// The plugin directory to be there.
    PreparingDir,
    Finished,
    Failed(SyncFailure),
}

/// What is mirrored, and whereto.
#[derive(Clone, Debug, PartialEq, Eq)]
pub struct SyncRequest {
    /// Replace what is there already.
    pub overwrite: bool,
    pub bucket: String,
    pub binary_key: String,
    pub target_binary_path: String,
    pub plugin_key_prefix: String,
    pub target_plugin_dir: String,
}

pub struct SyncRequestView {
    pub overwrite: bool,
    pub bucket: Seq<char>,
    pub binary_key: Seq<char>,
    pub target_binary_path: Seq<char>,
    pub plugin_key_prefix: Seq<char>,
    pub target_plugin_dir: Seq<char>,
}

impl View for SyncRequest {
    type V = SyncRequestView;

    open spec fn view(&self) -> SyncRequestView {
        SyncRequestView {
            overwrite: self.overwrite,
            bucket: self.bucket@,
            binary_key: self.binary_key@,
            target_binary_path: self.target_binary_path@,
            plugin_key_prefix: self.plugin_key_prefix@,
            target_plugin_dir: self.target_plugin_dir@,
        }
    }
}

/// What the caller reports back.
#[derive(Clone, Debug, PartialEq, Eq)]
pub enum SyncEvent {
    /// Whether the probed path exists.
    Exists(bool),
    /// A fresh scratch path, or none where it could not be made.
    Scratch(Option<String>),
    /// How the `get` ended.
    Fetched(StoreOutcome),
    /// How the `list` ended, with the keys it found where it succeeded.
    Listed { outcome: StoreOutcome, keys: Vec<String> },
    /// The wait is over.
    Slept,
    /// Whether the object was put in its place.
    Placed(bool),
    /// Whether the plugin directory is there.
    DirReady(bool),
}

pub enum SyncEventView {
    Exists(bool),
    Scratch(Option<Seq<char>>),
    Fetched(StoreOutcome),
    Listed { outcome: StoreOutcome, keys: Seq<Seq<char>> },
    Slept,
    Placed(bool),
    DirReady(bool),
}

/// The keys of a listing as sequences of characters.
pub open spec fn keys_view(keys: Seq<String>) -> Seq<Seq<char>> {
    Seq::new(keys.len(), |i: int| keys[i]@)
}

impl View for SyncEvent {
    type V = SyncEventView;

    open spec fn view(&self) -> SyncEventView {
        match self {
            SyncEvent::Exists(exists) => SyncEventView::Exists(*exists),
            SyncEvent::Scratch(Some(path)) => SyncEventView::Scratch(Some(path@)),
            SyncEvent::Scratch(None) => SyncEventView::Scratch(None),
            SyncEvent::Fetched(outcome) => SyncEventView::Fetched(*outcome),
            SyncEvent::Listed { outcome, keys } => SyncEventView::Listed {
                outcome: *outcome,
                keys: keys_view(keys@),
            },
            SyncEvent::Slept => SyncEventView::Slept,
            SyncEvent::Placed(placed) => SyncEventView::Placed(*placed),
            SyncEvent::DirReady(ready) => SyncEventView::DirReady(*ready),
        }
    }
}

/// What the caller is asked to do next.
#[derive(Clone, Debug, PartialEq, Eq)]
pub enum SyncAction {
    /// Say whether `path` exists.
    Probe { path: String },
    /// Make a fresh scratch path whose name has `name_len` random
    /// characters.
    AllocateScratch { name_len: usize },
    /// Fetch the object `key` of `bucket` to the path `scratch`.
    Get { bucket: String, key: String, scratch: String },
    /// Wait for `secs` seconds.
    Sleep { secs: u64 },
    /// Copy `scratch` to `target`, delete `scratch`, and set the permission
    /// bits of `target` to `mode`.
    Place { scratch: String, target: String, mode: u32 },
    /// List the objects of `bucket` under `prefix`.
    List { bucket: String, prefix: String },
    /// Make the directory `path` with its parents, unless it is there.
    EnsureDir { path: String },
    /// Nothing is left to do.
    Finish,
    /// Give up.
    Fail { reason: SyncFailure },
}

pub enum SyncActionView {
    Probe { path: Seq<char> },
    AllocateScratch { name_len: nat },
    Get { bucket: Seq<char>, key: Seq<char>, scratch: Seq<char> },
    Sleep { secs: nat },
    Place { scratch: Seq<char>, target: Seq<char>, mode: u32 },
    List { bucket: Seq<char>, prefix: Seq<char> },
    EnsureDir { path: Seq<char> },
    Finish,
    Fail { reason: SyncFailure },
}

impl View for SyncAction {
    type V = SyncActionView;

    open spec fn view(&self) -> SyncActionView {
        match self {
            SyncAction::Probe { path } => SyncActionView::Probe { path: path@ },
            SyncAction::AllocateScratch { name_len } => SyncActionView::AllocateScratch {
                name_len: *name_len as nat,
            },
            SyncAction::Get { bucket, key, scratch } => SyncActionView::Get {
                bucket: bucket@,
                key: key@,
                scratch: scratch@,
            },
            SyncAction::Sleep { secs } => SyncActionView::Sleep { secs: *secs as nat },
            SyncAction::Place { scratch, target, mode } => SyncActionView::Place {
                scratch: scratch@,
                target: target@,
                mode: *mode,
            },
            SyncAction::List { bucket, prefix } => SyncActionView::List {
                bucket: bucket@,
                prefix: prefix@,
            },
            SyncAction::EnsureDir { path } => SyncActionView::EnsureDir { path: path@ },
            SyncAction::Finish => SyncActionView::Finish,
            SyncAction::Fail { reason } => SyncActionView::Fail { reason: *reason },
        }
    }
}

/// Where the walk through the listed keys comes to rest when it starts at
/// `from`: on the first key that names a plugin, which is then probed; on a
/// key that names no file, which ends the synchronization; or behind the last
/// key. Keys that stand for the plugin directory itself are passed over.
pub open spec fn spec_settle(keys: Seq<Seq<char>>, from: nat) -> (nat, SyncStage)
    decreases keys.len() - from,
{
    if from >= keys.len() {
        (from, SyncStage::Finished)
    } else if !has_file_name(keys[from as int]) {
        (from, SyncStage::Failed(SyncFailure::NamelessKey))
    } else if spec_is_placeholder(spec_extract_filename(keys[from as int])) {
        spec_settle(keys, from + 1)
    } else {
        (from, SyncStage::Probing)
    }
}

/// Where the walk through the listed keys comes to rest: at or behind its
/// start, on a key that names a plugin or that names no file, or behind the
/// last key; and every key that it passed over stands for the plugin directory
/// itself.
pub proof fn lemma_settle(keys: Seq<Seq<char>>, from: nat)
    requires
        from <= keys.len(),
    ensures
        from <= spec_settle(keys, from).0 <= keys.len(),
        match spec_settle(keys, from).1 {
            SyncStage::Finished => spec_settle(keys, from).0 == keys.len(),
            SyncStage::Probing => {
                &&& spec_settle(keys, from).0 < keys.len()
                &&& has_file_name(keys[spec_settle(keys, from).0 as int])
                &&& !spec_is_placeholder(
                    spec_extract_filename(keys[spec_settle(keys, from).0 as int]),
                )
            },
            SyncStage::Failed(reason) => {
                &&& reason == SyncFailure::NamelessKey
                &&& spec_settle(keys, from).0 < keys.len()
                &&& !has_file_name(keys[spec_settle(keys, from).0 as int])
            },
            _ => false,
        },
        forall|i: int|
            from <= i < spec_settle(keys, from).0 ==> has_file_name(#[trigger] keys[i])
                && spec_is_placeholder(spec_extract_filename(keys[i])),
    decreases keys.len() - from,
{
    if from < keys.len() && has_file_name(keys[from as int]) && spec_is_placeholder(
        spec_extract_filename(keys[from as int]),
    ) {
        lemma_settle(keys, from + 1);
    }
}

/// The state of a synchronization.
pub struct SyncView {
    pub request: SyncRequestView,
    pub policy: RetryPolicy,
    pub stage: SyncStage,
    /// The number of the current attempt at the store, counted from 0.
    pub round: nat,
    /// The scratch path of the current transfer.
    pub scratch: Seq<char>,
    /// The keys that the store listed.
    pub keys: Seq<Seq<char>>,
    /// The listed key that is being transferred.
    pub cursor: nat,
    /// The binary is done with, and the plugins are being transferred.
    pub plugins: bool,
}

impl SyncView {
    /// The state in which a synchronization starts: it asks whether the binary
    /// is there.
    pub open spec fn initial(request: SyncRequestView, policy: RetryPolicy) -> SyncView {
        SyncView {
            request,
            policy,
            stage: SyncStage::Probing,
            round: 0,
            scratch: Seq::<char>::empty(),
            keys: Seq::<Seq<char>>::empty(),
            cursor: 0,
            plugins: false,
        }
    }

    /// The stage belongs to the transfer of one object.
    pub open spec fn in_transfer(self) -> bool {
        self.stage is Probing || self.stage is AwaitingScratch || self.stage is Fetching
            || self.stage is FetchBackoff || self.stage is Placing
    }

    /// The stage belongs to the listing of the plugins.
    pub open spec fn in_listing(self) -> bool {
        self.stage is Listing || self.stage is ListBackoff || self.stage is PreparingDir
    }

    /// The attempt is within the budget; the binary comes before the listing
    /// and the listing before the plugins; and a plugin in transfer is a
    /// listed key that names a file and does not stand for the directory.
    pub open spec fn wf(self) -> bool {
        &&& self.policy.wf()
        &&& self.round < self.policy.spec_max_attempts()
        &&& self.cursor <= self.keys.len()
        &&& self.in_listing() ==> !self.plugins
        &&& self.stage is Finished ==> self.plugins
        &&& self.plugins && self.in_transfer() ==> {
            &&& self.cursor < self.keys.len()
            &&& has_file_name(self.keys[self.cursor as int])
            &&& !spec_is_placeholder(spec_extract_filename(self.keys[self.cursor as int]))
        }
    }

    /// The key of the object in transfer.
    pub open spec fn key(self) -> Seq<char> {
        if self.plugins {
            self.keys[self.cursor as int]
        } else {
            self.request.binary_key
        }
    }

    /// The path at which the object in transfer is placed.
    pub open spec fn target(self) -> Seq<char> {
        if self.plugins {
            spec_plugin_target(self.request.target_plugin_dir, self.keys[self.cursor as int])
        } else {
            self.request.target_binary_path
        }
    }

    /// The wait after the current attempt.
    pub open spec fn delay(self) -> nat {
        spec_backoff_delay(self.round, self.policy.spec_base_delay())
    }

    /// What the caller is asked to do in this state.
    pub open spec fn action(self) -> SyncActionView {
        match self.stage {
            SyncStage::Probing => SyncActionView::Probe { path: self.target() },
            SyncStage::AwaitingScratch => SyncActionView::AllocateScratch {
                name_len: SCRATCH_NAME_LEN as nat,
            },
            SyncStage::Fetching => SyncActionView::Get {
                bucket: self.request.bucket,
                key: self.key(),
                scratch: self.scratch,
            },
            SyncStage::FetchBackoff => SyncActionView::Sleep { secs: self.delay() },
            SyncStage::Placing => SyncActionView::Place {
                scratch: self.scratch,
                target: self.target(),
                mode: EXECUTABLE_MODE,
            },
            SyncStage::Listing => SyncActionView::List {
                bucket: self.request.bucket,
                prefix: self.request.plugin_key_prefix,
            },
            SyncStage::ListBackoff => SyncActionView::Sleep { secs: self.delay() },
            SyncStage::PreparingDir => SyncActionView::EnsureDir {
                path: self.request.target_plugin_dir,
            },
            SyncStage::Finished => SyncActionView::Finish,
            SyncStage::Failed(reason) => SyncActionView::Fail { reason },
        }
    }

    /// The state with another stage.
    pub open spec fn at(self, stage: SyncStage) -> SyncView {
        SyncView { stage, ..self }
    }

    /// The state in which the plugins from the key number `from` on are left.
    pub open spec fn settled(self, from: nat) -> SyncView {
        SyncView {
            plugins: true,
            round: 0,
            cursor: spec_settle(self.keys, from).0,
            stage: spec_settle(self.keys, from).1,
            ..self
        }
    }

    /// The state once the current transfer is done with: after the binary the
    /// plugins are listed, after a plugin the next one is taken up.
    pub open spec fn after_transfer(self) -> SyncView {
        if self.plugins {
            self.settled(self.cursor + 1)
        } else {
            SyncView { stage: SyncStage::Listing, round: 0, ..self }
        }
    }

    /// The state after the caller has reported `event`. A report that the
    /// state does not wait for changes nothing.
    pub open spec fn advance(self, event: SyncEventView) -> SyncView {
        match (self.stage, event) {
            (SyncStage::Probing, SyncEventView::Exists(exists)) => {
                if spec_needs_download(exists, self.request.overwrite) {
                    self.at(SyncStage::AwaitingScratch)
                } else {
                    self.after_transfer()
                }
            },
            (SyncStage::AwaitingScratch, SyncEventView::Scratch(Some(path))) => SyncView {
                stage: SyncStage::Fetching,
                round: 0,
                scratch: path,
                ..self
            },
            (SyncStage::AwaitingScratch, SyncEventView::Scratch(None)) => self.at(
                SyncStage::Failed(SyncFailure::NoScratch),
            ),
            (SyncStage::Fetching, SyncEventView::Fetched(StoreOutcome::Done)) => self.at(
                SyncStage::Placing,
            ),
            (SyncStage::Fetching, SyncEventView::Fetched(StoreOutcome::Retryable)) => self.at(
                SyncStage::FetchBackoff,
            ),
            (SyncStage::Fetching, SyncEventView::Fetched(StoreOutcome::Fatal)) => self.at(
                SyncStage::Failed(SyncFailure::NonRetryable),
            ),
            (SyncStage::FetchBackoff, SyncEventView::Slept) => {
                if self.round + 1 < self.policy.spec_max_attempts() {
                    SyncView { stage: SyncStage::Fetching, round: self.round + 1, ..self }
                } else {
                    self.at(SyncStage::Failed(SyncFailure::RetriesExhausted))
                }
            },
            (SyncStage::Placing, SyncEventView::Placed(placed)) => {
                if placed {
                    self.after_transfer()
                } else {
                    self.at(SyncStage::Failed(SyncFailure::NotPlaced))
                }
            },
            (SyncStage::Listing, SyncEventView::Listed { outcome: StoreOutcome::Done, keys }) => {
                SyncView { stage: SyncStage::PreparingDir, keys, cursor: 0, ..self }
            },
            (
                SyncStage::Listing,
                SyncEventView::Listed { outcome: StoreOutcome::Retryable, keys },
            ) => self.at(SyncStage::ListBackoff),
            (SyncStage::Listing, SyncEventView::Listed { outcome: StoreOutcome::Fatal, keys }) => {
                self.at(SyncStage::Failed(SyncFailure::NonRetryable))
            },
            (SyncStage::ListBackoff, SyncEventView::Slept) => {
                if self.round + 1 < self.policy.spec_max_attempts() {
                    SyncView { stage: SyncStage::Listing, round: self.round + 1, ..self }
                } else {
                    self.at(SyncStage::Failed(SyncFailure::RetriesExhausted))
                }
            },
            (SyncStage::PreparingDir, SyncEventView::DirReady(ready)) => {
                if ready {
                    self.settled(0)
                } else {
                    self.at(SyncStage::Failed(SyncFailure::NoPluginDir))
                }
            },
            _ => self,
        }
    }

    /// The state after the caller has reported `events` one after the other.
    pub open spec fn run(self, events: Seq<SyncEventView>) -> SyncView
        decreases events.len(),
    {
        if events.len() == 0 {
            self
        } else {
            self.run(events.drop_last()).advance(events.last())
        }
    }
}

/// A report keeps a state well formed.
pub proof fn lemma_advance_keeps_wf(state: SyncView, event: SyncEventView)
    requires
        state.wf(),
    ensures
        state.advance(event).wf(),
{
    lemma_settle(state.keys, 0);
    if state.cursor < state.keys.len() {
        lemma_settle(state.keys, state.cursor + 1);
    }
    if let SyncEventView::Listed { outcome, keys } = event {
        lemma_settle(keys, 0);
    }
}

/// Every state that a synchronization reaches is well formed. So whenever a
/// plugin is probed, fetched or placed, its key names a file, and the name
/// does not stand for the plugin directory itself.
pub proof fn lemma_run_keeps_wf(state: SyncView, events: Seq<SyncEventView>)
    requires
        state.wf(),
    ensures
        state.run(events).wf(),
    decreases events.len(),
{
    if events.len() > 0 {
        lemma_run_keeps_wf(state, events.drop_last());
        lemma_advance_keeps_wf(state.run(events.drop_last()), events.last());
    }
}

/// The report is not that of a target that is missing.
pub open spec fn finds_its_target(event: SyncEventView) -> bool {
    event matches SyncEventView::Exists(exists) ==> exists
}

/// Every probe among the reports found its target.
pub open spec fn all_targets_exist(events: Seq<SyncEventView>) -> bool {
    forall|i: int| 0 <= i < events.len() ==> finds_its_target(#[trigger] events[i])
}

/// The state asks for nothing of a transfer but whether the target exists.
pub open spec fn asks_no_get(state: SyncView) -> bool {
    !(state.stage is AwaitingScratch || state.stage is Fetching || state.stage is FetchBackoff
        || state.stage is Placing)
}

/// Where nothing is to be replaced and every target is found in its place, a
/// synchronization never fetches an object: whatever else is reported, no
/// state that it reaches asks for a `get`.
pub proof fn lemma_existing_targets_are_not_fetched(
    request: SyncRequestView,
    policy: RetryPolicy,
    events: Seq<SyncEventView>,
)
    requires
        !request.overwrite,
        all_targets_exist(events),
    ensures
        asks_no_get(SyncView::initial(request, policy).run(events)),
        !(SyncView::initial(request, policy).run(events).action() is Get),
        SyncView::initial(request, policy).run(events).request == request,
    decreases events.len(),
{
    if events.len() > 0 {
        let before = events.drop_last();
        assert forall|i: int| 0 <= i < before.len() implies finds_its_target(
            #[trigger] before[i],
        ) by {
            assert(before[i] == events[i]);
        }
        lemma_existing_targets_are_not_fetched(request, policy, before);
        let state = SyncView::initial(request, policy).run(before);
        assert(finds_its_target(events[events.len() - 1]));
        lemma_settle(state.keys, 0);
        if state.cursor < state.keys.len() {
            lemma_settle(state.keys, state.cursor + 1);
        }
    }
}

/// Where existing files are to be replaced, a probed target is fetched
/// whether it exists or not: once the scratch path is there, the object in
/// transfer is asked of the store.
pub proof fn lemma_overwrite_always_fetches(state: SyncView, exists: bool, scratch: Seq<char>)
    requires
        state.request.overwrite,
        state.stage is Probing,
    ensures
        state.advance(SyncEventView::Exists(exists)).action() == (SyncActionView::AllocateScratch {
            name_len: SCRATCH_NAME_LEN as nat,
        }),
        state.advance(SyncEventView::Exists(exists)).advance(
            SyncEventView::Scratch(Some(scratch)),
        ).action() == (SyncActionView::Get {
            bucket: state.request.bucket,
            key: state.key(),
            scratch,
        }),
{
}

/// A target that is missing is fetched, whether or not existing files are to
/// be replaced.
pub proof fn lemma_missing_target_is_fetched(state: SyncView, scratch: Seq<char>)
    requires
        state.stage is Probing,
    ensures
        state.advance(SyncEventView::Exists(false)).advance(
            SyncEventView::Scratch(Some(scratch)),
        ).action() == (SyncActionView::Get {
            bucket: state.request.bucket,
            key: state.key(),
            scratch,
        }),
{
}

/// `count` failed attempts at a `get`, each followed by its wait.
pub open spec fn failed_gets(count: nat) -> Seq<SyncEventView>
    decreases count,
{
    if count == 0 {
        Seq::<SyncEventView>::empty()
    } else {
        failed_gets((count - 1) as nat).push(
            SyncEventView::Fetched(StoreOutcome::Retryable),
        ).push(SyncEventView::Slept)
    }
}

/// A `get` that fails again and again is tried as often as the policy allows
/// and no more: after fewer failures the next attempt is asked for, after the
/// last one the synchronization has failed for want of attempts.
pub proof fn lemma_failing_get_exhausts_retries(state: SyncView, count: nat)
    requires
        state.wf(),
        state.stage is Fetching,
        state.round == 0,
        count <= state.policy.spec_max_attempts(),
    ensures
        count < state.policy.spec_max_attempts() ==> state.run(failed_gets(count)) == (SyncView {
            round: count,
            ..state
        }),
        count == state.policy.spec_max_attempts() ==> state.run(failed_gets(count)) == (SyncView {
            round: (count - 1) as nat,
            stage: SyncStage::Failed(SyncFailure::RetriesExhausted),
            ..state
        }),
    decreases count,
{
    if count > 0 {
        let before = failed_gets((count - 1) as nat);
        let failed = before.push(SyncEventView::Fetched(StoreOutcome::Retryable));
        let slept = failed.push(SyncEventView::Slept);
        lemma_failing_get_exhausts_retries(state, (count - 1) as nat);
        assert(slept.drop_last() =~= failed);
        assert(failed.drop_last() =~= before);
        assert(state.run(failed) == state.run(before).advance(failed.last()));
        assert(state.run(slept) == state.run(failed).advance(slept.last()));
    }
}

/// A synchronization of the binary and of its plugins with an object store,
/// between two reports of the caller.
pub struct Sync {
    request: SyncRequest,
    policy: RetryPolicy,
    stage: SyncStage,
    round: u64,
    scratch: String,
    keys: Vec<String>,
    cursor: usize,
    plugins: bool,
}

impl View for Sync {
    type V = SyncView;

    closed spec fn view(&self) -> SyncView {
        SyncView {
            request: self.request@,
            policy: self.policy,
            stage: self.stage,
            round: self.round as nat,
            scratch: self.scratch@,
            keys: keys_view(self.keys@),
            cursor: self.cursor as nat,
            plugins: self.plugins,
        }
    }
}

/// Walks through the listed keys from the key number `from` on.
fn settle(keys: &Vec<String>, from: usize) -> (rest: (usize, SyncStage))
    requires
        from <= keys@.len(),
    ensures
        (rest.0 as nat, rest.1) == spec_settle(keys_view(keys@), from as nat),
        rest.0 <= keys@.len(),
{
    let mut at = from;
    while at < keys.len()
        invariant
            from <= at <= keys@.len(),
            spec_settle(keys_view(keys@), at as nat) == spec_settle(
                keys_view(keys@),
                from as nat,
            ),
        decreases keys@.len() - at,
    {
        let key = keys[at].as_str();
        assert(keys_view(keys@)[at as int] == key@);
        if !names_a_file(key) {
            return (at, SyncStage::Failed(SyncFailure::NamelessKey));
        }
        let name = extract_filename(key);
        if !is_placeholder(name.as_str()) {
            return (at, SyncStage::Probing);
        }
        at = at + 1;
    }
    (at, SyncStage::Finished)
}

impl Sync {
    #[verifier::type_invariant]
    spec fn inv(self) -> bool {
        self@.wf()
    }

    /// A synchronization that has not begun, with the retry policy of the
    /// object store.
    pub fn with_store_policy(request: SyncRequest) -> (sync: Sync)
        ensures
            sync@.request == request@,
            sync@ == SyncView::initial(request@, sync@.policy),
            sync@.policy.spec_max_attempts() == 20,
            sync@.policy.spec_base_delay() == 5,
            sync@.wf(),
    {
        Sync::new(request, store_retry_policy())
    }

    /// A synchronization that has not begun: it asks whether the binary is
    /// there.
    pub fn new(request: SyncRequest, policy: RetryPolicy) -> (sync: Sync)
        ensures
            sync@ == SyncView::initial(request@, policy),
            sync@.wf(),
    {
        let _ = policy.max_attempts();
        let keys: Vec<String> = Vec::new();
        assert(keys_view(keys@) =~= Seq::<Seq<char>>::empty());
        Sync {
            request,
            policy,
            stage: SyncStage::Probing,
            round: 0,
            scratch: String::new(),
            keys,
            cursor: 0,
            plugins: false,
        }
    }

    /// What the synchronization is waiting for.
    pub fn stage(&self) -> (stage: SyncStage)
        ensures
            stage == self@.stage,
            self@.wf(),
    {
        proof {
            use_type_invariant(self);
        }
        self.stage
    }

    fn settled(self, from: usize) -> (next: Sync)
        requires
            from <= self@.keys.len(),
        ensures
            next@ == self@.settled(from as nat),
    {
        proof {
            use_type_invariant(&self);
        }
        let (cursor, stage) = settle(&self.keys, from);
        proof {
            lemma_settle(self@.keys, from as nat);
        }
        Sync { plugins: true, round: 0, cursor, stage, ..self }
    }

    fn after_transfer(self) -> (next: Sync)
        requires
            self@.in_transfer(),
        ensures
            next@ == self@.after_transfer(),
    {
        proof {
            use_type_invariant(&self);
        }
        if self.plugins {
            assert(self.cursor < self.keys.len()) by {
                assert(self@.cursor < self@.keys.len());
            }
            let from = self.cursor + 1;
            self.settled(from)
        } else {
            Sync { stage: SyncStage::Listing, round: 0, ..self }
        }
    }

    /// The synchronization after the caller has reported `event`.
    pub fn advance(self, event: SyncEvent) -> (next: Sync)
        ensures
            next@ == self@.advance(event@),
            next@.wf(),
    {
        proof {
            use_type_invariant(&self);
        }
        let next = match (self.stage, event) {
            (SyncStage::Probing, SyncEvent::Exists(exists)) => {
                if needs_download(exists, self.request.overwrite) {
                    Sync { stage: SyncStage::AwaitingScratch, ..self }
                } else {
                    self.after_transfer()
                }
            },
            (SyncStage::AwaitingScratch, SyncEvent::Scratch(Some(path))) => Sync {
                stage: SyncStage::Fetching,
                round: 0,
                scratch: path,
                ..self
            },
            (SyncStage::AwaitingScratch, SyncEvent::Scratch(None)) => Sync {
                stage: SyncStage::Failed(SyncFailure::NoScratch),
                ..self
            },
            (SyncStage::Fetching, SyncEvent::Fetched(StoreOutcome::Done)) => Sync {
                stage: SyncStage::Placing,
                ..self
            },
            (SyncStage::Fetching, SyncEvent::Fetched(StoreOutcome::Retryable)) => Sync {
                stage: SyncStage::FetchBackoff,
                ..self
            },
            (SyncStage::Fetching, SyncEvent::Fetched(StoreOutcome::Fatal)) => Sync {
                stage: SyncStage::Failed(SyncFailure::NonRetryable),
                ..self
            },
            (SyncStage::FetchBackoff, SyncEvent::Slept) => {
                match self.policy.next_round(self.round) {
                    Some(round) => Sync { stage: SyncStage::Fetching, round, ..self },
                    None => Sync {
                        stage: SyncStage::Failed(SyncFailure::RetriesExhausted),
                        ..self
                    },
                }
            },
            (SyncStage::Placing, SyncEvent::Placed(placed)) => {
                if placed {
                    self.after_transfer()
                } else {
                    Sync { stage: SyncStage::Failed(SyncFailure::NotPlaced), ..self }
                }
            },
            (SyncStage::Listing, SyncEvent::Listed { outcome: StoreOutcome::Done, keys }) => {
                Sync { stage: SyncStage::PreparingDir, keys, cursor: 0, ..self }
            },
            (SyncStage::Listing, SyncEvent::Listed { outcome: StoreOutcome::Retryable, keys }) => {
                Sync { stage: SyncStage::ListBackoff, ..self }
            },
            (SyncStage::Listing, SyncEvent::Listed { outcome: StoreOutcome::Fatal, keys }) => {
                Sync { stage: SyncStage::Failed(SyncFailure::NonRetryable), ..self }
            },
            (SyncStage::ListBackoff, SyncEvent::Slept) => {
                match self.policy.next_round(self.round) {
                    Some(round) => Sync { stage: SyncStage::Listing, round, ..self },
                    None => Sync {
                        stage: SyncStage::Failed(SyncFailure::RetriesExhausted),
                        ..self
                    },
                }
            },
            (SyncStage::PreparingDir, SyncEvent::DirReady(ready)) => {
                if ready {
                    self.settled(0)
                } else {
                    Sync { stage: SyncStage::Failed(SyncFailure::NoPluginDir), ..self }
                }
            },
            (_, _) => self,
        };
        proof {
            use_type_invariant(&next);
        }
        next
    }

    /// What the caller is asked to do next.
    pub fn action(&self) -> (action: SyncAction)
        ensures
            action@ == self@.action(),
    {
        proof {
            use_type_invariant(self);
        }
        match self.stage {
            SyncStage::Probing => SyncAction::Probe { path: self.target() },
            SyncStage::AwaitingScratch => SyncAction::AllocateScratch {
                name_len: SCRATCH_NAME_LEN,
            },
            SyncStage::Fetching => SyncAction::Get {
                bucket: self.request.bucket.clone(),
                key: self.key(),
                scratch: self.scratch.clone(),
            },
            SyncStage::FetchBackoff => SyncAction::Sleep {
                secs: self.policy.delay_after(self.round),
            },
            SyncStage::Placing => SyncAction::Place {
                scratch: self.scratch.clone(),
                target: self.target(),
                mode: EXECUTABLE_MODE,
            },
            SyncStage::Listing => SyncAction::List {
                bucket: self.request.bucket.clone(),
                prefix: self.request.plugin_key_prefix.clone(),
            },
            SyncStage::ListBackoff => SyncAction::Sleep {
                secs: self.policy.delay_after(self.round),
            },
            SyncStage::PreparingDir => SyncAction::EnsureDir {
                path: self.request.target_plugin_dir.clone(),
            },
            SyncStage::Finished => SyncAction::Finish,
            SyncStage::Failed(reason) => SyncAction::Fail { reason },
        }
    }

    /// The synchronization after the caller has reported `event`, with what
    /// the caller is asked to do next.
    pub fn step(self, event: SyncEvent) -> (next: (Sync, SyncAction))
        ensures
            next.0@ == self@.advance(event@),
            next.0@.wf(),
            next.1@ == next.0@.action(),
    {
        let sync = self.advance(event);
        let action = sync.action();
        (sync, action)
    }

    fn key(&self) -> (key: String)
        requires
            self@.in_transfer(),
        ensures
            key@ == self@.key(),
    {
        proof {
            use_type_invariant(self);
        }
        if self.plugins {
            assert(keys_view(self.keys@)[self.cursor as int] == self.keys@[self.cursor as int]@);
            self.keys[self.cursor].clone()
        } else {
            self.request.binary_key.clone()
        }
    }

    fn target(&self) -> (target: String)
        requires
            self@.in_transfer(),
        ensures
            target@ == self@.target(),
    {
        proof {
            use_type_invariant(self);
        }
        if self.plugins {
            assert(keys_view(self.keys@)[self.cursor as int] == self.keys@[self.cursor as int]@);
            plugin_target(self.request.target_plugin_dir.as_str(), self.keys[self.cursor].as_str())
        } else {
            self.request.target_binary_path.clone()
        }
    }
}

} // verus!
