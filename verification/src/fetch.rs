use vstd::prelude::*;
use vstd::string::*;
use crate::archive::{
    archive_for, decoder_suffix, spec_archive, ArchiveSpec, ArchiveSpecView, DecoderKind,
};
use crate::layout::{
    installed_artifact, spec_installed, InstalledArtifact, InstalledArtifactView, EXECUTABLE_MODE,
};
use crate::platform::{resolve_platform, spec_resolve_platform, Arch, Host, Os, Platform};
use crate::product::Product;
use crate::release::{
    ResolverAction, ResolverActionView, ResolverEvent, ResolverEventView, ResolverStage,
    ResolverView, TagResolver,
};

verus! {

/// The number of random characters in the name of a scratch path of a fetch.
pub const SCRATCH_NAME_LEN: usize = 10;

/// Why a fetch was given up.
#[derive(Clone, Copy, Debug, PartialEq, Eq, Structural)]
pub enum FetchFailure {
    /// The platform cannot be made out, or the product is not published for
    /// it.
    UnknownPlatform,
    /// No scratch path could be made.
    NoScratch,
    /// The archive could not be downloaded.
    Download,
    /// The archive could not be unpacked.
    Unpack,
    /// The binary is not where the layout of the archive has it.
    Layout,
}

/// What a fetch is waiting for.
#[derive(Clone, Copy, Debug, PartialEq, Eq, Structural)]
pub enum FetchStage {
    /// The release tag.
    Resolving,
    /// A scratch path for the archive.
    AwaitingArchivePath,
    /// The archive.
    Downloading,
    /// A scratch path for the directory to unpack into.
    AwaitingUnpackDir,
    /// The unpacked archive.
    Unpacking,
    /// The archive to be deleted after it was unpacked.
    Cleaning,
    /// The archive to be deleted after it could not be unpacked.
    Discarding,
    /// The binary to be made executable.
    Marking,
    Finished,
    Failed(FetchFailure),
}

/// What the caller reports back.
#[derive(Clone, Debug, PartialEq, Eq)]
pub enum FetchEvent {
    /// What came of asking the release API, or of waiting.
    Release(ResolverEvent),
    /// A fresh scratch path, or none where it could not be made.
    Scratch(Option<String>),
    /// Whether what was asked for was done.
    Completed(bool),
}

pub enum FetchEventView {
    Release(ResolverEventView),
    Scratch(Option<Seq<char>>),
    Completed(bool),
}

impl View for FetchEvent {
    type V = FetchEventView;

    open spec fn view(&self) -> FetchEventView {
        match self {
            FetchEvent::Release(event) => FetchEventView::Release(event@),
            FetchEvent::Scratch(Some(path)) => FetchEventView::Scratch(Some(path@)),
            FetchEvent::Scratch(None) => FetchEventView::Scratch(None),
            FetchEvent::Completed(done) => FetchEventView::Completed(*done),
        }
    }
}

/// What the caller is asked to do next.
#[derive(Clone, Debug, PartialEq, Eq)]
pub enum FetchAction {
    /// Do what the resolution of the tag asks for.
    Resolve(ResolverAction),
    /// Make a fresh scratch path whose name has `name_len` random characters
    /// and ends in `suffix`.
    AllocateScratch { name_len: usize, suffix: String },
    /// Download `url` to the path `to`.
    Download { url: String, to: String },
    /// Unpack the archive at `archive` into the directory `dir`.
    Unpack { archive: String, dir: String, decoder: DecoderKind },
    /// Delete the file at `path`; it does not matter whether that succeeds.
    RemoveFile { path: String },
    /// Open the file at `path` and set its permission bits to `mode`.
    MakeExecutable { path: String, mode: u32 },
    /// Nothing is left to do: the release is installed.
    Finish { artifact: InstalledArtifact },
    /// Give up.
    Fail { reason: FetchFailure },
}

pub enum FetchActionView {
    Resolve(ResolverActionView),
    AllocateScratch { name_len: nat, suffix: Seq<char> },
    Download { url: Seq<char>, to: Seq<char> },
    Unpack { archive: Seq<char>, dir: Seq<char>, decoder: DecoderKind },
    RemoveFile { path: Seq<char> },
    MakeExecutable { path: Seq<char>, mode: u32 },
    Finish { artifact: InstalledArtifactView },
    Fail { reason: FetchFailure },
}

impl View for FetchAction {
    type V = FetchActionView;

    open spec fn view(&self) -> FetchActionView {
        match self {
            FetchAction::Resolve(action) => FetchActionView::Resolve(action@),
            FetchAction::AllocateScratch { name_len, suffix } => FetchActionView::AllocateScratch {
                name_len: *name_len as nat,
                suffix: suffix@,
            },
            FetchAction::Download { url, to } => FetchActionView::Download { url: url@, to: to@ },
            FetchAction::Unpack { archive, dir, decoder } => FetchActionView::Unpack {
                archive: archive@,
                dir: dir@,
                decoder: *decoder,
            },
            FetchAction::RemoveFile { path } => FetchActionView::RemoveFile { path: path@ },
            FetchAction::MakeExecutable { path, mode } => FetchActionView::MakeExecutable {
                path: path@,
                mode: *mode,
            },
            FetchAction::Finish { artifact } => FetchActionView::Finish { artifact: artifact@ },
            FetchAction::Fail { reason } => FetchActionView::Fail { reason: *reason },
        }
    }
}

/// The state of a fetch.
pub struct FetchView {
    pub product: Product,
    /// The platform to install for, if it could be made out.
    pub platform: Option<Platform>,
    /// The resolution of the release tag.
    pub resolver: ResolverView,
    pub stage: FetchStage,
    /// What is downloaded, once the tag is known.
    pub archive: Option<ArchiveSpecView>,
    /// The scratch path of the archive.
    pub archive_path: Seq<char>,
    /// The scratch directory that the archive is unpacked into.
    pub unpack_dir: Seq<char>,
}

impl FetchView {
    /// The stage is one in which the archive is known.
    pub open spec fn past_resolution(self) -> bool {
        !(self.stage is Resolving || self.stage is Failed)
    }

    /// While the tag is being resolved it is not known yet; afterwards it is,
    /// and the archive is that of the product, the tag and the platform.
    pub open spec fn wf(self) -> bool {
        &&& self.resolver.wf()
        &&& self.stage is Resolving ==> !(self.resolver.stage is Resolved)
        &&& self.past_resolution() ==> {
            &&& self.resolver.stage is Resolved
            &&& self.platform is Some
            &&& self.archive is Some
            &&& self.archive == spec_archive(
                self.product,
                self.resolver.tag,
                self.platform.unwrap(),
            )
        }
    }

    /// The state with another stage.
    pub open spec fn at(self, stage: FetchStage) -> FetchView {
        FetchView { stage, ..self }
    }

    /// The state once the resolution of the tag has moved: as long as the tag
    /// is open the fetch waits for it; with the tag the archive is made out,
    /// and the fetch fails where there is none for the platform.
    pub open spec fn settled(self) -> FetchView {
        if !(self.resolver.stage is Resolved) {
            self.at(FetchStage::Resolving)
        } else {
            match self.platform {
                Some(platform) => match spec_archive(self.product, self.resolver.tag, platform) {
                    Some(archive) => FetchView {
                        stage: FetchStage::AwaitingArchivePath,
                        archive: Some(archive),
                        ..self
                    },
                    None => self.at(FetchStage::Failed(FetchFailure::UnknownPlatform)),
                },
                None => self.at(FetchStage::Failed(FetchFailure::UnknownPlatform)),
            }
        }
    }

    /// The state in which a fetch starts.
    pub open spec fn initial(
        product: Product,
        platform: Option<Platform>,
        resolver: ResolverView,
    ) -> FetchView {
        (FetchView {
            product,
            platform,
            resolver,
            stage: FetchStage::Resolving,
            archive: None,
            archive_path: Seq::<char>::empty(),
            unpack_dir: Seq::<char>::empty(),
        }).settled()
    }

    /// Where the release lies once it is unpacked.
    pub open spec fn installed(self) -> InstalledArtifactView {
        spec_installed(
            self.product,
            self.archive.unwrap().decoder,
            self.resolver.tag,
            self.unpack_dir,
        )
    }

    /// What the caller is asked to do in this state.
    pub open spec fn action(self) -> FetchActionView {
        match self.stage {
            FetchStage::Resolving => FetchActionView::Resolve(self.resolver.action()),
            FetchStage::AwaitingArchivePath => FetchActionView::AllocateScratch {
                name_len: SCRATCH_NAME_LEN as nat,
                suffix: self.archive.unwrap().decoder.spec_suffix(),
            },
            FetchStage::Downloading => FetchActionView::Download {
                url: self.archive.unwrap().download_url,
                to: self.archive_path,
            },
            FetchStage::AwaitingUnpackDir => FetchActionView::AllocateScratch {
                name_len: SCRATCH_NAME_LEN as nat,
                suffix: Seq::<char>::empty(),
            },
            FetchStage::Unpacking => FetchActionView::Unpack {
                archive: self.archive_path,
                dir: self.unpack_dir,
                decoder: self.archive.unwrap().decoder,
            },
            FetchStage::Cleaning => FetchActionView::RemoveFile { path: self.archive_path },
            FetchStage::Discarding => FetchActionView::RemoveFile { path: self.archive_path },
            FetchStage::Marking => FetchActionView::MakeExecutable {
                path: self.installed().binary_path,
                mode: EXECUTABLE_MODE,
            },
            FetchStage::Finished => FetchActionView::Finish { artifact: self.installed() },
            FetchStage::Failed(reason) => FetchActionView::Fail { reason },
        }
    }

    /// The state after the caller has reported `event`. A report that the
    /// state does not wait for changes nothing.
    pub open spec fn advance(self, event: FetchEventView) -> FetchView {
        match (self.stage, event) {
            (FetchStage::Resolving, FetchEventView::Release(report)) => (FetchView {
                resolver: self.resolver.advance(report),
                ..self
            }).settled(),
            (FetchStage::AwaitingArchivePath, FetchEventView::Scratch(Some(path))) => FetchView {
                stage: FetchStage::Downloading,
                archive_path: path,
                ..self
            },
            (FetchStage::AwaitingArchivePath, FetchEventView::Scratch(None)) => self.at(
                FetchStage::Failed(FetchFailure::NoScratch),
            ),
            (FetchStage::Downloading, FetchEventView::Completed(done)) => {
                if done {
                    self.at(FetchStage::AwaitingUnpackDir)
                } else {
                    self.at(FetchStage::Failed(FetchFailure::Download))
                }
            },
            (FetchStage::AwaitingUnpackDir, FetchEventView::Scratch(Some(path))) => FetchView {
                stage: FetchStage::Unpacking,
                unpack_dir: path,
                ..self
            },
            (FetchStage::AwaitingUnpackDir, FetchEventView::Scratch(None)) => self.at(
                FetchStage::Failed(FetchFailure::NoScratch),
            ),
            (FetchStage::Unpacking, FetchEventView::Completed(done)) => {
                if done {
                    self.at(FetchStage::Cleaning)
                } else {
                    self.at(FetchStage::Discarding)
                }
            },
            (FetchStage::Cleaning, FetchEventView::Completed(done)) => self.at(
                FetchStage::Marking,
            ),
            (FetchStage::Discarding, FetchEventView::Completed(done)) => self.at(
                FetchStage::Failed(FetchFailure::Unpack),
            ),
            (FetchStage::Marking, FetchEventView::Completed(done)) => {
                if done {
                    self.at(FetchStage::Finished)
                } else {
                    self.at(FetchStage::Failed(FetchFailure::Layout))
                }
            },
            _ => self,
        }
    }

    /// The state after the caller has reported `events` one after the other.
    pub open spec fn run(self, events: Seq<FetchEventView>) -> FetchView
        decreases events.len(),
    {
        if events.len() == 0 {
            self
        } else {
            self.run(events.drop_last()).advance(events.last())
        }
    }
}

/// A report keeps a state well formed.
pub proof fn lemma_advance_keeps_wf(state: FetchView, event: FetchEventView)
    requires
        state.wf(),
    ensures
        state.advance(event).wf(),
{
    if let FetchEventView::Release(report) = event {
        crate::release::lemma_advance_keeps_wf(state.resolver, report);
    }
}

/// The state in which a fetch starts is well formed where the resolution in
/// it is.
pub proof fn lemma_initial_wf(product: Product, platform: Option<Platform>, resolver: ResolverView)
    requires
        resolver.wf(),
    ensures
        FetchView::initial(product, platform, resolver).wf(),
{
}

/// While a fetch waits for the tag, the resolution in it has not ended: what
/// is asked of the caller is a request or a wait.
pub proof fn lemma_resolving_asks_or_waits(state: FetchView)
    requires
        state.wf(),
        state.stage is Resolving,
    ensures
        state.action() matches FetchActionView::Resolve(asked) && !(asked is Done),
{
}

/// The paths of a release are handed out only after its binary was made
/// executable: a fetch ends well from no stage but the one in which it waits
/// for that, and on no report but that it was done.
pub proof fn lemma_finish_follows_marking(state: FetchView, event: FetchEventView)
    requires
        !(state.stage is Finished),
        state.advance(event).stage is Finished,
    ensures
        state.stage is Marking,
        event == FetchEventView::Completed(true),
{
}

/// A fetch that has failed or ended stays as it is, whatever is reported.
pub proof fn lemma_end_is_final(state: FetchView, event: FetchEventView)
    requires
        state.stage is Finished || state.stage is Failed,
    ensures
        state.advance(event) == state,
{
}

/// Whether the archive could be deleted after it was unpacked makes no
/// difference: the fetch goes on to the binary either way.
pub proof fn lemma_cleanup_failure_is_ignored(state: FetchView, deleted: bool)
    requires
        state.stage is Cleaning,
    ensures
        state.advance(FetchEventView::Completed(deleted)) == state.at(FetchStage::Marking),
{
}

/// An archive that cannot be unpacked is still deleted, and then the fetch
/// fails, whether the archive could be deleted or not.
pub proof fn lemma_unpack_failure_discards_the_archive(state: FetchView, deleted: bool)
    requires
        state.stage is Unpacking,
    ensures
        state.advance(FetchEventView::Completed(false)).action() == (FetchActionView::RemoveFile {
            path: state.archive_path,
        }),
        state.advance(FetchEventView::Completed(false)).advance(
            FetchEventView::Completed(deleted),
        ).action() == (FetchActionView::Fail { reason: FetchFailure::Unpack }),
{
}

/// A download that fails ends the fetch at once: nothing is unpacked.
pub proof fn lemma_download_failure_aborts(state: FetchView)
    requires
        state.stage is Downloading,
    ensures
        state.advance(FetchEventView::Completed(false)).action() == (FetchActionView::Fail {
            reason: FetchFailure::Download,
        }),
{
}

/// Where the platform cannot be made out, or the product is not published
/// for it, a fetch fails as soon as the tag is known and asks for no
/// download.
pub proof fn lemma_unknown_platform_fails(state: FetchView)
    requires
        state.resolver.stage is Resolved,
        state.platform matches Some(platform) ==> spec_archive(
            state.product,
            state.resolver.tag,
            platform,
        ) is None,
    ensures
        state.settled().action() == (FetchActionView::Fail {
            reason: FetchFailure::UnknownPlatform,
        }),
{
}

/// What is reported when everything after the resolution of the tag goes
/// well: the scratch path of the archive, the download, the scratch
/// directory, the unpacking, the deletion of the archive, which may fail, and
/// the marking of the binary.
pub open spec fn smooth_installation(
    archive_path: Seq<char>,
    unpack_dir: Seq<char>,
    deleted: bool,
) -> Seq<FetchEventView> {
    seq![
        FetchEventView::Scratch(Some(archive_path)),
        FetchEventView::Completed(true),
        FetchEventView::Scratch(Some(unpack_dir)),
        FetchEventView::Completed(true),
        FetchEventView::Completed(deleted),
        FetchEventView::Completed(true),
    ]
}

/// Where everything goes well, a fetch that knows its archive ends with the
/// paths that the layout of the archive gives under the scratch directory.
pub proof fn lemma_smooth_installation_finishes(
    state: FetchView,
    archive_path: Seq<char>,
    unpack_dir: Seq<char>,
    deleted: bool,
)
    requires
        state.stage is AwaitingArchivePath,
        state.archive is Some,
    ensures
        state.run(smooth_installation(archive_path, unpack_dir, deleted)).action()
            == (FetchActionView::Finish {
            artifact: spec_installed(
                state.product,
                state.archive.unwrap().decoder,
                state.resolver.tag,
                unpack_dir,
            ),
        }),
{
    let events = smooth_installation(archive_path, unpack_dir, deleted);
    let e5 = events.drop_last();
    let e4 = e5.drop_last();
    let e3 = e4.drop_last();
    let e2 = e3.drop_last();
    let e1 = e2.drop_last();
    let e0 = e1.drop_last();
    assert(e0.len() == 0);
    assert(state.run(e0) == state);
    assert(state.run(e1) == state.run(e0).advance(e1.last()));
    assert(state.run(e2) == state.run(e1).advance(e2.last()));
    assert(state.run(e3) == state.run(e2).advance(e3.last()));
    assert(state.run(e4) == state.run(e3).advance(e4.last()));
    assert(state.run(e5) == state.run(e4).advance(e5.last()));
    assert(state.run(events) == state.run(e5).advance(events.last()));
}

/// A stable release that the release API names at the first attempt is the
/// one that is fetched: the fetch goes on to the archive of that tag.
pub proof fn lemma_stable_answer_is_fetched(state: FetchView, tag: Seq<char>, platform: Platform)
    requires
        state.stage is Resolving,
        state.resolver.stage is Asking,
        state.platform == Some(platform),
        tag.len() > 0,
        spec_archive(state.product, tag, platform) is Some,
    ensures
        state.advance(
            FetchEventView::Release(
                ResolverEventView::Answered { tag: Some(tag), prerelease: false },
            ),
        ).stage is AwaitingArchivePath,
        state.advance(
            FetchEventView::Release(
                ResolverEventView::Answered { tag: Some(tag), prerelease: false },
            ),
        ).archive == spec_archive(state.product, tag, platform),
        state.advance(
            FetchEventView::Release(
                ResolverEventView::Answered { tag: Some(tag), prerelease: false },
            ),
        ).resolver.tag == tag,
{
}

/// A prerelease is not asked about again: an answer that carries a tag,
/// empty or not, and marks a prerelease ends the resolution with the pinned
/// default after that one attempt, so the fetch asks for no wait and no
/// further request, but goes on to the archive or fails for the platform.
pub proof fn lemma_prerelease_answer_is_not_retried(state: FetchView, tag: Seq<char>)
    requires
        state.stage is Resolving,
        state.resolver.stage is Asking,
    ensures
        !(state.advance(
            FetchEventView::Release(
                ResolverEventView::Answered { tag: Some(tag), prerelease: true },
            ),
        ).stage is Resolving),
        !(state.advance(
            FetchEventView::Release(
                ResolverEventView::Answered { tag: Some(tag), prerelease: true },
            ),
        ).action() is Resolve),
        state.advance(
            FetchEventView::Release(
                ResolverEventView::Answered { tag: Some(tag), prerelease: true },
            ),
        ).resolver.tag == state.resolver.pinned,
        state.advance(
            FetchEventView::Release(
                ResolverEventView::Answered { tag: Some(tag), prerelease: true },
            ),
        ).resolver.attempts == state.resolver.attempts + 1,
{
}

/// A fetch between two reports of the caller.
pub struct Fetch {
    product: Product,
    platform: Option<Platform>,
    resolver: TagResolver,
    stage: FetchStage,
    archive: Option<ArchiveSpec>,
    archive_path: String,
    unpack_dir: String,
}

impl View for Fetch {
    type V = FetchView;

    closed spec fn view(&self) -> FetchView {
        FetchView {
            product: self.product,
            platform: self.platform,
            resolver: self.resolver@,
            stage: self.stage,
            archive: match self.archive {
                Some(archive) => Some(archive@),
                None => None,
            },
            archive_path: self.archive_path@,
            unpack_dir: self.unpack_dir@,
        }
    }
}

impl Fetch {
    #[verifier::type_invariant]
    spec fn inv(self) -> bool {
        self@.wf()
    }

    /// A fetch of `product` that has not begun, for the platform that the
    /// caller chose, the host's own standing in for what the caller left open,
    /// and for the release `tag_override` or, without one, the latest stable
    /// release.
    pub fn new(
        product: Product,
        arch: Option<Arch>,
        os: Option<Os>,
        host: &Host,
        tag_override: Option<String>,
    ) -> (fetch: Fetch)
        ensures
            fetch@ == FetchView::initial(
                product,
                spec_resolve_platform(arch, os, host.arch@, host.os),
                fetch@.resolver,
            ),
            fetch@.resolver == ResolverView::initial(
                product.spec_org(),
                product.spec_repo(),
                product.spec_default_tag(),
                match tag_override {
                    Some(chosen) => Some(chosen@),
                    None => None,
                },
                fetch@.resolver.policy,
            ),
            fetch@.resolver.policy.spec_max_attempts() == product.spec_release_attempts(),
            fetch@.resolver.policy.spec_base_delay() == product.spec_release_base_delay(),
            fetch@.wf(),
    {
        let platform = match resolve_platform(arch, os, host) {
            Ok(platform) => Some(platform),
            Err(_) => None,
        };
        let resolver = TagResolver::for_product(product, tag_override);
        Fetch::settled(
            product,
            platform,
            resolver,
            None,
            String::new(),
            String::new(),
        )
    }

    fn settled(
        product: Product,
        platform: Option<Platform>,
        resolver: TagResolver,
        archive: Option<ArchiveSpec>,
        archive_path: String,
        unpack_dir: String,
    ) -> (fetch: Fetch)
        requires
            resolver@.wf(),
        ensures
            fetch@ == (FetchView {
                product,
                platform,
                resolver: resolver@,
                stage: FetchStage::Resolving,
                archive: match archive {
                    Some(archive) => Some(archive@),
                    None => None,
                },
                archive_path: archive_path@,
                unpack_dir: unpack_dir@,
            }).settled(),
            fetch@.wf(),
    {
        let fetch = match resolver.tag() {
            None => Fetch {
                product,
                platform,
                resolver,
                stage: FetchStage::Resolving,
                archive,
                archive_path,
                unpack_dir,
            },
            Some(tag) => {
                let found = match platform {
                    Some(platform) => archive_for(product, tag.as_str(), platform),
                    None => Err(crate::error::PlatformError::UnknownPlatform),
                };
                match found {
                    Ok(spec) => Fetch {
                        product,
                        platform,
                        resolver,
                        stage: FetchStage::AwaitingArchivePath,
                        archive: Some(spec),
                        archive_path,
                        unpack_dir,
                    },
                    Err(_) => Fetch {
                        product,
                        platform,
                        resolver,
                        stage: FetchStage::Failed(FetchFailure::UnknownPlatform),
                        archive,
                        archive_path,
                        unpack_dir,
                    },
                }
            },
        };
        proof {
            use_type_invariant(&fetch);
        }
        fetch
    }

    /// What the fetch is waiting for.
    pub fn stage(&self) -> (stage: FetchStage)
        ensures
            stage == self@.stage,
            self@.wf(),
    {
        proof {
            use_type_invariant(self);
        }
        self.stage
    }

    /// The fetch after the caller has reported `event`.
    pub fn advance(self, event: FetchEvent) -> (next: Fetch)
        ensures
            next@ == self@.advance(event@),
            next@.wf(),
    {
        proof {
            use_type_invariant(&self);
        }
        let next = match (self.stage, event) {
            (FetchStage::Resolving, FetchEvent::Release(report)) => {
                let resolver = self.resolver.advance(report);
                Fetch::settled(
                    self.product,
                    self.platform,
                    resolver,
                    self.archive,
                    self.archive_path,
                    self.unpack_dir,
                )
            },
            (FetchStage::AwaitingArchivePath, FetchEvent::Scratch(Some(path))) => Fetch {
                stage: FetchStage::Downloading,
                archive_path: path,
                ..self
            },
            (FetchStage::AwaitingArchivePath, FetchEvent::Scratch(None)) => Fetch {
                stage: FetchStage::Failed(FetchFailure::NoScratch),
                ..self
            },
            (FetchStage::Downloading, FetchEvent::Completed(done)) => {
                if done {
                    Fetch { stage: FetchStage::AwaitingUnpackDir, ..self }
                } else {
                    Fetch { stage: FetchStage::Failed(FetchFailure::Download), ..self }
                }
            },
            (FetchStage::AwaitingUnpackDir, FetchEvent::Scratch(Some(path))) => Fetch {
                stage: FetchStage::Unpacking,
                unpack_dir: path,
                ..self
            },
            (FetchStage::AwaitingUnpackDir, FetchEvent::Scratch(None)) => Fetch {
                stage: FetchStage::Failed(FetchFailure::NoScratch),
                ..self
            },
            (FetchStage::Unpacking, FetchEvent::Completed(done)) => {
                if done {
                    Fetch { stage: FetchStage::Cleaning, ..self }
                } else {
                    Fetch { stage: FetchStage::Discarding, ..self }
                }
            },
            (FetchStage::Cleaning, FetchEvent::Completed(_)) => Fetch {
                stage: FetchStage::Marking,
                ..self
            },
            (FetchStage::Discarding, FetchEvent::Completed(_)) => Fetch {
                stage: FetchStage::Failed(FetchFailure::Unpack),
                ..self
            },
            (FetchStage::Marking, FetchEvent::Completed(done)) => {
                if done {
                    Fetch { stage: FetchStage::Finished, ..self }
                } else {
                    Fetch { stage: FetchStage::Failed(FetchFailure::Layout), ..self }
                }
            },
            (_, _) => self,
        };
        proof {
            use_type_invariant(&next);
        }
        next
    }

    fn installed(&self) -> (artifact: InstalledArtifact)
        requires
            self@.past_resolution(),
        ensures
            artifact@ == self@.installed(),
    {
        proof {
            use_type_invariant(self);
        }
        let decoder: DecoderKind = match &self.archive {
            Some(archive) => archive.decoder,
            None => vstd::pervasive::unreached(),
        };
        let tag: String = match self.resolver.tag() {
            Some(tag) => tag,
            None => vstd::pervasive::unreached(),
        };
        installed_artifact(self.product, decoder, tag.as_str(), self.unpack_dir.as_str())
    }

    /// What the caller is asked to do next.
    pub fn action(&self) -> (action: FetchAction)
        ensures
            action@ == self@.action(),
    {
        proof {
            use_type_invariant(self);
        }
        match self.stage {
            FetchStage::Resolving => FetchAction::Resolve(self.resolver.action()),
            FetchStage::Failed(reason) => FetchAction::Fail { reason },
            FetchStage::AwaitingUnpackDir => FetchAction::AllocateScratch {
                name_len: SCRATCH_NAME_LEN,
                suffix: String::new(),
            },
            FetchStage::Cleaning => FetchAction::RemoveFile { path: self.archive_path.clone() },
            FetchStage::Discarding => FetchAction::RemoveFile { path: self.archive_path.clone() },
            FetchStage::Marking => FetchAction::MakeExecutable {
                path: self.installed().binary_path,
                mode: EXECUTABLE_MODE,
            },
            FetchStage::Finished => FetchAction::Finish { artifact: self.installed() },
            FetchStage::AwaitingArchivePath => match &self.archive {
                Some(archive) => FetchAction::AllocateScratch {
                    name_len: SCRATCH_NAME_LEN,
                    suffix: decoder_suffix(archive.decoder),
                },
                None => vstd::pervasive::unreached(),
            },
            FetchStage::Downloading => match &self.archive {
                Some(archive) => FetchAction::Download {
                    url: archive.download_url.clone(),
                    to: self.archive_path.clone(),
                },
                None => vstd::pervasive::unreached(),
            },
            FetchStage::Unpacking => match &self.archive {
                Some(archive) => FetchAction::Unpack {
                    archive: self.archive_path.clone(),
                    dir: self.unpack_dir.clone(),
                    decoder: archive.decoder,
                },
                None => vstd::pervasive::unreached(),
            },
        }
    }

    /// The fetch after the caller has reported `event`, with what the caller
    /// is asked to do next.
    pub fn step(self, event: FetchEvent) -> (next: (Fetch, FetchAction))
        ensures
            next.0@ == self@.advance(event@),
            next.0@.wf(),
            next.1@ == next.0@.action(),
    {
        let fetch = self.advance(event);
        let action = fetch.action();
        (fetch, action)
    }
}

} // verus!
