use vstd::prelude::*;
use vstd::string::*;
use crate::github::{latest_release_endpoint, spec_latest_release_endpoint, ReleaseResponse};
use crate::product::Product;
use crate::retry::{spec_backoff_delay, RetryPolicy};
use crate::text::str_eq;

verus! {

/// The tag that a caller's choice stands for: the release host knows no tag
/// `latest`, so the pinned default takes its place; any other tag is taken as
/// it is.
pub open spec fn spec_explicit_tag(explicit: Seq<char>, pinned: Seq<char>) -> Seq<char> {
    if explicit == "latest"@ {
        pinned
    } else {
        explicit
    }
}

/// The tag that a caller's choice stands for.
pub fn tag_of_choice(explicit: &str, pinned: &str) -> (tag: String)
    ensures
        tag@ == spec_explicit_tag(explicit@, pinned@),
{
    if str_eq(explicit, "latest") {
        String::from_str(pinned)
    } else {
        String::from_str(explicit)
    }
}

/// The tag that an answer with the tag `found` stands for: the pinned
/// default for a prerelease, and for a tag without a character, which no
/// release can go by; otherwise the tag itself.
pub open spec fn spec_tag_of_release(
    found: Seq<char>,
    prerelease: bool,
    pinned: Seq<char>,
) -> Seq<char> {
    if prerelease || found.len() == 0 {
        pinned
    } else {
        found
    }
}

/// What an answer of the release API settles: with a tag the question is
/// closed, at once and whatever the tag holds; without one it stays open.
pub open spec fn spec_tag_of_answer(
    tag: Option<Seq<char>>,
    prerelease: bool,
    pinned: Seq<char>,
) -> Option<Seq<char>> {
    match tag {
        Some(found) => Some(spec_tag_of_release(found, prerelease, pinned)),
        None => None,
    }
}

/// What an answer of the release API settles.
pub fn tag_of_answer(answer: &ReleaseResponse, pinned: &str) -> (tag: Option<String>)
    ensures
        match spec_tag_of_answer(answer.spec_tag(), answer.prerelease, pinned@) {
            Some(settled) => tag matches Some(found) && found@ == settled,
            None => tag is None,
        },
{
    match &answer.tag_name {
        Some(found) => {
            if answer.prerelease || found.as_str().unicode_len() == 0 {
                Some(String::from_str(pinned))
            } else {
                Some(found.clone())
            }
        },
        None => None,
    }
}

/// What the resolution of a tag is waiting for.
#[derive(Clone, Copy, Debug, PartialEq, Eq, Structural)]
pub enum ResolverStage {
    /// The answer of the release API.
    Asking,
    /// The end of the wait after an attempt that settled nothing.
    Backoff,
    /// Nothing: the tag is known.
    Resolved,
}

/// What the caller reports back.
#[derive(Clone, Debug, PartialEq, Eq)]
pub enum ResolverEvent {
    /// The release API answered.
    Answered(ReleaseResponse),
    /// The request failed, or its answer could not be read.
    Failed,
    /// The wait is over.
    Slept,
}

pub enum ResolverEventView {
    Answered { tag: Option<Seq<char>>, prerelease: bool },
    Failed,
    Slept,
}

impl View for ResolverEvent {
    type V = ResolverEventView;

    open spec fn view(&self) -> ResolverEventView {
        match self {
            ResolverEvent::Answered(answer) => ResolverEventView::Answered {
                tag: answer.spec_tag(),
                prerelease: answer.prerelease,
            },
            ResolverEvent::Failed => ResolverEventView::Failed,
            ResolverEvent::Slept => ResolverEventView::Slept,
        }
    }
}

/// What the caller is asked to do next.
#[derive(Clone, Debug, PartialEq, Eq)]
pub enum ResolverAction {
    /// Ask the release API at `url` for the latest release.
    Fetch { url: String },
    /// Wait for `secs` seconds.
    Sleep { secs: u64 },
    /// Go on with `tag`.
    Done { tag: String },
}

pub enum ResolverActionView {
    Fetch { url: Seq<char> },
    Sleep { secs: nat },
    Done { tag: Seq<char> },
}

impl View for ResolverAction {
    type V = ResolverActionView;

    open spec fn view(&self) -> ResolverActionView {
        match self {
            ResolverAction::Fetch { url } => ResolverActionView::Fetch { url: url@ },
            ResolverAction::Sleep { secs } => ResolverActionView::Sleep { secs: *secs as nat },
            ResolverAction::Done { tag } => ResolverActionView::Done { tag: tag@ },
        }
    }
}

/// The state of the resolution of a release tag.
pub struct ResolverView {
    pub org: Seq<char>,
    pub repo: Seq<char>,
    /// The tag that is fallen back to.
    pub pinned: Seq<char>,
    pub policy: RetryPolicy,
    pub stage: ResolverStage,
    /// The number of attempts at the release API that have ended.
    pub attempts: nat,
    /// The tag, once it is known.
    pub tag: Seq<char>,
}

impl ResolverView {
    /// The state in which a resolution starts. A tag that the caller chose is
    /// known at once; without one the release API is asked.
    pub open spec fn initial(
        org: Seq<char>,
        repo: Seq<char>,
        pinned: Seq<char>,
        explicit: Option<Seq<char>>,
        policy: RetryPolicy,
    ) -> ResolverView {
        ResolverView {
            org,
            repo,
            pinned,
            policy,
            stage: if explicit is Some {
                ResolverStage::Resolved
            } else {
                ResolverStage::Asking
            },
            attempts: 0,
            tag: match explicit {
                Some(chosen) => spec_explicit_tag(chosen, pinned),
                None => Seq::<char>::empty(),
            },
        }
    }

    /// The attempts are within the budget: while the API is asked one more is
    /// allowed, and a wait follows an attempt.
    pub open spec fn wf(self) -> bool {
        &&& self.policy.wf()
        &&& self.attempts <= self.policy.spec_max_attempts()
        &&& self.stage is Asking ==> self.attempts < self.policy.spec_max_attempts()
        &&& self.stage is Backoff ==> self.attempts >= 1
    }

    /// What the caller is asked to do in this state.
    pub open spec fn action(self) -> ResolverActionView {
        match self.stage {
            ResolverStage::Asking => ResolverActionView::Fetch {
                url: spec_latest_release_endpoint(self.org, self.repo),
            },
            ResolverStage::Backoff => ResolverActionView::Sleep {
                secs: spec_backoff_delay(
                    (self.attempts - 1) as nat,
                    self.policy.spec_base_delay(),
                ),
            },
            ResolverStage::Resolved => ResolverActionView::Done { tag: self.tag },
        }
    }

    /// The state after an attempt that settled `settled`.
    pub open spec fn after_attempt(self, settled: Option<Seq<char>>) -> ResolverView {
        match settled {
            Some(tag) => ResolverView {
                stage: ResolverStage::Resolved,
                attempts: self.attempts + 1,
                tag,
                ..self
            },
            None => ResolverView {
                stage: ResolverStage::Backoff,
                attempts: self.attempts + 1,
                ..self
            },
        }
    }

    /// The state after the caller has reported `event`. A report that the
    /// state does not wait for changes nothing.
    pub open spec fn advance(self, event: ResolverEventView) -> ResolverView {
        match (self.stage, event) {
            (ResolverStage::Asking, ResolverEventView::Answered { tag, prerelease }) => {
                self.after_attempt(spec_tag_of_answer(tag, prerelease, self.pinned))
            },
            (ResolverStage::Asking, ResolverEventView::Failed) => self.after_attempt(None),
            (ResolverStage::Backoff, ResolverEventView::Slept) => {
                if self.attempts < self.policy.spec_max_attempts() {
                    ResolverView { stage: ResolverStage::Asking, ..self }
                } else {
                    ResolverView { stage: ResolverStage::Resolved, tag: self.pinned, ..self }
                }
            },
            _ => self,
        }
    }

    /// The state after the caller has reported `events` one after the other.
    pub open spec fn run(self, events: Seq<ResolverEventView>) -> ResolverView
        decreases events.len(),
    {
        if events.len() == 0 {
            self
        } else {
            self.run(events.drop_last()).advance(events.last())
        }
    }
}

/// A report keeps a state well formed.
pub proof fn lemma_advance_keeps_wf(state: ResolverView, event: ResolverEventView)
    requires
        state.wf(),
    ensures
        state.advance(event).wf(),
{
}

/// A tag that the caller chose is final: whatever is reported, the state
/// stays as it began, so the release API is never asked. For the choice
/// `latest` the tag is the pinned default.
pub proof fn lemma_explicit_tag_asks_nothing(
    org: Seq<char>,
    repo: Seq<char>,
    pinned: Seq<char>,
    chosen: Seq<char>,
    policy: RetryPolicy,
    events: Seq<ResolverEventView>,
)
    ensures
        ResolverView::initial(org, repo, pinned, Some(chosen), policy).run(events)
            == ResolverView::initial(org, repo, pinned, Some(chosen), policy),
        ResolverView::initial(org, repo, pinned, Some(chosen), policy).run(events).action()
            == (ResolverActionView::Done { tag: spec_explicit_tag(chosen, pinned) }),
        chosen == "latest"@ ==> ResolverView::initial(
            org,
            repo,
            pinned,
            Some(chosen),
            policy,
        ).run(events).action() == (ResolverActionView::Done { tag: pinned }),
    decreases events.len(),
{
    if events.len() > 0 {
        lemma_explicit_tag_asks_nothing(org, repo, pinned, chosen, policy, events.drop_last());
    }
}

/// A prerelease is never installed: the first answer that carries a tag,
/// empty or not, and marks a prerelease closes the question with the pinned
/// default. That is one attempt more and the last one: no wait is asked for,
/// and whatever is reported afterwards changes nothing.
pub proof fn lemma_prerelease_falls_back_at_once(
    state: ResolverView,
    tag: Seq<char>,
    events: Seq<ResolverEventView>,
)
    requires
        state.stage is Asking,
    ensures
        state.advance(ResolverEventView::Answered { tag: Some(tag), prerelease: true }).action()
            == (ResolverActionView::Done { tag: state.pinned }),
        state.advance(ResolverEventView::Answered { tag: Some(tag), prerelease: true }).attempts
            == state.attempts + 1,
        state.advance(ResolverEventView::Answered { tag: Some(tag), prerelease: true }).run(
            events,
        ) == state.advance(ResolverEventView::Answered { tag: Some(tag), prerelease: true }),
    decreases events.len(),
{
    if events.len() > 0 {
        lemma_prerelease_falls_back_at_once(state, tag, events.drop_last());
    }
}

/// Where the release API answers every request with a prerelease that has a
/// tag, it is asked exactly once: the first report resolves the pinned
/// default with one attempt made, and nothing that follows adds an attempt.
pub proof fn lemma_prerelease_api_is_asked_once(
    org: Seq<char>,
    repo: Seq<char>,
    pinned: Seq<char>,
    policy: RetryPolicy,
    tag: Seq<char>,
    events: Seq<ResolverEventView>,
)
    requires
        policy.wf(),
    ensures
        ResolverView::initial(org, repo, pinned, None, policy).action() is Fetch,
        ResolverView::initial(org, repo, pinned, None, policy).advance(
            ResolverEventView::Answered { tag: Some(tag), prerelease: true },
        ).run(events) == (ResolverView {
            stage: ResolverStage::Resolved,
            attempts: 1,
            tag: pinned,
            ..ResolverView::initial(org, repo, pinned, None, policy)
        }),
{
    lemma_prerelease_falls_back_at_once(
        ResolverView::initial(org, repo, pinned, None, policy),
        tag,
        events,
    );
}

/// The report is not an answer that describes a stable release.
pub open spec fn names_no_stable_release(event: ResolverEventView) -> bool {
    event matches ResolverEventView::Answered { tag, prerelease } ==> prerelease
}

/// No answer among the reports describes a stable release.
pub open spec fn only_prereleases(events: Seq<ResolverEventView>) -> bool {
    forall|i: int| 0 <= i < events.len() ==> names_no_stable_release(#[trigger] events[i])
}

/// Where the release API knows of prereleases only, no tag but the pinned
/// default is ever resolved.
pub proof fn lemma_only_prereleases_resolve_to_pinned(
    org: Seq<char>,
    repo: Seq<char>,
    pinned: Seq<char>,
    policy: RetryPolicy,
    events: Seq<ResolverEventView>,
)
    requires
        only_prereleases(events),
    ensures
        ResolverView::initial(org, repo, pinned, None, policy).run(events).pinned == pinned,
        ResolverView::initial(org, repo, pinned, None, policy).run(events).stage is Resolved
            ==> ResolverView::initial(org, repo, pinned, None, policy).run(events).tag == pinned,
    decreases events.len(),
{
    if events.len() > 0 {
        let before = events.drop_last();
        assert forall|i: int| 0 <= i < before.len() implies names_no_stable_release(
            #[trigger] before[i],
        ) by {
            assert(before[i] == events[i]);
        }
        lemma_only_prereleases_resolve_to_pinned(org, repo, pinned, policy, before);
        assert(names_no_stable_release(events[events.len() - 1]));
    }
}

/// `count` failed attempts at the release API, each followed by its wait.
pub open spec fn failed_attempts(count: nat) -> Seq<ResolverEventView>
    decreases count,
{
    if count == 0 {
        Seq::<ResolverEventView>::empty()
    } else {
        failed_attempts((count - 1) as nat).push(ResolverEventView::Failed).push(
            ResolverEventView::Slept,
        )
    }
}

/// Where the release API fails every time, it is asked as often as the policy
/// allows and no less: after fewer failures the next attempt is asked for,
/// and with the last one the pinned default is resolved, the number of
/// attempts being the ceiling of the policy.
pub proof fn lemma_failures_exhaust_the_budget(
    org: Seq<char>,
    repo: Seq<char>,
    pinned: Seq<char>,
    policy: RetryPolicy,
    count: nat,
)
    requires
        policy.wf(),
        count <= policy.spec_max_attempts(),
    ensures
        count < policy.spec_max_attempts() ==> ResolverView::initial(
            org,
            repo,
            pinned,
            None,
            policy,
        ).run(failed_attempts(count)) == (ResolverView {
            attempts: count,
            ..ResolverView::initial(org, repo, pinned, None, policy)
        }),
        count == policy.spec_max_attempts() ==> ResolverView::initial(
            org,
            repo,
            pinned,
            None,
            policy,
        ).run(failed_attempts(count)) == (ResolverView {
            attempts: count,
            stage: ResolverStage::Resolved,
            tag: pinned,
            ..ResolverView::initial(org, repo, pinned, None, policy)
        }),
    decreases count,
{
    if count > 0 {
        let state = ResolverView::initial(org, repo, pinned, None, policy);
        let before = failed_attempts((count - 1) as nat);
        let failed = before.push(ResolverEventView::Failed);
        let slept = failed.push(ResolverEventView::Slept);
        lemma_failures_exhaust_the_budget(org, repo, pinned, policy, (count - 1) as nat);
        assert(slept.drop_last() =~= failed);
        assert(failed.drop_last() =~= before);
        assert(state.run(failed) == state.run(before).advance(failed.last()));
        assert(state.run(slept) == state.run(failed).advance(slept.last()));
    }
}

/// The attempt leaves the tag open: the request failed, or the answer carries
/// no tag.
pub open spec fn leaves_open(attempt: ResolverEventView) -> bool {
    match attempt {
        ResolverEventView::Failed => true,
        ResolverEventView::Answered { tag, prerelease } => tag is None,
        ResolverEventView::Slept => false,
    }
}

/// The reports of `attempts`, each followed by its wait.
pub open spec fn with_waits(attempts: Seq<ResolverEventView>) -> Seq<ResolverEventView>
    decreases attempts.len(),
{
    if attempts.len() == 0 {
        Seq::<ResolverEventView>::empty()
    } else {
        with_waits(attempts.drop_last()).push(attempts.last()).push(ResolverEventView::Slept)
    }
}

/// Attempts that leave the tag open are followed by further attempts as long
/// as the budget lasts, whether the requests fail or their answers carry no
/// tag; the last attempt of the budget resolves the pinned default.
pub proof fn lemma_open_attempts_use_the_budget(
    org: Seq<char>,
    repo: Seq<char>,
    pinned: Seq<char>,
    policy: RetryPolicy,
    attempts: Seq<ResolverEventView>,
)
    requires
        policy.wf(),
        attempts.len() <= policy.spec_max_attempts(),
        forall|i: int| 0 <= i < attempts.len() ==> leaves_open(#[trigger] attempts[i]),
    ensures
        attempts.len() < policy.spec_max_attempts() ==> ResolverView::initial(
            org,
            repo,
            pinned,
            None,
            policy,
        ).run(with_waits(attempts)) == (ResolverView {
            attempts: attempts.len(),
            ..ResolverView::initial(org, repo, pinned, None, policy)
        }),
        attempts.len() == policy.spec_max_attempts() ==> ResolverView::initial(
            org,
            repo,
            pinned,
            None,
            policy,
        ).run(with_waits(attempts)) == (ResolverView {
            attempts: attempts.len(),
            stage: ResolverStage::Resolved,
            tag: pinned,
            ..ResolverView::initial(org, repo, pinned, None, policy)
        }),
    decreases attempts.len(),
{
    if attempts.len() > 0 {
        let state = ResolverView::initial(org, repo, pinned, None, policy);
        let earlier = attempts.drop_last();
        assert forall|i: int| 0 <= i < earlier.len() implies leaves_open(
            #[trigger] earlier[i],
        ) by {
            assert(earlier[i] == attempts[i]);
        }
        lemma_open_attempts_use_the_budget(org, repo, pinned, policy, earlier);
        let before = with_waits(earlier);
        let tried = before.push(attempts.last());
        let slept = tried.push(ResolverEventView::Slept);
        assert(leaves_open(attempts[attempts.len() - 1]));
        assert(slept.drop_last() =~= tried);
        assert(tried.drop_last() =~= before);
        assert(state.run(tried) == state.run(before).advance(tried.last()));
        assert(state.run(slept) == state.run(tried).advance(slept.last()));
    }
}

/// The first answer that carries a tag decides, and no attempt follows it:
/// after attempts within the budget that left the tag open, such an answer
/// resolves its tag, or the pinned default where it marks a prerelease or its
/// tag is empty, and nothing that is reported later changes that.
pub proof fn lemma_first_answer_with_a_tag_decides(
    org: Seq<char>,
    repo: Seq<char>,
    pinned: Seq<char>,
    policy: RetryPolicy,
    earlier: Seq<ResolverEventView>,
    tag: Seq<char>,
    prerelease: bool,
    later: ResolverEventView,
)
    requires
        policy.wf(),
        earlier.len() < policy.spec_max_attempts(),
        forall|i: int| 0 <= i < earlier.len() ==> leaves_open(#[trigger] earlier[i]),
    ensures
        ResolverView::initial(org, repo, pinned, None, policy).run(with_waits(earlier)).advance(
            ResolverEventView::Answered { tag: Some(tag), prerelease },
        ) == (ResolverView {
            attempts: earlier.len() + 1,
            stage: ResolverStage::Resolved,
            tag: spec_tag_of_release(tag, prerelease, pinned),
            ..ResolverView::initial(org, repo, pinned, None, policy)
        }),
        ResolverView::initial(org, repo, pinned, None, policy).run(with_waits(earlier)).advance(
            ResolverEventView::Answered { tag: Some(tag), prerelease },
        ).advance(later) == ResolverView::initial(org, repo, pinned, None, policy).run(
            with_waits(earlier),
        ).advance(ResolverEventView::Answered { tag: Some(tag), prerelease }),
{
    lemma_open_attempts_use_the_budget(org, repo, pinned, policy, earlier);
}

/// The pinned default is not empty, and neither is the tag once it is known.
pub open spec fn carries_a_tag(state: ResolverView) -> bool {
    state.pinned.len() > 0 && (state.stage is Resolved ==> state.tag.len() > 0)
}

/// A resolved tag is never empty: where the pinned default and the caller's
/// choice, if there is one, are not empty, every tag that a resolution
/// arrives at has a character, whatever the release API answers.
pub proof fn lemma_resolved_tag_is_not_empty(
    org: Seq<char>,
    repo: Seq<char>,
    pinned: Seq<char>,
    explicit: Option<Seq<char>>,
    policy: RetryPolicy,
    events: Seq<ResolverEventView>,
)
    requires
        pinned.len() > 0,
        explicit matches Some(chosen) ==> chosen.len() > 0,
    ensures
        carries_a_tag(ResolverView::initial(org, repo, pinned, explicit, policy).run(events)),
    decreases events.len(),
{
    if events.len() > 0 {
        lemma_resolved_tag_is_not_empty(org, repo, pinned, explicit, policy, events.drop_last());
    }
}

/// The resolution of a release tag, between two reports of the caller.
pub struct TagResolver {
    org: String,
    repo: String,
    pinned: String,
    policy: RetryPolicy,
    stage: ResolverStage,
    attempts: u64,
    tag: String,
}

impl View for TagResolver {
    type V = ResolverView;

    closed spec fn view(&self) -> ResolverView {
        ResolverView {
            org: self.org@,
            repo: self.repo@,
            pinned: self.pinned@,
            policy: self.policy,
            stage: self.stage,
            attempts: self.attempts as nat,
            tag: self.tag@,
        }
    }
}

impl TagResolver {
    #[verifier::type_invariant]
    spec fn inv(self) -> bool {
        self@.wf()
    }

    /// A resolution that has not begun, for the repository `org/repo`, with
    /// the tag `pinned_default` to fall back to and, where the caller chose
    /// one, the tag `explicit_tag`.
    pub fn new(
        org: &str,
        repo: &str,
        pinned_default: &str,
        explicit_tag: Option<String>,
        policy: RetryPolicy,
    ) -> (resolver: TagResolver)
        ensures
            resolver@ == ResolverView::initial(
                org@,
                repo@,
                pinned_default@,
                match explicit_tag {
                    Some(chosen) => Some(chosen@),
                    None => None,
                },
                policy,
            ),
            resolver@.wf(),
    {
        let _ = policy.max_attempts();
        let (stage, tag) = match explicit_tag {
            Some(chosen) => (
                ResolverStage::Resolved,
                tag_of_choice(chosen.as_str(), pinned_default),
            ),
            None => (ResolverStage::Asking, String::new()),
        };
        TagResolver {
            org: String::from_str(org),
            repo: String::from_str(repo),
            pinned: String::from_str(pinned_default),
            policy,
            stage,
            attempts: 0,
            tag,
        }
    }

    /// A resolution that has not begun, for a release of `product`.
    pub fn for_product(product: Product, explicit_tag: Option<String>) -> (resolver: TagResolver)
        ensures
            resolver@ == ResolverView::initial(
                product.spec_org(),
                product.spec_repo(),
                product.spec_default_tag(),
                match explicit_tag {
                    Some(chosen) => Some(chosen@),
                    None => None,
                },
                resolver@.policy,
            ),
            resolver@.wf(),
            resolver@.policy.spec_max_attempts() == product.spec_release_attempts(),
            resolver@.policy.spec_base_delay() == product.spec_release_base_delay(),
    {
        TagResolver::new(
            product.org(),
            product.repo(),
            product.default_tag(),
            explicit_tag,
            product.release_retry_policy(),
        )
    }

    /// What the resolution is waiting for.
    pub fn stage(&self) -> (stage: ResolverStage)
        ensures
            stage == self@.stage,
            self@.wf(),
    {
        proof {
            use_type_invariant(self);
        }
        self.stage
    }

    /// The number of attempts at the release API that have ended.
    pub fn attempts(&self) -> (attempts: u64)
        ensures
            attempts == self@.attempts,
    {
        self.attempts
    }

    /// The tag, once the resolution has ended.
    pub fn tag(&self) -> (tag: Option<String>)
        ensures
            match tag {
                Some(known) => self@.stage is Resolved && known@ == self@.tag,
                None => !(self@.stage is Resolved),
            },
    {
        match self.stage {
            ResolverStage::Resolved => Some(self.tag.clone()),
            _ => None,
        }
    }

    fn after_attempt(self, settled: Option<String>) -> (next: TagResolver)
        requires
            self@.stage is Asking,
        ensures
            next@ == self@.after_attempt(
                match settled {
                    Some(tag) => Some(tag@),
                    None => None,
                },
            ),
    {
        proof {
            use_type_invariant(&self);
        }
        let _ = self.policy.max_attempts();
        let attempts = self.attempts + 1;
        match settled {
            Some(tag) => TagResolver { stage: ResolverStage::Resolved, attempts, tag, ..self },
            None => TagResolver { stage: ResolverStage::Backoff, attempts, ..self },
        }
    }

    /// The resolution after the caller has reported `event`.
    pub fn advance(self, event: ResolverEvent) -> (next: TagResolver)
        ensures
            next@ == self@.advance(event@),
            next@.wf(),
    {
        proof {
            use_type_invariant(&self);
        }
        let next = match (self.stage, event) {
            (ResolverStage::Asking, ResolverEvent::Answered(answer)) => {
                let settled = tag_of_answer(&answer, self.pinned.as_str());
                self.after_attempt(settled)
            },
            (ResolverStage::Asking, ResolverEvent::Failed) => self.after_attempt(None),
            (ResolverStage::Backoff, ResolverEvent::Slept) => {
                if self.attempts < self.policy.max_attempts() {
                    TagResolver { stage: ResolverStage::Asking, ..self }
                } else {
                    let tag = self.pinned.clone();
                    TagResolver { stage: ResolverStage::Resolved, tag, ..self }
                }
            },
            (_, _) => self,
        };
        proof {
            use_type_invariant(&next);
        }
        next
    }

    /// What the caller is asked to do next.
    pub fn action(&self) -> (action: ResolverAction)
        ensures
            action@ == self@.action(),
    {
        proof {
            use_type_invariant(self);
        }
        match self.stage {
            ResolverStage::Asking => ResolverAction::Fetch {
                url: latest_release_endpoint(self.org.as_str(), self.repo.as_str()),
            },
            ResolverStage::Backoff => ResolverAction::Sleep {
                secs: self.policy.delay_after(self.attempts - 1),
            },
            ResolverStage::Resolved => ResolverAction::Done { tag: self.tag.clone() },
        }
    }

    /// The resolution after the caller has reported `event`, with what the
    /// caller is asked to do next.
    pub fn step(self, event: ResolverEvent) -> (next: (TagResolver, ResolverAction))
        ensures
            next.0@ == self@.advance(event@),
            next.0@.wf(),
            next.1@ == next.0@.action(),
    {
        let resolver = self.advance(event);
        let action = resolver.action();
        (resolver, action)
    }
}

} // verus!
