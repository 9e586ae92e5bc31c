//! The event envelope: the generic wrapper for any incoming webhook event,
//! together with the kind-specific payloads the mapping engine understands.
//!
//! Every field holds a plain value (strings, numbers, options); the loosely
//! typed sub-objects of some payloads are carried as [`Fragment`] values.
//! Each type has a ghost view used by the contracts of the engine.
use vstd::prelude::*;

verus! {

/// Tag naming which payload shape an envelope carries.
#[derive(Debug, Clone, Copy, PartialEq, Eq, Structural)]
pub enum EventKind {
    Repository,
    Issues,
    IssueComment,
    PullRequest,
    PullRequestReview,
    PullRequestReviewComment,
    Discussion,
    DiscussionComment,
    CommitComment,
    Release,
    Membership,
    /// Any event kind the engine has no extractor for.
    Other,
}

/// Whether the actor behind an event is a person or an automated account.
#[derive(Debug, Clone, Copy, PartialEq, Eq, Structural)]
pub enum AccountKind {
    User,
    Bot,
}

/// The actor who triggered an event.
#[derive(Debug, Clone, PartialEq, Eq)]
pub struct Author {
    pub login: String,
    pub html_url: String,
    pub avatar_url: String,
    pub kind: AccountKind,
}

#[verifier::ext_equal]
pub ghost struct AuthorView {
    pub login: Seq<char>,
    pub html_url: Seq<char>,
    pub avatar_url: Seq<char>,
    pub kind: AccountKind,
}

impl View for Author {
    type V = AuthorView;

    open spec fn view(&self) -> AuthorView {
        AuthorView {
            login: self.login@,
            html_url: self.html_url@,
            avatar_url: self.avatar_url@,
            kind: self.kind,
        }
    }
}

impl DeepView for Author {
    type V = AuthorView;

    open spec fn deep_view(&self) -> AuthorView {
        self.view()
    }
}

/// The repository an event concerns.
#[derive(Debug, Clone, PartialEq, Eq)]
pub struct Repository {
    pub name: String,
    pub full_name: Option<String>,
    pub html_url: Option<String>,
    pub owner: Option<Author>,
    pub private: Option<bool>,
}

#[verifier::ext_equal]
pub ghost struct RepositoryView {
    pub name: Seq<char>,
    pub full_name: Option<Seq<char>>,
    pub html_url: Option<Seq<char>>,
    pub owner: Option<AuthorView>,
    pub private: Option<bool>,
}

impl View for Repository {
    type V = RepositoryView;

    open spec fn view(&self) -> RepositoryView {
        RepositoryView {
            name: self.name@,
            full_name: self.full_name.deep_view(),
            html_url: self.html_url.deep_view(),
            owner: self.owner.deep_view(),
            private: self.private,
        }
    }
}

/// The display name of a repository: the full name when present, the short
/// name otherwise.
pub open spec fn repo_display_name(repo: RepositoryView) -> Seq<char> {
    match repo.full_name {
        Some(full) => full,
        None => repo.name,
    }
}

/// One projection of an untyped JSON value: how the value renders as JSON
/// text, and its character content when the value is a JSON string.
#[derive(Debug, Clone, PartialEq, Eq)]
pub struct JsonText {
    /// The value rendered as compact JSON text (a string value renders with
    /// its quotes).
    pub raw: String,
    /// The content of the value when it is a JSON string, and nothing
    /// otherwise.
    pub text: Option<String>,
}

#[verifier::ext_equal]
pub ghost struct JsonTextView {
    pub raw: Seq<char>,
    pub text: Option<Seq<char>>,
}

impl View for JsonText {
    type V = JsonTextView;

    open spec fn view(&self) -> JsonTextView {
        JsonTextView { raw: self.raw@, text: self.text.deep_view() }
    }
}

impl DeepView for JsonText {
    type V = JsonTextView;

    open spec fn deep_view(&self) -> JsonTextView {
        self.view()
    }
}

/// One key of an untyped JSON object together with its value.
#[derive(Debug, Clone, PartialEq, Eq)]
pub struct FragmentEntry {
    pub key: String,
    pub value: JsonText,
}

#[verifier::ext_equal]
pub ghost struct FragmentEntryView {
    pub key: Seq<char>,
    pub value: JsonTextView,
}

impl View for FragmentEntry {
    type V = FragmentEntryView;

    open spec fn view(&self) -> FragmentEntryView {
        FragmentEntryView { key: self.key@, value: self.value@ }
    }
}

impl DeepView for FragmentEntry {
    type V = FragmentEntryView;

    open spec fn deep_view(&self) -> FragmentEntryView {
        self.view()
    }
}

/// An untyped JSON object fragment: the keys the engine may look up, each
/// with the two projections of its value that the engine reads.
#[derive(Debug, Clone, PartialEq, Eq)]
pub struct Fragment {
    pub entries: Vec<FragmentEntry>,
}

/// The value stored under `key`, taking the first entry when a key repeats.
pub open spec fn frag_get(entries: Seq<FragmentEntryView>, key: Seq<char>) -> Option<JsonTextView>
    decreases entries.len(),
{
    if entries.len() == 0 {
        None
    } else if entries[0].key == key {
        Some(entries[0].value)
    } else {
        frag_get(entries.drop_first(), key)
    }
}

impl View for Fragment {
    type V = Seq<FragmentEntryView>;

    open spec fn view(&self) -> Seq<FragmentEntryView> {
        self.entries.deep_view()
    }
}

/// The string content stored under `key`: the value's characters when the
/// key is present and holds a JSON string, and nothing otherwise.
pub open spec fn frag_str(entries: Seq<FragmentEntryView>, key: Seq<char>) -> Option<Seq<char>> {
    match frag_get(entries, key) {
        Some(value) => value.text,
        None => None,
    }
}

impl Fragment {
    /// Looks a key up, as a JSON object lookup does.
    pub fn get(&self, key: &str) -> (r: Option<&JsonText>)
        ensures
            match r {
                Some(v) => frag_get(self@, key@) == Some(v@),
                None => frag_get(self@, key@) is None,
            },
    {
        let n = self.entries.len();
        let mut i: usize = 0;
        proof {
            assert(self@.skip(0) =~= self@);
        }
        while i < n
            invariant
                i <= n,
                n == self.entries.len(),
                frag_get(self@, key@) == frag_get(self@.skip(i as int), key@),
            decreases n - i,
        {
            proof {
                assert(self@.skip(i as int)[0] == self.entries[i as int].deep_view());
                assert(self@.skip(i as int).drop_first() =~= self@.skip(i + 1));
            }
            if crate::text::str_eq(self.entries[i].key.as_str(), key) {
                return Some(&self.entries[i].value);
            }
            i = i + 1;
        }
        proof {
            assert(self@.skip(n as int) =~= Seq::<FragmentEntryView>::empty());
        }
        None
    }

    /// Looks a key up and keeps only a string value, as a JSON object lookup
    /// followed by a string check does.
    pub fn get_str(&self, key: &str) -> (r: Option<&String>)
        ensures
            match r {
                Some(s) => frag_str(self@, key@) == Some(s@),
                None => frag_str(self@, key@) is None,
            },
    {
        match self.get(key) {
            Some(value) => match &value.text {
                Some(s) => Some(s),
                None => None,
            },
            None => None,
        }
    }
}

/// State GitHub records for a closed or reopened issue.
#[derive(Debug, Clone, Copy, PartialEq, Eq, Structural)]
pub enum IssueStateReason {
    Completed,
    NotPlanned,
    Reopened,
    Duplicate,
    Other,
}

/// The issue an `issues` or `issue_comment` event concerns.
#[derive(Debug, Clone, PartialEq, Eq)]
pub struct Issue {
    pub number: u64,
    pub title: String,
    pub html_url: String,
    pub body: Option<String>,
    pub assignee: Option<Author>,
    pub state_reason: Option<IssueStateReason>,
    /// Whether the issue carries a pull-request marker, which tells a comment
    /// on a pull request apart from one on a plain issue.
    pub is_pull_request: bool,
}

#[verifier::ext_equal]
pub ghost struct IssueView {
    pub number: u64,
    pub title: Seq<char>,
    pub html_url: Seq<char>,
    pub body: Option<Seq<char>>,
    pub assignee: Option<AuthorView>,
    pub state_reason: Option<IssueStateReason>,
    pub is_pull_request: bool,
}

impl View for Issue {
    type V = IssueView;

    open spec fn view(&self) -> IssueView {
        IssueView {
            number: self.number,
            title: self.title@,
            html_url: self.html_url@,
            body: self.body.deep_view(),
            assignee: self.assignee.deep_view(),
            state_reason: self.state_reason,
            is_pull_request: self.is_pull_request,
        }
    }
}

/// A comment on an issue or pull request.
#[derive(Debug, Clone, PartialEq, Eq)]
pub struct IssueComment {
    pub html_url: String,
    pub body: Option<String>,
}

#[verifier::ext_equal]
pub ghost struct IssueCommentView {
    pub html_url: Seq<char>,
    pub body: Option<Seq<char>>,
}

impl View for IssueComment {
    type V = IssueCommentView;

    open spec fn view(&self) -> IssueCommentView {
        IssueCommentView { html_url: self.html_url@, body: self.body.deep_view() }
    }
}

/// A comment on a commit.
#[derive(Debug, Clone, PartialEq, Eq)]
pub struct CommitComment {
    pub commit_id: String,
    pub html_url: String,
    pub body: Option<String>,
}

#[verifier::ext_equal]
pub ghost struct CommitCommentView {
    pub commit_id: Seq<char>,
    pub html_url: Seq<char>,
    pub body: Option<Seq<char>>,
}

impl View for CommitComment {
    type V = CommitCommentView;

    open spec fn view(&self) -> CommitCommentView {
        CommitCommentView {
            commit_id: self.commit_id@,
            html_url: self.html_url@,
            body: self.body.deep_view(),
        }
    }
}

/// A review comment on a pull request; its body is always present.
#[derive(Debug, Clone, PartialEq, Eq)]
pub struct ReviewComment {
    pub html_url: String,
    pub body: String,
}

#[verifier::ext_equal]
pub ghost struct ReviewCommentView {
    pub html_url: Seq<char>,
    pub body: Seq<char>,
}

impl View for ReviewComment {
    type V = ReviewCommentView;

    open spec fn view(&self) -> ReviewCommentView {
        ReviewCommentView { html_url: self.html_url@, body: self.body@ }
    }
}

/// The pull request of a `pull_request` event.
#[derive(Debug, Clone, PartialEq, Eq)]
pub struct PullRequestInfo {
    pub title: Option<String>,
    pub html_url: Option<String>,
    pub body: Option<String>,
    /// Whether a merge timestamp is present on the pull request.
    pub merged: bool,
}

#[verifier::ext_equal]
pub ghost struct PullRequestInfoView {
    pub title: Option<Seq<char>>,
    pub html_url: Option<Seq<char>>,
    pub body: Option<Seq<char>>,
    pub merged: bool,
}

impl View for PullRequestInfo {
    type V = PullRequestInfoView;

    open spec fn view(&self) -> PullRequestInfoView {
        PullRequestInfoView {
            title: self.title.deep_view(),
            html_url: self.html_url.deep_view(),
            body: self.body.deep_view(),
            merged: self.merged,
        }
    }
}

/// The pull request a review or review comment refers to.
#[derive(Debug, Clone, PartialEq, Eq)]
pub struct PullRequestBrief {
    pub number: u64,
    pub title: Option<String>,
}

#[verifier::ext_equal]
pub ghost struct PullRequestBriefView {
    pub number: u64,
    pub title: Option<Seq<char>>,
}

impl View for PullRequestBrief {
    type V = PullRequestBriefView;

    open spec fn view(&self) -> PullRequestBriefView {
        PullRequestBriefView { number: self.number, title: self.title.deep_view() }
    }
}

/// The verdict a submitted pull-request review carries.
#[derive(Debug, Clone, Copy, PartialEq, Eq, Structural)]
pub enum ReviewState {
    Approved,
    ChangesRequested,
    Commented,
    Other,
}

/// A submitted pull-request review.
#[derive(Debug, Clone, PartialEq, Eq)]
pub struct Review {
    pub state: Option<ReviewState>,
    pub html_url: String,
    pub body: Option<String>,
}

#[verifier::ext_equal]
pub ghost struct ReviewView {
    pub state: Option<ReviewState>,
    pub html_url: Seq<char>,
    pub body: Option<Seq<char>>,
}

impl View for Review {
    type V = ReviewView;

    open spec fn view(&self) -> ReviewView {
        ReviewView { state: self.state, html_url: self.html_url@, body: self.body.deep_view() }
    }
}

/// A team a review was requested from.
#[derive(Debug, Clone, PartialEq, Eq)]
pub struct Team {
    pub name: String,
}

#[verifier::ext_equal]
pub ghost struct TeamView {
    pub name: Seq<char>,
}

impl View for Team {
    type V = TeamView;

    open spec fn view(&self) -> TeamView {
        TeamView { name: self.name@ }
    }
}

/// The previous repository name recorded by a rename.
#[derive(Debug, Clone, PartialEq, Eq)]
pub struct RepositoryNameChange {
    /// The name the repository had before the rename.
    pub name: Option<String>,
}

#[verifier::ext_equal]
pub ghost struct RepositoryNameChangeView {
    pub name: Option<Seq<char>>,
}

impl View for RepositoryNameChange {
    type V = RepositoryNameChangeView;

    open spec fn view(&self) -> RepositoryNameChangeView {
        RepositoryNameChangeView { name: self.name.deep_view() }
    }
}

impl DeepView for RepositoryNameChange {
    type V = RepositoryNameChangeView;

    open spec fn deep_view(&self) -> RepositoryNameChangeView {
        self.view()
    }
}

/// The previous owner recorded by a transfer.
#[derive(Debug, Clone, PartialEq, Eq)]
pub struct OwnerChange {
    /// The login of the user the repository belonged to.
    pub user_login: String,
}

#[verifier::ext_equal]
pub ghost struct OwnerChangeView {
    pub user_login: Seq<char>,
}

impl View for OwnerChange {
    type V = OwnerChangeView;

    open spec fn view(&self) -> OwnerChangeView {
        OwnerChangeView { user_login: self.user_login@ }
    }
}

impl DeepView for OwnerChange {
    type V = OwnerChangeView;

    open spec fn deep_view(&self) -> OwnerChangeView {
        self.view()
    }
}

/// The rename or transfer delta of a `repository` event.
#[derive(Debug, Clone, PartialEq, Eq)]
pub struct RepositoryChanges {
    pub repository: Option<RepositoryNameChange>,
    pub owner: Option<OwnerChange>,
}

#[verifier::ext_equal]
pub ghost struct RepositoryChangesView {
    pub repository: Option<RepositoryNameChangeView>,
    pub owner: Option<OwnerChangeView>,
}

impl View for RepositoryChanges {
    type V = RepositoryChangesView;

    open spec fn view(&self) -> RepositoryChangesView {
        RepositoryChangesView {
            repository: self.repository.deep_view(),
            owner: self.owner.deep_view(),
        }
    }
}

/// Action of a `repository` event.
#[derive(Debug, Clone, Copy, PartialEq, Eq, Structural)]
pub enum RepositoryAction {
    Archived,
    Created,
    Deleted,
    Renamed,
    Transferred,
    Unarchived,
    Other,
}

/// Action of an `issues` event.
#[derive(Debug, Clone, Copy, PartialEq, Eq, Structural)]
pub enum IssuesAction {
    Assigned,
    Closed,
    Locked,
    Opened,
    Pinned,
    Reopened,
    Other,
}

/// Action of an `issue_comment` event.
#[derive(Debug, Clone, Copy, PartialEq, Eq, Structural)]
pub enum IssueCommentAction {
    Created,
    Other,
}

/// Action of a `pull_request` event.
#[derive(Debug, Clone, Copy, PartialEq, Eq, Structural)]
pub enum PullRequestAction {
    Assigned,
    Closed,
    Locked,
    Opened,
    ReadyForReview,
    Reopened,
    ReviewRequested,
    Other,
}

/// Action of a `pull_request_review` event.
#[derive(Debug, Clone, Copy, PartialEq, Eq, Structural)]
pub enum ReviewAction {
    Submitted,
    Other,
}

/// Action of a `pull_request_review_comment` event.
#[derive(Debug, Clone, Copy, PartialEq, Eq, Structural)]
pub enum ReviewCommentAction {
    Created,
    Other,
}

/// Action of a `discussion` event.
#[derive(Debug, Clone, Copy, PartialEq, Eq, Structural)]
pub enum DiscussionAction {
    Created,
    Closed,
    Reopened,
    Other,
}

/// Action of a `discussion_comment` event.
#[derive(Debug, Clone, Copy, PartialEq, Eq, Structural)]
pub enum DiscussionCommentAction {
    Created,
    Other,
}

/// Action of a `release` event.
#[derive(Debug, Clone, Copy, PartialEq, Eq, Structural)]
pub enum ReleaseAction {
    Released,
    Other,
}

/// Action of a `membership` event.
#[derive(Debug, Clone, Copy, PartialEq, Eq, Structural)]
pub enum MembershipAction {
    Added,
    Removed,
    Other,
}

/// Payload of a `repository` event.
#[derive(Debug, Clone, PartialEq, Eq)]
pub struct RepositoryPayload {
    pub action: RepositoryAction,
    pub changes: Option<RepositoryChanges>,
}

#[verifier::ext_equal]
pub ghost struct RepositoryPayloadView {
    pub action: RepositoryAction,
    pub changes: Option<RepositoryChangesView>,
}

impl View for RepositoryPayload {
    type V = RepositoryPayloadView;

    open spec fn view(&self) -> RepositoryPayloadView {
        RepositoryPayloadView {
            action: self.action,
            changes: match self.changes {
                Some(c) => Some(c@),
                None => None,
            },
        }
    }
}

/// Payload of an `issues` event.
#[derive(Debug, Clone, PartialEq, Eq)]
pub struct IssuesPayload {
    pub action: IssuesAction,
    pub issue: Issue,
}

#[verifier::ext_equal]
pub ghost struct IssuesPayloadView {
    pub action: IssuesAction,
    pub issue: IssueView,
}

impl View for IssuesPayload {
    type V = IssuesPayloadView;

    open spec fn view(&self) -> IssuesPayloadView {
        IssuesPayloadView { action: self.action, issue: self.issue@ }
    }
}

/// Payload of an `issue_comment` event.
#[derive(Debug, Clone, PartialEq, Eq)]
pub struct IssueCommentPayload {
    pub action: IssueCommentAction,
    pub issue: Issue,
    pub comment: IssueComment,
}

#[verifier::ext_equal]
pub ghost struct IssueCommentPayloadView {
    pub action: IssueCommentAction,
    pub issue: IssueView,
    pub comment: IssueCommentView,
}

impl View for IssueCommentPayload {
    type V = IssueCommentPayloadView;

    open spec fn view(&self) -> IssueCommentPayloadView {
        IssueCommentPayloadView {
            action: self.action,
            issue: self.issue@,
            comment: self.comment@,
        }
    }
}

/// Payload of a `pull_request` event.
#[derive(Debug, Clone, PartialEq, Eq)]
pub struct PullRequestPayload {
    pub action: PullRequestAction,
    pub number: u64,
    pub pull_request: PullRequestInfo,
    pub assignee: Option<Author>,
    pub requested_reviewer: Option<Author>,
    pub requested_team: Option<Team>,
}

#[verifier::ext_equal]
pub ghost struct PullRequestPayloadView {
    pub action: PullRequestAction,
    pub number: u64,
    pub pull_request: PullRequestInfoView,
    pub assignee: Option<AuthorView>,
    pub requested_reviewer: Option<AuthorView>,
    pub requested_team: Option<TeamView>,
}

impl View for PullRequestPayload {
    type V = PullRequestPayloadView;

    open spec fn view(&self) -> PullRequestPayloadView {
        PullRequestPayloadView {
            action: self.action,
            number: self.number,
            pull_request: self.pull_request@,
            assignee: self.assignee.deep_view(),
            requested_reviewer: self.requested_reviewer.deep_view(),
            requested_team: match self.requested_team {
                Some(t) => Some(t@),
                None => None,
            },
        }
    }
}

/// Payload of a `pull_request_review` event.
#[derive(Debug, Clone, PartialEq, Eq)]
pub struct PullRequestReviewPayload {
    pub action: ReviewAction,
    pub review: Review,
    pub pull_request: PullRequestBrief,
}

#[verifier::ext_equal]
pub ghost struct PullRequestReviewPayloadView {
    pub action: ReviewAction,
    pub review: ReviewView,
    pub pull_request: PullRequestBriefView,
}

impl View for PullRequestReviewPayload {
    type V = PullRequestReviewPayloadView;

    open spec fn view(&self) -> PullRequestReviewPayloadView {
        PullRequestReviewPayloadView {
            action: self.action,
            review: self.review@,
            pull_request: self.pull_request@,
        }
    }
}

/// Payload of a `pull_request_review_comment` event.
#[derive(Debug, Clone, PartialEq, Eq)]
pub struct ReviewCommentPayload {
    pub action: ReviewCommentAction,
    pub pull_request: PullRequestBrief,
    pub comment: ReviewComment,
}

#[verifier::ext_equal]
pub ghost struct ReviewCommentPayloadView {
    pub action: ReviewCommentAction,
    pub pull_request: PullRequestBriefView,
    pub comment: ReviewCommentView,
}

impl View for ReviewCommentPayload {
    type V = ReviewCommentPayloadView;

    open spec fn view(&self) -> ReviewCommentPayloadView {
        ReviewCommentPayloadView {
            action: self.action,
            pull_request: self.pull_request@,
            comment: self.comment@,
        }
    }
}

/// Payload of a `discussion` event.
#[derive(Debug, Clone, PartialEq, Eq)]
pub struct DiscussionPayload {
    pub action: DiscussionAction,
    pub discussion: Fragment,
}

#[verifier::ext_equal]
pub ghost struct DiscussionPayloadView {
    pub action: DiscussionAction,
    pub discussion: Seq<FragmentEntryView>,
}

impl View for DiscussionPayload {
    type V = DiscussionPayloadView;

    open spec fn view(&self) -> DiscussionPayloadView {
        DiscussionPayloadView { action: self.action, discussion: self.discussion@ }
    }
}

/// Payload of a `discussion_comment` event.
#[derive(Debug, Clone, PartialEq, Eq)]
pub struct DiscussionCommentPayload {
    pub action: DiscussionCommentAction,
    pub discussion: Fragment,
    pub comment: Fragment,
}

#[verifier::ext_equal]
pub ghost struct DiscussionCommentPayloadView {
    pub action: DiscussionCommentAction,
    pub discussion: Seq<FragmentEntryView>,
    pub comment: Seq<FragmentEntryView>,
}

impl View for DiscussionCommentPayload {
    type V = DiscussionCommentPayloadView;

    open spec fn view(&self) -> DiscussionCommentPayloadView {
        DiscussionCommentPayloadView {
            action: self.action,
            discussion: self.discussion@,
            comment: self.comment@,
        }
    }
}

/// Payload of a `commit_comment` event; every such event is handled.
#[derive(Debug, Clone, PartialEq, Eq)]
pub struct CommitCommentPayload {
    pub comment: CommitComment,
}

#[verifier::ext_equal]
pub ghost struct CommitCommentPayloadView {
    pub comment: CommitCommentView,
}

impl View for CommitCommentPayload {
    type V = CommitCommentPayloadView;

    open spec fn view(&self) -> CommitCommentPayloadView {
        CommitCommentPayloadView { comment: self.comment@ }
    }
}

/// Payload of a `release` event.
#[derive(Debug, Clone, PartialEq, Eq)]
pub struct ReleasePayload {
    pub action: ReleaseAction,
    pub release: Fragment,
}

#[verifier::ext_equal]
pub ghost struct ReleasePayloadView {
    pub action: ReleaseAction,
    pub release: Seq<FragmentEntryView>,
}

impl View for ReleasePayload {
    type V = ReleasePayloadView;

    open spec fn view(&self) -> ReleasePayloadView {
        ReleasePayloadView { action: self.action, release: self.release@ }
    }
}

/// Payload of a `membership` event.
#[derive(Debug, Clone, PartialEq, Eq)]
pub struct MembershipPayload {
    pub action: MembershipAction,
    pub team: Fragment,
    pub member: Fragment,
}

#[verifier::ext_equal]
pub ghost struct MembershipPayloadView {
    pub action: MembershipAction,
    pub team: Seq<FragmentEntryView>,
    pub member: Seq<FragmentEntryView>,
}

impl View for MembershipPayload {
    type V = MembershipPayloadView;

    open spec fn view(&self) -> MembershipPayloadView {
        MembershipPayloadView {
            action: self.action,
            team: self.team@,
            member: self.member@,
        }
    }
}

/// The kind-specific payload of an envelope, one variant per supported kind.
#[derive(Debug, Clone, PartialEq, Eq)]
pub enum EventPayload {
    Repository(RepositoryPayload),
    Issues(IssuesPayload),
    IssueComment(IssueCommentPayload),
    PullRequest(PullRequestPayload),
    PullRequestReview(PullRequestReviewPayload),
    PullRequestReviewComment(ReviewCommentPayload),
    Discussion(DiscussionPayload),
    DiscussionComment(DiscussionCommentPayload),
    CommitComment(CommitCommentPayload),
    Release(ReleasePayload),
    Membership(MembershipPayload),
    /// Any event kind the engine has no extractor for.
    Other,
}

#[verifier::ext_equal]
pub ghost enum EventPayloadView {
    Repository(RepositoryPayloadView),
    Issues(IssuesPayloadView),
    IssueComment(IssueCommentPayloadView),
    PullRequest(PullRequestPayloadView),
    PullRequestReview(PullRequestReviewPayloadView),
    PullRequestReviewComment(ReviewCommentPayloadView),
    Discussion(DiscussionPayloadView),
    DiscussionComment(DiscussionCommentPayloadView),
    CommitComment(CommitCommentPayloadView),
    Release(ReleasePayloadView),
    Membership(MembershipPayloadView),
    Other,
}

impl View for EventPayload {
    type V = EventPayloadView;

    open spec fn view(&self) -> EventPayloadView {
        match self {
            EventPayload::Repository(p) => EventPayloadView::Repository(p@),
            EventPayload::Issues(p) => EventPayloadView::Issues(p@),
            EventPayload::IssueComment(p) => EventPayloadView::IssueComment(p@),
            EventPayload::PullRequest(p) => EventPayloadView::PullRequest(p@),
            EventPayload::PullRequestReview(p) => EventPayloadView::PullRequestReview(p@),
            EventPayload::PullRequestReviewComment(p) => EventPayloadView::PullRequestReviewComment(
                p@,
            ),
            EventPayload::Discussion(p) => EventPayloadView::Discussion(p@),
            EventPayload::DiscussionComment(p) => EventPayloadView::DiscussionComment(p@),
            EventPayload::CommitComment(p) => EventPayloadView::CommitComment(p@),
            EventPayload::Release(p) => EventPayloadView::Release(p@),
            EventPayload::Membership(p) => EventPayloadView::Membership(p@),
            EventPayload::Other => EventPayloadView::Other,
        }
    }
}

/// The kind tag a payload carries; the envelope's kind is always derived
/// from its payload, so the two cannot disagree.
pub open spec fn payload_kind(p: EventPayloadView) -> EventKind {
    match p {
        EventPayloadView::Repository(_) => EventKind::Repository,
        EventPayloadView::Issues(_) => EventKind::Issues,
        EventPayloadView::IssueComment(_) => EventKind::IssueComment,
        EventPayloadView::PullRequest(_) => EventKind::PullRequest,
        EventPayloadView::PullRequestReview(_) => EventKind::PullRequestReview,
        EventPayloadView::PullRequestReviewComment(_) => EventKind::PullRequestReviewComment,
        EventPayloadView::Discussion(_) => EventKind::Discussion,
        EventPayloadView::DiscussionComment(_) => EventKind::DiscussionComment,
        EventPayloadView::CommitComment(_) => EventKind::CommitComment,
        EventPayloadView::Release(_) => EventKind::Release,
        EventPayloadView::Membership(_) => EventKind::Membership,
        EventPayloadView::Other => EventKind::Other,
    }
}

/// The generic wrapper for any incoming event.
#[derive(Debug, Clone, PartialEq, Eq)]
pub struct Event {
    pub sender: Option<Author>,
    pub repository: Option<Repository>,
    /// Login of the owning organization, when the event names one.
    pub organization: Option<String>,
    pub specific: EventPayload,
}

#[verifier::ext_equal]
pub ghost struct EventView {
    pub sender: Option<AuthorView>,
    pub repository: Option<RepositoryView>,
    pub organization: Option<Seq<char>>,
    pub specific: EventPayloadView,
}

impl View for Event {
    type V = EventView;

    open spec fn view(&self) -> EventView {
        EventView {
            sender: self.sender.deep_view(),
            repository: match self.repository {
                Some(r) => Some(r@),
                None => None,
            },
            organization: self.organization.deep_view(),
            specific: self.specific@,
        }
    }
}

impl Event {
    /// The kind tag of this envelope, read off its payload.
    pub fn kind(&self) -> (k: EventKind)
        ensures
            k == payload_kind(self@.specific),
    {
        match &self.specific {
            EventPayload::Repository(_) => EventKind::Repository,
            EventPayload::Issues(_) => EventKind::Issues,
            EventPayload::IssueComment(_) => EventKind::IssueComment,
            EventPayload::PullRequest(_) => EventKind::PullRequest,
            EventPayload::PullRequestReview(_) => EventKind::PullRequestReview,
            EventPayload::PullRequestReviewComment(_) => EventKind::PullRequestReviewComment,
            EventPayload::Discussion(_) => EventKind::Discussion,
            EventPayload::DiscussionComment(_) => EventKind::DiscussionComment,
            EventPayload::CommitComment(_) => EventKind::CommitComment,
            EventPayload::Release(_) => EventKind::Release,
            EventPayload::Membership(_) => EventKind::Membership,
            EventPayload::Other => EventKind::Other,
        }
    }
}

} // verus!
