//! One test per event kind the engine maps: each builds an envelope, runs
//! the dispatcher, and checks the embed.
use rockdove::embed_builder::Embed;
use rockdove::events::make_embed;
use rockdove::model::{
    AccountKind, Author, CommitComment, CommitCommentPayload, DiscussionCommentAction,
    DiscussionCommentPayload, Event, EventPayload, Fragment, FragmentEntry, Issue, IssueComment,
    IssueCommentAction, IssueCommentPayload, JsonText, PullRequestAction, PullRequestBrief,
    PullRequestInfo, PullRequestPayload, PullRequestReviewPayload, Repository, Review,
    ReviewAction, ReviewComment, ReviewCommentAction, ReviewCommentPayload, ReviewState,
    ReleaseAction, ReleasePayload, Team,
};

fn author(login: &str) -> Author {
    Author {
        login: login.to_string(),
        html_url: format!("https://github.com/{}", login),
        avatar_url: format!("https://avatars.githubusercontent.com/{}", login),
        kind: AccountKind::User,
    }
}

fn repo() -> Repository {
    Repository {
        name: "rockdove".to_string(),
        full_name: Some("catppuccin/rockdove".to_string()),
        html_url: Some("https://github.com/catppuccin/rockdove".to_string()),
        owner: Some(author("catppuccin")),
        private: Some(false),
    }
}

fn event(specific: EventPayload) -> Event {
    Event {
        sender: Some(author("lavender")),
        repository: Some(repo()),
        organization: None,
        specific,
    }
}

fn string_entry(key: &str, value: &str) -> FragmentEntry {
    FragmentEntry {
        key: key.to_string(),
        value: JsonText { raw: format!("\"{}\"", value), text: Some(value.to_string()) },
    }
}

fn number_entry(key: &str, value: u64) -> FragmentEntry {
    FragmentEntry {
        key: key.to_string(),
        value: JsonText { raw: format!("{}", value), text: None },
    }
}

fn built(ev: &Event) -> Embed {
    make_embed(ev)
        .expect("make_embed should succeed")
        .expect("event fixture can be turned into an embed")
}

fn issue(number: u64, title: &str, is_pull_request: bool) -> Issue {
    Issue {
        number,
        title: title.to_string(),
        html_url: format!("https://github.com/catppuccin/rockdove/issues/{}", number),
        body: None,
        assignee: None,
        state_reason: None,
        is_pull_request,
    }
}

#[test]
fn commit_comment_created() {
    let ev = event(EventPayload::CommitComment(CommitCommentPayload {
        comment: CommitComment {
            commit_id: "4a2b9e8d13b2325227b736f6d0ced3a5b12fb2ef".to_string(),
            html_url: "https://github.com/catppuccin/rockdove/commit/4a2b9e8#commitcomment-1"
                .to_string(),
            body: Some("Nice cleanup!".to_string()),
        },
    }));
    let embed = built(&ev);
    assert_eq!(
        embed.title,
        "[catppuccin/rockdove] New comment on commit 4a2b9e8d13b2325227b736f6d0ced3a5b12fb2ef"
    );
    assert_eq!(
        embed.url,
        "https://github.com/catppuccin/rockdove/commit/4a2b9e8#commitcomment-1"
    );
    assert_eq!(embed.description, Some("Nice cleanup!".to_string()));
    assert_eq!(embed.color, Some(0x94E2D5));
    assert_eq!(embed.author.name, "lavender");
}

#[test]
fn discussion_comment_created() {
    let ev = event(EventPayload::DiscussionComment(DiscussionCommentPayload {
        action: DiscussionCommentAction::Created,
        discussion: Fragment {
            entries: vec![number_entry("number", 42), string_entry("title", "Theme requests")],
        },
        comment: Fragment {
            entries: vec![
                string_entry(
                    "html_url",
                    "https://github.com/catppuccin/rockdove/discussions/42#discussioncomment-9",
                ),
                string_entry("body", "I would love a lavender accent."),
            ],
        },
    }));
    let embed = built(&ev);
    assert_eq!(
        embed.title,
        "[catppuccin/rockdove] New comment on discussion #42: Theme requests"
    );
    assert_eq!(
        embed.url,
        "https://github.com/catppuccin/rockdove/discussions/42#discussioncomment-9"
    );
    assert_eq!(embed.description, Some("I would love a lavender accent.".to_string()));
    assert_eq!(embed.color, Some(0xFAB387));
}

#[test]
fn issue_comment_created() {
    let ev = event(EventPayload::IssueComment(IssueCommentPayload {
        action: IssueCommentAction::Created,
        issue: issue(7, "Bug: crash on start", false),
        comment: IssueComment {
            html_url: "https://github.com/catppuccin/rockdove/issues/7#issuecomment-3".to_string(),
            body: Some("Reproduced on my machine.".to_string()),
        },
    }));
    let embed = built(&ev);
    assert_eq!(
        embed.title,
        "[catppuccin/rockdove] New comment on issue #7: Bug: crash on start"
    );
    assert_eq!(embed.description, Some("Reproduced on my machine.".to_string()));
    assert_eq!(embed.color, Some(0xA6E3A1));
}

#[test]
fn created_on_pull_request() {
    let ev = event(EventPayload::IssueComment(IssueCommentPayload {
        action: IssueCommentAction::Created,
        issue: issue(8, "Add frappe flavor", true),
        comment: IssueComment {
            html_url: "https://github.com/catppuccin/rockdove/pull/8#issuecomment-4".to_string(),
            body: Some("Looks good to me.".to_string()),
        },
    }));
    let embed = built(&ev);
    assert_eq!(
        embed.title,
        "[catppuccin/rockdove] New comment on pull request #8: Add frappe flavor"
    );
    assert_eq!(embed.color, Some(0x89B4FA));
}

#[test]
fn test_userstyles_is_banned() {
    let ev = Event {
        sender: Some(author("lavender")),
        repository: Some(Repository {
            name: "userstyles".to_string(),
            full_name: Some("catppuccin/userstyles".to_string()),
            html_url: Some("https://github.com/catppuccin/userstyles".to_string()),
            owner: Some(author("catppuccin")),
            private: Some(false),
        }),
        organization: None,
        specific: EventPayload::PullRequest(PullRequestPayload {
            action: PullRequestAction::ReviewRequested,
            number: 900,
            pull_request: PullRequestInfo {
                title: Some("Add style for a new site".to_string()),
                html_url: Some("https://github.com/catppuccin/userstyles/pull/900".to_string()),
                body: None,
                merged: false,
            },
            assignee: None,
            requested_reviewer: Some(author("mittens")),
            requested_team: Some(Team { name: "staff".to_string() }),
        }),
    };
    let embed = make_embed(&ev).expect("make_embed should succeed");
    assert_eq!(embed, None, "userstyles should be ignored");
}

fn review_event(state: ReviewState) -> Event {
    event(EventPayload::PullRequestReview(PullRequestReviewPayload {
        action: ReviewAction::Submitted,
        review: Review {
            state: Some(state),
            html_url: "https://github.com/catppuccin/rockdove/pull/3#pullrequestreview-5"
                .to_string(),
            body: Some("Checked the palette values.".to_string()),
        },
        pull_request: PullRequestBrief { number: 3, title: Some("Add mocha variant".to_string()) },
    }))
}

#[test]
fn approved() {
    let embed = built(&review_event(ReviewState::Approved));
    assert_eq!(
        embed.title,
        "[catppuccin/rockdove] Pull request approved: #3 Add mocha variant"
    );
    assert_eq!(embed.description, Some("Checked the palette values.".to_string()));
    assert_eq!(embed.color, Some(0x89B4FA));
}

#[test]
fn changes_requested() {
    let embed = built(&review_event(ReviewState::ChangesRequested));
    assert_eq!(
        embed.title,
        "[catppuccin/rockdove] Pull request changes requested: #3 Add mocha variant"
    );
}

#[test]
fn commented() {
    let embed = built(&review_event(ReviewState::Commented));
    assert_eq!(
        embed.title,
        "[catppuccin/rockdove] Pull request reviewed: #3 Add mocha variant"
    );
}

#[test]
fn pull_request_review_comment_created() {
    let ev = event(EventPayload::PullRequestReviewComment(ReviewCommentPayload {
        action: ReviewCommentAction::Created,
        pull_request: PullRequestBrief { number: 3, title: Some("Add mocha variant".to_string()) },
        comment: ReviewComment {
            html_url: "https://github.com/catppuccin/rockdove/pull/3#discussion_r11".to_string(),
            body: "This constant looks off by one.".to_string(),
        },
    }));
    let embed = built(&ev);
    assert_eq!(
        embed.title,
        "[catppuccin/rockdove] New review comment on pull request #3: Add mocha variant"
    );
    assert_eq!(embed.description, Some("This constant looks off by one.".to_string()));
    assert_eq!(embed.color, Some(0x89B4FA));
}

#[test]
fn released() {
    let ev = event(EventPayload::Release(ReleasePayload {
        action: ReleaseAction::Released,
        release: Fragment {
            entries: vec![
                string_entry("name", "v1.2.0"),
                string_entry(
                    "html_url",
                    "https://github.com/catppuccin/rockdove/releases/tag/v1.2.0",
                ),
                string_entry("body", "Adds the frappe flavor."),
            ],
        },
    }));
    let embed = built(&ev);
    assert_eq!(embed.title, "[catppuccin/rockdove] New release published: v1.2.0");
    assert_eq!(
        embed.url,
        "https://github.com/catppuccin/rockdove/releases/tag/v1.2.0"
    );
    assert_eq!(embed.description, Some("Adds the frappe flavor.".to_string()));
    assert_eq!(embed.color, Some(0xCBA6F7));
}
