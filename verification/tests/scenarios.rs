//! Scenario tests for the mapping engine and the routing policy: the
//! round-trip of a typical pull request, the special title verbs, the
//! length limits at their boundaries, and each error.
use rockdove::colors;
use rockdove::default_port;
use rockdove::embed_builder::{self, EmbedBuilder};
use rockdove::errors::{error_embed, RockdoveError};
use rockdove::events::make_embed;
use rockdove::model::{
    AccountKind, Author, CommitComment, CommitCommentPayload, Event, EventKind, EventPayload,
    Fragment, FragmentEntry, Issue, IssueStateReason, IssuesAction, IssuesPayload, JsonText,
    MembershipAction, MembershipPayload, OwnerChange, PullRequestAction, PullRequestInfo,
    PullRequestPayload, Repository, RepositoryAction, RepositoryChanges, RepositoryNameChange,
    RepositoryPayload,
};
use rockdove::routing::{hook_target, HookTarget};

fn author(login: &str, kind: AccountKind) -> Author {
    Author {
        login: login.to_string(),
        html_url: format!("https://github.com/{}", login),
        avatar_url: format!("https://avatars.githubusercontent.com/{}", login),
        kind,
    }
}

fn repo() -> Repository {
    Repository {
        name: "repo".to_string(),
        full_name: Some("org/repo".to_string()),
        html_url: Some("https://github.com/org/repo".to_string()),
        owner: Some(author("org", AccountKind::User)),
        private: Some(false),
    }
}

fn event(specific: EventPayload) -> Event {
    Event {
        sender: Some(author("lavender", AccountKind::User)),
        repository: Some(repo()),
        organization: None,
        specific,
    }
}

fn string_entry(key: &str, value: &str) -> FragmentEntry {
    FragmentEntry {
        key: key.to_string(),
        value: JsonText { raw: format!("\"{}\"", value), text: Some(value.to_string()) },
    }
}

fn commit_comment_event(body: &str) -> Event {
    event(EventPayload::CommitComment(CommitCommentPayload {
        comment: CommitComment {
            commit_id: "4a2b9e8".to_string(),
            html_url: "https://github.com/org/repo/commit/4a2b9e8#commitcomment-1".to_string(),
            body: Some(body.to_string()),
        },
    }))
}

fn pull_request_opened(title: Option<&str>, body: Option<&str>) -> Event {
    event(EventPayload::PullRequest(PullRequestPayload {
        action: PullRequestAction::Opened,
        number: 1,
        pull_request: PullRequestInfo {
            title: title.map(|t| t.to_string()),
            html_url: Some("https://github.com/org/repo/pull/1".to_string()),
            body: body.map(|b| b.to_string()),
            merged: false,
        },
        assignee: None,
        requested_reviewer: None,
        requested_team: None,
    }))
}

fn issue(number: u64, title: &str) -> Issue {
    Issue {
        number,
        title: title.to_string(),
        html_url: format!("https://github.com/org/repo/issues/{}", number),
        body: None,
        assignee: None,
        state_reason: None,
        is_pull_request: false,
    }
}

#[test]
fn round_trip_pull_request_opened() {
    let ev = pull_request_opened(Some("chore: Configure Renovate"), Some("Add renovate.json"));
    assert_eq!(hook_target(&ev), HookTarget::Normal);
    let embed = make_embed(&ev)
        .expect("make_embed should succeed")
        .expect("the pull request maps to an embed");
    assert_eq!(
        embed.title,
        "[org/repo] Pull request opened: #1 chore: Configure Renovate"
    );
    assert_eq!(embed.url, "https://github.com/org/repo/pull/1");
    assert_eq!(embed.description, Some("Add renovate.json".to_string()));
    assert_eq!(embed.color, Some(0x89B4FA));
    assert_eq!(embed.author.name, "lavender");
    assert_eq!(embed.author.url, "https://github.com/lavender");
}

#[test]
fn round_trip_pull_request_opened_without_body() {
    let ev = pull_request_opened(Some("chore: Configure Renovate"), None);
    let embed = make_embed(&ev)
        .expect("make_embed should succeed")
        .expect("the pull request maps to an embed");
    assert_eq!(embed.description, None);
}

#[test]
fn issue_closed_as_not_planned() {
    let mut closed = issue(12, "Old feature request");
    closed.state_reason = Some(IssueStateReason::NotPlanned);
    let ev = event(EventPayload::Issues(IssuesPayload { action: IssuesAction::Closed, issue: closed }));
    let embed = make_embed(&ev)
        .expect("make_embed should succeed")
        .expect("the issue maps to an embed");
    assert_eq!(
        embed.title,
        "[org/repo] Issue closed as not planned: #12 Old feature request"
    );
}

#[test]
fn issue_body_becomes_the_description_only_when_opened() {
    let mut opened = issue(20, "A fresh issue");
    opened.body = Some("Steps to reproduce".to_string());
    let ev = event(EventPayload::Issues(IssuesPayload {
        action: IssuesAction::Opened,
        issue: opened.clone(),
    }));
    let embed = make_embed(&ev).unwrap().unwrap();
    assert_eq!(embed.title, "[org/repo] Issue opened: #20 A fresh issue");
    assert_eq!(embed.description, Some("Steps to reproduce".to_string()));
    assert_eq!(embed.color, Some(0xA6E3A1));

    let ev = event(EventPayload::Issues(IssuesPayload {
        action: IssuesAction::Closed,
        issue: opened,
    }));
    let embed = make_embed(&ev).unwrap().unwrap();
    assert_eq!(embed.description, None);
}

#[test]
fn issue_closed_as_duplicate() {
    let mut closed = issue(13, "Seen before");
    closed.state_reason = Some(IssueStateReason::Duplicate);
    let ev = event(EventPayload::Issues(IssuesPayload { action: IssuesAction::Closed, issue: closed }));
    let embed = make_embed(&ev).unwrap().unwrap();
    assert_eq!(embed.title, "[org/repo] Issue closed as duplicate: #13 Seen before");
}

#[test]
fn issue_assigned_names_the_assignee() {
    let mut assigned = issue(14, "Needs an owner");
    assigned.assignee = Some(author("alice", AccountKind::User));
    let ev = event(EventPayload::Issues(IssuesPayload {
        action: IssuesAction::Assigned,
        issue: assigned,
    }));
    let embed = make_embed(&ev).unwrap().unwrap();
    assert_eq!(embed.title, "[org/repo] Issue assigned to alice: #14 Needs an owner");
}

#[test]
fn issue_assigned_without_assignee_is_an_error() {
    let ev = event(EventPayload::Issues(IssuesPayload {
        action: IssuesAction::Assigned,
        issue: issue(14, "Needs an owner"),
    }));
    assert_eq!(
        make_embed(&ev),
        Err(RockdoveError::MissingField { event_type: EventKind::Issues, field: "issue.assignee" })
    );
}

#[test]
fn membership_removed() {
    let ev = Event {
        sender: Some(author("lavender", AccountKind::User)),
        repository: None,
        organization: Some("acme".to_string()),
        specific: EventPayload::Membership(MembershipPayload {
            action: MembershipAction::Removed,
            team: Fragment {
                entries: vec![
                    string_entry("name", "staff"),
                    string_entry("html_url", "https://github.com/orgs/acme/teams/staff"),
                ],
            },
            member: Fragment { entries: vec![string_entry("login", "alice")] },
        }),
    };
    let embed = make_embed(&ev)
        .expect("make_embed should succeed")
        .expect("the membership change maps to an embed");
    assert_eq!(embed.title, "[acme] alice removed from staff team");
    assert_eq!(embed.url, "https://github.com/orgs/acme/teams/staff");
    assert_eq!(embed.color, Some(0x1E1E2E));
}

#[test]
fn membership_without_organization_is_ignored() {
    let ev = Event {
        sender: Some(author("lavender", AccountKind::User)),
        repository: None,
        organization: None,
        specific: EventPayload::Membership(MembershipPayload {
            action: MembershipAction::Added,
            team: Fragment { entries: vec![string_entry("name", "staff")] },
            member: Fragment { entries: vec![string_entry("login", "alice")] },
        }),
    };
    assert_eq!(make_embed(&ev), Ok(None));
}

#[test]
fn repository_deleted_uses_the_red_color() {
    let ev = event(EventPayload::Repository(RepositoryPayload {
        action: RepositoryAction::Deleted,
        changes: None,
    }));
    let embed = make_embed(&ev).unwrap().unwrap();
    assert_eq!(embed.title, "[org/repo] Repository deleted");
    assert_eq!(embed.color, Some(0xF38BA8));
    assert_ne!(embed.color, Some(colors::REPO_COLOR));
}

#[test]
fn repository_created_uses_the_repo_color() {
    let ev = event(EventPayload::Repository(RepositoryPayload {
        action: RepositoryAction::Created,
        changes: None,
    }));
    let embed = make_embed(&ev).unwrap().unwrap();
    assert_eq!(embed.title, "[org/repo] Repository created");
    assert_eq!(embed.color, Some(0xF9E2AF));
}

#[test]
fn repository_renamed_names_both_names() {
    let ev = event(EventPayload::Repository(RepositoryPayload {
        action: RepositoryAction::Renamed,
        changes: Some(RepositoryChanges {
            repository: Some(RepositoryNameChange { name: Some("old-repo".to_string()) }),
            owner: None,
        }),
    }));
    let embed = make_embed(&ev).unwrap().unwrap();
    assert_eq!(embed.title, "[org/repo] Repository renamed from old-repo to repo");
}

#[test]
fn repository_transferred_names_both_owners() {
    let ev = event(EventPayload::Repository(RepositoryPayload {
        action: RepositoryAction::Transferred,
        changes: Some(RepositoryChanges {
            repository: None,
            owner: Some(OwnerChange { user_login: "alice".to_string() }),
        }),
    }));
    let embed = make_embed(&ev).unwrap().unwrap();
    assert_eq!(embed.title, "[org/repo] Repository transferred from alice to org");
    assert_eq!(embed.color, Some(0xF5C2E7));
}

#[test]
fn repository_renamed_without_changes_is_an_error() {
    let ev = event(EventPayload::Repository(RepositoryPayload {
        action: RepositoryAction::Renamed,
        changes: None,
    }));
    assert_eq!(
        make_embed(&ev),
        Err(RockdoveError::MissingField { event_type: EventKind::Repository, field: "changes" })
    );
}

#[test]
fn description_of_641_bytes_truncates_to_640() {
    let body = "a".repeat(641);
    let embed = make_embed(&commit_comment_event(&body)).unwrap().unwrap();
    let description = embed.description.expect("the comment body becomes the description");
    assert_eq!(description.len(), 640);
    let expected = format!("{}...", "a".repeat(637));
    assert_eq!(description, expected);
}

#[test]
fn description_of_640_bytes_passes_through() {
    let body = "a".repeat(640);
    let embed = make_embed(&commit_comment_event(&body)).unwrap().unwrap();
    assert_eq!(embed.description, Some(body));
}

#[test]
fn title_over_100_characters_truncates() {
    let long = "t".repeat(200);
    let ev = pull_request_opened(Some(&long), None);
    let embed = make_embed(&ev).unwrap().unwrap();
    assert_eq!(embed.title.len(), 100);
    assert!(embed.title.ends_with("..."));
    assert!(embed.title.starts_with("[org/repo] Pull request opened: #1 t"));
}

#[test]
fn author_name_over_256_characters_truncates() {
    let login = "l".repeat(300);
    let mut ev = pull_request_opened(Some("short"), None);
    ev.sender = Some(author(&login, AccountKind::User));
    let embed = make_embed(&ev).unwrap().unwrap();
    assert_eq!(embed.author.name.len(), 256);
    assert!(embed.author.name.ends_with("..."));
    assert!(embed.author.name.starts_with("lll"));
}

#[test]
fn missing_pull_request_title_is_an_error() {
    let ev = pull_request_opened(None, None);
    assert_eq!(
        make_embed(&ev),
        Err(RockdoveError::MissingField {
            event_type: EventKind::PullRequest,
            field: "pull_request.title",
        })
    );
}

#[test]
fn missing_sender_is_an_error() {
    let mut ev = pull_request_opened(Some("short"), None);
    ev.sender = None;
    assert_eq!(
        make_embed(&ev),
        Err(RockdoveError::MissingField { event_type: EventKind::PullRequest, field: "sender" })
    );
}

#[test]
fn missing_repository_is_an_error() {
    let mut ev = commit_comment_event("body");
    ev.repository = None;
    assert_eq!(
        make_embed(&ev),
        Err(RockdoveError::MissingField {
            event_type: EventKind::CommitComment,
            field: "repository",
        })
    );
}

#[test]
fn non_string_discussion_title_is_an_invalid_field() {
    let ev = event(EventPayload::Discussion(rockdove::model::DiscussionPayload {
        action: rockdove::model::DiscussionAction::Created,
        discussion: Fragment {
            entries: vec![
                FragmentEntry {
                    key: "number".to_string(),
                    value: JsonText { raw: "42".to_string(), text: None },
                },
                FragmentEntry {
                    key: "title".to_string(),
                    value: JsonText { raw: "17".to_string(), text: None },
                },
            ],
        },
    }));
    assert_eq!(
        make_embed(&ev),
        Err(RockdoveError::InvalidField {
            event_type: EventKind::Discussion,
            field: "discussion.title",
        })
    );
}

#[test]
fn release_without_a_string_name_uses_the_placeholder() {
    let ev = event(EventPayload::Release(rockdove::model::ReleasePayload {
        action: rockdove::model::ReleaseAction::Released,
        release: Fragment {
            entries: vec![string_entry(
                "html_url",
                "https://github.com/org/repo/releases/tag/v2",
            )],
        },
    }));
    let embed = make_embed(&ev).unwrap().unwrap();
    assert_eq!(embed.title, "[org/repo] New release published: *no name*");
}

#[test]
fn unhandled_actions_are_ignored() {
    let cases = vec![
        EventPayload::Repository(RepositoryPayload {
            action: RepositoryAction::Other,
            changes: None,
        }),
        EventPayload::Issues(IssuesPayload {
            action: IssuesAction::Other,
            issue: issue(1, "ignored"),
        }),
        EventPayload::PullRequest(PullRequestPayload {
            action: PullRequestAction::Other,
            number: 1,
            pull_request: PullRequestInfo { title: None, html_url: None, body: None, merged: false },
            assignee: None,
            requested_reviewer: None,
            requested_team: None,
        }),
        EventPayload::Membership(MembershipPayload {
            action: MembershipAction::Other,
            team: Fragment { entries: vec![] },
            member: Fragment { entries: vec![] },
        }),
        EventPayload::Other,
    ];
    for specific in cases {
        let mut ev = event(specific);
        // Even without a repository an unhandled action is ignored, not an
        // error.
        ev.repository = None;
        assert_eq!(make_embed(&ev), Ok(None));
    }
}

#[test]
fn dispatch_twice_yields_identical_output() {
    let ev = pull_request_opened(Some("chore: Configure Renovate"), Some("Add renovate.json"));
    assert_eq!(make_embed(&ev), make_embed(&ev));
    let failing = pull_request_opened(None, None);
    assert_eq!(make_embed(&failing), make_embed(&failing));
}

#[test]
fn bot_sender_always_routes_to_bot() {
    let mut ev = pull_request_opened(Some("short"), None);
    ev.sender = Some(author("renovate[bot]", AccountKind::Bot));
    ev.repository = Some(Repository {
        name: "userstyles".to_string(),
        full_name: Some("org/userstyles".to_string()),
        html_url: None,
        owner: None,
        private: Some(true),
    });
    assert_eq!(hook_target(&ev), HookTarget::Bot);
}

#[test]
fn userstyles_routes_to_its_own_channel() {
    let mut ev = pull_request_opened(Some("short"), None);
    ev.repository = Some(Repository {
        name: "userstyles".to_string(),
        full_name: Some("org/userstyles".to_string()),
        html_url: None,
        owner: None,
        private: Some(true),
    });
    assert_eq!(hook_target(&ev), HookTarget::Userstyles);
}

#[test]
fn private_repository_is_suppressed() {
    let mut ev = pull_request_opened(Some("short"), None);
    ev.repository = Some(Repository {
        name: "secret".to_string(),
        full_name: Some("org/secret".to_string()),
        html_url: None,
        owner: None,
        private: Some(true),
    });
    assert_eq!(hook_target(&ev), HookTarget::Suppressed);
}

#[test]
fn public_repository_routes_to_normal() {
    let ev = pull_request_opened(Some("short"), None);
    assert_eq!(hook_target(&ev), HookTarget::Normal);
}

#[test]
fn builder_reports_the_first_missing_field() {
    let embed = EmbedBuilder::default();
    assert_eq!(embed.try_build(), Err(embed_builder::Error::Title));
    let mut embed = EmbedBuilder::default();
    embed.title("a title");
    assert_eq!(embed.try_build(), Err(embed_builder::Error::Url));
    let mut embed = EmbedBuilder::default();
    embed.title("a title");
    embed.url("https://example.com/");
    assert_eq!(embed.try_build(), Err(embed_builder::Error::Author));
}

#[test]
fn error_message_names_the_kind_and_field() {
    let error = RockdoveError::MissingField {
        event_type: EventKind::PullRequest,
        field: "pull_request.title",
    };
    assert_eq!(
        error.message(),
        "missing field in event: PullRequest::pull_request.title"
    );
    let invalid = RockdoveError::InvalidField {
        event_type: EventKind::Discussion,
        field: "discussion.title",
    };
    assert_eq!(
        invalid.message(),
        "invalid field in event: Discussion::discussion.title"
    );
    let builder = RockdoveError::EmbedBuilder(embed_builder::Error::Author);
    assert_eq!(builder.message(), "missing author");
}

#[test]
fn error_embed_reports_in_red() {
    let error = RockdoveError::MissingField {
        event_type: EventKind::CommitComment,
        field: "comment.body",
    };
    let embed = error_embed(&error);
    assert_eq!(embed.title, "Error");
    assert_eq!(embed.url, "https://goudham.com/");
    assert_eq!(embed.color, Some(0xF38BA8));
    assert_eq!(embed.author.name, "sgoudham");
    assert_eq!(
        embed.description,
        Some("missing field in event: CommitComment::comment.body".to_string())
    );
}

#[test]
fn short_repository_name_is_used_when_the_full_name_is_absent() {
    let mut ev = commit_comment_event("body");
    ev.repository = Some(Repository {
        name: "repo".to_string(),
        full_name: None,
        html_url: None,
        owner: None,
        private: None,
    });
    let embed = make_embed(&ev).unwrap().unwrap();
    assert_eq!(embed.title, "[repo] New comment on commit 4a2b9e8");
}

#[test]
fn default_port_is_3000() {
    assert_eq!(default_port(), 3000);
}
