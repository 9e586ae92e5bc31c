//! Extractor for `pull_request` events: opened, closed or merged, reopened,
//! assigned, locked, readied and review-requested pull requests.
use vstd::prelude::*;

use crate::colors;
use crate::embed_builder::{
    limited, BuilderView, EmbedBuilder, MAX_DESCRIPTION_LENGTH, MAX_TITLE_LENGTH,
};
use crate::errors::{ErrorView, RockdoveError, RockdoveResult};
use crate::events::partial_view;
use crate::model::{
    repo_display_name, Event, EventKind, EventView, PullRequestAction, PullRequestPayload,
    PullRequestPayloadView,
};
use crate::text::{dec_str, str_eq, u64_to_dec};

verus! {

/// The actions this extractor handles; everything else is ignored.
pub open spec fn handled_action(action: PullRequestAction) -> bool {
    match action {
        PullRequestAction::Other => false,
        _ => true,
    }
}

/// The one repository whose review requests are silently ignored: a monorepo
/// with code owners, whose review requests would be nothing but noise.
pub open spec fn exempt_repo() -> Seq<char> {
    "userstyles"@
}

/// The verb of the title, or the first missing field it needs. A closed pull
/// request with a merge timestamp reads as merged; a review request names
/// the user and the team the review was requested from.
pub open spec fn verb(p: PullRequestPayloadView) -> Result<Seq<char>, ErrorView>
    recommends
        handled_action(p.action),
{
    match p.action {
        PullRequestAction::Assigned => match p.assignee {
            None => Err(
                ErrorView::MissingField { event_type: EventKind::PullRequest, field: "assignee"@ },
            ),
            Some(assignee) => Ok("assigned to "@ + assignee.login),
        },
        PullRequestAction::Closed => if p.pull_request.merged {
            Ok("merged"@)
        } else {
            Ok("closed"@)
        },
        PullRequestAction::Locked => Ok("locked"@),
        PullRequestAction::Opened => Ok("opened"@),
        PullRequestAction::ReadyForReview => Ok("ready for review"@),
        PullRequestAction::Reopened => Ok("reopened"@),
        PullRequestAction::ReviewRequested => match (p.requested_reviewer, p.requested_team) {
            (None, None) => Err(
                ErrorView::MissingField {
                    event_type: EventKind::PullRequest,
                    field: "(requested_reviewer|requested_team)"@,
                },
            ),
            (Some(user), None) => Ok("review requested from "@ + user.login),
            (None, Some(team)) => Ok("review requested from "@ + team.name),
            (Some(user), Some(team)) => Ok(
                "review requested from "@ + user.login + ", "@ + team.name,
            ),
        },
        PullRequestAction::Other => Ok(Seq::empty()),
    }
}

/// What this extractor yields: a builder holding
/// `[name] Pull request <verb>: #<number> <title>` in the pull-request
/// color, with the body as description when the pull request was opened; a
/// review request on the exempt repository is ignored.
pub open spec fn expected(ev: EventView, p: PullRequestPayloadView) -> Result<
    Option<BuilderView>,
    ErrorView,
> {
    if !handled_action(p.action) {
        Ok(None)
    } else {
        match ev.repository {
            None => Err(
                ErrorView::MissingField {
                    event_type: EventKind::PullRequest,
                    field: "repository"@,
                },
            ),
            Some(repo) => if p.action is ReviewRequested && repo.name == exempt_repo() {
                Ok(None)
            } else {
                match verb(p) {
                    Err(e) => Err(e),
                    Ok(v) => match p.pull_request.title {
                        None => Err(
                            ErrorView::MissingField {
                                event_type: EventKind::PullRequest,
                                field: "pull_request.title"@,
                            },
                        ),
                        Some(pr_title) => match p.pull_request.html_url {
                            None => Err(
                                ErrorView::MissingField {
                                    event_type: EventKind::PullRequest,
                                    field: "pull_request.html_url"@,
                                },
                            ),
                            Some(url) => Ok(
                                Some(
                                    BuilderView {
                                        title: Some(
                                            limited(
                                                "["@ + repo_display_name(repo) + "] Pull request "@
                                                    + v + ": #"@ + dec_str(p.number as nat) + " "@
                                                    + pr_title,
                                                MAX_TITLE_LENGTH as int,
                                            ),
                                        ),
                                        url: Some(url),
                                        author: None,
                                        description: if p.action is Opened && p.pull_request.body
                                            is Some {
                                            Some(
                                                limited(
                                                    p.pull_request.body->Some_0,
                                                    MAX_DESCRIPTION_LENGTH as int,
                                                ),
                                            )
                                        } else {
                                            None
                                        },
                                        color: Some(colors::PULL_REQUEST_COLOR),
                                    },
                                ),
                            ),
                        },
                    },
                }
            },
        }
    }
}

/// Maps a `pull_request` event to its notification.
pub fn make_embed(event: &Event, specifics: &PullRequestPayload) -> (r: RockdoveResult<
    Option<EmbedBuilder>,
>)
    ensures
        partial_view(r) == expected(event@, specifics@),
{
    if matches!(specifics.action, PullRequestAction::Other) {
        return Ok(None);
    }
    let repo = match &event.repository {
        None => {
            return Err(
                RockdoveError::MissingField {
                    event_type: EventKind::PullRequest,
                    field: "repository",
                },
            );
        },
        Some(r) => r,
    };
    let verb_text: String = match specifics.action {
        PullRequestAction::Assigned => {
            let assignee = match &specifics.assignee {
                None => {
                    return Err(
                        RockdoveError::MissingField {
                            event_type: EventKind::PullRequest,
                            field: "assignee",
                        },
                    );
                },
                Some(a) => a,
            };
            let mut v = "assigned to ".to_owned();
            v.append(assignee.login.as_str());
            v
        },
        PullRequestAction::Closed => {
            if specifics.pull_request.merged {
                "merged".to_owned()
            } else {
                "closed".to_owned()
            }
        },
        PullRequestAction::Locked => "locked".to_owned(),
        PullRequestAction::Opened => "opened".to_owned(),
        PullRequestAction::ReadyForReview => "ready for review".to_owned(),
        PullRequestAction::Reopened => "reopened".to_owned(),
        PullRequestAction::ReviewRequested => {
            if str_eq(repo.name.as_str(), "userstyles") {
                return Ok(None);
            }
            let mut v = "review requested from ".to_owned();
            match (&specifics.requested_reviewer, &specifics.requested_team) {
                (None, None) => {
                    return Err(
                        RockdoveError::MissingField {
                            event_type: EventKind::PullRequest,
                            field: "(requested_reviewer|requested_team)",
                        },
                    );
                },
                (Some(user), None) => {
                    v.append(user.login.as_str());
                },
                (None, Some(team)) => {
                    v.append(team.name.as_str());
                },
                (Some(user), Some(team)) => {
                    v.append(user.login.as_str());
                    v.append(", ");
                    v.append(team.name.as_str());
                },
            }
            v
        },
        PullRequestAction::Other => {
            return Ok(None);
        },
    };
    let pr_title = match &specifics.pull_request.title {
        None => {
            return Err(
                RockdoveError::MissingField {
                    event_type: EventKind::PullRequest,
                    field: "pull_request.title",
                },
            );
        },
        Some(t) => t,
    };
    let mut embed = EmbedBuilder::default();
    let repo_name = match &repo.full_name {
        Some(f) => f,
        None => &repo.name,
    };
    let mut title = "[".to_owned();
    title.append(repo_name.as_str());
    title.append("] Pull request ");
    title.append(verb_text.as_str());
    title.append(": #");
    let number = u64_to_dec(specifics.number);
    title.append(number.as_str());
    title.append(" ");
    title.append(pr_title.as_str());
    embed.title(title.as_str());
    let url = match &specifics.pull_request.html_url {
        None => {
            return Err(
                RockdoveError::MissingField {
                    event_type: EventKind::PullRequest,
                    field: "pull_request.html_url",
                },
            );
        },
        Some(u) => u,
    };
    embed.url(url.as_str());
    if matches!(specifics.action, PullRequestAction::Opened) {
        if let Some(body) = &specifics.pull_request.body {
            embed.description(body.as_str());
        }
    }
    embed.color(colors::pull_request_rgb());
    proof {
        assert(title@ =~= "["@ + repo_display_name(event@.repository->Some_0) + "] Pull request "@
            + verb(specifics@)->Ok_0 + ": #"@ + dec_str(specifics@.number as nat) + " "@
            + specifics@.pull_request.title->Some_0);
        assert(partial_view(Ok::<Option<EmbedBuilder>, RockdoveError>(Some(embed)))->Ok_0->Some_0
            =~~= expected(event@, specifics@)->Ok_0->Some_0);
    }
    Ok(Some(embed))
}

} // verus!
