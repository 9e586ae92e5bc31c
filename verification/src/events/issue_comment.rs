//! Extractor for `issue_comment` events: new comments on issues and on pull
//! requests, told apart by the pull-request marker on the issue.
use vstd::prelude::*;

use crate::colors;
use crate::embed_builder::{
    limited, BuilderView, EmbedBuilder, MAX_DESCRIPTION_LENGTH, MAX_TITLE_LENGTH,
};
use crate::errors::{ErrorView, RockdoveError, RockdoveResult};
use crate::events::partial_view;
use crate::model::{
    repo_display_name, Event, EventKind, EventView, IssueCommentAction, IssueCommentPayload,
    IssueCommentPayloadView,
};
use crate::text::{dec_str, u64_to_dec};

verus! {

/// The word naming what the comment sits on.
pub open spec fn target_word(is_pull_request: bool) -> Seq<char> {
    if is_pull_request {
        "pull request"@
    } else {
        "issue"@
    }
}

/// What this extractor yields: for a created comment, a builder holding
/// `[name] New comment on {issue|pull request} #<number>: <title>`, colored
/// as an issue or as a pull request to match the comment's target.
pub open spec fn expected(ev: EventView, p: IssueCommentPayloadView) -> Result<
    Option<BuilderView>,
    ErrorView,
> {
    if !(p.action is Created) {
        Ok(None)
    } else {
        match ev.repository {
            None => Err(
                ErrorView::MissingField {
                    event_type: EventKind::IssueComment,
                    field: "repository"@,
                },
            ),
            Some(repo) => Ok(
                Some(
                    BuilderView {
                        title: Some(
                            limited(
                                "["@ + repo_display_name(repo) + "] New comment on "@ + target_word(
                                    p.issue.is_pull_request,
                                ) + " #"@ + dec_str(p.issue.number as nat) + ": "@ + p.issue.title,
                                MAX_TITLE_LENGTH as int,
                            ),
                        ),
                        url: Some(p.comment.html_url),
                        author: None,
                        description: match p.comment.body {
                            Some(body) => Some(limited(body, MAX_DESCRIPTION_LENGTH as int)),
                            None => None,
                        },
                        color: Some(
                            if p.issue.is_pull_request {
                                colors::PULL_REQUEST_COLOR
                            } else {
                                colors::ISSUE_COLOR
                            },
                        ),
                    },
                ),
            ),
        }
    }
}

/// Maps an `issue_comment` event to its notification.
pub fn make_issue_comment_embed(event: &Event, specifics: &IssueCommentPayload) -> (r:
    RockdoveResult<Option<EmbedBuilder>>)
    ensures
        partial_view(r) == expected(event@, specifics@),
{
    if !matches!(specifics.action, IssueCommentAction::Created) {
        return Ok(None);
    }
    let repo = match &event.repository {
        None => {
            return Err(
                RockdoveError::MissingField {
                    event_type: EventKind::IssueComment,
                    field: "repository",
                },
            );
        },
        Some(r) => r,
    };
    let mut embed = EmbedBuilder::default();
    let repo_name = match &repo.full_name {
        Some(f) => f,
        None => &repo.name,
    };
    let target: &str = if specifics.issue.is_pull_request {
        "pull request"
    } else {
        "issue"
    };
    let mut title = "[".to_owned();
    title.append(repo_name.as_str());
    title.append("] New comment on ");
    title.append(target);
    title.append(" #");
    let number = u64_to_dec(specifics.issue.number);
    title.append(number.as_str());
    title.append(": ");
    title.append(specifics.issue.title.as_str());
    embed.title(title.as_str());
    embed.url(specifics.comment.html_url.as_str());
    if let Some(body) = &specifics.comment.body {
        embed.description(body.as_str());
    }
    let rgb = if specifics.issue.is_pull_request {
        colors::pull_request_rgb()
    } else {
        colors::issue_rgb()
    };
    embed.color(rgb);
    proof {
        assert(title@ =~= "["@ + repo_display_name(event@.repository->Some_0)
            + "] New comment on "@ + target_word(specifics@.issue.is_pull_request) + " #"@
            + dec_str(specifics@.issue.number as nat) + ": "@ + specifics@.issue.title);
        assert(partial_view(Ok::<Option<EmbedBuilder>, RockdoveError>(Some(embed)))->Ok_0->Some_0
            =~~= expected(event@, specifics@)->Ok_0->Some_0);
    }
    Ok(Some(embed))
}

} // verus!
