//! Extractor for `pull_request_review_comment` events: new review comments
//! on a pull request.
use vstd::prelude::*;

use crate::colors;
use crate::embed_builder::{
    limited, BuilderView, EmbedBuilder, MAX_DESCRIPTION_LENGTH, MAX_TITLE_LENGTH,
};
use crate::errors::{ErrorView, RockdoveError, RockdoveResult};
use crate::events::partial_view;
use crate::model::{
    repo_display_name, Event, EventKind, EventView, ReviewCommentAction, ReviewCommentPayload,
    ReviewCommentPayloadView,
};
use crate::text::{dec_str, u64_to_dec};

verus! {

/// What this extractor yields: for a created review comment, a builder
/// holding `[name] New review comment on pull request #<number>: <title>` in
/// the pull-request color, with the comment body as description.
pub open spec fn expected(ev: EventView, p: ReviewCommentPayloadView) -> Result<
    Option<BuilderView>,
    ErrorView,
> {
    if !(p.action is Created) {
        Ok(None)
    } else {
        match ev.repository {
            None => Err(
                ErrorView::MissingField {
                    event_type: EventKind::PullRequestReviewComment,
                    field: "repository"@,
                },
            ),
            Some(repo) => match p.pull_request.title {
                None => Err(
                    ErrorView::MissingField {
                        event_type: EventKind::PullRequestReviewComment,
                        field: "pull_request.title"@,
                    },
                ),
                Some(pr_title) => Ok(
                    Some(
                        BuilderView {
                            title: Some(
                                limited(
                                    "["@ + repo_display_name(repo)
                                        + "] New review comment on pull request #"@ + dec_str(
                                        p.pull_request.number as nat,
                                    ) + ": "@ + pr_title,
                                    MAX_TITLE_LENGTH as int,
                                ),
                            ),
                            url: Some(p.comment.html_url),
                            author: None,
                            description: Some(
                                limited(p.comment.body, MAX_DESCRIPTION_LENGTH as int),
                            ),
                            color: Some(colors::PULL_REQUEST_COLOR),
                        },
                    ),
                ),
            },
        }
    }
}

/// Maps a `pull_request_review_comment` event to its notification.
pub fn make_embed(event: &Event, specifics: &ReviewCommentPayload) -> (r: RockdoveResult<
    Option<EmbedBuilder>,
>)
    ensures
        partial_view(r) == expected(event@, specifics@),
{
    if !matches!(specifics.action, ReviewCommentAction::Created) {
        return Ok(None);
    }
    let repo = match &event.repository {
        None => {
            return Err(
                RockdoveError::MissingField {
                    event_type: EventKind::PullRequestReviewComment,
                    field: "repository",
                },
            );
        },
        Some(r) => r,
    };
    let pr_title = match &specifics.pull_request.title {
        None => {
            return Err(
                RockdoveError::MissingField {
                    event_type: EventKind::PullRequestReviewComment,
                    field: "pull_request.title",
                },
            );
        },
        Some(t) => t,
    };
    let mut embed = EmbedBuilder::default();
    let repo_name = match &repo.full_name {
        Some(f) => f,
        None => &repo.name,
    };
    let mut title = "[".to_owned();
    title.append(repo_name.as_str());
    title.append("] New review comment on pull request #");
    let number = u64_to_dec(specifics.pull_request.number);
    title.append(number.as_str());
    title.append(": ");
    title.append(pr_title.as_str());
    embed.title(title.as_str());
    embed.url(specifics.comment.html_url.as_str());
    embed.description(specifics.comment.body.as_str());
    embed.color(colors::pull_request_rgb());
    proof {
        assert(title@ =~= "["@ + repo_display_name(event@.repository->Some_0)
            + "] New review comment on pull request #"@ + dec_str(
            specifics@.pull_request.number as nat,
        ) + ": "@ + specifics@.pull_request.title->Some_0);
        assert(partial_view(Ok::<Option<EmbedBuilder>, RockdoveError>(Some(embed)))->Ok_0->Some_0
            =~~= expected(event@, specifics@)->Ok_0->Some_0);
    }
    Ok(Some(embed))
}

} // verus!
