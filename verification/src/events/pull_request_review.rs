//! Extractor for `pull_request_review` events: submitted reviews that
//! approve, request changes, or comment.
use vstd::prelude::*;

use crate::colors;
use crate::embed_builder::{
    limited, BuilderView, EmbedBuilder, MAX_DESCRIPTION_LENGTH, MAX_TITLE_LENGTH,
};
use crate::errors::{ErrorView, RockdoveError, RockdoveResult};
use crate::events::partial_view;
use crate::model::{
    repo_display_name, Event, EventKind, EventView, PullRequestReviewPayload,
    PullRequestReviewPayloadView, ReviewAction, ReviewState,
};
use crate::text::{dec_str, u64_to_dec};

verus! {

/// The verb a review verdict reads as.
pub open spec fn state_verb(state: ReviewState) -> Seq<char>
    recommends
        !(state is Other),
{
    match state {
        ReviewState::Approved => "approved"@,
        ReviewState::ChangesRequested => "changes requested"@,
        ReviewState::Commented => "reviewed"@,
        ReviewState::Other => Seq::empty(),
    }
}

/// What this extractor yields: for a submitted review with a known verdict,
/// a builder holding `[name] Pull request <verb>: #<number> <title>` in the
/// pull-request color, with the review body as description when present;
/// reviews with any other verdict are ignored.
pub open spec fn expected(ev: EventView, p: PullRequestReviewPayloadView) -> Result<
    Option<BuilderView>,
    ErrorView,
> {
    if !(p.action is Submitted) {
        Ok(None)
    } else {
        match ev.repository {
            None => Err(
                ErrorView::MissingField {
                    event_type: EventKind::PullRequestReview,
                    field: "repository"@,
                },
            ),
            Some(repo) => match p.review.state {
                None => Err(
                    ErrorView::MissingField {
                        event_type: EventKind::PullRequestReview,
                        field: "review.state"@,
                    },
                ),
                Some(state) => if state is Other {
                    Ok(None)
                } else {
                    match p.pull_request.title {
                        None => Err(
                            ErrorView::MissingField {
                                event_type: EventKind::PullRequestReview,
                                field: "pull_request.title"@,
                            },
                        ),
                        Some(pr_title) => Ok(
                            Some(
                                BuilderView {
                                    title: Some(
                                        limited(
                                            "["@ + repo_display_name(repo) + "] Pull request "@
                                                + state_verb(state) + ": #"@ + dec_str(
                                                p.pull_request.number as nat,
                                            ) + " "@ + pr_title,
                                            MAX_TITLE_LENGTH as int,
                                        ),
                                    ),
                                    url: Some(p.review.html_url),
                                    author: None,
                                    description: match p.review.body {
                                        Some(body) => Some(
                                            limited(body, MAX_DESCRIPTION_LENGTH as int),
                                        ),
                                        None => None,
                                    },
                                    color: Some(colors::PULL_REQUEST_COLOR),
                                },
                            ),
                        ),
                    }
                },
            },
        }
    }
}

/// Maps a `pull_request_review` event to its notification.
pub fn make_pull_request_review_embed(event: &Event, specifics: &PullRequestReviewPayload) -> (r:
    RockdoveResult<Option<EmbedBuilder>>)
    ensures
        partial_view(r) == expected(event@, specifics@),
{
    if !matches!(specifics.action, ReviewAction::Submitted) {
        return Ok(None);
    }
    let repo = match &event.repository {
        None => {
            return Err(
                RockdoveError::MissingField {
                    event_type: EventKind::PullRequestReview,
                    field: "repository",
                },
            );
        },
        Some(r) => r,
    };
    let state = match specifics.review.state {
        None => {
            return Err(
                RockdoveError::MissingField {
                    event_type: EventKind::PullRequestReview,
                    field: "review.state",
                },
            );
        },
        Some(s) => s,
    };
    let verb_text: &str = match state {
        ReviewState::Approved => "approved",
        ReviewState::ChangesRequested => "changes requested",
        ReviewState::Commented => "reviewed",
        ReviewState::Other => {
            return Ok(None);
        },
    };
    let pr_title = match &specifics.pull_request.title {
        None => {
            return Err(
                RockdoveError::MissingField {
                    event_type: EventKind::PullRequestReview,
                    field: "pull_request.title",
                },
            );
        },
        Some(t) => t,
    };
    let mut embed = EmbedBuilder::default();
    let repo_name = match &repo.full_name {
        Some(f) => f,
        None => &repo.name,
    };
    let mut title = "[".to_owned();
    title.append(repo_name.as_str());
    title.append("] Pull request ");
    title.append(verb_text);
    title.append(": #");
    let number = u64_to_dec(specifics.pull_request.number);
    title.append(number.as_str());
    title.append(" ");
    title.append(pr_title.as_str());
    embed.title(title.as_str());
    embed.url(specifics.review.html_url.as_str());
    if let Some(body) = &specifics.review.body {
        embed.description(body.as_str());
    }
    embed.color(colors::pull_request_rgb());
    proof {
        assert(title@ =~= "["@ + repo_display_name(event@.repository->Some_0) + "] Pull request "@
            + state_verb(specifics@.review.state->Some_0) + ": #"@ + dec_str(
            specifics@.pull_request.number as nat,
        ) + " "@ + specifics@.pull_request.title->Some_0);
        assert(partial_view(Ok::<Option<EmbedBuilder>, RockdoveError>(Some(embed)))->Ok_0->Some_0
            =~~= expected(event@, specifics@)->Ok_0->Some_0);
    }
    Ok(Some(embed))
}

} // verus!
