//! Extractor for `discussion_comment` events: new comments on a discussion.
//! Both the discussion and the comment arrive as untyped fragments.
use vstd::prelude::*;

use crate::colors;
use crate::embed_builder::{
    limited, BuilderView, EmbedBuilder, MAX_DESCRIPTION_LENGTH, MAX_TITLE_LENGTH,
};
use crate::errors::{ErrorView, RockdoveError, RockdoveResult};
use crate::events::partial_view;
use crate::model::{
    frag_get, repo_display_name, DiscussionCommentAction, DiscussionCommentPayload,
    DiscussionCommentPayloadView, Event, EventKind, EventView,
};

verus! {

/// What this extractor yields: for a created comment, a builder holding
/// `[name] New comment on discussion #<number>: <title>` in the discussion
/// color, with the comment body — which must be a string — as description.
pub open spec fn expected(ev: EventView, p: DiscussionCommentPayloadView) -> Result<
    Option<BuilderView>,
    ErrorView,
> {
    if !(p.action is Created) {
        Ok(None)
    } else {
        match ev.repository {
            None => Err(
                ErrorView::MissingField {
                    event_type: EventKind::DiscussionComment,
                    field: "repository"@,
                },
            ),
            Some(repo) => match frag_get(p.discussion, "number"@) {
                None => Err(
                    ErrorView::MissingField {
                        event_type: EventKind::DiscussionComment,
                        field: "discussion.number"@,
                    },
                ),
                Some(number) => match frag_get(p.discussion, "title"@) {
                    None => Err(
                        ErrorView::MissingField {
                            event_type: EventKind::DiscussionComment,
                            field: "discussion.title"@,
                        },
                    ),
                    Some(title_value) => match title_value.text {
                        None => Err(
                            ErrorView::InvalidField {
                                event_type: EventKind::DiscussionComment,
                                field: "discussion.title"@,
                            },
                        ),
                        Some(d_title) => match frag_get(p.comment, "html_url"@) {
                            None => Err(
                                ErrorView::MissingField {
                                    event_type: EventKind::DiscussionComment,
                                    field: "comment.html_url"@,
                                },
                            ),
                            Some(url_value) => match url_value.text {
                                None => Err(
                                    ErrorView::InvalidField {
                                        event_type: EventKind::DiscussionComment,
                                        field: "comment.html_url"@,
                                    },
                                ),
                                Some(url) => match frag_get(p.comment, "body"@) {
                                    None => Err(
                                        ErrorView::MissingField {
                                            event_type: EventKind::DiscussionComment,
                                            field: "comment.body"@,
                                        },
                                    ),
                                    Some(body_value) => match body_value.text {
                                        None => Err(
                                            ErrorView::InvalidField {
                                                event_type: EventKind::DiscussionComment,
                                                field: "comment.body"@,
                                            },
                                        ),
                                        Some(body) => Ok(
                                            Some(
                                                BuilderView {
                                                    title: Some(
                                                        limited(
                                                            "["@ + repo_display_name(repo)
                                                                + "] New comment on discussion #"@
                                                                + number.raw + ": "@ + d_title,
                                                            MAX_TITLE_LENGTH as int,
                                                        ),
                                                    ),
                                                    url: Some(url),
                                                    author: None,
                                                    description: Some(
                                                        limited(
                                                            body,
                                                            MAX_DESCRIPTION_LENGTH as int,
                                                        ),
                                                    ),
                                                    color: Some(colors::DISCUSSION_COLOR),
                                                },
                                            ),
                                        ),
                                    },
                                },
                            },
                        },
                    },
                },
            },
        }
    }
}

/// Maps a `discussion_comment` event to its notification.
pub fn make_embed(event: &Event, specifics: &DiscussionCommentPayload) -> (r: RockdoveResult<
    Option<EmbedBuilder>,
>)
    ensures
        partial_view(r) == expected(event@, specifics@),
{
    if !matches!(specifics.action, DiscussionCommentAction::Created) {
        return Ok(None);
    }
    let repo = match &event.repository {
        None => {
            return Err(
                RockdoveError::MissingField {
                    event_type: EventKind::DiscussionComment,
                    field: "repository",
                },
            );
        },
        Some(r) => r,
    };
    let number = match specifics.discussion.get("number") {
        None => {
            return Err(
                RockdoveError::MissingField {
                    event_type: EventKind::DiscussionComment,
                    field: "discussion.number",
                },
            );
        },
        Some(v) => v,
    };
    let title_value = match specifics.discussion.get("title") {
        None => {
            return Err(
                RockdoveError::MissingField {
                    event_type: EventKind::DiscussionComment,
                    field: "discussion.title",
                },
            );
        },
        Some(v) => v,
    };
    let d_title = match &title_value.text {
        None => {
            return Err(
                RockdoveError::InvalidField {
                    event_type: EventKind::DiscussionComment,
                    field: "discussion.title",
                },
            );
        },
        Some(t) => t,
    };
    let mut embed = EmbedBuilder::default();
    let repo_name = match &repo.full_name {
        Some(f) => f,
        None => &repo.name,
    };
    let mut title = "[".to_owned();
    title.append(repo_name.as_str());
    title.append("] New comment on discussion #");
    title.append(number.raw.as_str());
    title.append(": ");
    title.append(d_title.as_str());
    embed.title(title.as_str());
    let url_value = match specifics.comment.get("html_url") {
        None => {
            return Err(
                RockdoveError::MissingField {
                    event_type: EventKind::DiscussionComment,
                    field: "comment.html_url",
                },
            );
        },
        Some(v) => v,
    };
    let url = match &url_value.text {
        None => {
            return Err(
                RockdoveError::InvalidField {
                    event_type: EventKind::DiscussionComment,
                    field: "comment.html_url",
                },
            );
        },
        Some(u) => u,
    };
    embed.url(url.as_str());
    let body_value = match specifics.comment.get("body") {
        None => {
            return Err(
                RockdoveError::MissingField {
                    event_type: EventKind::DiscussionComment,
                    field: "comment.body",
                },
            );
        },
        Some(v) => v,
    };
    let body = match &body_value.text {
        None => {
            return Err(
                RockdoveError::InvalidField {
                    event_type: EventKind::DiscussionComment,
                    field: "comment.body",
                },
            );
        },
        Some(b) => b,
    };
    embed.description(body.as_str());
    embed.color(colors::discussion_rgb());
    proof {
        assert(title@ =~= "["@ + repo_display_name(event@.repository->Some_0)
            + "] New comment on discussion #"@ + frag_get(
            specifics@.discussion,
            "number"@,
        )->Some_0.raw + ": "@ + frag_get(specifics@.discussion, "title"@)->Some_0.text->Some_0);
        assert(partial_view(Ok::<Option<EmbedBuilder>, RockdoveError>(Some(embed)))->Ok_0->Some_0
            =~~= expected(event@, specifics@)->Ok_0->Some_0);
    }
    Ok(Some(embed))
}

} // verus!
