//! Extractor for `commit_comment` events; every payload of this kind is
//! handled.
use vstd::prelude::*;

use crate::colors;
use crate::embed_builder::{
    limited, BuilderView, EmbedBuilder, MAX_DESCRIPTION_LENGTH, MAX_TITLE_LENGTH,
};
use crate::errors::{ErrorView, RockdoveError, RockdoveResult};
use crate::events::partial_view;
use crate::model::{
    repo_display_name, CommitCommentPayload, CommitCommentPayloadView, Event, EventKind, EventView,
};

verus! {

/// What this extractor yields: a builder holding
/// `[name] New comment on commit <commit-id>` in the commit color, with the
/// comment body — which must be present — as description.
pub open spec fn expected(ev: EventView, p: CommitCommentPayloadView) -> Result<
    Option<BuilderView>,
    ErrorView,
> {
    match ev.repository {
        None => Err(
            ErrorView::MissingField { event_type: EventKind::CommitComment, field: "repository"@ },
        ),
        Some(repo) => match p.comment.body {
            None => Err(
                ErrorView::MissingField {
                    event_type: EventKind::CommitComment,
                    field: "comment.body"@,
                },
            ),
            Some(body) => Ok(
                Some(
                    BuilderView {
                        title: Some(
                            limited(
                                "["@ + repo_display_name(repo) + "] New comment on commit "@
                                    + p.comment.commit_id,
                                MAX_TITLE_LENGTH as int,
                            ),
                        ),
                        url: Some(p.comment.html_url),
                        author: None,
                        description: Some(limited(body, MAX_DESCRIPTION_LENGTH as int)),
                        color: Some(colors::COMMIT_COLOR),
                    },
                ),
            ),
        },
    }
}

/// Maps a `commit_comment` event to its notification.
pub fn make_embed(event: &Event, specifics: &CommitCommentPayload) -> (r: RockdoveResult<
    Option<EmbedBuilder>,
>)
    ensures
        partial_view(r) == expected(event@, specifics@),
{
    let repo = match &event.repository {
        None => {
            return Err(
                RockdoveError::MissingField {
                    event_type: EventKind::CommitComment,
                    field: "repository",
                },
            );
        },
        Some(r) => r,
    };
    let mut embed = EmbedBuilder::default();
    let repo_name = match &repo.full_name {
        Some(f) => f,
        None => &repo.name,
    };
    let mut title = "[".to_owned();
    title.append(repo_name.as_str());
    title.append("] New comment on commit ");
    title.append(specifics.comment.commit_id.as_str());
    embed.title(title.as_str());
    embed.url(specifics.comment.html_url.as_str());
    let body = match &specifics.comment.body {
        None => {
            return Err(
                RockdoveError::MissingField {
                    event_type: EventKind::CommitComment,
                    field: "comment.body",
                },
            );
        },
        Some(b) => b,
    };
    embed.description(body.as_str());
    embed.color(colors::commit_rgb());
    proof {
        assert(title@ =~= "["@ + repo_display_name(event@.repository->Some_0)
            + "] New comment on commit "@ + specifics@.comment.commit_id);
        assert(partial_view(Ok::<Option<EmbedBuilder>, RockdoveError>(Some(embed)))->Ok_0->Some_0
            =~~= expected(event@, specifics@)->Ok_0->Some_0);
    }
    Ok(Some(embed))
}

} // verus!
