//! Extractor for `discussion` events: created, closed and reopened
//! discussions. The discussion arrives as an untyped fragment, so its fields
//! are read through checked accessors.
use vstd::prelude::*;

use crate::colors;
use crate::embed_builder::{
    limited, BuilderView, EmbedBuilder, MAX_DESCRIPTION_LENGTH, MAX_TITLE_LENGTH,
};
use crate::errors::{ErrorView, RockdoveError, RockdoveResult};
use crate::events::partial_view;
use crate::model::{
    frag_get, repo_display_name, DiscussionAction, DiscussionPayload, DiscussionPayloadView, Event,
    EventKind, EventView,
};

verus! {

/// The actions this extractor handles; everything else is ignored.
pub open spec fn handled_action(action: DiscussionAction) -> bool {
    match action {
        DiscussionAction::Other => false,
        _ => true,
    }
}

/// The verb of the title.
pub open spec fn verb(action: DiscussionAction) -> Seq<char>
    recommends
        handled_action(action),
{
    match action {
        DiscussionAction::Created => "created"@,
        DiscussionAction::Closed => "closed"@,
        DiscussionAction::Reopened => "reopened"@,
        DiscussionAction::Other => Seq::empty(),
    }
}

/// What this extractor yields: a builder holding
/// `[name] Discussion <verb>: #<number> <title>` in the discussion color,
/// with the discussion body as description when the discussion was created.
pub open spec fn expected(ev: EventView, p: DiscussionPayloadView) -> Result<
    Option<BuilderView>,
    ErrorView,
> {
    if !handled_action(p.action) {
        Ok(None)
    } else {
        match ev.repository {
            None => Err(
                ErrorView::MissingField { event_type: EventKind::Discussion, field: "repository"@ },
            ),
            Some(repo) => match frag_get(p.discussion, "number"@) {
                None => Err(
                    ErrorView::MissingField {
                        event_type: EventKind::Discussion,
                        field: "discussion.number"@,
                    },
                ),
                Some(number) => match frag_get(p.discussion, "title"@) {
                    None => Err(
                        ErrorView::MissingField {
                            event_type: EventKind::Discussion,
                            field: "discussion.title"@,
                        },
                    ),
                    Some(title_value) => match title_value.text {
                        None => Err(
                            ErrorView::InvalidField {
                                event_type: EventKind::Discussion,
                                field: "discussion.title"@,
                            },
                        ),
                        Some(d_title) => match frag_get(p.discussion, "html_url"@) {
                            None => Err(
                                ErrorView::MissingField {
                                    event_type: EventKind::Discussion,
                                    field: "discussion.html_url"@,
                                },
                            ),
                            Some(url_value) => match url_value.text {
                                None => Err(
                                    ErrorView::InvalidField {
                                        event_type: EventKind::Discussion,
                                        field: "discussion.html_url"@,
                                    },
                                ),
                                Some(url) => if p.action is Created {
                                    match frag_get(p.discussion, "body"@) {
                                        None => Err(
                                            ErrorView::MissingField {
                                                event_type: EventKind::Discussion,
                                                field: "discussion.body"@,
                                            },
                                        ),
                                        Some(body_value) => match body_value.text {
                                            None => Err(
                                                ErrorView::InvalidField {
                                                    event_type: EventKind::Discussion,
                                                    field: "discussion.body"@,
                                                },
                                            ),
                                            Some(body) => Ok(
                                                Some(
                                                    builder(
                                                        repo_display_name(repo),
                                                        p.action,
                                                        number.raw,
                                                        d_title,
                                                        url,
                                                        Some(body),
                                                    ),
                                                ),
                                            ),
                                        },
                                    }
                                } else {
                                    Ok(
                                        Some(
                                            builder(
                                                repo_display_name(repo),
                                                p.action,
                                                number.raw,
                                                d_title,
                                                url,
                                                None,
                                            ),
                                        ),
                                    )
                                },
                            },
                        },
                    },
                },
            },
        }
    }
}

/// The builder a handled discussion event fills.
pub open spec fn builder(
    name: Seq<char>,
    action: DiscussionAction,
    number: Seq<char>,
    d_title: Seq<char>,
    url: Seq<char>,
    body: Option<Seq<char>>,
) -> BuilderView {
    BuilderView {
        title: Some(
            limited(
                "["@ + name + "] Discussion "@ + verb(action) + ": #"@ + number + " "@ + d_title,
                MAX_TITLE_LENGTH as int,
            ),
        ),
        url: Some(url),
        author: None,
        description: match body {
            Some(b) => Some(limited(b, MAX_DESCRIPTION_LENGTH as int)),
            None => None,
        },
        color: Some(colors::DISCUSSION_COLOR),
    }
}

/// Maps a `discussion` event to its notification.
pub fn make_embed(event: &Event, specifics: &DiscussionPayload) -> (r: RockdoveResult<
    Option<EmbedBuilder>,
>)
    ensures
        partial_view(r) == expected(event@, specifics@),
{
    if matches!(specifics.action, DiscussionAction::Other) {
        return Ok(None);
    }
    let repo = match &event.repository {
        None => {
            return Err(
                RockdoveError::MissingField {
                    event_type: EventKind::Discussion,
                    field: "repository",
                },
            );
        },
        Some(r) => r,
    };
    let verb_text: &str = match specifics.action {
        DiscussionAction::Created => "created",
        DiscussionAction::Closed => "closed",
        DiscussionAction::Reopened => "reopened",
        DiscussionAction::Other => {
            return Ok(None);
        },
    };
    let number = match specifics.discussion.get("number") {
        None => {
            return Err(
                RockdoveError::MissingField {
                    event_type: EventKind::Discussion,
                    field: "discussion.number",
                },
            );
        },
        Some(v) => v,
    };
    let title_value = match specifics.discussion.get("title") {
        None => {
            return Err(
                RockdoveError::MissingField {
                    event_type: EventKind::Discussion,
                    field: "discussion.title",
                },
            );
        },
        Some(v) => v,
    };
    let d_title = match &title_value.text {
        None => {
            return Err(
                RockdoveError::InvalidField {
                    event_type: EventKind::Discussion,
                    field: "discussion.title",
                },
            );
        },
        Some(t) => t,
    };
    let mut embed = EmbedBuilder::default();
    let repo_name = match &repo.full_name {
        Some(f) => f,
        None => &repo.name,
    };
    let mut title = "[".to_owned();
    title.append(repo_name.as_str());
    title.append("] Discussion ");
    title.append(verb_text);
    title.append(": #");
    title.append(number.raw.as_str());
    title.append(" ");
    title.append(d_title.as_str());
    embed.title(title.as_str());
    let url_value = match specifics.discussion.get("html_url") {
        None => {
            return Err(
                RockdoveError::MissingField {
                    event_type: EventKind::Discussion,
                    field: "discussion.html_url",
                },
            );
        },
        Some(v) => v,
    };
    let url = match &url_value.text {
        None => {
            return Err(
                RockdoveError::InvalidField {
                    event_type: EventKind::Discussion,
                    field: "discussion.html_url",
                },
            );
        },
        Some(u) => u,
    };
    embed.url(url.as_str());
    if matches!(specifics.action, DiscussionAction::Created) {
        let body_value = match specifics.discussion.get("body") {
            None => {
                return Err(
                    RockdoveError::MissingField {
                        event_type: EventKind::Discussion,
                        field: "discussion.body",
                    },
                );
            },
            Some(v) => v,
        };
        let body = match &body_value.text {
            None => {
                return Err(
                    RockdoveError::InvalidField {
                        event_type: EventKind::Discussion,
                        field: "discussion.body",
                    },
                );
            },
            Some(b) => b,
        };
        embed.description(body.as_str());
    }
    embed.color(colors::discussion_rgb());
    proof {
        assert(title@ =~= "["@ + repo_display_name(event@.repository->Some_0) + "] Discussion "@
            + verb(specifics@.action) + ": #"@ + frag_get(specifics@.discussion, "number"@)->Some_0
            .raw + " "@ + frag_get(specifics@.discussion, "title"@)->Some_0.text->Some_0);
        assert(partial_view(Ok::<Option<EmbedBuilder>, RockdoveError>(Some(embed)))->Ok_0->Some_0
            =~~= expected(event@, specifics@)->Ok_0->Some_0);
    }
    Ok(Some(embed))
}

} // verus!
