//! Extractor for `release` events: published releases.
use vstd::prelude::*;

use crate::colors;
use crate::embed_builder::{
    limited, BuilderView, EmbedBuilder, MAX_DESCRIPTION_LENGTH, MAX_TITLE_LENGTH,
};
use crate::errors::{ErrorView, RockdoveError, RockdoveResult};
use crate::events::partial_view;
use crate::model::{
    frag_get, repo_display_name, Event, EventKind, EventView, FragmentEntryView, ReleaseAction,
    ReleasePayload, ReleasePayloadView,
};

verus! {

/// The name a release shows: its `name` value when that is a string, and a
/// placeholder otherwise.
pub open spec fn release_name(release: Seq<FragmentEntryView>) -> Seq<char> {
    match frag_get(release, "name"@) {
        Some(value) => match value.text {
            Some(name) => name,
            None => "*no name*"@,
        },
        None => "*no name*"@,
    }
}

/// The description of a release notification: the `body` value when that is
/// a string, and nothing otherwise.
pub open spec fn release_description(release: Seq<FragmentEntryView>) -> Option<Seq<char>> {
    match frag_get(release, "body"@) {
        Some(value) => match value.text {
            Some(body) => Some(limited(body, MAX_DESCRIPTION_LENGTH as int)),
            None => None,
        },
        None => None,
    }
}

/// What this extractor yields: for a published release, a builder holding
/// `[name] New release published: <release-name>` in the release color.
pub open spec fn expected(ev: EventView, p: ReleasePayloadView) -> Result<
    Option<BuilderView>,
    ErrorView,
> {
    if !(p.action is Released) {
        Ok(None)
    } else {
        match ev.repository {
            None => Err(
                ErrorView::MissingField { event_type: EventKind::Release, field: "repository"@ },
            ),
            Some(repo) => match frag_get(p.release, "html_url"@) {
                None => Err(
                    ErrorView::MissingField {
                        event_type: EventKind::Release,
                        field: "release.html_url"@,
                    },
                ),
                Some(url_value) => match url_value.text {
                    None => Err(
                        ErrorView::InvalidField {
                            event_type: EventKind::Release,
                            field: "release.html_url"@,
                        },
                    ),
                    Some(url) => Ok(
                        Some(
                            BuilderView {
                                title: Some(
                                    limited(
                                        "["@ + repo_display_name(repo)
                                            + "] New release published: "@ + release_name(
                                            p.release,
                                        ),
                                        MAX_TITLE_LENGTH as int,
                                    ),
                                ),
                                url: Some(url),
                                author: None,
                                description: release_description(p.release),
                                color: Some(colors::RELEASE_COLOR),
                            },
                        ),
                    ),
                },
            },
        }
    }
}

/// Maps a `release` event to its notification.
pub fn make_release_embed(event: &Event, specifics: &ReleasePayload) -> (r: RockdoveResult<
    Option<EmbedBuilder>,
>)
    ensures
        partial_view(r) == expected(event@, specifics@),
{
    if !matches!(specifics.action, ReleaseAction::Released) {
        return Ok(None);
    }
    let repo = match &event.repository {
        None => {
            return Err(
                RockdoveError::MissingField { event_type: EventKind::Release, field: "repository" },
            );
        },
        Some(r) => r,
    };
    let mut embed = EmbedBuilder::default();
    let repo_name = match &repo.full_name {
        Some(f) => f,
        None => &repo.name,
    };
    let name_text: &str = match specifics.release.get("name") {
        Some(value) => match &value.text {
            Some(name) => name.as_str(),
            None => "*no name*",
        },
        None => "*no name*",
    };
    let mut title = "[".to_owned();
    title.append(repo_name.as_str());
    title.append("] New release published: ");
    title.append(name_text);
    embed.title(title.as_str());
    let url_value = match specifics.release.get("html_url") {
        None => {
            return Err(
                RockdoveError::MissingField {
                    event_type: EventKind::Release,
                    field: "release.html_url",
                },
            );
        },
        Some(v) => v,
    };
    let url = match &url_value.text {
        None => {
            return Err(
                RockdoveError::InvalidField {
                    event_type: EventKind::Release,
                    field: "release.html_url",
                },
            );
        },
        Some(u) => u,
    };
    embed.url(url.as_str());
    if let Some(body_value) = specifics.release.get("body") {
        if let Some(body) = &body_value.text {
            embed.description(body.as_str());
        }
    }
    embed.color(colors::release_rgb());
    proof {
        assert(title@ =~= "["@ + repo_display_name(event@.repository->Some_0)
            + "] New release published: "@ + release_name(specifics@.release));
        assert(partial_view(Ok::<Option<EmbedBuilder>, RockdoveError>(Some(embed)))->Ok_0->Some_0
            =~~= expected(event@, specifics@)->Ok_0->Some_0);
    }
    Ok(Some(embed))
}

} // verus!
