//! Extractor for `repository` events: created, archived, unarchived,
//! deleted, renamed and transferred repositories.
use vstd::prelude::*;

use crate::colors;
use crate::embed_builder::{limited, BuilderView, EmbedBuilder, MAX_TITLE_LENGTH};
use crate::errors::{ErrorView, RockdoveError, RockdoveResult};
use crate::events::partial_view;
use crate::model::{
    repo_display_name, Event, EventKind, EventView, RepositoryAction, RepositoryPayload,
    RepositoryPayloadView, RepositoryView,
};

verus! {

/// The actions this extractor handles; everything else is ignored.
pub open spec fn handled_action(action: RepositoryAction) -> bool {
    match action {
        RepositoryAction::Other => false,
        _ => true,
    }
}

/// The verb of the title, or the first missing field it needs.
pub open spec fn verb(p: RepositoryPayloadView, repo: RepositoryView) -> Result<
    Seq<char>,
    ErrorView,
>
    recommends
        handled_action(p.action),
{
    match p.action {
        RepositoryAction::Archived => Ok("archived"@),
        RepositoryAction::Created => Ok("created"@),
        RepositoryAction::Deleted => Ok("deleted"@),
        RepositoryAction::Unarchived => Ok("unarchived"@),
        RepositoryAction::Renamed => match p.changes {
            None => Err(
                ErrorView::MissingField { event_type: EventKind::Repository, field: "changes"@ },
            ),
            Some(changes) => match changes.repository {
                None => Err(
                    ErrorView::MissingField {
                        event_type: EventKind::Repository,
                        field: "changes.repository"@,
                    },
                ),
                Some(name_change) => match name_change.name {
                    None => Err(
                        ErrorView::MissingField {
                            event_type: EventKind::Repository,
                            field: "changes.repository.name"@,
                        },
                    ),
                    Some(old_name) => Ok("renamed from "@ + old_name + " to "@ + repo.name),
                },
            },
        },
        RepositoryAction::Transferred => match p.changes {
            None => Err(
                ErrorView::MissingField { event_type: EventKind::Repository, field: "changes"@ },
            ),
            Some(changes) => match changes.owner {
                None => Err(
                    ErrorView::MissingField {
                        event_type: EventKind::Repository,
                        field: "changes.owner"@,
                    },
                ),
                Some(owner_change) => match repo.owner {
                    None => Err(
                        ErrorView::MissingField {
                            event_type: EventKind::Repository,
                            field: "repository.owner"@,
                        },
                    ),
                    Some(owner) => Ok(
                        "transferred from "@ + owner_change.user_login + " to "@ + owner.login,
                    ),
                },
            },
        },
        RepositoryAction::Other => Ok(Seq::empty()),
    }
}

/// The color of a repository notification: red for a deletion, pink for a
/// transfer, the repository color otherwise.
pub open spec fn color(action: RepositoryAction) -> u32 {
    match action {
        RepositoryAction::Deleted => colors::RED_COLOR,
        RepositoryAction::Transferred => colors::PINK_COLOR,
        _ => colors::REPO_COLOR,
    }
}

/// What this extractor yields for an envelope: a builder holding
/// `[name] Repository <verb>` with the action's color, nothing for an
/// unhandled action, and the first missing field otherwise.
pub open spec fn expected(ev: EventView, p: RepositoryPayloadView) -> Result<
    Option<BuilderView>,
    ErrorView,
> {
    if !handled_action(p.action) {
        Ok(None)
    } else {
        match ev.repository {
            None => Err(
                ErrorView::MissingField { event_type: EventKind::Repository, field: "repository"@ },
            ),
            Some(repo) => match verb(p, repo) {
                Err(e) => Err(e),
                Ok(v) => match repo.html_url {
                    None => Err(
                        ErrorView::MissingField {
                            event_type: EventKind::Repository,
                            field: "repository.html_url"@,
                        },
                    ),
                    Some(url) => Ok(
                        Some(
                            BuilderView {
                                title: Some(
                                    limited(
                                        "["@ + repo_display_name(repo) + "] Repository "@ + v,
                                        MAX_TITLE_LENGTH as int,
                                    ),
                                ),
                                url: Some(url),
                                author: None,
                                description: None,
                                color: Some(color(p.action)),
                            },
                        ),
                    ),
                },
            },
        }
    }
}

/// Maps a `repository` event to its notification.
pub fn make_embed(event: &Event, specifics: &RepositoryPayload) -> (r: RockdoveResult<
    Option<EmbedBuilder>,
>)
    ensures
        partial_view(r) == expected(event@, specifics@),
{
    if matches!(specifics.action, RepositoryAction::Other) {
        return Ok(None);
    }
    let repo = match &event.repository {
        None => {
            return Err(
                RockdoveError::MissingField {
                    event_type: EventKind::Repository,
                    field: "repository",
                },
            );
        },
        Some(r) => r,
    };
    let verb_text: String = match specifics.action {
        RepositoryAction::Archived => "archived".to_owned(),
        RepositoryAction::Created => "created".to_owned(),
        RepositoryAction::Deleted => "deleted".to_owned(),
        RepositoryAction::Unarchived => "unarchived".to_owned(),
        RepositoryAction::Renamed => {
            let changes = match &specifics.changes {
                None => {
                    return Err(
                        RockdoveError::MissingField {
                            event_type: EventKind::Repository,
                            field: "changes",
                        },
                    );
                },
                Some(c) => c,
            };
            let name_change = match &changes.repository {
                None => {
                    return Err(
                        RockdoveError::MissingField {
                            event_type: EventKind::Repository,
                            field: "changes.repository",
                        },
                    );
                },
                Some(nc) => nc,
            };
            let old_name = match &name_change.name {
                None => {
                    return Err(
                        RockdoveError::MissingField {
                            event_type: EventKind::Repository,
                            field: "changes.repository.name",
                        },
                    );
                },
                Some(n) => n,
            };
            let mut v = "renamed from ".to_owned();
            v.append(old_name.as_str());
            v.append(" to ");
            v.append(repo.name.as_str());
            v
        },
        RepositoryAction::Transferred => {
            let changes = match &specifics.changes {
                None => {
                    return Err(
                        RockdoveError::MissingField {
                            event_type: EventKind::Repository,
                            field: "changes",
                        },
                    );
                },
                Some(c) => c,
            };
            let owner_change = match &changes.owner {
                None => {
                    return Err(
                        RockdoveError::MissingField {
                            event_type: EventKind::Repository,
                            field: "changes.owner",
                        },
                    );
                },
                Some(oc) => oc,
            };
            let owner = match &repo.owner {
                None => {
                    return Err(
                        RockdoveError::MissingField {
                            event_type: EventKind::Repository,
                            field: "repository.owner",
                        },
                    );
                },
                Some(o) => o,
            };
            let mut v = "transferred from ".to_owned();
            v.append(owner_change.user_login.as_str());
            v.append(" to ");
            v.append(owner.login.as_str());
            v
        },
        RepositoryAction::Other => {
            return Ok(None);
        },
    };
    let mut embed = EmbedBuilder::default();
    let repo_name = match &repo.full_name {
        Some(f) => f,
        None => &repo.name,
    };
    let mut title = "[".to_owned();
    title.append(repo_name.as_str());
    title.append("] Repository ");
    title.append(verb_text.as_str());
    embed.title(title.as_str());
    let url = match &repo.html_url {
        None => {
            return Err(
                RockdoveError::MissingField {
                    event_type: EventKind::Repository,
                    field: "repository.html_url",
                },
            );
        },
        Some(u) => u,
    };
    embed.url(url.as_str());
    let rgb = match specifics.action {
        RepositoryAction::Deleted => colors::red_rgb(),
        RepositoryAction::Transferred => colors::pink_rgb(),
        _ => colors::repo_rgb(),
    };
    embed.color(rgb);
    proof {
        assert(title@ =~= "["@ + repo_display_name(event@.repository->Some_0) + "] Repository "@
            + verb(specifics@, event@.repository->Some_0)->Ok_0);
        assert(partial_view(Ok::<Option<EmbedBuilder>, RockdoveError>(Some(embed)))->Ok_0->Some_0
            =~~= expected(event@, specifics@)->Ok_0->Some_0);
    }
    Ok(Some(embed))
}

} // verus!
