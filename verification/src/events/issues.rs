//! Extractor for `issues` events: opened, closed, reopened, assigned,
//! locked and pinned issues.
use vstd::prelude::*;

use crate::colors;
use crate::embed_builder::{
    limited, BuilderView, EmbedBuilder, MAX_DESCRIPTION_LENGTH, MAX_TITLE_LENGTH,
};
use crate::errors::{ErrorView, RockdoveError, RockdoveResult};
use crate::events::partial_view;
use crate::model::{
    repo_display_name, Event, EventKind, EventView, IssueStateReason, IssuesAction, IssuesPayload,
    IssuesPayloadView,
};
use crate::text::{dec_str, u64_to_dec};

verus! {

/// The actions this extractor handles; everything else is ignored.
pub open spec fn handled_action(action: IssuesAction) -> bool {
    match action {
        IssuesAction::Other => false,
        _ => true,
    }
}

/// The verb of the title, or the first missing field it needs. A closed
/// issue refines its verb by the recorded state reason.
pub open spec fn verb(p: IssuesPayloadView) -> Result<Seq<char>, ErrorView>
    recommends
        handled_action(p.action),
{
    match p.action {
        IssuesAction::Assigned => match p.issue.assignee {
            None => Err(
                ErrorView::MissingField {
                    event_type: EventKind::Issues,
                    field: "issue.assignee"@,
                },
            ),
            Some(assignee) => Ok("assigned to "@ + assignee.login),
        },
        IssuesAction::Closed => match p.issue.state_reason {
            Some(IssueStateReason::NotPlanned) => Ok("closed as not planned"@),
            Some(IssueStateReason::Reopened) => Ok("reopened"@),
            Some(IssueStateReason::Duplicate) => Ok("closed as duplicate"@),
            _ => Ok("closed"@),
        },
        IssuesAction::Locked => Ok("locked"@),
        IssuesAction::Opened => Ok("opened"@),
        IssuesAction::Pinned => Ok("pinned"@),
        IssuesAction::Reopened => Ok("reopened"@),
        IssuesAction::Other => Ok(Seq::empty()),
    }
}

/// What this extractor yields: a builder holding
/// `[name] Issue <verb>: #<number> <title>` in the issue color, with the
/// issue body as description when the issue was opened.
pub open spec fn expected(ev: EventView, p: IssuesPayloadView) -> Result<
    Option<BuilderView>,
    ErrorView,
> {
    if !handled_action(p.action) {
        Ok(None)
    } else {
        match ev.repository {
            None => Err(
                ErrorView::MissingField { event_type: EventKind::Issues, field: "repository"@ },
            ),
            Some(repo) => match verb(p) {
                Err(e) => Err(e),
                Ok(v) => Ok(
                    Some(
                        BuilderView {
                            title: Some(
                                limited(
                                    "["@ + repo_display_name(repo) + "] Issue "@ + v + ": #"@
                                        + dec_str(p.issue.number as nat) + " "@ + p.issue.title,
                                    MAX_TITLE_LENGTH as int,
                                ),
                            ),
                            url: Some(p.issue.html_url),
                            author: None,
                            description: if p.action is Opened && p.issue.body is Some {
                                Some(
                                    limited(p.issue.body->Some_0, MAX_DESCRIPTION_LENGTH as int),
                                )
                            } else {
                                None
                            },
                            color: Some(colors::ISSUE_COLOR),
                        },
                    ),
                ),
            },
        }
    }
}

/// Maps an `issues` event to its notification.
pub fn make_embed(event: &Event, specifics: &IssuesPayload) -> (r: RockdoveResult<
    Option<EmbedBuilder>,
>)
    ensures
        partial_view(r) == expected(event@, specifics@),
{
    if matches!(specifics.action, IssuesAction::Other) {
        return Ok(None);
    }
    let repo = match &event.repository {
        None => {
            return Err(
                RockdoveError::MissingField { event_type: EventKind::Issues, field: "repository" },
            );
        },
        Some(r) => r,
    };
    let verb_text: String = match specifics.action {
        IssuesAction::Assigned => {
            let assignee = match &specifics.issue.assignee {
                None => {
                    return Err(
                        RockdoveError::MissingField {
                            event_type: EventKind::Issues,
                            field: "issue.assignee",
                        },
                    );
                },
                Some(a) => a,
            };
            let mut v = "assigned to ".to_owned();
            v.append(assignee.login.as_str());
            v
        },
        IssuesAction::Closed => match specifics.issue.state_reason {
            Some(IssueStateReason::NotPlanned) => "closed as not planned".to_owned(),
            Some(IssueStateReason::Reopened) => "reopened".to_owned(),
            Some(IssueStateReason::Duplicate) => "closed as duplicate".to_owned(),
            _ => "closed".to_owned(),
        },
        IssuesAction::Locked => "locked".to_owned(),
        IssuesAction::Opened => "opened".to_owned(),
        IssuesAction::Pinned => "pinned".to_owned(),
        IssuesAction::Reopened => "reopened".to_owned(),
        IssuesAction::Other => {
            return Ok(None);
        },
    };
    let mut embed = EmbedBuilder::default();
    let repo_name = match &repo.full_name {
        Some(f) => f,
        None => &repo.name,
    };
    let mut title = "[".to_owned();
    title.append(repo_name.as_str());
    title.append("] Issue ");
    title.append(verb_text.as_str());
    title.append(": #");
    let number = u64_to_dec(specifics.issue.number);
    title.append(number.as_str());
    title.append(" ");
    title.append(specifics.issue.title.as_str());
    embed.title(title.as_str());
    embed.url(specifics.issue.html_url.as_str());
    if matches!(specifics.action, IssuesAction::Opened) {
        if let Some(body) = &specifics.issue.body {
            embed.description(body.as_str());
        }
    }
    embed.color(colors::issue_rgb());
    proof {
        assert(title@ =~= "["@ + repo_display_name(event@.repository->Some_0) + "] Issue "@ + verb(
            specifics@,
        )->Ok_0 + ": #"@ + dec_str(specifics@.issue.number as nat) + " "@ + specifics@.issue.title);
        assert(partial_view(Ok::<Option<EmbedBuilder>, RockdoveError>(Some(embed)))->Ok_0->Some_0
            =~~= expected(event@, specifics@)->Ok_0->Some_0);
    }
    Ok(Some(embed))
}

} // verus!
