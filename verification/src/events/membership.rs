//! Extractor for `membership` events: members added to or removed from a
//! team. The team and member arrive as untyped fragments.
use vstd::prelude::*;

use crate::colors;
use crate::embed_builder::{limited, BuilderView, EmbedBuilder, MAX_TITLE_LENGTH};
use crate::errors::{ErrorView, RockdoveError, RockdoveResult};
use crate::events::partial_view;
use crate::model::{
    frag_str, Event, EventKind, EventView, MembershipAction, MembershipPayload,
    MembershipPayloadView,
};

verus! {

/// The actions this extractor handles; everything else is ignored.
pub open spec fn handled_action(action: MembershipAction) -> bool {
    match action {
        MembershipAction::Added => true,
        MembershipAction::Removed => true,
        MembershipAction::Other => false,
    }
}

/// The verb of the title.
pub open spec fn verb(action: MembershipAction) -> Seq<char>
    recommends
        handled_action(action),
{
    match action {
        MembershipAction::Added => "added to"@,
        MembershipAction::Removed => "removed from"@,
        MembershipAction::Other => Seq::empty(),
    }
}

/// What this extractor yields: a builder holding
/// `[<org>] <member> <verb> <team> team` in the membership color. An
/// envelope without an organization is silently ignored; a team without a
/// string name or a member without a string login is an error.
pub open spec fn expected(ev: EventView, p: MembershipPayloadView) -> Result<
    Option<BuilderView>,
    ErrorView,
> {
    if !handled_action(p.action) {
        Ok(None)
    } else {
        match ev.organization {
            None => Ok(None),
            Some(org) => match frag_str(p.team, "name"@) {
                None => Err(
                    ErrorView::MissingField {
                        event_type: EventKind::Membership,
                        field: "team.name"@,
                    },
                ),
                Some(team_name) => match frag_str(p.member, "login"@) {
                    None => Err(
                        ErrorView::MissingField {
                            event_type: EventKind::Membership,
                            field: "member.login"@,
                        },
                    ),
                    Some(member_login) => match frag_str(p.team, "html_url"@) {
                        None => Err(
                            ErrorView::MissingField {
                                event_type: EventKind::Membership,
                                field: "team.html_url"@,
                            },
                        ),
                        Some(url) => Ok(
                            Some(
                                BuilderView {
                                    title: Some(
                                        limited(
                                            "["@ + org + "] "@ + member_login + " "@ + verb(
                                                p.action,
                                            ) + " "@ + team_name + " team"@,
                                            MAX_TITLE_LENGTH as int,
                                        ),
                                    ),
                                    url: Some(url),
                                    author: None,
                                    description: None,
                                    color: Some(colors::MEMBERSHIP_COLOR),
                                },
                            ),
                        ),
                    },
                },
            },
        }
    }
}

/// Maps a `membership` event to its notification.
pub fn make_embed(event: &Event, specifics: &MembershipPayload) -> (r: RockdoveResult<
    Option<EmbedBuilder>,
>)
    ensures
        partial_view(r) == expected(event@, specifics@),
{
    let verb_text: &str = match specifics.action {
        MembershipAction::Added => "added to",
        MembershipAction::Removed => "removed from",
        MembershipAction::Other => {
            return Ok(None);
        },
    };
    let org = match &event.organization {
        None => {
            return Ok(None);
        },
        Some(o) => o,
    };
    let team_name = match specifics.team.get_str("name") {
        None => {
            return Err(
                RockdoveError::MissingField { event_type: EventKind::Membership, field: "team.name" },
            );
        },
        Some(n) => n,
    };
    let member_login = match specifics.member.get_str("login") {
        None => {
            return Err(
                RockdoveError::MissingField {
                    event_type: EventKind::Membership,
                    field: "member.login",
                },
            );
        },
        Some(l) => l,
    };
    let mut embed = EmbedBuilder::default();
    let mut title = "[".to_owned();
    title.append(org.as_str());
    title.append("] ");
    title.append(member_login.as_str());
    title.append(" ");
    title.append(verb_text);
    title.append(" ");
    title.append(team_name.as_str());
    title.append(" team");
    embed.title(title.as_str());
    let url = match specifics.team.get_str("html_url") {
        None => {
            return Err(
                RockdoveError::MissingField {
                    event_type: EventKind::Membership,
                    field: "team.html_url",
                },
            );
        },
        Some(u) => u,
    };
    embed.url(url.as_str());
    embed.color(colors::membership_rgb());
    proof {
        assert(title@ =~= "["@ + event@.organization->Some_0 + "] "@ + frag_str(
            specifics@.member,
            "login"@,
        )->Some_0 + " "@ + verb(specifics@.action) + " "@ + frag_str(
            specifics@.team,
            "name"@,
        )->Some_0 + " team"@);
        assert(partial_view(Ok::<Option<EmbedBuilder>, RockdoveError>(Some(embed)))->Ok_0->Some_0
            =~~= expected(event@, specifics@)->Ok_0->Some_0);
    }
    Ok(Some(embed))
}

} // verus!
