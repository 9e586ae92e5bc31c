//! The delivery routing policy: which channel an envelope goes to, or
//! whether it is suppressed, decided before and independently of the
//! mapping. Bot senders win over the special-cased repository, which wins
//! over the privacy check.
use vstd::prelude::*;

use crate::model::{AccountKind, Event, EventView};
use crate::text::str_eq;

verus! {

/// The channel an envelope is delivered on, or its suppression.
#[derive(Debug, Clone, Copy, PartialEq, Eq, Structural)]
pub enum HookTarget {
    /// The ordinary channel.
    Normal,
    /// The channel for events triggered by automated accounts.
    Bot,
    /// The channel for the special-cased busy repository.
    Userstyles,
    /// No channel: the event is dropped before mapping.
    Suppressed,
}

/// The one repository routed to its own channel: a monorepo with so much
/// activity that it would drown the ordinary channel.
pub open spec fn userstyles_repo() -> Seq<char> {
    "userstyles"@
}

/// The channel an envelope routes to: bot senders to [`HookTarget::Bot`],
/// then the special-cased repository to its channel, then private
/// repositories to suppression, and everything else to the ordinary channel.
pub open spec fn hook_target_expected(ev: EventView) -> HookTarget {
    if ev.sender matches Some(sender) && sender.kind is Bot {
        HookTarget::Bot
    } else if ev.repository matches Some(repo) && repo.name == userstyles_repo() {
        HookTarget::Userstyles
    } else if ev.repository matches Some(repo) && repo.private == Some(true) {
        HookTarget::Suppressed
    } else {
        HookTarget::Normal
    }
}

/// Selects the channel for an envelope.
pub fn hook_target(event: &Event) -> (t: HookTarget)
    ensures
        t == hook_target_expected(event@),
{
    if let Some(sender) = &event.sender {
        if matches!(sender.kind, AccountKind::Bot) {
            return HookTarget::Bot;
        }
    }
    if let Some(repository) = &event.repository {
        if str_eq(repository.name.as_str(), "userstyles") {
            return HookTarget::Userstyles;
        }
        let private = match repository.private {
            Some(p) => p,
            None => false,
        };
        if private {
            return HookTarget::Suppressed;
        }
    }
    HookTarget::Normal
}

/// A bot sender always routes to the bot channel, whatever the repository's
/// name or privacy says.
pub proof fn lemma_bot_sender_routes_to_bot(ev: EventView)
    requires
        ev.sender matches Some(sender) && sender.kind is Bot,
    ensures
        hook_target_expected(ev) == HookTarget::Bot,
{
}

} // verus!
