//! The dispatcher: routes an envelope to the extractor for its kind,
//! attaches the sender as the notification's author, and finishes the
//! builder.
use vstd::prelude::*;

pub mod commit_comment;
pub mod discussion;
pub mod discussion_comment;
pub mod issue_comment;
pub mod issues;
pub mod membership;
pub mod pull_request;
pub mod pull_request_review;
pub mod pull_request_review_comment;
pub mod release;
pub mod repository;

use crate::embed_builder::{
    build_result, BuilderView, Embed, EmbedBuilder, EmbedView, MAX_AUTHOR_NAME_LENGTH,
    MAX_DESCRIPTION_LENGTH, MAX_TITLE_LENGTH,
};
use crate::errors::{ErrorView, RockdoveError, RockdoveResult};
use crate::model::{payload_kind, Event, EventPayload, EventPayloadView, EventView};

verus! {

/// An extractor's result seen at the view level.
pub open spec fn partial_view(r: Result<Option<EmbedBuilder>, RockdoveError>) -> Result<
    Option<BuilderView>,
    ErrorView,
> {
    match r {
        Ok(Some(b)) => Ok(Some(b@)),
        Ok(None) => Ok(None),
        Err(e) => Err(e@),
    }
}

/// The dispatcher's result seen at the view level.
pub open spec fn embed_view(r: Result<Option<Embed>, RockdoveError>) -> Result<
    Option<EmbedView>,
    ErrorView,
> {
    match r {
        Ok(Some(e)) => Ok(Some(e@)),
        Ok(None) => Ok(None),
        Err(e) => Err(e@),
    }
}

/// What the extractor for the envelope's kind yields; kinds with no
/// extractor are ignored.
pub open spec fn begin_expected(ev: EventView) -> Result<Option<BuilderView>, ErrorView> {
    match ev.specific {
        EventPayloadView::Repository(p) => repository::expected(ev, p),
        EventPayloadView::Issues(p) => issues::expected(ev, p),
        EventPayloadView::IssueComment(p) => issue_comment::expected(ev, p),
        EventPayloadView::PullRequest(p) => pull_request::expected(ev, p),
        EventPayloadView::PullRequestReview(p) => pull_request_review::expected(ev, p),
        EventPayloadView::PullRequestReviewComment(p) => pull_request_review_comment::expected(
            ev,
            p,
        ),
        EventPayloadView::Discussion(p) => discussion::expected(ev, p),
        EventPayloadView::DiscussionComment(p) => discussion_comment::expected(ev, p),
        EventPayloadView::CommitComment(p) => commit_comment::expected(ev, p),
        EventPayloadView::Release(p) => release::expected(ev, p),
        EventPayloadView::Membership(p) => membership::expected(ev, p),
        EventPayloadView::Other => Ok(None),
    }
}

/// What dispatching an envelope yields: an error when the sender is absent;
/// otherwise the kind's extraction, finished with the sender as author.
pub open spec fn make_embed_expected(ev: EventView) -> Result<Option<EmbedView>, ErrorView> {
    match ev.sender {
        None => Err(
            ErrorView::MissingField { event_type: payload_kind(ev.specific), field: "sender"@ },
        ),
        Some(sender) => match begin_expected(ev) {
            Err(e) => Err(e),
            Ok(None) => Ok(None),
            Ok(Some(b)) => match build_result(BuilderView { author: Some(sender), ..b }) {
                Ok(e) => Ok(Some(e)),
                Err(e) => Err(ErrorView::EmbedBuilder(e)),
            },
        },
    }
}

fn begin_embed(event: &Event) -> (r: RockdoveResult<Option<EmbedBuilder>>)
    ensures
        partial_view(r) == begin_expected(event@),
{
    match &event.specific {
        EventPayload::Repository(specifics) => repository::make_embed(event, specifics),
        EventPayload::Issues(specifics) => issues::make_embed(event, specifics),
        EventPayload::IssueComment(specifics) => issue_comment::make_issue_comment_embed(
            event,
            specifics,
        ),
        EventPayload::PullRequest(specifics) => pull_request::make_embed(event, specifics),
        EventPayload::PullRequestReview(specifics) => {
            pull_request_review::make_pull_request_review_embed(event, specifics)
        },
        EventPayload::PullRequestReviewComment(specifics) => {
            pull_request_review_comment::make_embed(event, specifics)
        },
        EventPayload::Discussion(specifics) => discussion::make_embed(event, specifics),
        EventPayload::DiscussionComment(specifics) => discussion_comment::make_embed(
            event,
            specifics,
        ),
        EventPayload::CommitComment(specifics) => commit_comment::make_embed(event, specifics),
        EventPayload::Release(specifics) => release::make_release_embed(event, specifics),
        EventPayload::Membership(specifics) => membership::make_embed(event, specifics),
        EventPayload::Other => Ok(None),
    }
}

/// Maps an envelope to its finished notification: `Ok(None)` when the event
/// is ignored, the embed when it maps, and a typed error otherwise.
pub fn make_embed(event: &Event) -> (r: RockdoveResult<Option<Embed>>)
    ensures
        embed_view(r) == make_embed_expected(event@),
{
    let sender = match &event.sender {
        None => {
            return Err(
                RockdoveError::MissingField { event_type: event.kind(), field: "sender" },
            );
        },
        Some(s) => s,
    };
    let mut embed = match begin_embed(event) {
        Err(e) => {
            return Err(e);
        },
        Ok(None) => {
            return Ok(None);
        },
        Ok(Some(b)) => b,
    };
    embed.author(sender);
    match embed.try_build() {
        Ok(e) => Ok(Some(e)),
        Err(e) => Err(RockdoveError::EmbedBuilder(e)),
    }
}

/// Whether the envelope's kind filters on an action at all: every kind with
/// an extractor does, except `commit_comment`, which handles every payload.
pub open spec fn has_action_filter(p: EventPayloadView) -> bool {
    match p {
        EventPayloadView::CommitComment(_) => false,
        EventPayloadView::Other => false,
        _ => true,
    }
}

/// Whether the payload's action is one its extractor handles.
pub open spec fn action_handled(p: EventPayloadView) -> bool {
    match p {
        EventPayloadView::Repository(q) => repository::handled_action(q.action),
        EventPayloadView::Issues(q) => issues::handled_action(q.action),
        EventPayloadView::IssueComment(q) => q.action is Created,
        EventPayloadView::PullRequest(q) => pull_request::handled_action(q.action),
        EventPayloadView::PullRequestReview(q) => q.action is Submitted,
        EventPayloadView::PullRequestReviewComment(q) => q.action is Created,
        EventPayloadView::Discussion(q) => discussion::handled_action(q.action),
        EventPayloadView::DiscussionComment(q) => q.action is Created,
        EventPayloadView::CommitComment(_) => true,
        EventPayloadView::Release(q) => q.action is Released,
        EventPayloadView::Membership(q) => membership::handled_action(q.action),
        EventPayloadView::Other => false,
    }
}

/// For every kind that filters on an action, an envelope whose action falls
/// outside the handled set is ignored, never an error.
pub proof fn lemma_unhandled_action_is_ignored(ev: EventView)
    requires
        ev.sender is Some,
        has_action_filter(ev.specific),
        !action_handled(ev.specific),
    ensures
        make_embed_expected(ev) == Ok::<Option<EmbedView>, ErrorView>(None),
{
}

/// Dispatch is a pure function of the envelope: equal envelopes map to
/// identical outcomes, so dispatching twice yields the same output.
pub proof fn lemma_dispatch_is_pure(first: EventView, second: EventView)
    requires
        first == second,
    ensures
        make_embed_expected(first) == make_embed_expected(second),
{
}

/// Every extraction that succeeds fills the title, the url and a color, so
/// finishing the builder with the sender attached never fails: dispatch
/// never reports a builder error.
pub proof fn lemma_extraction_is_complete(ev: EventView)
    ensures
        begin_expected(ev) matches Ok(Some(b)) ==> b.title is Some && b.url is Some && b.color
            is Some,
        ev.sender is Some ==> !(make_embed_expected(ev) matches Err(ErrorView::EmbedBuilder(_))),
{
}

/// Every notification that dispatch yields respects the length limits: the
/// title, the description and the author name never exceed theirs.
pub proof fn lemma_embed_within_limits(ev: EventView)
    ensures
        make_embed_expected(ev) matches Ok(Some(e)) ==> {
            &&& e.title.len() <= MAX_TITLE_LENGTH
            &&& (e.description matches Some(d) ==> d.len() <= MAX_DESCRIPTION_LENGTH)
            &&& e.author.name.len() <= MAX_AUTHOR_NAME_LENGTH
        },
{
    broadcast use crate::embed_builder::lemma_limited_len;

}

/// Every notification that dispatch yields has a non-empty title: each
/// extractor's title opens with the bracketed context.
pub proof fn lemma_title_is_nonempty(ev: EventView)
    ensures
        make_embed_expected(ev) matches Ok(Some(e)) ==> e.title.len() >= 1,
{
    broadcast use crate::embed_builder::lemma_limited_keeps_nonempty;

    reveal_strlit("[");
}

} // verus!
