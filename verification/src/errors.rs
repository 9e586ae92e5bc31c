//! The failure reasons the mapping engine can report: a required field
//! absent, a field of the wrong shape, or a builder finished incomplete.
use vstd::prelude::*;

use crate::embed_builder;
use crate::embed_builder::{
    embed_author_view, limited, Embed, EmbedBuilder, EmbedView, MAX_DESCRIPTION_LENGTH,
};
use crate::model::{AccountKind, Author, AuthorView, EventKind};

verus! {

/// Why an event could not be mapped to a notification.
#[derive(Debug, Clone, PartialEq, Eq)]
pub enum RockdoveError {
    /// A field the event's kind requires is absent.
    MissingField { event_type: EventKind, field: &'static str },
    /// A field is present but of the wrong shape.
    InvalidField { event_type: EventKind, field: &'static str },
    /// The builder was finished without a required field; an extractor bug.
    EmbedBuilder(embed_builder::Error),
}

#[verifier::ext_equal]
pub ghost enum ErrorView {
    MissingField { event_type: EventKind, field: Seq<char> },
    InvalidField { event_type: EventKind, field: Seq<char> },
    EmbedBuilder(embed_builder::Error),
}

impl View for RockdoveError {
    type V = ErrorView;

    open spec fn view(&self) -> ErrorView {
        match self {
            RockdoveError::MissingField { event_type, field } => ErrorView::MissingField {
                event_type: *event_type,
                field: field@,
            },
            RockdoveError::InvalidField { event_type, field } => ErrorView::InvalidField {
                event_type: *event_type,
                field: field@,
            },
            RockdoveError::EmbedBuilder(e) => ErrorView::EmbedBuilder(*e),
        }
    }
}

/// The name an event kind reports under.
pub open spec fn kind_label_view(k: EventKind) -> Seq<char> {
    match k {
        EventKind::Repository => "Repository"@,
        EventKind::Issues => "Issues"@,
        EventKind::IssueComment => "IssueComment"@,
        EventKind::PullRequest => "PullRequest"@,
        EventKind::PullRequestReview => "PullRequestReview"@,
        EventKind::PullRequestReviewComment => "PullRequestReviewComment"@,
        EventKind::Discussion => "Discussion"@,
        EventKind::DiscussionComment => "DiscussionComment"@,
        EventKind::CommitComment => "CommitComment"@,
        EventKind::Release => "Release"@,
        EventKind::Membership => "Membership"@,
        EventKind::Other => "Other"@,
    }
}

/// The name an event kind reports under.
pub fn kind_label(k: EventKind) -> (r: &'static str)
    ensures
        r@ == kind_label_view(k),
{
    match k {
        EventKind::Repository => "Repository",
        EventKind::Issues => "Issues",
        EventKind::IssueComment => "IssueComment",
        EventKind::PullRequest => "PullRequest",
        EventKind::PullRequestReview => "PullRequestReview",
        EventKind::PullRequestReviewComment => "PullRequestReviewComment",
        EventKind::Discussion => "Discussion",
        EventKind::DiscussionComment => "DiscussionComment",
        EventKind::CommitComment => "CommitComment",
        EventKind::Release => "Release",
        EventKind::Membership => "Membership",
        EventKind::Other => "Other",
    }
}

/// The one-line report of an error.
pub open spec fn error_message(e: ErrorView) -> Seq<char> {
    match e {
        ErrorView::MissingField { event_type, field } => "missing field in event: "@
            + kind_label_view(event_type) + "::"@ + field,
        ErrorView::InvalidField { event_type, field } => "invalid field in event: "@
            + kind_label_view(event_type) + "::"@ + field,
        ErrorView::EmbedBuilder(e) => match e {
            embed_builder::Error::Title => "missing title"@,
            embed_builder::Error::Url => "missing url"@,
            embed_builder::Error::Author => "missing author"@,
        },
    }
}

impl RockdoveError {
    /// Renders the error as its one-line report.
    pub fn message(&self) -> (r: String)
        ensures
            r@ == error_message(self@),
    {
        match self {
            RockdoveError::MissingField { event_type, field } => {
                let mut s = "missing field in event: ".to_owned();
                s.append(kind_label(*event_type));
                s.append("::");
                s.append(field);
                s
            },
            RockdoveError::InvalidField { event_type, field } => {
                let mut s = "invalid field in event: ".to_owned();
                s.append(kind_label(*event_type));
                s.append("::");
                s.append(field);
                s
            },
            RockdoveError::EmbedBuilder(e) => match e {
                embed_builder::Error::Title => "missing title".to_owned(),
                embed_builder::Error::Url => "missing url".to_owned(),
                embed_builder::Error::Author => "missing author".to_owned(),
            },
        }
    }
}

/// Result alias used across the mapping engine.
pub type RockdoveResult<T> = Result<T, RockdoveError>;

/// The fixed author every error report is attributed to.
pub open spec fn hammy_view() -> AuthorView {
    AuthorView {
        login: "sgoudham"@,
        html_url: "https://github.com/sgoudham"@,
        avatar_url: "https://avatars.githubusercontent.com/u/58985301?v=4"@,
        kind: AccountKind::User,
    }
}

/// The fixed author every error report is attributed to.
pub fn make_hammy() -> (a: Author)
    ensures
        a@ == hammy_view(),
{
    Author {
        login: "sgoudham".to_owned(),
        html_url: "https://github.com/sgoudham".to_owned(),
        avatar_url: "https://avatars.githubusercontent.com/u/58985301?v=4".to_owned(),
        kind: AccountKind::User,
    }
}

/// The embed an error is reported as on the operator channel.
pub open spec fn error_embed_view(e: ErrorView) -> EmbedView {
    EmbedView {
        title: "Error"@,
        url: "https://goudham.com/"@,
        description: Some(limited(error_message(e), MAX_DESCRIPTION_LENGTH as int)),
        color: Some(crate::colors::RED_COLOR),
        author: embed_author_view(hammy_view()),
    }
}

/// Builds the embed an error is reported as: titled `Error`, carrying the
/// error's one-line report, in red.
pub fn error_embed(error: &RockdoveError) -> (r: Embed)
    ensures
        r@ == error_embed_view(error@),
{
    let mut embed = EmbedBuilder::default();
    embed.title("Error");
    let message = error.message();
    embed.description(message.as_str());
    embed.color(crate::colors::red_rgb());
    let hammy = make_hammy();
    embed.author(&hammy);
    embed.url("https://goudham.com/");
    proof {
        reveal_strlit("Error");
    }
    match embed.try_build() {
        Ok(e) => e,
        Err(_) => vstd::pervasive::unreached(),
    }
}

} // verus!
