//! The notification builder: a mutable accumulator for the fields of a
//! Discord embed, enforcing per-field length limits as fields are set and
//! checking the presence of the required fields when the embed is finished.
use vstd::prelude::*;

use crate::colors::rgb_value;
use crate::model::{Author, AuthorView};

verus! {

broadcast use vstd::string::group_string_axioms;

/// Titles longer than this are truncated, in characters.
pub const MAX_TITLE_LENGTH: usize = 100;

/// Descriptions longer than this are truncated, in characters.
pub const MAX_DESCRIPTION_LENGTH: usize = 640;

/// Author names longer than this are truncated, in characters.
pub const MAX_AUTHOR_NAME_LENGTH: usize = 256;

/// The truncation marker appended in place of removed text.
pub open spec fn ellipsis() -> Seq<char> {
    "..."@
}

/// `s` limited to `max` characters: text over the limit keeps its first
/// `max - 3` characters and gains the three-character truncation marker;
/// text within the limit passes through unchanged.
pub open spec fn limited(s: Seq<char>, max: int) -> Seq<char> {
    if s.len() <= max {
        s
    } else {
        s.subrange(0, max - 3) + ellipsis()
    }
}

/// A limited text never exceeds its limit.
pub broadcast proof fn lemma_limited_len(s: Seq<char>, max: int)
    requires
        max >= 3,
    ensures
        (#[trigger] limited(s, max)).len() <= max,
{
    reveal_strlit("...");
}

/// Limiting never empties text that has any characters.
pub broadcast proof fn lemma_limited_keeps_nonempty(s: Seq<char>, max: int)
    requires
        max >= 3,
        s.len() >= 1,
    ensures
        (#[trigger] limited(s, max)).len() >= 1,
{
    reveal_strlit("...");
}

/// Truncation keeps within the limit; text within the limit passes through
/// unchanged; truncated text is exactly `max` characters, ends with the
/// truncation marker, and starts with a prefix of the untruncated text.
pub proof fn lemma_limited_truncation(s: Seq<char>, max: int)
    requires
        max >= 3,
    ensures
        limited(s, max).len() <= max,
        s.len() <= max ==> limited(s, max) == s,
        s.len() > max ==> limited(s, max).len() == max,
        s.len() > max ==> limited(s, max).subrange(max - 3, max) == ellipsis(),
        s.len() > max ==> limited(s, max).subrange(0, max - 3) == s.subrange(0, max - 3),
{
    reveal_strlit("...");
    if s.len() > max {
        assert(limited(s, max).subrange(max - 3, max) =~= ellipsis());
        assert(limited(s, max).subrange(0, max - 3) =~= s.subrange(0, max - 3));
    }
}

/// Applies the length limit: text over `max_length` characters keeps its
/// first `max_length - 3` characters and gains `"..."`. Limits count
/// characters, so multi-byte text is never split inside a character.
pub fn limit_text_length(text: &str, max_length: usize) -> (r: String)
    requires
        max_length >= 3,
    ensures
        r@ == limited(text@, max_length as int),
{
    let len = text.unicode_len();
    if len > max_length {
        let prefix = text.substring_char(0, max_length - 3);
        let mut s = prefix.to_owned();
        s.append("...");
        s
    } else {
        text.to_owned()
    }
}

/// Why an embed could not be finished.
#[derive(Debug, Clone, Copy, PartialEq, Eq, Structural)]
pub enum Error {
    /// No title was set.
    Title,
    /// No url was set.
    Url,
    /// No author was set.
    Author,
}

/// The author block of a finished embed.
#[derive(Debug, Clone, PartialEq, Eq)]
pub struct EmbedAuthor {
    pub name: String,
    pub url: String,
    pub icon_url: String,
}

#[verifier::ext_equal]
pub ghost struct EmbedAuthorView {
    pub name: Seq<char>,
    pub url: Seq<char>,
    pub icon_url: Seq<char>,
}

impl View for EmbedAuthor {
    type V = EmbedAuthorView;

    open spec fn view(&self) -> EmbedAuthorView {
        EmbedAuthorView { name: self.name@, url: self.url@, icon_url: self.icon_url@ }
    }
}

/// The author block an actor maps to: login as display name (limited),
/// profile link, and avatar.
pub open spec fn embed_author_view(author: AuthorView) -> EmbedAuthorView {
    EmbedAuthorView {
        name: limited(author.login, MAX_AUTHOR_NAME_LENGTH as int),
        url: author.html_url,
        icon_url: author.avatar_url,
    }
}

fn embed_author(author: &Author) -> (r: EmbedAuthor)
    ensures
        r@ == embed_author_view(author@),
{
    EmbedAuthor {
        name: limit_text_length(author.login.as_str(), MAX_AUTHOR_NAME_LENGTH),
        url: author.html_url.clone(),
        icon_url: author.avatar_url.clone(),
    }
}

/// A finished notification payload.
#[derive(Debug, Clone, PartialEq, Eq)]
pub struct Embed {
    pub title: String,
    pub url: String,
    pub description: Option<String>,
    pub color: Option<u32>,
    pub author: EmbedAuthor,
}

#[verifier::ext_equal]
pub ghost struct EmbedView {
    pub title: Seq<char>,
    pub url: Seq<char>,
    pub description: Option<Seq<char>>,
    pub color: Option<u32>,
    pub author: EmbedAuthorView,
}

impl View for Embed {
    type V = EmbedView;

    open spec fn view(&self) -> EmbedView {
        EmbedView {
            title: self.title@,
            url: self.url@,
            description: self.description.deep_view(),
            color: self.color,
            author: self.author@,
        }
    }
}

/// The accumulator for an embed's fields.
#[derive(Debug)]
pub struct EmbedBuilder {
    title: Option<String>,
    url: Option<String>,
    author: Option<Author>,
    description: Option<String>,
    color: Option<u32>,
}

#[verifier::ext_equal]
pub ghost struct BuilderView {
    pub title: Option<Seq<char>>,
    pub url: Option<Seq<char>>,
    pub author: Option<AuthorView>,
    pub description: Option<Seq<char>>,
    pub color: Option<u32>,
}

impl BuilderView {
    /// The state of a fresh builder: nothing set.
    pub open spec fn empty() -> BuilderView {
        BuilderView { title: None, url: None, author: None, description: None, color: None }
    }
}

impl View for EmbedBuilder {
    type V = BuilderView;

    closed spec fn view(&self) -> BuilderView {
        BuilderView {
            title: self.title.deep_view(),
            url: self.url.deep_view(),
            author: self.author.deep_view(),
            description: self.description.deep_view(),
            color: self.color,
        }
    }
}

impl Default for EmbedBuilder {
    /// A builder with nothing set.
    fn default() -> (b: Self)
        ensures
            b@ == BuilderView::empty(),
    {
        EmbedBuilder { title: None, url: None, author: None, description: None, color: None }
    }
}

/// What finishing a builder yields: the embed when every required field is
/// set, and the first missing required field otherwise, checking the title,
/// then the url, then the author.
pub open spec fn build_result(b: BuilderView) -> Result<EmbedView, Error> {
    match b.title {
        None => Err(Error::Title),
        Some(title) => match b.url {
            None => Err(Error::Url),
            Some(url) => match b.author {
                None => Err(Error::Author),
                Some(author) => Ok(
                    EmbedView {
                        title: title,
                        url: url,
                        description: b.description,
                        color: b.color,
                        author: embed_author_view(author),
                    },
                ),
            },
        },
    }
}

/// `r` seen at the view level.
pub open spec fn built_view(r: Result<Embed, Error>) -> Result<EmbedView, Error> {
    match r {
        Ok(e) => Ok(e@),
        Err(e) => Err(e),
    }
}

impl EmbedBuilder {
    /// Sets the title, limited to [`MAX_TITLE_LENGTH`] characters.
    pub fn title(&mut self, title: &str)
        ensures
            final(self)@ == (BuilderView {
                title: Some(limited(title@, MAX_TITLE_LENGTH as int)),
                ..old(self)@
            }),
    {
        self.title = Some(limit_text_length(title, MAX_TITLE_LENGTH));
    }

    /// Sets the link the notification points at.
    pub fn url(&mut self, url: &str)
        ensures
            final(self)@ == (BuilderView { url: Some(url@), ..old(self)@ }),
    {
        self.url = Some(url.to_owned());
    }

    /// Sets the actor shown as the notification's author.
    pub fn author(&mut self, author: &Author)
        ensures
            final(self)@ == (BuilderView { author: Some(author@), ..old(self)@ }),
    {
        self.author = Some(
            Author {
                login: author.login.clone(),
                html_url: author.html_url.clone(),
                avatar_url: author.avatar_url.clone(),
                kind: author.kind,
            },
        );
    }

    /// Sets the description, limited to [`MAX_DESCRIPTION_LENGTH`] characters.
    pub fn description(&mut self, description: &str)
        ensures
            final(self)@ == (BuilderView {
                description: Some(limited(description@, MAX_DESCRIPTION_LENGTH as int)),
                ..old(self)@
            }),
    {
        self.description = Some(limit_text_length(description, MAX_DESCRIPTION_LENGTH));
    }

    /// Sets the color from a red, green, blue triple, packed as a 24-bit
    /// value.
    pub fn color(&mut self, rgb: (u8, u8, u8))
        ensures
            final(self)@ == (BuilderView { color: Some(rgb_value(rgb.0, rgb.1, rgb.2)), ..old(self)@ }),
    {
        let r: u32 = rgb.0 as u32;
        let g: u32 = rgb.1 as u32;
        let b: u32 = rgb.2 as u32;
        proof {
            assert((r << 16u32) | (g << 8u32) | b == r * 0x10000 + g * 0x100 + b) by (bit_vector)
                requires
                    r < 0x100,
                    g < 0x100,
                    b < 0x100,
            ;
        }
        self.color = Some((r << 16u32) | (g << 8u32) | b);
    }

    /// Finishes the builder: checks that title, url and author were set and
    /// returns the embed, or reports the first missing field.
    pub fn try_build(self) -> (r: Result<Embed, Error>)
        ensures
            built_view(r) == build_result(self@),
    {
        let title = match self.title {
            None => {
                return Err(Error::Title);
            },
            Some(t) => t,
        };
        let url = match self.url {
            None => {
                return Err(Error::Url);
            },
            Some(u) => u,
        };
        let author = match self.author {
            None => {
                return Err(Error::Author);
            },
            Some(a) => a,
        };
        let embed = Embed {
            title: title,
            url: url,
            description: self.description,
            color: self.color,
            author: embed_author(&author),
        };
        Ok(embed)
    }
}

} // verus!
