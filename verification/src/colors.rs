//! The color palette of the notifications: one 24-bit color per event
//! family, taken from catppuccin's mocha flavor.
use vstd::prelude::*;

verus! {

/// A red, green, blue triple packed as a 24-bit value.
pub open spec fn rgb_value(r: u8, g: u8, b: u8) -> u32 {
    (r * 0x10000 + g * 0x100 + b) as u32
}

/// Color of `issues` events and of comments on plain issues (mocha green).
pub const ISSUE_COLOR: u32 = 0xA6E3A1;

/// Color of `discussion` events and their comments (mocha peach).
pub const DISCUSSION_COLOR: u32 = 0xFAB387;

/// Color of pull-request events, reviews and review comments (mocha blue).
pub const PULL_REQUEST_COLOR: u32 = 0x89B4FA;

/// Color of `repository` events (mocha yellow).
pub const REPO_COLOR: u32 = 0xF9E2AF;

/// Color of `release` events (mocha mauve).
pub const RELEASE_COLOR: u32 = 0xCBA6F7;

/// Color of `membership` events (mocha base).
pub const MEMBERSHIP_COLOR: u32 = 0x1E1E2E;

/// Color of `commit_comment` events (mocha teal).
pub const COMMIT_COLOR: u32 = 0x94E2D5;

/// Color of deleted repositories and of error reports (mocha red).
pub const RED_COLOR: u32 = 0xF38BA8;

/// Color of transferred repositories (mocha pink).
pub const PINK_COLOR: u32 = 0xF5C2E7;

/// Relies on catppuccin's constant palette: mocha green is rgb(166, 227, 161).
#[verifier::external_body]
fn mocha_green() -> (c: (u8, u8, u8))
    ensures
        c == (166u8, 227u8, 161u8),
{
    let rgb = catppuccin::PALETTE.mocha.colors.green.rgb;
    (rgb.r, rgb.g, rgb.b)
}

/// Relies on catppuccin's constant palette: mocha peach is rgb(250, 179, 135).
#[verifier::external_body]
fn mocha_peach() -> (c: (u8, u8, u8))
    ensures
        c == (250u8, 179u8, 135u8),
{
    let rgb = catppuccin::PALETTE.mocha.colors.peach.rgb;
    (rgb.r, rgb.g, rgb.b)
}

/// Relies on catppuccin's constant palette: mocha blue is rgb(137, 180, 250).
#[verifier::external_body]
fn mocha_blue() -> (c: (u8, u8, u8))
    ensures
        c == (137u8, 180u8, 250u8),
{
    let rgb = catppuccin::PALETTE.mocha.colors.blue.rgb;
    (rgb.r, rgb.g, rgb.b)
}

/// Relies on catppuccin's constant palette: mocha yellow is rgb(249, 226, 175).
#[verifier::external_body]
fn mocha_yellow() -> (c: (u8, u8, u8))
    ensures
        c == (249u8, 226u8, 175u8),
{
    let rgb = catppuccin::PALETTE.mocha.colors.yellow.rgb;
    (rgb.r, rgb.g, rgb.b)
}

/// Relies on catppuccin's constant palette: mocha mauve is rgb(203, 166, 247).
#[verifier::external_body]
fn mocha_mauve() -> (c: (u8, u8, u8))
    ensures
        c == (203u8, 166u8, 247u8),
{
    let rgb = catppuccin::PALETTE.mocha.colors.mauve.rgb;
    (rgb.r, rgb.g, rgb.b)
}

/// Relies on catppuccin's constant palette: mocha base is rgb(30, 30, 46).
#[verifier::external_body]
fn mocha_base() -> (c: (u8, u8, u8))
    ensures
        c == (30u8, 30u8, 46u8),
{
    let rgb = catppuccin::PALETTE.mocha.colors.base.rgb;
    (rgb.r, rgb.g, rgb.b)
}

/// Relies on catppuccin's constant palette: mocha teal is rgb(148, 226, 213).
#[verifier::external_body]
fn mocha_teal() -> (c: (u8, u8, u8))
    ensures
        c == (148u8, 226u8, 213u8),
{
    let rgb = catppuccin::PALETTE.mocha.colors.teal.rgb;
    (rgb.r, rgb.g, rgb.b)
}

/// Relies on catppuccin's constant palette: mocha red is rgb(243, 139, 168).
#[verifier::external_body]
fn mocha_red() -> (c: (u8, u8, u8))
    ensures
        c == (243u8, 139u8, 168u8),
{
    let rgb = catppuccin::PALETTE.mocha.colors.red.rgb;
    (rgb.r, rgb.g, rgb.b)
}

/// Relies on catppuccin's constant palette: mocha pink is rgb(245, 194, 231).
#[verifier::external_body]
fn mocha_pink() -> (c: (u8, u8, u8))
    ensures
        c == (245u8, 194u8, 231u8),
{
    let rgb = catppuccin::PALETTE.mocha.colors.pink.rgb;
    (rgb.r, rgb.g, rgb.b)
}

/// The triple behind [`ISSUE_COLOR`].
pub fn issue_rgb() -> (c: (u8, u8, u8))
    ensures
        rgb_value(c.0, c.1, c.2) == ISSUE_COLOR,
{
    mocha_green()
}

/// The triple behind [`DISCUSSION_COLOR`].
pub fn discussion_rgb() -> (c: (u8, u8, u8))
    ensures
        rgb_value(c.0, c.1, c.2) == DISCUSSION_COLOR,
{
    mocha_peach()
}

/// The triple behind [`PULL_REQUEST_COLOR`].
pub fn pull_request_rgb() -> (c: (u8, u8, u8))
    ensures
        rgb_value(c.0, c.1, c.2) == PULL_REQUEST_COLOR,
{
    mocha_blue()
}

/// The triple behind [`REPO_COLOR`].
pub fn repo_rgb() -> (c: (u8, u8, u8))
    ensures
        rgb_value(c.0, c.1, c.2) == REPO_COLOR,
{
    mocha_yellow()
}

/// The triple behind [`RELEASE_COLOR`].
pub fn release_rgb() -> (c: (u8, u8, u8))
    ensures
        rgb_value(c.0, c.1, c.2) == RELEASE_COLOR,
{
    mocha_mauve()
}

/// The triple behind [`MEMBERSHIP_COLOR`].
pub fn membership_rgb() -> (c: (u8, u8, u8))
    ensures
        rgb_value(c.0, c.1, c.2) == MEMBERSHIP_COLOR,
{
    mocha_base()
}

/// The triple behind [`COMMIT_COLOR`].
pub fn commit_rgb() -> (c: (u8, u8, u8))
    ensures
        rgb_value(c.0, c.1, c.2) == COMMIT_COLOR,
{
    mocha_teal()
}

/// The triple behind [`RED_COLOR`].
pub fn red_rgb() -> (c: (u8, u8, u8))
    ensures
        rgb_value(c.0, c.1, c.2) == RED_COLOR,
{
    mocha_red()
}

/// The triple behind [`PINK_COLOR`].
pub fn pink_rgb() -> (c: (u8, u8, u8))
    ensures
        rgb_value(c.0, c.1, c.2) == PINK_COLOR,
{
    mocha_pink()
}

} // verus!
