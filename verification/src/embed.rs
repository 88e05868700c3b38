//! Reply payloads: a structured embed with title, description, colour and
//! footer, and builders for the static replies the bot can send.

use vstd::prelude::*;

verus! {

/// Accent colour of ordinary replies.
pub const PRIMARY_COLOUR: u32 = 0xDFFF00;

/// Accent colour of error replies.
pub const ERROR_COLOUR: u32 = 0xFF0037;

/// A rich reply payload: the one thing the dispatcher produces for every
/// interaction.
pub struct Embed {
    pub title: String,
    pub description: String,
    pub colour: u32,
    pub footer: String,
}

/// The mathematical model of an `Embed`: its four fields as plain values.
pub ghost struct EmbedView {
    pub title: Seq<char>,
    pub description: Seq<char>,
    pub colour: u32,
    pub footer: Seq<char>,
}

impl View for Embed {
    type V = EmbedView;

    open spec fn view(&self) -> EmbedView {
        EmbedView {
            title: self.title@,
            description: self.description@,
            colour: self.colour,
            footer: self.footer@,
        }
    }
}

/// The footer line every reply carries.
pub open spec fn spec_footer() -> Seq<char> {
    "Kamela Bot v0.1.0"@
}

/// The static reply to the `info` command.
pub open spec fn spec_info_embed() -> EmbedView {
    EmbedView {
        title: "Info"@,
        description: "An open-source general-purpose Discord utility bot written in Rust."@,
        colour: PRIMARY_COLOUR,
        footer: spec_footer(),
    }
}

/// The static reply to the `support` command.
pub open spec fn spec_support_embed() -> EmbedView {
    EmbedView {
        title: "Get support for Kamela Bot at https://github.com/Theboiboi8/kamela-bot/issues/new"@,
        description: "Support"@,
        colour: PRIMARY_COLOUR,
        footer: spec_footer(),
    }
}

/// The static reply to the `issues` command.
pub open spec fn spec_issues_embed() -> EmbedView {
    EmbedView {
        title: "View all issues for Kamela Bot at https://github.com/Theboiboi8/kamela-bot/issues"@,
        description: "Issues"@,
        colour: PRIMARY_COLOUR,
        footer: spec_footer(),
    }
}

/// An error reply: fixed title and colour, `"Error: "` followed by the
/// message in the description.
pub open spec fn spec_error_embed(message: Seq<char>) -> EmbedView {
    EmbedView {
        title: "Error!"@,
        description: "Error: "@ + message,
        colour: ERROR_COLOUR,
        footer: spec_footer(),
    }
}

/// A successful weather reply: the place in the title, the headline and the
/// resolved location in the description.
pub open spec fn spec_weather_embed(place: Seq<char>, location: Seq<char>, overview: Seq<char>) -> EmbedView {
    EmbedView {
        title: "Weather: "@ + place,
        description: "Forecast: "@ + overview + " in "@ + location,
        colour: PRIMARY_COLOUR,
        footer: spec_footer(),
    }
}

/// Law: the title of a successful weather reply contains the requested
/// place: it is exactly `"Weather: "` followed by the place.
pub proof fn lemma_weather_title_contains_place(
    place: Seq<char>,
    location: Seq<char>,
    overview: Seq<char>,
)
    ensures
        spec_weather_embed(place, location, overview).title.len() == 9 + place.len(),
        spec_weather_embed(place, location, overview).title.subrange(
            9,
            9 + place.len() as int,
        ) == place,
{
    reveal_strlit("Weather: ");
    assert(spec_weather_embed(place, location, overview).title.subrange(
        9,
        9 + place.len() as int,
    ) =~= place);
}

pub fn footer_text() -> (s: String)
    ensures
        s@ == spec_footer(),
{
    "Kamela Bot v0.1.0".to_owned()
}

pub fn info_embed() -> (e: Embed)
    ensures
        e@ == spec_info_embed(),
{
    Embed {
        title: "Info".to_owned(),
        description: "An open-source general-purpose Discord utility bot written in Rust.".to_owned(),
        colour: PRIMARY_COLOUR,
        footer: footer_text(),
    }
}

pub fn support_embed() -> (e: Embed)
    ensures
        e@ == spec_support_embed(),
{
    Embed {
        title: "Get support for Kamela Bot at https://github.com/Theboiboi8/kamela-bot/issues/new".to_owned(),
        description: "Support".to_owned(),
        colour: PRIMARY_COLOUR,
        footer: footer_text(),
    }
}

pub fn issues_embed() -> (e: Embed)
    ensures
        e@ == spec_issues_embed(),
{
    Embed {
        title: "View all issues for Kamela Bot at https://github.com/Theboiboi8/kamela-bot/issues".to_owned(),
        description: "Issues".to_owned(),
        colour: PRIMARY_COLOUR,
        footer: footer_text(),
    }
}

pub fn error_embed(message: &str) -> (e: Embed)
    ensures
        e@ == spec_error_embed(message@),
{
    Embed {
        title: "Error!".to_owned(),
        description: "Error: ".to_owned().concat(message),
        colour: ERROR_COLOUR,
        footer: footer_text(),
    }
}

pub fn weather_embed(place: &str, location: &str, overview: &str) -> (e: Embed)
    ensures
        e@ == spec_weather_embed(place@, location@, overview@),
{
    Embed {
        title: "Weather: ".to_owned().concat(place),
        description: "Forecast: ".to_owned().concat(overview).concat(" in ").concat(location),
        colour: PRIMARY_COLOUR,
        footer: footer_text(),
    }
}

} // verus!
