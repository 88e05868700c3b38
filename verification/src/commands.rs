//! The command set, the registration list, and the dispatcher that turns an
//! invocation into exactly one reply step.

use vstd::prelude::*;
use crate::embed::{
    Embed, EmbedView, spec_info_embed, spec_support_embed, spec_issues_embed, spec_error_embed,
    info_embed, support_embed, issues_embed, error_embed,
};
use crate::text::str_eq;

verus! {

/// The closed set of commands the bot registers. An interaction whose name
/// is outside this set is unrepresentable once parsing has succeeded.
#[derive(Clone, Copy, PartialEq, Eq, Structural, Debug)]
pub enum CommandName {
    Info,
    Weather,
    Support,
    Issues,
}

/// Which command a name denotes, if any.
pub open spec fn spec_parse_command(s: Seq<char>) -> Option<CommandName> {
    if s == "info"@ {
        Some(CommandName::Info)
    } else if s == "weather"@ {
        Some(CommandName::Weather)
    } else if s == "support"@ {
        Some(CommandName::Support)
    } else if s == "issues"@ {
        Some(CommandName::Issues)
    } else {
        None
    }
}

/// Parses a command name against the registered set.
pub fn parse_command_name(name: &str) -> (r: Option<CommandName>)
    ensures
        r == spec_parse_command(name@),
{
    if str_eq(name, "info") {
        Some(CommandName::Info)
    } else if str_eq(name, "weather") {
        Some(CommandName::Weather)
    } else if str_eq(name, "support") {
        Some(CommandName::Support)
    } else if str_eq(name, "issues") {
        Some(CommandName::Issues)
    } else {
        None
    }
}

/// The names registered with the platform, in registration order.
pub open spec fn spec_registered_names() -> Seq<Seq<char>> {
    seq!["info"@, "weather"@, "support"@, "issues"@]
}

/// One string-typed option of a registered command: its name, its
/// description, and whether the platform must require it.
pub struct RegisteredStringOption {
    pub name: String,
    pub description: String,
    pub required: bool,
}

/// The mathematical model of a `RegisteredStringOption`.
pub ghost struct RegisteredStringOptionView {
    pub name: Seq<char>,
    pub description: Seq<char>,
    pub required: bool,
}

impl View for RegisteredStringOption {
    type V = RegisteredStringOptionView;

    open spec fn view(&self) -> RegisteredStringOptionView {
        RegisteredStringOptionView {
            name: self.name@,
            description: self.description@,
            required: self.required,
        }
    }
}

/// One command as offered to the platform at registration: its name, its
/// description, and its option, if it has one. Every option this bot
/// registers is string-typed.
pub struct RegisteredCommand {
    pub name: String,
    pub description: String,
    pub option: Option<RegisteredStringOption>,
}

/// The mathematical model of a `RegisteredCommand`.
pub ghost struct RegisteredCommandView {
    pub name: Seq<char>,
    pub description: Seq<char>,
    pub option: Option<RegisteredStringOptionView>,
}

impl View for RegisteredCommand {
    type V = RegisteredCommandView;

    open spec fn view(&self) -> RegisteredCommandView {
        RegisteredCommandView {
            name: self.name@,
            description: self.description@,
            option: match self.option {
                Some(o) => Some(o@),
                None => None,
            },
        }
    }
}

/// The `place` option of the `weather` command: string-typed, and required,
/// since the weather lookup cannot run without a place.
pub open spec fn spec_place_option() -> RegisteredStringOptionView {
    RegisteredStringOptionView {
        name: "place"@,
        description: "City to return weather for. Required"@,
        required: true,
    }
}

/// The full registration list.
pub open spec fn spec_registered_commands() -> Seq<RegisteredCommandView> {
    seq![
        (RegisteredCommandView {
            name: "info"@,
            description: "Info about Kamela Bot"@,
            option: None,
        }),
        (RegisteredCommandView {
            name: "weather"@,
            description: "Returns information about the weather"@,
            option: Some(spec_place_option()),
        }),
        (RegisteredCommandView {
            name: "support"@,
            description: "Get support for Kamela Bot"@,
            option: None,
        }),
        (RegisteredCommandView {
            name: "issues"@,
            description: "View all open Kamela Bot issues"@,
            option: None,
        }),
    ]
}

/// The commands to register with the platform on startup.
pub fn registered_commands() -> (v: Vec<RegisteredCommand>)
    ensures
        v@.len() == spec_registered_commands().len(),
        forall|i: int|
            0 <= i < v@.len() ==> #[trigger] v@[i]@ == spec_registered_commands()[i],
{
    let mut v: Vec<RegisteredCommand> = Vec::new();
    v.push(RegisteredCommand {
        name: "info".to_owned(),
        description: "Info about Kamela Bot".to_owned(),
        option: None,
    });
    v.push(RegisteredCommand {
        name: "weather".to_owned(),
        description: "Returns information about the weather".to_owned(),
        option: Some(RegisteredStringOption {
            name: "place".to_owned(),
            description: "City to return weather for. Required".to_owned(),
            required: true,
        }),
    });
    v.push(RegisteredCommand {
        name: "support".to_owned(),
        description: "Get support for Kamela Bot".to_owned(),
        option: None,
    });
    v.push(RegisteredCommand {
        name: "issues".to_owned(),
        description: "View all open Kamela Bot issues".to_owned(),
        option: None,
    });
    proof {
        assert(v@[0]@ == spec_registered_commands()[0]);
        assert(v@[1]@ == spec_registered_commands()[1]);
        assert(v@[2]@ == spec_registered_commands()[2]);
        assert(v@[3]@ == spec_registered_commands()[3]);
    }
    v
}

/// Law: exactly one registered command carries an option — `weather`, whose
/// single option is string-typed, named `place`, and required.
pub proof fn lemma_weather_place_option()
    ensures
        spec_registered_commands()[1].name == "weather"@,
        spec_registered_commands()[1].option == Some(spec_place_option()),
        spec_place_option().name == "place"@,
        spec_place_option().required,
        forall|i: int|
            0 <= i < spec_registered_commands().len() && i != 1
                ==> #[trigger] spec_registered_commands()[i].option is None,
{
    assert forall|i: int|
        0 <= i < spec_registered_commands().len() && i != 1
        implies #[trigger] spec_registered_commands()[i].option is None by {
    }
}

/// One parsed interaction: a command of the registered set and the optional
/// `place` argument.
pub struct Invocation {
    pub name: CommandName,
    pub place: Option<String>,
}

/// The mathematical model of an `Invocation`.
pub ghost struct InvocationView {
    pub name: CommandName,
    pub place: Option<Seq<char>>,
}

impl View for Invocation {
    type V = InvocationView;

    open spec fn view(&self) -> InvocationView {
        InvocationView {
            name: self.name,
            place: match self.place {
                Some(p) => Some(p@),
                None => None,
            },
        }
    }
}

/// What the dispatcher decides for one invocation: either the reply is
/// already determined, or a forecast for the given place is needed first.
pub enum Step {
    Reply(Embed),
    NeedsForecast(String),
}

/// The mathematical model of a `Step`.
pub ghost enum StepView {
    Reply(EmbedView),
    NeedsForecast(Seq<char>),
}

impl View for Step {
    type V = StepView;

    open spec fn view(&self) -> StepView {
        match self {
            Step::Reply(e) => StepView::Reply(e@),
            Step::NeedsForecast(p) => StepView::NeedsForecast(p@),
        }
    }
}

/// The reply sent when the `weather` command arrives without its `place`
/// argument.
pub open spec fn spec_missing_place_message() -> Seq<char> {
    "the place argument is required"@
}

/// What the dispatcher does with each invocation.
pub open spec fn spec_dispatch(inv: InvocationView) -> StepView {
    match inv.name {
        CommandName::Info => StepView::Reply(spec_info_embed()),
        CommandName::Support => StepView::Reply(spec_support_embed()),
        CommandName::Issues => StepView::Reply(spec_issues_embed()),
        CommandName::Weather => match inv.place {
            Some(p) => StepView::NeedsForecast(p),
            None => StepView::Reply(spec_error_embed(spec_missing_place_message())),
        },
    }
}

/// Turns one invocation into one step: a static reply for `info`, `support`
/// and `issues`; for `weather`, a forecast request when the place argument
/// is present and an error reply when it is absent.
pub fn dispatch(inv: Invocation) -> (s: Step)
    ensures
        s@ == spec_dispatch(inv@),
{
    match inv.name {
        CommandName::Info => Step::Reply(info_embed()),
        CommandName::Support => Step::Reply(support_embed()),
        CommandName::Issues => Step::Reply(issues_embed()),
        CommandName::Weather => match inv.place {
            Some(p) => Step::NeedsForecast(p),
            None => Step::Reply(error_embed("the place argument is required")),
        },
    }
}

/// Law: the `info` command yields the static info payload whatever the
/// arguments of the invocation are.
pub proof fn lemma_info_ignores_arguments(place: Option<Seq<char>>)
    ensures
        spec_dispatch((InvocationView { name: CommandName::Info, place })) == StepView::Reply(
            spec_info_embed(),
        ),
{
}

/// Law: a name parses to a command exactly when it is one of the names the
/// bot registers: the matched set and the registered set are identical.
pub proof fn lemma_parsed_iff_registered(s: Seq<char>)
    ensures
        spec_parse_command(s) is Some <==> spec_registered_names().contains(s),
{
    if spec_parse_command(s) is Some {
        if s == "info"@ {
            assert(spec_registered_names()[0] == s);
        } else if s == "weather"@ {
            assert(spec_registered_names()[1] == s);
        } else if s == "support"@ {
            assert(spec_registered_names()[2] == s);
        } else {
            assert(spec_registered_names()[3] == s);
        }
    }
    if spec_registered_names().contains(s) {
        let i = choose|i: int|
            0 <= i < spec_registered_names().len() && spec_registered_names()[i] == s;
        assert(s == spec_registered_names()[i]);
    }
}

/// Law: the registration list carries exactly the registered names, in
/// registration order.
pub proof fn lemma_registration_list_names()
    ensures
        spec_registered_commands().len() == spec_registered_names().len(),
        forall|i: int|
            0 <= i < spec_registered_names().len() ==> #[trigger] spec_registered_commands()[i].name
                == spec_registered_names()[i],
{
    assert forall|i: int|
        0 <= i < spec_registered_names().len() implies #[trigger] spec_registered_commands()[i].name
        == spec_registered_names()[i] by {
    }
}

} // verus!
