//! The slash commands that the bot registers with the platform, as plain data.
//!
//! Registering them is the caller's business. Their shape is the dispatcher's:
//! it knows exactly these commands, and the platform checks an invocation
//! against these definitions before it delivers it.

use crate::dispatch::{
    dispatch_spec, ArgumentValueView, CommandInvocationView, DispatchView, HELLO_COMMAND,
    OPTION_NAME, WEATHER_COMMAND,
};
use vstd::prelude::*;

verus! {

/// The kind of value that a command option takes.
#[derive(Debug, Clone, Copy, PartialEq, Eq, Structural)]
pub enum OptionKind {
    Text,
    Number,
    Boolean,
}

impl OptionKind {
    /// Whether `value` is of this kind.
    pub open spec fn admits(self, value: ArgumentValueView) -> bool {
        match (self, value) {
            (OptionKind::Text, ArgumentValueView::Text(_)) => true,
            (OptionKind::Number, ArgumentValueView::Number) => true,
            (OptionKind::Boolean, ArgumentValueView::Boolean(_)) => true,
            _ => false,
        }
    }
}

/// One option of a command.
#[derive(Debug, Clone, PartialEq, Eq)]
pub struct CommandOption {
    pub name: String,
    pub description: String,
    pub kind: OptionKind,
    pub required: bool,
}

/// What a [`CommandOption`] stands for in contracts.
pub struct CommandOptionView {
    pub name: Seq<char>,
    pub description: Seq<char>,
    pub kind: OptionKind,
    pub required: bool,
}

impl View for CommandOption {
    type V = CommandOptionView;

    open spec fn view(&self) -> CommandOptionView {
        CommandOptionView {
            name: self.name@,
            description: self.description@,
            kind: self.kind,
            required: self.required,
        }
    }
}

/// One command: its name, what it is for, and the options it takes.
#[derive(Debug, Clone, PartialEq, Eq)]
pub struct CommandDefinition {
    pub name: String,
    pub description: String,
    pub options: Vec<CommandOption>,
}

/// What a [`CommandDefinition`] stands for in contracts.
pub struct CommandDefinitionView {
    pub name: Seq<char>,
    pub description: Seq<char>,
    pub options: Seq<CommandOptionView>,
}

impl View for CommandDefinition {
    type V = CommandDefinitionView;

    open spec fn view(&self) -> CommandDefinitionView {
        CommandDefinitionView {
            name: self.name@,
            description: self.description@,
            options: self.options@.map_values(|option: CommandOption| option@),
        }
    }
}

impl CommandDefinitionView {
    /// Whether `invocation` passes the platform's check against this
    /// definition: each required option comes with a value of its kind.
    pub open spec fn admits(self, invocation: CommandInvocationView) -> bool {
        forall|at: int|
            0 <= at < self.options.len() && (#[trigger] self.options[at]).required ==> {
                &&& invocation.argument(self.options[at].name) is Some
                &&& invocation.argument(self.options[at].name)->0.value is Some
                &&& self.options[at].kind.admits(
                    invocation.argument(self.options[at].name)->0.value->0,
                )
            }
    }
}

/// The greeting: no options.
pub open spec fn hello_definition() -> CommandDefinitionView {
    CommandDefinitionView {
        name: HELLO_COMMAND@,
        description: "Say hello"@,
        options: Seq::empty(),
    }
}

/// The forecast command: one required text option, the place.
pub open spec fn weather_definition() -> CommandDefinitionView {
    CommandDefinitionView {
        name: WEATHER_COMMAND@,
        description: "Display the weather"@,
        options: seq![
            CommandOptionView {
                name: OPTION_NAME@,
                description: "City to lookup forecast"@,
                kind: OptionKind::Text,
                required: true,
            },
        ],
    }
}

/// The commands of the bot, in the order in which they are registered.
pub open spec fn registered_commands_spec() -> Seq<CommandDefinitionView> {
    seq![hello_definition(), weather_definition()]
}

/// A list of commands, as contracts read it.
pub open spec fn definitions_view(commands: Vec<CommandDefinition>) -> Seq<CommandDefinitionView> {
    commands@.map_values(|command: CommandDefinition| command@)
}

/// The commands to register with the platform.
pub fn registered_commands() -> (commands: Vec<CommandDefinition>)
    ensures
        definitions_view(commands) == registered_commands_spec(),
{
    let hello = CommandDefinition {
        name: String::from_str(HELLO_COMMAND),
        description: String::from_str("Say hello"),
        options: Vec::new(),
    };
    let place = CommandOption {
        name: String::from_str(OPTION_NAME),
        description: String::from_str("City to lookup forecast"),
        kind: OptionKind::Text,
        required: true,
    };
    let mut options: Vec<CommandOption> = Vec::new();
    options.push(place);
    let weather = CommandDefinition {
        name: String::from_str(WEATHER_COMMAND),
        description: String::from_str("Display the weather"),
        options,
    };
    assert(weather@ == weather_definition()) by {
        assert(weather@.options =~= weather_definition().options);
    }
    assert(hello@ == hello_definition()) by {
        assert(hello@.options =~= hello_definition().options);
    }
    let mut commands: Vec<CommandDefinition> = Vec::new();
    commands.push(hello);
    commands.push(weather);
    assert(definitions_view(commands) =~= registered_commands_spec());
    commands
}

/// Whether a command called `name` is registered.
pub open spec fn is_registered(name: Seq<char>) -> bool {
    exists|at: int|
        0 <= at < registered_commands_spec().len() && (#[trigger] registered_commands_spec()[at]).name
            == name
}

/// The dispatcher knows the registered commands and no others.
pub proof fn lemma_dispatcher_knows_registered(invocation: CommandInvocationView)
    ensures
        is_registered(invocation.name) <==> !(dispatch_spec(invocation) is Unknown),
{
    let commands = registered_commands_spec();
    assert(commands[0].name == HELLO_COMMAND@);
    assert(commands[1].name == WEATHER_COMMAND@);
}

/// An invocation that passed the platform's check against the registered
/// commands is well formed for the dispatcher, and the other way round.
pub proof fn lemma_admitted_is_well_formed(invocation: CommandInvocationView)
    ensures
        invocation.is_well_formed() <==> (forall|at: int|
            0 <= at < registered_commands_spec().len() && (
            #[trigger] registered_commands_spec()[at]).name == invocation.name
                ==> registered_commands_spec()[at].admits(invocation)),
{
    reveal_strlit("hello");
    reveal_strlit("weather");
    assert(HELLO_COMMAND@.len() == 5);
    assert(WEATHER_COMMAND@.len() == 7);
    let commands = registered_commands_spec();
    let hello = commands[0];
    let weather = commands[1];
    assert(hello == hello_definition());
    assert(weather == weather_definition());
    assert(hello.admits(invocation));
    assert(weather.options[0].required);
    assert(weather.admits(invocation) <==> invocation.place() is Some) by {
        let option = weather.options[0];
        assert(option.name == OPTION_NAME@);
        if invocation.place() is Some {
            assert(weather.admits(invocation));
        }
        if weather.admits(invocation) {
            assert(option.required);
            assert(invocation.argument(option.name) is Some);
        }
    }
    if invocation.is_well_formed() {
        assert forall|at: int|
            0 <= at < commands.len() && (#[trigger] commands[at]).name
                == invocation.name implies commands[at].admits(invocation) by {
            if at == 1 {
                assert(commands[at] == weather);
            } else {
                assert(commands[at] == hello);
            }
        }
    }
}

} // verus!
