//! The command dispatcher: from one slash-command invocation to the single
//! text that answers it.
//!
//! Dispatching is split where the forecast lookup has to happen. [`dispatch`]
//! decides what an invocation asks for; where that is a lookup, the caller
//! performs it and gives the outcome to [`render`]. Neither keeps anything
//! between calls.

use crate::scan::{first_where, lemma_first_where_is};
use crate::weather::{
    outcome_view, Forecast, Location, LocationView, ResolveError, ResolveErrorView,
};
use vstd::prelude::*;

verus! {

/// Name of the greeting command.
pub const HELLO_COMMAND: &'static str = "hello";

/// Name of the forecast command.
pub const WEATHER_COMMAND: &'static str = "weather";

/// Name of the forecast command's one argument.
pub const OPTION_NAME: &'static str = "place";

/// The value of a command argument. A number is only told apart from the other
/// kinds: no command reads one.
#[derive(Debug, Clone, PartialEq, Eq)]
pub enum ArgumentValue {
    Text(String),
    Number,
    Boolean(bool),
}

/// What an [`ArgumentValue`] stands for in contracts.
pub enum ArgumentValueView {
    Text(Seq<char>),
    Number,
    Boolean(bool),
}

impl View for ArgumentValue {
    type V = ArgumentValueView;

    open spec fn view(&self) -> ArgumentValueView {
        match self {
            ArgumentValue::Text(text) => ArgumentValueView::Text(text@),
            ArgumentValue::Number => ArgumentValueView::Number,
            ArgumentValue::Boolean(flag) => ArgumentValueView::Boolean(*flag),
        }
    }
}

/// A named argument of an invocation; the platform may deliver it without a value.
#[derive(Debug, Clone, PartialEq, Eq)]
pub struct CommandArgument {
    pub name: String,
    pub value: Option<ArgumentValue>,
}

/// What a [`CommandArgument`] stands for in contracts.
pub struct CommandArgumentView {
    pub name: Seq<char>,
    pub value: Option<ArgumentValueView>,
}

impl CommandArgumentView {
    /// The argument's value where it is a text.
    pub open spec fn text(self) -> Option<Seq<char>> {
        match self.value {
            Some(ArgumentValueView::Text(text)) => Some(text),
            _ => None,
        }
    }
}

impl View for CommandArgument {
    type V = CommandArgumentView;

    open spec fn view(&self) -> CommandArgumentView {
        CommandArgumentView {
            name: self.name@,
            value: match self.value {
                Some(value) => Some(value@),
                None => None,
            },
        }
    }
}

impl CommandArgument {
    /// The argument's value where it is a text.
    pub fn text(&self) -> (text: Option<&str>)
        ensures
            match text {
                Some(text) => self@.text() == Some(text@),
                None => self@.text() is None,
            },
    {
        match &self.value {
            Some(ArgumentValue::Text(text)) => Some(text.as_str()),
            _ => None,
        }
    }
}

/// One user-issued command: its name and the arguments that came with it.
#[derive(Debug, Clone, PartialEq, Eq)]
pub struct CommandInvocation {
    pub name: String,
    pub arguments: Vec<CommandArgument>,
}

/// What a [`CommandInvocation`] stands for in contracts.
pub struct CommandInvocationView {
    pub name: Seq<char>,
    pub arguments: Seq<CommandArgumentView>,
}

/// Index of the first of `arguments` that is called `name`; the length of
/// `arguments` where none is.
pub open spec fn first_named(arguments: Seq<CommandArgumentView>, name: Seq<char>) -> nat {
    first_where(arguments, is_named(name))
}

/// The property of being called `name`.
pub open spec fn is_named(name: Seq<char>) -> spec_fn(CommandArgumentView) -> bool {
    |argument: CommandArgumentView| argument.name == name
}

impl CommandInvocationView {
    /// The first argument called `name`.
    pub open spec fn argument(self, name: Seq<char>) -> Option<CommandArgumentView> {
        let at = first_named(self.arguments, name);
        if at < self.arguments.len() {
            Some(self.arguments[at as int])
        } else {
            None
        }
    }

    /// The place to look up: the text of the first argument called `place`.
    pub open spec fn place(self) -> Option<Seq<char>> {
        match self.argument(OPTION_NAME@) {
            Some(argument) => argument.text(),
            None => None,
        }
    }

    /// The platform validates arguments before delivery: a forecast command
    /// comes with its place. Every other invocation is well formed.
    pub open spec fn is_well_formed(self) -> bool {
        self.name == WEATHER_COMMAND@ ==> self.place() is Some
    }
}

impl View for CommandInvocation {
    type V = CommandInvocationView;

    open spec fn view(&self) -> CommandInvocationView {
        CommandInvocationView {
            name: self.name@,
            arguments: self.arguments@.map_values(|argument: CommandArgument| argument@),
        }
    }
}

impl CommandInvocation {
    /// The first argument called `name`.
    pub fn argument(&self, name: &str) -> (found: Option<&CommandArgument>)
        ensures
            match found {
                Some(argument) => self@.argument(name@) == Some(argument@),
                None => self@.argument(name@) is None,
            },
    {
        let wanted = String::from_str(name);
        let mut at: usize = 0;
        while at < self.arguments.len()
            invariant
                at <= self.arguments.len(),
                wanted@ == name@,
                forall|j: int| 0 <= j < at ==> self@.arguments[j].name != name@,
            decreases self.arguments.len() - at,
        {
            if self.arguments[at].name == wanted {
                proof {
                    lemma_first_where_is(self@.arguments, is_named(name@), at as int);
                }
                return Some(&self.arguments[at]);
            }
            at += 1;
        }
        proof {
            lemma_first_where_is(self@.arguments, is_named(name@), at as int);
        }
        None
    }

    /// The place to look up: the text of the first argument called `place`.
    pub fn place(&self) -> (place: Option<&str>)
        ensures
            match place {
                Some(place) => self@.place() == Some(place@),
                None => self@.place() is None,
            },
    {
        match self.argument(OPTION_NAME) {
            Some(argument) => argument.text(),
            None => None,
        }
    }

    /// Whether the invocation carries what its command needs.
    pub fn is_well_formed(&self) -> (well_formed: bool)
        ensures
            well_formed == self@.is_well_formed(),
    {
        if self.name == String::from_str(WEATHER_COMMAND) {
            self.place().is_some()
        } else {
            true
        }
    }
}

/// What an invocation asks for.
#[derive(Debug, Clone, PartialEq, Eq)]
pub enum Dispatch {
    /// Answer with this text; nothing else is to be done.
    Reply(String),
    /// Look up the forecast for this place and answer with what [`render`]
    /// makes of the outcome.
    Lookup(String),
    /// No such command: answer with this text and record the incident.
    Unknown(String),
}

/// What a [`Dispatch`] stands for in contracts.
pub enum DispatchView {
    Reply(Seq<char>),
    Lookup(Seq<char>),
    Unknown(Seq<char>),
}

impl View for Dispatch {
    type V = DispatchView;

    open spec fn view(&self) -> DispatchView {
        match self {
            Dispatch::Reply(text) => DispatchView::Reply(text@),
            Dispatch::Lookup(place) => DispatchView::Lookup(place@),
            Dispatch::Unknown(text) => DispatchView::Unknown(text@),
        }
    }
}

/// The answer to a command that the dispatcher does not know.
pub open spec fn unknown_command_message(name: Seq<char>) -> Seq<char> {
    "Unknown command: "@ + name
}

/// What a well-formed invocation asks for.
pub open spec fn dispatch_spec(invocation: CommandInvocationView) -> DispatchView {
    if invocation.name == HELLO_COMMAND@ {
        DispatchView::Reply("hello"@)
    } else if invocation.name == WEATHER_COMMAND@ {
        DispatchView::Lookup(invocation.place()->0)
    } else {
        DispatchView::Unknown(unknown_command_message(invocation.name))
    }
}

/// Decides what `invocation` asks for. The greeting is answered at once and
/// without a lookup; the forecast command asks for a lookup of its place; any
/// other name is answered with a diagnostic.
pub fn dispatch(invocation: &CommandInvocation) -> (asked: Dispatch)
    requires
        invocation@.is_well_formed(),
    ensures
        asked@ == dispatch_spec(invocation@),
{
    if invocation.name == String::from_str(HELLO_COMMAND) {
        Dispatch::Reply(String::from_str("hello"))
    } else if invocation.name == String::from_str(WEATHER_COMMAND) {
        Dispatch::Lookup(String::from_str(invocation.place().unwrap()))
    } else {
        let mut text = String::from_str("Unknown command: ");
        text.append(invocation.name.as_str());
        Dispatch::Unknown(text)
    }
}

/// The answer that the outcome of a lookup is shown as.
pub open spec fn render_spec(
    outcome: Result<(LocationView, Seq<char>), ResolveErrorView>,
) -> Seq<char> {
    match outcome {
        Ok((location, overview)) => "Forecast: "@ + overview + " in "@ + location.display(),
        Err(error) => "Err: "@ + error.message(),
    }
}

/// Turns the outcome of the lookup that [`dispatch`] asked for into the answer.
/// Every failure becomes a text; none is passed on.
pub fn render(outcome: &Result<(Location, Forecast), ResolveError>) -> (text: String)
    ensures
        text@ == render_spec(outcome_view(*outcome)),
{
    match outcome {
        Ok((location, forecast)) => {
            let mut text = String::from_str("Forecast: ");
            text.append(forecast.headline.overview.as_str());
            text.append(" in ");
            text.append(location.to_string().as_str());
            text
        },
        Err(error) => {
            let mut text = String::from_str("Err: ");
            text.append(error.to_string().as_str());
            text
        },
    }
}

/// A command that the dispatcher does not know is answered, not refused: the
/// answer is a text that is not empty, and no lookup is asked for.
pub proof fn lemma_unknown_command_answered(invocation: CommandInvocationView)
    requires
        invocation.name != HELLO_COMMAND@,
        invocation.name != WEATHER_COMMAND@,
    ensures
        invocation.is_well_formed(),
        dispatch_spec(invocation) == DispatchView::Unknown(
            unknown_command_message(invocation.name),
        ),
        unknown_command_message(invocation.name).len() > 0,
{
    reveal_strlit("Unknown command: ");
}

/// Whatever a lookup comes to, it is answered with a text that is not empty: a
/// failure is shown as `Err: ` and its message, and never passed on.
pub proof fn lemma_every_outcome_is_answered(
    outcome: Result<(LocationView, Seq<char>), ResolveErrorView>,
)
    ensures
        render_spec(outcome).len() > 0,
        outcome is Err ==> render_spec(outcome) == "Err: "@ + outcome->Err_0.message(),
{
    reveal_strlit("Forecast: ");
    reveal_strlit("Err: ");
}

/// The greeting needs no lookup, whatever arguments come with it.
pub proof fn lemma_hello_needs_no_lookup(invocation: CommandInvocationView)
    requires
        invocation.name == HELLO_COMMAND@,
    ensures
        invocation.is_well_formed(),
        dispatch_spec(invocation) == DispatchView::Reply("hello"@),
{
    reveal_strlit("hello");
    reveal_strlit("weather");
    assert(HELLO_COMMAND@.len() == 5);
    assert(WEATHER_COMMAND@.len() == 7);
}

} // verus!
