//! Commands exchanged between the user interfaces and the agent environment, and the
//! parser that turns a line of user input into one.
use vstd::prelude::*;
use crate::ids::NIL_ID;
use crate::text::{chars_of, find_char, first_index_of, lemma_first_index_of_bounds, owned, str_eq, trim, trimmed};

verus! {

broadcast use vstd::string::group_string_axioms;

/// Commands that the agent environment handles (they start tasks).
pub enum AgentEnvironmentCommand {
    /// Send a prompt to a worker.
    Prompt { worker_id: u128, text: String },
    /// Compact the conversation history of a worker.
    Compact { worker_id: u128, instruction: Option<String> },
    /// Quit the application.
    Quit,
}

/// Commands that a user interface handles itself (display only).
#[derive(Clone, Copy, Debug, PartialEq, Eq, Structural)]
pub enum UiCommand {
    /// Token usage statistics.
    Usage,
    /// Context information.
    Context,
    /// Worker status.
    Status,
    /// The list of workers.
    Workers,
}

/// A parsed line of user input.
pub enum Command {
    /// Forwarded to the agent environment.
    Agent(AgentEnvironmentCommand),
    /// Handled by the user interface.
    Ui(UiCommand),
}

/// What a user interface hands to the agent environment.
pub enum PromptResult {
    /// A command to execute.
    Command(AgentEnvironmentCommand),
    /// The user asked to shut down.
    Shutdown,
}

/// Why a line of input is not a command.
pub enum ParseError {
    /// The name after `/` is not a known command.
    UnknownCommand(String),
}

/// The mathematical form of an agent command: texts as character sequences.
pub enum AgentCommandView {
    Prompt { worker_id: u128, text: Seq<char> },
    Compact { worker_id: u128, instruction: Option<Seq<char>> },
    Quit,
}

/// The mathematical form of a parsed command.
pub enum CommandView {
    Agent(AgentCommandView),
    Ui(UiCommand),
}

pub open spec fn opt_view(o: Option<String>) -> Option<Seq<char>> {
    match o {
        Some(s) => Some(s@),
        None => None,
    }
}

impl View for AgentEnvironmentCommand {
    type V = AgentCommandView;

    open spec fn view(&self) -> AgentCommandView {
        match self {
            AgentEnvironmentCommand::Prompt { worker_id, text } => AgentCommandView::Prompt {
                worker_id: *worker_id,
                text: text@,
            },
            AgentEnvironmentCommand::Compact { worker_id, instruction } =>
                AgentCommandView::Compact { worker_id: *worker_id, instruction: opt_view(*instruction) },
            AgentEnvironmentCommand::Quit => AgentCommandView::Quit,
        }
    }
}

impl View for Command {
    type V = CommandView;

    open spec fn view(&self) -> CommandView {
        match self {
            Command::Agent(c) => CommandView::Agent(c@),
            Command::Ui(u) => CommandView::Ui(*u),
        }
    }
}

impl View for ParseError {
    type V = Seq<char>;

    /// The unknown command name.
    open spec fn view(&self) -> Seq<char> {
        match self {
            ParseError::UnknownCommand(name) => name@,
        }
    }
}

impl ParseError {
    /// The message of the error, as its `Display` form reads.
    pub fn to_string(&self) -> (s: String)
        ensures
            s@ == "Unknown command: "@ + self@,
    {
        match self {
            ParseError::UnknownCommand(name) => {
                let mut s = owned("Unknown command: ");
                s.append(name.as_str());
                s
            },
        }
    }
}

/// The command name of an explicit command: the text after `/` up to the first space.
pub open spec fn command_word(rest: Seq<char>) -> Seq<char> {
    rest.take(first_index_of(rest, ' ', 0))
}

/// The argument of an explicit command: the text after the first space, if there is one.
pub open spec fn command_argument(rest: Seq<char>) -> Option<Seq<char>> {
    let k = first_index_of(rest, ' ', 0);
    if k < rest.len() {
        Some(rest.skip(k + 1))
    } else {
        None
    }
}

/// How a line of user input is read: after trimming, a line that starts with `/` names a
/// command (its first word), anything else is a prompt for the worker.
pub open spec fn parse_spec(input: Seq<char>) -> Result<CommandView, Seq<char>> {
    let t = trimmed(input);
    if t.len() > 0 && t[0] == '/' {
        let rest = t.drop_first();
        let word = command_word(rest);
        if word == "quit"@ || word == "q"@ {
            Ok(CommandView::Agent(AgentCommandView::Quit))
        } else if word == "compact"@ {
            Ok(
                CommandView::Agent(
                    AgentCommandView::Compact { worker_id: NIL_ID, instruction: command_argument(rest) },
                ),
            )
        } else if word == "usage"@ {
            Ok(CommandView::Ui(UiCommand::Usage))
        } else if word == "context"@ {
            Ok(CommandView::Ui(UiCommand::Context))
        } else if word == "status"@ {
            Ok(CommandView::Ui(UiCommand::Status))
        } else if word == "workers"@ {
            Ok(CommandView::Ui(UiCommand::Workers))
        } else {
            Err(word)
        }
    } else {
        Ok(CommandView::Agent(AgentCommandView::Prompt { worker_id: NIL_ID, text: t }))
    }
}

/// Parser of user input.
pub struct CommandParser;

impl CommandParser {
    /// Parses a line of user input: `/quit` (or `/q`), `/compact [instruction]`, `/usage`,
    /// `/context`, `/status`, `/workers`, or else a prompt. Worker identifiers are nil; the
    /// user interface fills them in.
    pub fn parse(input: &str) -> (res: Result<Command, ParseError>)
        ensures
            match res {
                Ok(c) => parse_spec(input@) == Ok::<CommandView, Seq<char>>(c@),
                Err(e) => parse_spec(input@) == Err::<CommandView, Seq<char>>(e@),
            },
    {
        let t = trim(input);
        let tv = chars_of(t);
        if tv.len() > 0 && tv[0] == '/' {
            let rest = t.substring_char(1, tv.len());
            let rv = chars_of(rest);
            assert(rv@ =~= t@.drop_first());
            let k = find_char(&rv, ' ');
            proof {
                lemma_first_index_of_bounds(rv@, ' ', 0);
            }
            let word = rest.substring_char(0, k);
            assert(word@ =~= command_word(rv@));
            proof {
                reveal_strlit("quit");
                reveal_strlit("q");
                reveal_strlit("compact");
                reveal_strlit("usage");
                reveal_strlit("context");
                reveal_strlit("status");
                reveal_strlit("workers");
            }
            if str_eq(word, "quit") || str_eq(word, "q") {
                Ok(Command::Agent(AgentEnvironmentCommand::Quit))
            } else if str_eq(word, "compact") {
                let instruction = if k < rv.len() {
                    let arg = rest.substring_char(k + 1, rv.len());
                    assert(arg@ =~= rv@.skip(k + 1));
                    Some(owned(arg))
                } else {
                    None
                };
                Ok(Command::Agent(AgentEnvironmentCommand::Compact { worker_id: NIL_ID, instruction }))
            } else if str_eq(word, "usage") {
                Ok(Command::Ui(UiCommand::Usage))
            } else if str_eq(word, "context") {
                Ok(Command::Ui(UiCommand::Context))
            } else if str_eq(word, "status") {
                Ok(Command::Ui(UiCommand::Status))
            } else if str_eq(word, "workers") {
                Ok(Command::Ui(UiCommand::Workers))
            } else {
                Err(ParseError::UnknownCommand(owned(word)))
            }
        } else {
            Ok(Command::Agent(AgentEnvironmentCommand::Prompt { worker_id: NIL_ID, text: owned(t) }))
        }
    }
}

} // verus!
