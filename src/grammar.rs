//! The command grammar and its parser.
//!
//! The accepted command lines are
//! `server [list]`, `server add <server-name> <homeserver>`,
//! `server delete <server-name>`, `connect <server-name>...` and
//! `disconnect <server-name>`; an empty line asks for help. The homeserver is
//! validated while parsing, before any handler sees it.
use vstd::prelude::*;
use vstd::string::*;
use crate::homeserver::{parse_url, url_parse_of};

verus! {

/// A positional argument of the grammar.
#[derive(PartialEq, Eq, Structural, Clone, Copy, Debug)]
pub enum Argument {
    ServerName,
    Homeserver,
}

/// A parsed command line: the subcommand path with its validated values.
#[derive(PartialEq, Eq, Clone, Debug)]
pub enum Command {
    Help,
    ListServers,
    AddServer { name: String, homeserver: String },
    DeleteServer { name: String },
    Connect { names: Vec<String> },
    Disconnect { name: String },
}

/// A command line that the grammar refuses.
#[derive(PartialEq, Eq, Clone, Debug)]
pub enum UsageError {
    UnknownSubcommand(String),
    MissingArgument(Argument),
    UnexpectedArgument(String),
    InvalidHomeserver(String),
}

pub enum CommandModel {
    Help,
    ListServers,
    AddServer { name: Seq<char>, homeserver: Seq<char> },
    DeleteServer { name: Seq<char> },
    Connect { names: Seq<Seq<char>> },
    Disconnect { name: Seq<char> },
}

pub enum UsageErrorModel {
    UnknownSubcommand(Seq<char>),
    MissingArgument(Argument),
    UnexpectedArgument(Seq<char>),
    InvalidHomeserver(Seq<char>),
}

impl View for Command {
    type V = CommandModel;

    open spec fn view(&self) -> CommandModel {
        match self {
            Command::Help => CommandModel::Help,
            Command::ListServers => CommandModel::ListServers,
            Command::AddServer { name, homeserver } => CommandModel::AddServer {
                name: name@,
                homeserver: homeserver@,
            },
            Command::DeleteServer { name } => CommandModel::DeleteServer { name: name@ },
            Command::Connect { names } => CommandModel::Connect { names: names.deep_view() },
            Command::Disconnect { name } => CommandModel::Disconnect { name: name@ },
        }
    }
}

impl View for UsageError {
    type V = UsageErrorModel;

    open spec fn view(&self) -> UsageErrorModel {
        match self {
            UsageError::UnknownSubcommand(t) => UsageErrorModel::UnknownSubcommand(t@),
            UsageError::MissingArgument(a) => UsageErrorModel::MissingArgument(*a),
            UsageError::UnexpectedArgument(t) => UsageErrorModel::UnexpectedArgument(t@),
            UsageError::InvalidHomeserver(t) => UsageErrorModel::InvalidHomeserver(t@),
        }
    }
}

/// The outcome of a parse, with its texts as character sequences.
pub open spec fn parse_model(r: Result<Command, UsageError>) -> Result<CommandModel, UsageErrorModel> {
    match r {
        Ok(c) => Ok(c@),
        Err(e) => Err(e@),
    }
}

/// What the homeserver validator makes of a value: its URL serialisation, or
/// an error naming the value.
pub open spec fn homeserver_spec(v: Seq<char>) -> Result<Seq<char>, UsageErrorModel> {
    match url_parse_of(v) {
        Some(u) => Ok(u),
        None => Err(UsageErrorModel::InvalidHomeserver(v)),
    }
}

/// The arguments of `server add`.
pub open spec fn parse_add(t: Seq<Seq<char>>) -> Result<CommandModel, UsageErrorModel> {
    if t.len() == 0 {
        Err(UsageErrorModel::MissingArgument(Argument::ServerName))
    } else if t.len() == 1 {
        Err(UsageErrorModel::MissingArgument(Argument::Homeserver))
    } else if t.len() > 2 {
        Err(UsageErrorModel::UnexpectedArgument(t[2]))
    } else {
        match homeserver_spec(t[1]) {
            Ok(u) => Ok(CommandModel::AddServer { name: t[0], homeserver: u }),
            Err(e) => Err(e),
        }
    }
}

/// The arguments of a subcommand that takes exactly one server name.
pub open spec fn parse_one_name(t: Seq<Seq<char>>) -> Result<Seq<char>, UsageErrorModel> {
    if t.len() == 0 {
        Err(UsageErrorModel::MissingArgument(Argument::ServerName))
    } else if t.len() > 1 {
        Err(UsageErrorModel::UnexpectedArgument(t[1]))
    } else {
        Ok(t[0])
    }
}

/// The tokens that follow `server`.
pub open spec fn parse_server(t: Seq<Seq<char>>) -> Result<CommandModel, UsageErrorModel> {
    if t.len() == 0 {
        Ok(CommandModel::ListServers)
    } else if t[0] == "list"@ {
        if t.len() > 1 {
            Err(UsageErrorModel::UnexpectedArgument(t[1]))
        } else {
            Ok(CommandModel::ListServers)
        }
    } else if t[0] == "add"@ {
        parse_add(t.drop_first())
    } else if t[0] == "delete"@ {
        match parse_one_name(t.drop_first()) {
            Ok(n) => Ok(CommandModel::DeleteServer { name: n }),
            Err(e) => Err(e),
        }
    } else {
        Err(UsageErrorModel::UnknownSubcommand(t[0]))
    }
}

/// What a command line, split into tokens, parses to.
pub open spec fn parse_spec(t: Seq<Seq<char>>) -> Result<CommandModel, UsageErrorModel> {
    if t.len() == 0 {
        Ok(CommandModel::Help)
    } else if t[0] == "server"@ {
        parse_server(t.drop_first())
    } else if t[0] == "connect"@ {
        if t.len() == 1 {
            Err(UsageErrorModel::MissingArgument(Argument::ServerName))
        } else {
            Ok(CommandModel::Connect { names: t.drop_first() })
        }
    } else if t[0] == "disconnect"@ {
        match parse_one_name(t.drop_first()) {
            Ok(n) => Ok(CommandModel::Disconnect { name: n }),
            Err(e) => Err(e),
        }
    } else {
        Err(UsageErrorModel::UnknownSubcommand(t[0]))
    }
}

/// The human-readable text of a usage error.
pub open spec fn usage_text(e: UsageErrorModel) -> Seq<char> {
    match e {
        UsageErrorModel::UnknownSubcommand(t) => "error: unrecognized subcommand '"@ + t + "'"@,
        UsageErrorModel::MissingArgument(Argument::ServerName) =>
            "error: the required argument <server-name> was not provided"@,
        UsageErrorModel::MissingArgument(Argument::Homeserver) =>
            "error: the required argument <homeserver> was not provided"@,
        UsageErrorModel::UnexpectedArgument(t) => "error: unexpected argument '"@ + t + "'"@,
        UsageErrorModel::InvalidHomeserver(t) => "error: invalid homeserver URL '"@ + t + "'"@,
    }
}

impl UsageError {
    /// The human-readable text of this error.
    pub fn message(&self) -> (r: String)
        ensures
            r@ == usage_text(self@),
    {
        match self {
            UsageError::UnknownSubcommand(t) => {
                let mut s = String::from_str("error: unrecognized subcommand '");
                s.append(t.as_str());
                s.append("'");
                s
            },
            UsageError::MissingArgument(Argument::ServerName) => String::from_str(
                "error: the required argument <server-name> was not provided",
            ),
            UsageError::MissingArgument(Argument::Homeserver) => String::from_str(
                "error: the required argument <homeserver> was not provided",
            ),
            UsageError::UnexpectedArgument(t) => {
                let mut s = String::from_str("error: unexpected argument '");
                s.append(t.as_str());
                s.append("'");
                s
            },
            UsageError::InvalidHomeserver(t) => {
                let mut s = String::from_str("error: invalid homeserver URL '");
                s.append(t.as_str());
                s.append("'");
                s
            },
        }
    }
}

fn is_word(t: &String, w: &str) -> (r: bool)
    ensures
        r == (t@ == w@),
{
    let owned = w.to_owned();
    t.eq(&owned)
}

/// Checks that `value` is an absolute URL and gives its serialisation.
pub fn validate_homeserver(value: &String) -> (r: Result<String, UsageError>)
    ensures
        match r {
            Ok(u) => homeserver_spec(value@) == Ok::<Seq<char>, UsageErrorModel>(u@),
            Err(e) => homeserver_spec(value@) == Err::<Seq<char>, UsageErrorModel>(e@),
        },
{
    match parse_url(value.as_str()) {
        Ok(u) => Ok(u),
        Err(_) => Err(UsageError::InvalidHomeserver(value.clone())),
    }
}

/// Parses a command line, given as its tokens without the command's own name.
pub fn parse_command(tokens: &Vec<String>) -> (r: Result<Command, UsageError>)
    ensures
        parse_model(r) == parse_spec(tokens.deep_view()),
{
    let ghost t = tokens.deep_view();
    let n = tokens.len();
    if n == 0 {
        return Ok(Command::Help);
    }
    assert(t[0] == tokens[0]@);
    if is_word(&tokens[0], "server") {
        let ghost s = t.drop_first();
        if n == 1 {
            return Ok(Command::ListServers);
        }
        assert(s[0] == tokens[1]@);
        if is_word(&tokens[1], "list") {
            if n > 2 {
                assert(s[1] == tokens[2]@);
                return Err(UsageError::UnexpectedArgument(tokens[2].clone()));
            }
            return Ok(Command::ListServers);
        } else if is_word(&tokens[1], "add") {
            let ghost a = s.drop_first();
            if n == 2 {
                return Err(UsageError::MissingArgument(Argument::ServerName));
            } else if n == 3 {
                return Err(UsageError::MissingArgument(Argument::Homeserver));
            } else if n > 4 {
                assert(a[2] == tokens[4]@);
                return Err(UsageError::UnexpectedArgument(tokens[4].clone()));
            }
            assert(a[0] == tokens[2]@ && a[1] == tokens[3]@);
            match validate_homeserver(&tokens[3]) {
                Ok(u) => Ok(Command::AddServer { name: tokens[2].clone(), homeserver: u }),
                Err(e) => Err(e),
            }
        } else if is_word(&tokens[1], "delete") {
            let ghost a = s.drop_first();
            if n == 2 {
                return Err(UsageError::MissingArgument(Argument::ServerName));
            } else if n > 3 {
                assert(a[1] == tokens[3]@);
                return Err(UsageError::UnexpectedArgument(tokens[3].clone()));
            }
            assert(a[0] == tokens[2]@);
            Ok(Command::DeleteServer { name: tokens[2].clone() })
        } else {
            Err(UsageError::UnknownSubcommand(tokens[1].clone()))
        }
    } else if is_word(&tokens[0], "connect") {
        if n == 1 {
            return Err(UsageError::MissingArgument(Argument::ServerName));
        }
        let mut names: Vec<String> = Vec::new();
        let mut i: usize = 1;
        while i < n
            invariant
                1 <= i <= n,
                n == tokens.len(),
                t == tokens.deep_view(),
                names.deep_view() =~= t.subrange(1, i as int),
            decreases n - i,
        {
            let ghost before = names.deep_view();
            names.push(tokens[i].clone());
            assert(names.deep_view() =~= before.push(t[i as int]));
            i = i + 1;
        }
        assert(names.deep_view() =~= t.drop_first());
        Ok(Command::Connect { names })
    } else if is_word(&tokens[0], "disconnect") {
        let ghost a = t.drop_first();
        if n == 1 {
            return Err(UsageError::MissingArgument(Argument::ServerName));
        } else if n > 2 {
            assert(a[1] == tokens[2]@);
            return Err(UsageError::UnexpectedArgument(tokens[2].clone()));
        }
        assert(a[0] == tokens[1]@);
        Ok(Command::Disconnect { name: tokens[1].clone() })
    } else {
        Err(UsageError::UnknownSubcommand(tokens[0].clone()))
    }
}

} // verus!
