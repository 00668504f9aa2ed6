//! What one invocation asks for, read from its argument list.
use vstd::prelude::*;
use vstd::string::*;

verus! {

/// The operation that one invocation performs.
pub enum Action {
    /// Write the rule for the interface, then resynchronise udev.
    SetRule(String),
    /// Delete the rule file, then resynchronise udev for the interface.
    UnsetRule(String),
    /// Print the usage line and do nothing else.
    ShowUsage,
}

/// The model of an [`Action`], with the interface name as a sequence of characters.
pub enum Command {
    SetRule(Seq<char>),
    UnsetRule(Seq<char>),
    ShowUsage,
}

impl View for Action {
    type V = Command;

    open spec fn view(&self) -> Command {
        match self {
            Action::SetRule(name) => Command::SetRule(name@),
            Action::UnsetRule(name) => Command::UnsetRule(name@),
            Action::ShowUsage => Command::ShowUsage,
        }
    }
}

/// The command given by a full argument list, the program's name first.
/// Only `<program> set <name>` and `<program> unset <name>` ask for work;
/// any other count of arguments, or any other action word, asks for the
/// usage line.
pub open spec fn command_of(args: Seq<Seq<char>>) -> Command {
    if args.len() == 3 && args[1] == "set"@ {
        Command::SetRule(args[2])
    } else if args.len() == 3 && args[1] == "unset"@ {
        Command::UnsetRule(args[2])
    } else {
        Command::ShowUsage
    }
}

/// The usage line printed for `program`.
pub open spec fn usage_line(program: Seq<char>) -> Seq<char> {
    "Usage: "@ + program + " set|unset <interface_name>"@
}

/// Reads the action from the full argument list, the program's name first.
pub fn parse_args(args: &Vec<String>) -> (r: Action)
    ensures
        r@ == command_of(args.deep_view()),
{
    if args.len() != 3 {
        return Action::ShowUsage;
    }
    let set = String::from_str("set");
    let unset = String::from_str("unset");
    if args[1] == set {
        Action::SetRule(args[2].clone())
    } else if args[1] == unset {
        Action::UnsetRule(args[2].clone())
    } else {
        Action::ShowUsage
    }
}

/// Builds the usage line for `program`.
pub fn usage_message(program: &str) -> (r: String)
    ensures
        r@ == usage_line(program@),
{
    let mut r = String::from_str("Usage: ");
    r.append(program);
    r.append(" set|unset <interface_name>");
    r
}

} // verus!
