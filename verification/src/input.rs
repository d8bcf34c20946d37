//! Operator commands, one per line of input.

use vstd::prelude::*;
use crate::machine::{Command, CommandModel};

verus! {

/// Why a line of input is no command.
#[derive(Debug, Clone, Copy, PartialEq, Eq, Structural)]
pub enum InputError {
    /// The line is neither `play <link>` nor `skip`.
    Unrecognised,
}

/// The model of a parsing result.
pub open spec fn parsed_model(r: Result<Command, InputError>) -> Result<CommandModel, InputError> {
    match r {
        Ok(c) => Ok(c@),
        Err(e) => Err(e),
    }
}

/// What a line of input asks for: `play ` followed by a link requests that
/// link, whatever characters it holds; the exact line `skip` requests a skip.
pub open spec fn parse_spec(line: Seq<char>) -> Result<CommandModel, InputError> {
    if line.len() >= 5 && line.subrange(0, 5) == "play "@ {
        Ok(CommandModel::Play { yt_link: line.subrange(5, line.len() as int) })
    } else if line == "skip"@ {
        Ok(CommandModel::Skip)
    } else {
        Err(InputError::Unrecognised)
    }
}

/// Parses one line of operator input.
pub fn parse_command(line: &str) -> (r: Result<Command, InputError>)
    ensures
        parsed_model(r) == parse_spec(line@),
{
    let n: usize = line.unicode_len();
    if n >= 5 {
        let head = line.substring_char(0, 5);
        if head.to_owned() == "play ".to_owned() {
            let rest = line.substring_char(5, n);
            return Ok(Command::Play { yt_link: rest.to_owned() });
        }
    }
    if line.to_owned() == "skip".to_owned() {
        Ok(Command::Skip)
    } else {
        Err(InputError::Unrecognised)
    }
}

} // verus!
