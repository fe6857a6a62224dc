use vstd::prelude::*;
use crate::dates::{hh_mm_parse, parse_time_of_day, TimeOfDay};
use crate::error::{SimilariumError, SimilariumErrorType};

verus! {

/// A slash command of the game.
#[derive(Debug, Clone, Copy, PartialEq, Eq, Structural)]
pub enum Command {
    Help,
    ManualStart,
    ManualEnd,
    Debug,
    Start(TimeOfDay),
    Stop,
}

/// The position of the first space in `s`, if any.
pub open spec fn first_space(s: Seq<char>) -> Option<int> {
    if exists|i: int| 0 <= i < s.len() && s[i] == ' ' {
        Some(choose|i: int| 0 <= i < s.len() && s[i] == ' ' && forall|k: int| 0 <= k < i ==> s[k] != ' ')
    } else {
        None
    }
}

/// `s` split at its first space, the space dropped; `(s, "")` without one.
pub open spec fn split_command(s: Seq<char>) -> (Seq<char>, Seq<char>) {
    match first_space(s) {
        Some(i) => (s.subrange(0, i), s.subrange(i + 1, s.len() as int)),
        None => (s, Seq::empty()),
    }
}

/// The message for a start command without a time.
pub open spec fn missing_time_message() -> Seq<char> {
    ":no_entry_sign: You must specify a time to start the game every day in a 24-hour HH:MM format"@
}

/// The message for a start command whose time does not parse.
pub open spec fn bad_time_message() -> Seq<char> {
    ":no_entry_sign: Unable to parse the time, please specify it in a 24-hour HH:MM format"@
}

/// The command that `text` asks for, or the message of the validation
/// error that it gets.
pub open spec fn command_of(text: Seq<char>) -> Result<Command, Seq<char>> {
    let (first, rest) = split_command(text);
    if first == "help"@ {
        Ok(Command::Help)
    } else if first == "start"@ {
        if rest.len() == 0 {
            Err(missing_time_message())
        } else {
            match hh_mm_parse(rest) {
                Some(p) => Ok(Command::Start(TimeOfDay { hour: p.0, minute: p.1, second: 0 })),
                None => Err(bad_time_message()),
            }
        }
    } else if first == "stop"@ {
        Ok(Command::Stop)
    } else if first == "manual"@ && rest == "start"@ {
        Ok(Command::ManualStart)
    } else if first == "manual"@ && rest == "end"@ {
        Ok(Command::ManualEnd)
    } else if first == "debug"@ {
        Ok(Command::Debug)
    } else if rest.len() > 0 {
        Err("Unknown command: "@ + first + seq![' '] + rest)
    } else {
        Err("Unknown command: "@ + first)
    }
}

/// Splits `text` at its first space.
fn split_once_space(text: &str) -> (r: (String, String))
    ensures
        r.0@ == split_command(text@).0,
        r.1@ == split_command(text@).1,
{
    let n = text.unicode_len();
    let mut i: usize = 0;
    while i < n
        invariant
            i <= n,
            n == text@.len(),
            forall|k: int| 0 <= k < i ==> text@[k] != ' ',
        decreases n - i,
    {
        if text.get_char(i) == ' ' {
            proof {
                let j = choose|j: int| 0 <= j < text@.len() && text@[j] == ' ' && forall|k: int| 0 <= k < j ==> text@[k] != ' ';
                if j < i {
                    assert(text@[j] != ' ');
                } else if j > i {
                    assert(text@[i as int] != ' ');
                }
            }
            let first = text.substring_char(0, i).to_string();
            let rest = text.substring_char(i + 1, n).to_string();
            return (first, rest);
        }
        i = i + 1;
    }
    (text.to_string(), String::new())
}

/// Reads a slash command from the text after the command name.
pub fn parse_command(text: &str) -> (r: Result<Command, SimilariumError>)
    ensures
        match command_of(text@) {
            Ok(c) => r == Ok::<Command, SimilariumError>(c),
            Err(m) => r matches Err(e) && e.error_type == SimilariumErrorType::ValidationError
                && (e.message matches Some(msg) && msg@ == m),
        },
{
    let (first, rest) = split_once_space(text);
    proof {
        reveal_strlit("help");
        reveal_strlit("start");
        reveal_strlit("stop");
        reveal_strlit("manual");
        reveal_strlit("end");
        reveal_strlit("debug");
        reveal_strlit("Unknown command: ");
        reveal_strlit(" ");
        reveal_strlit(":no_entry_sign: You must specify a time to start the game every day in a 24-hour HH:MM format");
        reveal_strlit(":no_entry_sign: Unable to parse the time, please specify it in a 24-hour HH:MM format");
    }
    if first == String::from_str("help") {
        Ok(Command::Help)
    } else if first == String::from_str("start") {
        if rest.as_str().unicode_len() == 0 {
            Err(SimilariumError::validation(String::from_str(
                ":no_entry_sign: You must specify a time to start the game every day in a 24-hour HH:MM format",
            )))
        } else {
            match parse_time_of_day(rest.as_str()) {
                Some(t) => Ok(Command::Start(t)),
                None => Err(SimilariumError::validation(String::from_str(
                    ":no_entry_sign: Unable to parse the time, please specify it in a 24-hour HH:MM format",
                ))),
            }
        }
    } else if first == String::from_str("stop") {
        Ok(Command::Stop)
    } else if first == String::from_str("manual") && rest == String::from_str("start") {
        Ok(Command::ManualStart)
    } else if first == String::from_str("manual") && rest == String::from_str("end") {
        Ok(Command::ManualEnd)
    } else if first == String::from_str("debug") {
        Ok(Command::Debug)
    } else {
        let mut message = String::from_str("Unknown command: ");
        message.append(first.as_str());
        if rest.as_str().unicode_len() > 0 {
            message.append(" ");
            message.append(rest.as_str());
        }
        Err(SimilariumError::validation(message))
    }
}

} // verus!
