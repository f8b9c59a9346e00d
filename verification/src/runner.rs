//! What a running build step reports: its output lines as messages, and the
//! way it ended as a final message and result.
use vstd::prelude::*;
use vstd::string::StringExecFns;
use crate::process::{MessageItem, ShowEnum};
use crate::text::{decimal, decimal_string};

verus! {

/// The message for one line of a command's output: the line with its line
/// break restored, plain for standard output and as warning for standard
/// error.
pub fn output_message(line: &str, from_stderr: bool) -> (m: MessageItem)
    ensures
        m.msg@ == line@ + "\n"@,
        m.kind == (if from_stderr { ShowEnum::Warn } else { ShowEnum::Normal }),
{
    let mut msg = line.to_owned();
    msg.append("\n");
    MessageItem { msg, kind: if from_stderr { ShowEnum::Warn } else { ShowEnum::Normal } }
}

/// How a finished command is reported: the message shown, and the result of
/// the step, which carries the same text.
pub struct ExitReport {
    pub message: MessageItem,
    pub result: Result<String, String>,
}

/// The text reported for a command that ended by `signal` or with exit `code`.
pub open spec fn exit_text(signal: Option<i32>, code: Option<i32>) -> Seq<char> {
    match signal {
        Some(s) => "Signal "@ + decimal(s as int) + "\n"@,
        None => match code {
            Some(c) => if c != 0 {
                "Returncode "@ + decimal(c as int) + "\n"@
            } else {
                "Ok\n"@
            },
            None => "No signal no exit ?"@,
        },
    }
}

/// A command succeeded when it was not ended by a signal and exited with 0.
pub open spec fn exit_ok(signal: Option<i32>, code: Option<i32>) -> bool {
    signal is None && code == Some(0i32)
}

/// How the message about the end of a command is shown.
pub open spec fn exit_kind(signal: Option<i32>, code: Option<i32>) -> ShowEnum {
    if exit_ok(signal, code) {
        ShowEnum::Good
    } else if signal is None && code is None {
        ShowEnum::Warn
    } else {
        ShowEnum::Error
    }
}

/// Reports the end of a command from its exit status: the signal that ended
/// it, if any, else its exit code, if any.
pub fn exit_report(signal: Option<i32>, code: Option<i32>) -> (r: ExitReport)
    ensures
        r.message.msg@ == exit_text(signal, code),
        r.message.kind == exit_kind(signal, code),
        r.result is Ok <==> exit_ok(signal, code),
        match r.result {
            Ok(t) => t@ == exit_text(signal, code),
            Err(t) => t@ == exit_text(signal, code),
        },
{
    let (text, kind, ok) = match signal {
        Some(s) => {
            let mut t = "Signal ".to_owned();
            t.append(decimal_string(s as i64).as_str());
            t.append("\n");
            (t, ShowEnum::Error, false)
        },
        None => match code {
            Some(c) => {
                if c != 0 {
                    let mut t = "Returncode ".to_owned();
                    t.append(decimal_string(c as i64).as_str());
                    t.append("\n");
                    (t, ShowEnum::Error, false)
                } else {
                    ("Ok\n".to_owned(), ShowEnum::Good, true)
                }
            },
            None => ("No signal no exit ?".to_owned(), ShowEnum::Warn, false),
        },
    };
    let result = if ok { Ok(text.clone()) } else { Err(text.clone()) };
    ExitReport { message: MessageItem { msg: text, kind }, result }
}

/// A text tag of the output view: its name and its foreground colour.
pub struct TagStyle {
    pub name: String,
    pub foreground: String,
}

/// The tag a message of kind `kind` is shown with; plain messages have none.
pub open spec fn tag_of(kind: ShowEnum) -> Option<(Seq<char>, Seq<char>)> {
    match kind {
        ShowEnum::Normal => None,
        ShowEnum::Warn => Some(("warnTag"@, "orange"@)),
        ShowEnum::Good => Some(("goodTag"@, "green"@)),
        ShowEnum::Error => Some(("failTag"@, "red"@)),
    }
}

/// The text tag for messages of kind `kind`, if they have one.
pub fn tag_for(kind: ShowEnum) -> (r: Option<TagStyle>)
    ensures
        match tag_of(kind) {
            Some((name, color)) => r matches Some(t) && t.name@ == name && t.foreground@ == color,
            None => r is None,
        },
{
    match kind {
        ShowEnum::Normal => None,
        ShowEnum::Warn => Some(TagStyle { name: "warnTag".to_owned(), foreground: "orange".to_owned() }),
        ShowEnum::Good => Some(TagStyle { name: "goodTag".to_owned(), foreground: "green".to_owned() }),
        ShowEnum::Error => Some(TagStyle { name: "failTag".to_owned(), foreground: "red".to_owned() }),
    }
}

} // verus!
