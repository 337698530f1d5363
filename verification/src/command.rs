//! The command surface: one command per line, a name and at most one
//! argument, separated by the first space.

use vstd::prelude::*;
use vstd::string::*;

verus! {

/// White space as the standard library trims it: the characters with the
/// Unicode property `White_Space`.
pub open spec fn is_space(c: char) -> bool {
    let code = c as u32;
    ||| 0x09 <= code <= 0x0D
    ||| code == 0x20
    ||| code == 0x85
    ||| code == 0xA0
    ||| code == 0x1680
    ||| 0x2000 <= code <= 0x200A
    ||| code == 0x2028
    ||| code == 0x2029
    ||| code == 0x202F
    ||| code == 0x205F
    ||| code == 0x3000
}

/// A text without its leading white space.
pub open spec fn trimmed_start(text: Seq<char>) -> Seq<char>
    decreases text.len(),
{
    if text.len() > 0 && is_space(text[0]) {
        trimmed_start(text.subrange(1, text.len() as int))
    } else {
        text
    }
}

/// A text without its trailing white space.
pub open spec fn trimmed_end(text: Seq<char>) -> Seq<char>
    decreases text.len(),
{
    if text.len() > 0 && is_space(text.last()) {
        trimmed_end(text.drop_last())
    } else {
        text
    }
}

/// A text without the white space around it.
pub open spec fn trimmed(text: Seq<char>) -> Seq<char> {
    trimmed_end(trimmed_start(text))
}

/// Without the white space before its first character that is none, a text
/// is what stands from that character on.
pub proof fn lemma_trimmed_start(text: Seq<char>, from: int)
    requires
        0 <= from <= text.len(),
        forall|j: int| 0 <= j < from ==> is_space(#[trigger] text[j]),
        from == text.len() || !is_space(text[from]),
    ensures
        trimmed_start(text) == text.subrange(from, text.len() as int),
    decreases from,
{
    if from == 0 {
        assert(text.subrange(0, text.len() as int) =~= text);
    } else {
        let rest = text.subrange(1, text.len() as int);
        assert(is_space(text[0]));
        assert forall|j: int| 0 <= j < from - 1 implies is_space(#[trigger] rest[j]) by {
            assert(is_space(text[j + 1]));
        }
        lemma_trimmed_start(rest, from - 1);
        assert(rest.subrange(from - 1, rest.len() as int) =~= text.subrange(
            from,
            text.len() as int,
        ));
    }
}

/// Without the white space behind its last character that is none, a text
/// is what stands up to that character.
pub proof fn lemma_trimmed_end(text: Seq<char>, to: int)
    requires
        0 <= to <= text.len(),
        forall|j: int| to <= j < text.len() ==> is_space(#[trigger] text[j]),
        to == 0 || !is_space(text[to - 1]),
    ensures
        trimmed_end(text) == text.subrange(0, to),
    decreases text.len() - to,
{
    if to == text.len() {
        assert(text.subrange(0, to) =~= text);
    } else {
        let rest = text.drop_last();
        assert(is_space(text.last()));
        assert forall|j: int| to <= j < rest.len() implies is_space(#[trigger] rest[j]) by {
            assert(is_space(text[j]));
        }
        lemma_trimmed_end(rest, to);
        assert(rest.subrange(0, to) =~= text.subrange(0, to));
    }
}

/// Whether a character is white space.
pub fn is_white(c: char) -> (white: bool)
    ensures
        white == is_space(c),
{
    let code = c as u32;
    (0x09 <= code && code <= 0x0D) || code == 0x20 || code == 0x85 || code == 0xA0 || code
        == 0x1680 || (0x2000 <= code && code <= 0x200A) || code == 0x2028 || code == 0x2029 || code
        == 0x202F || code == 0x205F || code == 0x3000
}

/// The text without the white space around it.
fn trim(text: &str) -> (inner: &str)
    ensures
        inner@ == trimmed(text@),
{
    let n = text.unicode_len();
    let mut from: usize = 0;
    loop
        invariant
            from <= n,
            n == text@.len(),
            forall|j: int| 0 <= j < from ==> is_space(#[trigger] text@[j]),
        ensures
            from <= n,
            forall|j: int| 0 <= j < from ==> is_space(#[trigger] text@[j]),
            from == n || !is_space(text@[from as int]),
        decreases n - from,
    {
        if from == n {
            break ;
        }
        if !is_white(text.get_char(from)) {
            break ;
        }
        from += 1;
    }
    let mut to: usize = n;
    loop
        invariant
            from <= to <= n,
            n == text@.len(),
            forall|j: int| to <= j < n ==> is_space(#[trigger] text@[j]),
        ensures
            from <= to <= n,
            forall|j: int| to <= j < n ==> is_space(#[trigger] text@[j]),
            to == from || !is_space(text@[to - 1]),
        decreases to - from,
    {
        if to == from {
            break ;
        }
        if !is_white(text.get_char(to - 1)) {
            break ;
        }
        to -= 1;
    }
    proof {
        let led = text@.subrange(from as int, n as int);
        lemma_trimmed_start(text@, from as int);
        assert forall|j: int| to - from <= j < led.len() implies is_space(#[trigger] led[j]) by {
            assert(is_space(text@[j + from]));
        }
        lemma_trimmed_end(led, to - from);
        assert(led.subrange(0, to - from) =~= text@.subrange(from as int, to as int));
    }
    text.substring_char(from, to)
}

/// The text before the first space and the text after it, or nothing where
/// there is no space.
fn split_at_space(text: &str) -> (parts: Option<(&str, &str)>)
    ensures
        match parts {
            Some((head, tail)) => text@ == head@ + seq![' '] + tail@ && !head@.contains(' '),
            None => !text@.contains(' '),
        },
{
    let n = text.unicode_len();
    let mut at: usize = 0;
    while at < n
        invariant
            at <= n,
            n == text@.len(),
            forall|j: int| 0 <= j < at ==> text@[j] != ' ',
        decreases n - at,
    {
        if text.get_char(at) == ' ' {
            let head = text.substring_char(0, at);
            let tail = text.substring_char(at + 1, n);
            proof {
                assert(text@ =~= head@ + seq![' '] + tail@);
            }
            return Some((head, tail));
        }
        at += 1;
    }
    None
}

/// Whether two texts are the same.
fn same(a: &str, b: &str) -> (equal: bool)
    ensures
        equal == (a@ == b@),
{
    a.to_owned() == b.to_owned()
}

/// A command of the operator.
#[derive(Debug)]
pub enum Command {
    Help,
    List,
    Clear,
    Commit,
    Rollback,
    Exit,
    Add(String),
    Remove(String),
    Search(String),
    /// Anything else: a name that is not a command's, an argument where
    /// none is taken, none where one is needed.
    Unknown { name: String, arg: Option<String> },
}

/// The model of a [`Command`].
pub enum CommandView {
    Help,
    List,
    Clear,
    Commit,
    Rollback,
    Exit,
    Add(Seq<char>),
    Remove(Seq<char>),
    Search(Seq<char>),
    Unknown { name: Seq<char>, arg: Option<Seq<char>> },
}

impl View for Command {
    type V = CommandView;

    open spec fn view(&self) -> CommandView {
        match self {
            Command::Help => CommandView::Help,
            Command::List => CommandView::List,
            Command::Clear => CommandView::Clear,
            Command::Commit => CommandView::Commit,
            Command::Rollback => CommandView::Rollback,
            Command::Exit => CommandView::Exit,
            Command::Add(path) => CommandView::Add(path@),
            Command::Remove(path) => CommandView::Remove(path@),
            Command::Search(query) => CommandView::Search(query@),
            Command::Unknown { name, arg } => CommandView::Unknown {
                name: name@,
                arg: match arg {
                    Some(arg) => Some(arg@),
                    None => None,
                },
            },
        }
    }
}

/// The command that a name and an argument stand for, both taken as they
/// are.
pub open spec fn command_of(name: Seq<char>, arg: Option<Seq<char>>) -> CommandView {
    match arg {
        None => if name == "help"@ {
            CommandView::Help
        } else if name == "clear"@ {
            CommandView::Clear
        } else if name == "list"@ {
            CommandView::List
        } else if name == "commit"@ {
            CommandView::Commit
        } else if name == "rollback"@ {
            CommandView::Rollback
        } else if name == "exit"@ {
            CommandView::Exit
        } else {
            CommandView::Unknown { name, arg }
        },
        Some(value) => if name == "add"@ {
            CommandView::Add(value)
        } else if name == "remove"@ {
            CommandView::Remove(value)
        } else if name == "search"@ {
            CommandView::Search(value)
        } else {
            CommandView::Unknown { name, arg }
        },
    }
}

/// The position of the first space of a text; its length where there is
/// none.
pub open spec fn first_space(text: Seq<char>) -> int
    decreases text.len(),
{
    if text.len() == 0 || text[0] == ' ' {
        0
    } else {
        1 + first_space(text.subrange(1, text.len() as int))
    }
}

/// The first space of a text stands behind the longest head without one.
pub proof fn lemma_first_space(head: Seq<char>, tail: Seq<char>)
    requires
        !head.contains(' '),
    ensures
        first_space(head + seq![' '] + tail) == head.len(),
    decreases head.len(),
{
    let whole = head + seq![' '] + tail;
    if head.len() == 0 {
        assert(whole[0] == ' ');
    } else {
        assert(whole[0] == head[0]);
        assert(head.contains(head[0]));
        let rest = head.subrange(1, head.len() as int);
        assert forall|i: int| 0 <= i < rest.len() implies rest[i] != ' ' by {
            assert(head.contains(head[i + 1]));
        }
        assert(whole.subrange(1, whole.len() as int) =~= rest + seq![' '] + tail);
        lemma_first_space(rest, tail);
    }
}

/// The command of a line: nothing for a line of white space; else the name
/// is what stands before the first space and the argument what follows it,
/// each without the white space around it.
pub open spec fn line_command(line: Seq<char>) -> Option<CommandView> {
    if trimmed(line).len() == 0 {
        None
    } else if line.contains(' ') {
        let at = first_space(line);
        Some(
            command_of(
                trimmed(line.subrange(0, at)),
                Some(trimmed(line.subrange(at + 1, line.len() as int))),
            ),
        )
    } else {
        Some(command_of(trimmed(line), None))
    }
}

/// Reads a command from a name and an argument, trimming both.
pub fn parse_command(name: &str, arg: Option<&str>) -> (command: Command)
    ensures
        command@ == command_of(
            trimmed(name@),
            match arg {
                Some(arg) => Some(trimmed(arg@)),
                None => None,
            },
        ),
{
    let name = trim(name);
    match arg {
        None => {
            if same(name, "help") {
                Command::Help
            } else if same(name, "clear") {
                Command::Clear
            } else if same(name, "list") {
                Command::List
            } else if same(name, "commit") {
                Command::Commit
            } else if same(name, "rollback") {
                Command::Rollback
            } else if same(name, "exit") {
                Command::Exit
            } else {
                Command::Unknown { name: name.to_owned(), arg: None }
            }
        },
        Some(arg) => {
            let arg = trim(arg);
            if same(name, "add") {
                Command::Add(arg.to_owned())
            } else if same(name, "remove") {
                Command::Remove(arg.to_owned())
            } else if same(name, "search") {
                Command::Search(arg.to_owned())
            } else {
                Command::Unknown { name: name.to_owned(), arg: Some(arg.to_owned()) }
            }
        },
    }
}

/// Reads the command of a line; a line of white space holds none.
pub fn parse_line(line: &str) -> (command: Option<Command>)
    ensures
        match command {
            Some(command) => line_command(line@) == Some(command@),
            None => line_command(line@) is None,
        },
{
    if trim(line).is_empty() {
        return None;
    }
    match split_at_space(line) {
        Some((name, arg)) => {
            proof {
                let at = first_space(line@);
                let whole = name@ + seq![' '] + arg@;
                assert(whole[name@.len() as int] == ' ');
                assert(line@.contains(' '));
                lemma_first_space(name@, arg@);
                assert(line@.subrange(0, at) =~= name@);
                assert(line@.subrange(at + 1, line@.len() as int) =~= arg@);
            }
            Some(parse_command(name, Some(arg)))
        },
        None => Some(parse_command(line, None)),
    }
}

} // verus!
