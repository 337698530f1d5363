//! The session controller: at most one open write session, commands routed
//! to it or to a fresh read session, and no search while changes are
//! pending.
//!
//! The controller decides; its caller reads the lines, looks at the files
//! and prints. A command that needs a file comes back as a request for what
//! the controller needs next, and the caller answers with what it found.

use crate::command::{line_command, parse_line, Command, CommandView};
use crate::detect::{fingerprint, needs_content};
use crate::engine::IndexOp;
use crate::error::{Error, ErrorSource};
use crate::fragments::FileSearchEntry;
use crate::model::views;
use crate::search::{
    highlights, is_listing, is_result, lists_states, FileSearch, FileSearchWriteTransaction,
    DEFAULT_LIMIT,
};
use crate::session::SessionView;
use crate::state::FileDocumentEntry;
use vstd::prelude::*;
use vstd::string::*;

verus! {

/// What a path turned out to be.
#[derive(Debug)]
pub enum PathKind {
    /// A file.
    File,
    /// Something else: a directory, say.
    NotAFile,
    /// Nothing that could be looked at, with the reason.
    Inaccessible(String),
}

/// The step at which a command failed.
#[derive(Debug, Clone, Copy, PartialEq, Eq, Structural)]
pub enum Failure {
    OpenWrite,
    OpenRead,
    Change,
    Commit,
    Rollback,
    List,
    Search,
}

/// What the operator is told.
#[derive(Debug)]
pub enum Reply {
    /// The list of commands.
    Help,
    /// The indexed paths.
    Documents(Vec<FileDocumentEntry>),
    /// The documents found.
    Hits(Vec<FileSearchEntry>),
    /// Nothing: the command was carried out.
    Done,
    NothingToCommit,
    NothingToRollback,
    /// A search was asked for while changes are pending.
    UncommittedChanges,
    Failed(Failure, Error),
    NotAFile(String),
    Inaccessible(String, String),
    Unknown(String, String),
}

/// What the caller does next.
#[derive(Debug)]
pub enum Step {
    /// Tell the operator, and read the next line.
    Reply(Reply),
    /// Look at the path of the command, an `add` or a `remove`, and come back
    /// with its kind.
    Resolve(Command),
    /// Take the file's modification time and come back with it.
    Stat,
    /// Read the file and come back with its content.
    Read { epoch: u128 },
    /// Tell the operator, and stop.
    Exit(Reply),
}

impl Failure {
    /// How the failure of a step is announced.
    pub open spec fn notice(self) -> Seq<char> {
        match self {
            Failure::OpenWrite => "Unable to start write session. "@,
            Failure::OpenRead => "Unable to start read session. "@,
            Failure::Change => "Failed to change index. "@,
            Failure::Commit => "Failed to commit. "@,
            Failure::Rollback => "Failed to rollback. "@,
            Failure::List => "Cannot retrive documents. "@,
            Failure::Search => "Failed to search documents. "@,
        }
    }

    fn announce(&self) -> (text: String)
        ensures
            text@ == self.notice(),
    {
        match self {
            Failure::OpenWrite => String::from_str("Unable to start write session. "),
            Failure::OpenRead => String::from_str("Unable to start read session. "),
            Failure::Change => String::from_str("Failed to change index. "),
            Failure::Commit => String::from_str("Failed to commit. "),
            Failure::Rollback => String::from_str("Failed to rollback. "),
            Failure::List => String::from_str("Cannot retrive documents. "),
            Failure::Search => String::from_str("Failed to search documents. "),
        }
    }
}

/// The lines of the help.
pub open spec fn help_text() -> Seq<Seq<char>> {
    seq![
        "Commands:"@,
        "  help             Show this help message"@,
        "  list             Show all documents"@,
        "  add <path>       Add a new document"@,
        "  remove <path>    Remove an existing document"@,
        "  clear            Remove all documents from index"@,
        "  commit           Commit pending changes"@,
        "  rollback         Undo pending changes"@,
        "  search <query>   Search documents"@,
        "  exit             Exit the program"@,
        ""@,
    ]
}

impl Reply {
    /// Whether the reply is what was asked for, to be shown as output, and
    /// not a notice about how the command went.
    pub open spec fn is_output(&self) -> bool {
        self is Help || self is Documents || self is Hits
    }

    /// The lines that the reply is shown as. Documents and hits have none:
    /// they are shown as data.
    pub open spec fn text(&self) -> Seq<Seq<char>> {
        match self {
            Reply::Help => help_text(),
            Reply::Documents(_) => Seq::empty(),
            Reply::Hits(_) => Seq::empty(),
            Reply::Done => Seq::empty(),
            Reply::NothingToCommit => seq!["No changes to commit."@],
            Reply::NothingToRollback => seq!["No changes to rollback."@],
            Reply::UncommittedChanges => seq![
                "You have uncommitted changes. Please commit or rollback before searching."@,
            ],
            Reply::Failed(step, error) => seq![step.notice() + error.rendered()],
            Reply::NotAFile(path) => seq!["The path '"@ + path@ + "' is not a file."@],
            Reply::Inaccessible(path, reason) => seq![
                "Failed to access file '"@ + path@ + "'. "@ + reason@,
            ],
            Reply::Unknown(name, arg) => seq![
                "Unknown command: "@ + name@ + " "@ + arg@,
                "Type 'help' to see available commands."@,
            ],
        }
    }

    /// Whether the reply goes to the output; else it is a notice.
    pub fn shows_output(&self) -> (output: bool)
        ensures
            output == self.is_output(),
    {
        match self {
            Reply::Help => true,
            Reply::Documents(_) => true,
            Reply::Hits(_) => true,
            _ => false,
        }
    }

    /// The lines to show.
    pub fn lines(&self) -> (lines: Vec<String>)
        ensures
            views(lines@) == self.text(),
    {
        let mut lines: Vec<String> = Vec::new();
        match self {
            Reply::Help => {
                lines.push(String::from_str("Commands:"));
                lines.push(String::from_str("  help             Show this help message"));
                lines.push(String::from_str("  list             Show all documents"));
                lines.push(String::from_str("  add <path>       Add a new document"));
                lines.push(String::from_str("  remove <path>    Remove an existing document"));
                lines.push(String::from_str("  clear            Remove all documents from index"));
                lines.push(String::from_str("  commit           Commit pending changes"));
                lines.push(String::from_str("  rollback         Undo pending changes"));
                lines.push(String::from_str("  search <query>   Search documents"));
                lines.push(String::from_str("  exit             Exit the program"));
                lines.push(String::from_str(""));
            },
            Reply::Documents(_) => {},
            Reply::Hits(_) => {},
            Reply::Done => {},
            Reply::NothingToCommit => {
                lines.push(String::from_str("No changes to commit."));
            },
            Reply::NothingToRollback => {
                lines.push(String::from_str("No changes to rollback."));
            },
            Reply::UncommittedChanges => {
                lines.push(
                    String::from_str(
                        "You have uncommitted changes. Please commit or rollback before searching.",
                    ),
                );
            },
            Reply::Failed(step, error) => {
                let mut line = step.announce();
                let shown = error.to_string();
                line.append(shown.as_str());
                lines.push(line);
            },
            Reply::NotAFile(path) => {
                let mut line = String::from_str("The path '");
                line.append(path.as_str());
                line.append("' is not a file.");
                lines.push(line);
            },
            Reply::Inaccessible(path, reason) => {
                let mut line = String::from_str("Failed to access file '");
                line.append(path.as_str());
                line.append("'. ");
                line.append(reason.as_str());
                lines.push(line);
            },
            Reply::Unknown(name, arg) => {
                let mut line = String::from_str("Unknown command: ");
                line.append(name.as_str());
                line.append(" ");
                line.append(arg.as_str());
                lines.push(line);
                lines.push(String::from_str("Type 'help' to see available commands."));
            },
        }
        proof {
            assert(views(lines@) =~= self.text());
        }
        lines
    }
}

/// The session controller. The open session stands before the stores it
/// belongs to, so that it is let go of first when the controller is dropped:
/// the state store cannot close under an open transaction.
pub struct Shell {
    writer: Option<FileSearchWriteTransaction>,
    searcher: FileSearch,
}

/// What to say of a path that is to be indexed or removed: nothing of a
/// file, on which the command goes ahead.
pub fn resolve_file_path(path: &str, kind: PathKind) -> (refusal: Option<Reply>)
    ensures
        match kind {
            PathKind::File => refusal is None,
            PathKind::NotAFile => refusal matches Some(Reply::NotAFile(p)) && p@ == path@,
            PathKind::Inaccessible(reason) => refusal matches Some(Reply::Inaccessible(p, r))
                && p@ == path@ && r@ == reason@,
        },
{
    match kind {
        PathKind::File => None,
        PathKind::NotAFile => Some(Reply::NotAFile(path.to_owned())),
        PathKind::Inaccessible(reason) => Some(Reply::Inaccessible(path.to_owned(), reason)),
    }
}

impl Shell {
    /// What the open write session holds; nothing where none is open.
    pub closed spec fn session(&self) -> Option<SessionView> {
        match self.writer {
            Some(writer) => Some(writer@),
            None => None,
        }
    }

    /// Whether a write session is open: changes are pending.
    pub open spec fn pending(&self) -> bool {
        self.session() is Some
    }

    /// The numbers of the path field and of the content field in the index
    /// that the controller works on.
    pub closed spec fn fields(&self) -> (u32, u32) {
        self.searcher.fields()
    }

    /// A controller with no session open.
    pub fn new(searcher: FileSearch) -> (shell: Self)
        ensures
            !shell.pending(),
            shell.session() is None,
            shell.fields() == searcher.fields(),
    {
        Self { searcher, writer: None }
    }

    /// Whether changes are pending.
    pub fn is_pending(&self) -> (pending: bool)
        ensures
            pending == self.pending(),
            pending == self.session() is Some,
    {
        self.writer.is_some()
    }

    /// Takes one line of the operator's input: a line of white space is
    /// passed over, any other is read as a command and routed.
    pub fn watch(&mut self, line: &str) -> (step: Option<Step>)
        ensures
            final(self).fields() == old(self).fields(),
            match line_command(line@) {
                Some(command) => step matches Some(next) && routed(
                    old(self).session(),
                    command,
                    next,
                    final(self).session(),
                ),
                None => step is None && final(self).session() == old(self).session(),
            },
    {
        match parse_line(line) {
            Some(command) => Some(self.handle_command(command)),
            None => None,
        }
    }

    /// Routes a command. A command that names a file asks for the file to be
    /// looked at first and changes nothing; `exit` rolls back what is
    /// pending and stops; every other command is carried out and answered.
    pub fn handle_command(&mut self, command: Command) -> (step: Step)
        ensures
            final(self).fields() == old(self).fields(),
            routed(old(self).session(), command@, step, final(self).session()),
    {
        match command {
            Command::Help => Step::Reply(self.handle_help_command()),
            Command::Clear => Step::Reply(self.handle_clear_command()),
            Command::List => Step::Reply(self.handle_list_command()),
            Command::Commit => Step::Reply(self.handle_commit_command()),
            Command::Rollback => Step::Reply(self.handle_rollback_command()),
            Command::Exit => Step::Exit(self.handle_rollback_command()),
            Command::Add(path) => Step::Resolve(Command::Add(path)),
            Command::Remove(path) => Step::Resolve(Command::Remove(path)),
            Command::Search(query) => Step::Reply(self.handle_search_command(query.as_str())),
            Command::Unknown { name, arg } => {
                let shown = match arg {
                    Some(arg) => arg,
                    None => String::new(),
                };
                Step::Reply(Reply::Unknown(name, shown))
            },
        }
    }

    /// Answers `help`.
    pub fn handle_help_command(&self) -> (reply: Reply)
        ensures
            reply is Help,
    {
        Reply::Help
    }

    /// Lists the indexed paths from a fresh read session. It is allowed in
    /// every state and shows what is committed.
    pub fn handle_list_command(&self) -> (reply: Reply)
        ensures
            listed(reply),
    {
        match self.searcher.open_read() {
            Ok(session) => match session.list() {
                Ok(entries) => {
                    proof {
                        assert(lists_states(views(entries@), session.records()));
                    }
                    Reply::Documents(entries)
                },
                Err(error) => Reply::Failed(Failure::List, error),
            },
            Err(error) => Reply::Failed(Failure::OpenRead, error),
        }
    }

    /// Searches from a fresh read session, unless changes are pending: a
    /// read session would not see them, so the search is refused and no
    /// query is made.
    pub fn handle_search_command(&self, query: &str) -> (reply: Reply)
        ensures
            searched(self.pending(), reply),
    {
        if self.writer.is_none() {
            match self.searcher.open_read() {
                Ok(session) => match session.search(query, None) {
                    Ok(entries) => Reply::Hits(entries),
                    Err(error) => Reply::Failed(Failure::Search, error),
                },
                Err(error) => Reply::Failed(Failure::Search, error),
            }
        } else {
            Reply::UncommittedChanges
        }
    }

    /// Commits the open session. The session is closed whether or not the
    /// commit succeeds.
    pub fn handle_commit_command(&mut self) -> (reply: Reply)
        ensures
            final(self).fields() == old(self).fields(),
            !final(self).pending(),
            final(self).session() is None,
            ended(old(self).pending(), reply, Failure::Commit),
    {
        match self.writer.take() {
            Some(writer) => match writer.commit() {
                Ok(_) => Reply::Done,
                Err(error) => Reply::Failed(Failure::Commit, error),
            },
            None => Reply::NothingToCommit,
        }
    }

    /// Rolls the open session back. The session is closed whether or not
    /// the rollback succeeds.
    pub fn handle_rollback_command(&mut self) -> (reply: Reply)
        ensures
            final(self).fields() == old(self).fields(),
            !final(self).pending(),
            final(self).session() is None,
            ended(old(self).pending(), reply, Failure::Rollback),
    {
        match self.writer.take() {
            Some(writer) => match writer.rollback() {
                Ok(_) => Reply::Done,
                Err(error) => Reply::Failed(Failure::Rollback, error),
            },
            None => Reply::NothingToRollback,
        }
    }

    /// Makes sure that a write session is open: the open one stays, else one
    /// is opened with nothing staged. Where none can be opened the
    /// controller stays without one.
    pub fn get_or_create_writer(&mut self) -> (r: Result<(), Error>)
        ensures
            final(self).fields() == old(self).fields(),
            entered(old(self).session(), r is Ok, final(self).session(), old(self).fields()),
    {
        if self.writer.is_some() {
            return Ok(());
        }
        match self.searcher.open_write() {
            Ok(writer) => {
                self.writer = Some(writer);
                Ok(())
            },
            Err(error) => Err(error),
        }
    }

    /// Clears the index in the write session, opening one if need be.
    pub fn handle_clear_command(&mut self) -> (reply: Reply)
        ensures
            final(self).fields() == old(self).fields(),
            cleared(old(self).session(), reply, final(self).session()),
    {
        match self.get_or_create_writer() {
            Ok(_) => {},
            Err(error) => { return Reply::Failed(Failure::OpenWrite, error); },
        }
        let mut writer = self.writer.take().unwrap();
        let result = writer.clear();
        self.writer = Some(writer);
        match result {
            Ok(_) => Reply::Done,
            Err(error) => Reply::Failed(Failure::Change, error),
        }
    }

    /// Removes a path in the write session, once the path was looked at.
    /// Only a file is removed; for anything else the operator is told and
    /// nothing changes.
    pub fn handle_remove_command(&mut self, path: &str, kind: PathKind) -> (reply: Reply)
        ensures
            final(self).fields() == old(self).fields(),
            !(kind is File) ==> {
                &&& refused(kind, path@, reply)
                &&& final(self).session() == old(self).session()
            },
            kind is File ==> changed(old(self).session(), reply, final(self).session()),
            kind is File && reply is Done ==> removed_from(
                old(self).session(),
                path@,
                final(self).session().unwrap(),
            ),
    {
        match resolve_file_path(path, kind) {
            Some(refusal) => { return refusal; },
            None => {},
        }
        match self.get_or_create_writer() {
            Ok(_) => {},
            Err(error) => { return Reply::Failed(Failure::OpenWrite, error); },
        }
        let mut writer = self.writer.take().unwrap();
        let result = writer.remove(path);
        self.writer = Some(writer);
        match result {
            Ok(_) => Reply::Done,
            Err(error) => Reply::Failed(Failure::Change, error),
        }
    }

    /// Begins to index a path, once the path was looked at. Only a file is
    /// indexed; for anything else the operator is told and nothing changes.
    /// For a file the write session is opened if need be, and the
    /// modification time is asked for.
    pub fn handle_add_command(&mut self, path: &str, kind: PathKind) -> (step: Step)
        ensures
            final(self).fields() == old(self).fields(),
            !(kind is File) ==> {
                &&& step matches Step::Reply(reply)
                &&& refused(kind, path@, reply)
                &&& final(self).session() == old(self).session()
            },
            kind is File ==> {
                &&& (step is Stat || step matches Step::Reply(Reply::Failed(Failure::OpenWrite, _)))
                &&& entered(
                    old(self).session(),
                    step is Stat,
                    final(self).session(),
                    old(self).fields(),
                )
            },
    {
        match resolve_file_path(path, kind) {
            Some(refusal) => { return Step::Reply(refusal); },
            None => {},
        }
        match self.get_or_create_writer() {
            Ok(_) => Step::Stat,
            Err(error) => Step::Reply(Reply::Failed(Failure::OpenWrite, error)),
        }
    }

    /// Goes on indexing a path with its modification time, or with the
    /// reason why it could not be had. A file stored with this very time is
    /// done with, unread; for any other the content is asked for.
    pub fn handle_add_epoch(&mut self, path: &str, epoch: Result<u128, Error>) -> (step: Step)
        ensures
            final(self).fields() == old(self).fields(),
            old(self).pending() ==> final(self).session() == old(self).session(),
            old(self).pending() ==> match epoch {
                Ok(epoch) => {
                    let before = old(self).session().unwrap();
                    ||| step matches Step::Reply(Reply::Done) && before.readable(path@)
                        && !needs_content(before.stored(path@), epoch)
                    ||| step matches Step::Read { epoch: asked } && asked == epoch
                        && before.readable(path@) && needs_content(before.stored(path@), epoch)
                    ||| step matches Step::Reply(Reply::Failed(Failure::Change, error))
                        && error.spec_source() == ErrorSource::Redb
                },
                Err(given) => step matches Step::Reply(Reply::Failed(Failure::Change, carried))
                    && carried == given,
            },
            !old(self).pending() ==> step is Reply || final(self).pending(),
    {
        match self.get_or_create_writer() {
            Ok(_) => {},
            Err(error) => { return Step::Reply(Reply::Failed(Failure::OpenWrite, error)); },
        }
        let epoch = match epoch {
            Ok(epoch) => epoch,
            Err(error) => { return Step::Reply(Reply::Failed(Failure::Change, error)); },
        };
        let writer = self.writer.take().unwrap();
        let needed = writer.needs_content(path, epoch);
        self.writer = Some(writer);
        match needed {
            Ok(true) => Step::Read { epoch },
            Ok(false) => Step::Reply(Reply::Done),
            Err(error) => Step::Reply(Reply::Failed(Failure::Change, error)),
        }
    }

    /// Finishes indexing a path with its content, or with the reason why it
    /// could not be read.
    pub fn handle_add_content(
        &mut self,
        path: &str,
        epoch: u128,
        content: Result<String, Error>,
    ) -> (reply: Reply)
        ensures
            final(self).fields() == old(self).fields(),
            old(self).pending() ==> final(self).pending() && match content {
                Ok(text) => {
                    ||| reply is Done && final(self).session() == Some(
                        old(self).session().unwrap().added(
                            path@,
                            epoch,
                            text@,
                            fingerprint(text@),
                        ),
                    )
                    ||| reply matches Reply::Failed(Failure::Change, error) && error.spec_source()
                        != ErrorSource::Io
                },
                Err(given) => {
                    &&& reply matches Reply::Failed(Failure::Change, carried)
                    &&& carried == given
                    &&& final(self).session() == old(self).session()
                },
            },
    {
        match self.get_or_create_writer() {
            Ok(_) => {},
            Err(error) => { return Reply::Failed(Failure::OpenWrite, error); },
        }
        let text = match content {
            Ok(text) => text,
            Err(error) => { return Reply::Failed(Failure::Change, error); },
        };
        let mut writer = self.writer.take().unwrap();
        let result = writer.add(path, epoch, text.as_str());
        self.writer = Some(writer);
        match result {
            Ok(_) => Reply::Done,
            Err(error) => Reply::Failed(Failure::Change, error),
        }
    }
}

/// How a command is routed, from the session before it to the step that
/// the caller takes and the session after it.
pub open spec fn routed(
    before: Option<SessionView>,
    command: CommandView,
    step: Step,
    after: Option<SessionView>,
) -> bool {
    match command {
        CommandView::Add(_) | CommandView::Remove(_) => {
            &&& step matches Step::Resolve(waiting)
            &&& waiting@ == command
            &&& after == before
        },
        CommandView::Exit => {
            &&& step matches Step::Exit(reply)
            &&& ended(before is Some, reply, Failure::Rollback)
            &&& after is None
        },
        CommandView::Help => step matches Step::Reply(Reply::Help) && after == before,
        CommandView::Unknown { name, arg } => {
            &&& step matches Step::Reply(Reply::Unknown(n, a))
            &&& n@ == name
            &&& a@ == match arg {
                Some(arg) => arg,
                None => Seq::<char>::empty(),
            }
            &&& after == before
        },
        CommandView::List => step matches Step::Reply(reply) && listed(reply) && after == before,
        CommandView::Search(_) => {
            &&& step matches Step::Reply(reply)
            &&& searched(before is Some, reply)
            &&& after == before
        },
        CommandView::Commit => {
            &&& step matches Step::Reply(reply)
            &&& ended(before is Some, reply, Failure::Commit)
            &&& after is None
        },
        CommandView::Rollback => {
            &&& step matches Step::Reply(reply)
            &&& ended(before is Some, reply, Failure::Rollback)
            &&& after is None
        },
        CommandView::Clear => step matches Step::Reply(reply) && cleared(before, reply, after),
    }
}

/// The answers to `list`: the records of a fresh read session, every path
/// once with the state that its record holds; or the failure to open the
/// session, which either store may cause; or the failure to read the
/// records, which is the state store's.
pub open spec fn listed(reply: Reply) -> bool {
    match reply {
        Reply::Documents(listing) => is_listing(views(listing@)),
        Reply::Failed(Failure::OpenRead, error) => error.spec_source() != ErrorSource::Io,
        Reply::Failed(Failure::List, error) => error.spec_source() == ErrorSource::Redb,
        _ => false,
    }
}

/// The answers to `search`: a refusal exactly while changes are pending.
/// Else the result of a search without a limit in a fresh read session: the
/// entries of its hits, each with the fragment list of its content for the
/// terms of the query; or a failure that is one of the stores'.
pub open spec fn searched(pending: bool, reply: Reply) -> bool {
    if pending {
        reply is UncommittedChanges
    } else {
        match reply {
            Reply::Hits(entries) => {
                &&& entries@.len() <= DEFAULT_LIMIT
                &&& is_result(views(entries@), DEFAULT_LIMIT)
                &&& exists|terms: Seq<Seq<char>>| #[trigger] highlights(views(entries@), terms)
            },
            Reply::Failed(Failure::Search, error) => error.spec_source() != ErrorSource::Io,
            _ => false,
        }
    }
}

/// The answers to `commit` and `rollback`: a notice where nothing is
/// pending.
pub open spec fn ended(pending: bool, reply: Reply, step: Failure) -> bool {
    if pending {
        reply is Done || (reply matches Reply::Failed(failed, _) && failed == step)
    } else {
        (step == Failure::Commit ==> reply is NothingToCommit) && (step != Failure::Commit
            ==> reply is NothingToRollback)
    }
}

/// The answers for a path that is no file: that it is none, or that it
/// could not be looked at and why, each with the path as it was given.
pub open spec fn refused(kind: PathKind, path: Seq<char>, reply: Reply) -> bool {
    match kind {
        PathKind::File => false,
        PathKind::NotAFile => reply matches Reply::NotAFile(shown) && shown@ == path,
        PathKind::Inaccessible(reason) => {
            &&& reply matches Reply::Inaccessible(shown, why)
            &&& shown@ == path
            &&& why@ == reason@
        },
    }
}

/// How the controller enters a write session: an open one stays as it is;
/// else one is opened with nothing staged and the fields of the index, or
/// none can be and none is open.
pub open spec fn entered(
    before: Option<SessionView>,
    opened: bool,
    after: Option<SessionView>,
    fields: (u32, u32),
) -> bool {
    match before {
        Some(_) => opened && after == before,
        None => if opened {
            &&& after matches Some(session)
            &&& session.staged == Seq::<IndexOp>::empty()
            &&& session.fields == fields
        } else {
            after is None
        },
    }
}

/// What was staged before a change: nothing where no session was open.
pub open spec fn staged_before(before: Option<SessionView>) -> Seq<IndexOp> {
    match before {
        Some(session) => session.staged,
        None => Seq::empty(),
    }
}

/// The session after a path was removed from it: the deletion of the path's
/// documents is staged behind what was staged, and the path has no record.
/// In a session that was open every other record is as before.
pub open spec fn removed_from(
    before: Option<SessionView>,
    path: Seq<char>,
    after: SessionView,
) -> bool {
    &&& after.staged == staged_before(before).push(after.deletion(path))
    &&& !after.records.dom().contains(path)
    &&& before matches Some(session) ==> after.records == session.records.remove(path)
}

/// How the controller moves on a change: into a session where one can be
/// opened, and never out of one.
pub open spec fn changed(
    before: Option<SessionView>,
    reply: Reply,
    after: Option<SessionView>,
) -> bool {
    ||| reply is Done && after is Some
    ||| reply matches Reply::Failed(Failure::Change, _) && after is Some
    ||| reply matches Reply::Failed(Failure::OpenWrite, _) && before is None && after is None
}

/// How the controller moves on `clear`: where it succeeds no record is left
/// and the deletion of every document is staged behind what was staged.
pub open spec fn cleared(
    before: Option<SessionView>,
    reply: Reply,
    after: Option<SessionView>,
) -> bool {
    &&& changed(before, reply, after)
    &&& reply is Done ==> after.unwrap().records == Map::<Seq<char>, Seq<u8>>::empty()
        && after.unwrap().staged == staged_before(before).push(IndexOp::DeleteAll)
}

} // verus!
