use vstd::prelude::*;
use crate::database::Database;
use crate::error::{RepoError, RepoErrorView};
use crate::query::QueryView;
use crate::repository::{
    continues, lemma_continues, lemma_continues_on,
    create_collection, create_request, create_workspace, delete_collection, delete_request,
    delete_workspace, request_created, row_inserted, statement_run, workspace_created,
    workspace_removed,
};
use crate::user::User;

verus! {

pub const ADD_VERB: &'static str = "add";

pub const REMOVE_VERB: &'static str = "rm";

pub const WORKSPACE_WORD: &'static str = "workspace";

pub const COLLECTION_WORD: &'static str = "collection";

pub const REQUEST_WORD: &'static str = "request";

/// What a command line asks for: to add things or to remove them.
#[derive(Debug, Clone, Copy, PartialEq, Eq, Structural)]
pub enum Verb {
    Add,
    Remove,
}

/// One thing that a command line asks the repository to do.
#[derive(Debug, Clone, PartialEq)]
pub enum Command {
    AddWorkspace { name: String },
    AddCollection { name: String, id_workspace: i64 },
    /// The method is kept as it was typed; it is parsed when the request is created.
    AddRequest { name: String, id_collection: i64, method: String, url: String },
    RemoveWorkspace { name: String },
    RemoveCollection { name: String },
    RemoveRequest { name: String },
}

pub enum CommandView {
    AddWorkspace { name: Seq<char> },
    AddCollection { name: Seq<char>, id_workspace: i64 },
    AddRequest { name: Seq<char>, id_collection: i64, method: Seq<char>, url: Seq<char> },
    RemoveWorkspace { name: Seq<char> },
    RemoveCollection { name: Seq<char> },
    RemoveRequest { name: Seq<char> },
}

impl DeepView for Command {
    type V = CommandView;

    open spec fn deep_view(&self) -> CommandView {
        match *self {
            Command::AddWorkspace { name } => CommandView::AddWorkspace { name: name@ },
            Command::AddCollection { name, id_workspace } => CommandView::AddCollection {
                name: name@,
                id_workspace,
            },
            Command::AddRequest { name, id_collection, method, url } => CommandView::AddRequest {
                name: name@,
                id_collection,
                method: method@,
                url: url@,
            },
            Command::RemoveWorkspace { name } => CommandView::RemoveWorkspace { name: name@ },
            Command::RemoveCollection { name } => CommandView::RemoveCollection { name: name@ },
            Command::RemoveRequest { name } => CommandView::RemoveRequest { name: name@ },
        }
    }
}

impl View for Command {
    type V = CommandView;

    open spec fn view(&self) -> CommandView {
        self.deep_view()
    }
}

/// Why a command line was not carried out, or not to its end.
#[derive(Debug, Clone, PartialEq)]
pub enum CommandError {
    /// A word that asks for something is not followed by all that it needs.
    MissingOperand,
    /// A word that should be an id does not read as a whole number.
    InvalidId,
    /// The repository failed while it carried a command out.
    Failed(RepoError),
}

pub enum CommandErrorView {
    MissingOperand,
    InvalidId,
    Failed(RepoErrorView),
}

impl View for CommandError {
    type V = CommandErrorView;

    open spec fn view(&self) -> CommandErrorView {
        match *self {
            CommandError::MissingOperand => CommandErrorView::MissingOperand,
            CommandError::InvalidId => CommandErrorView::InvalidId,
            CommandError::Failed(error) => CommandErrorView::Failed(error@),
        }
    }
}

/// The outcome of parsing with every text seen as a sequence of characters.
pub open spec fn parsed<T: DeepView>(res: Result<T, CommandError>) -> Result<
    T::V,
    CommandErrorView,
> {
    match res {
        Ok(value) => Ok(value.deep_view()),
        Err(error) => Err(error@),
    }
}

/// The number that a run of decimal digits stands for.
pub open spec fn digits_value(digits: Seq<char>) -> int
    decreases digits.len(),
{
    if digits.len() == 0 {
        0
    } else {
        10 * digits_value(digits.drop_last()) + (digits.last() as int - '0' as int)
    }
}

/// Whether a text is a run of one or more of the digits `0` to `9`.
pub open spec fn is_digits(text: Seq<char>) -> bool {
    text.len() > 0 && forall|i: int|
        0 <= i < text.len() ==> '0' as int <= (#[trigger] text[i]) as int <= '9' as int
}

/// The whole number that a text reads as: an optional sign `+` or `-`, then decimal
/// digits and nothing else, standing for a number that an `i64` can hold. `None` where
/// the text does not read so.
pub open spec fn parsed_integer(text: Seq<char>) -> Option<i64> {
    let negative = text.len() > 0 && text[0] == '-';
    let signed = negative || (text.len() > 0 && text[0] == '+');
    let digits = if signed {
        text.skip(1)
    } else {
        text
    };
    let value = if negative {
        -digits_value(digits)
    } else {
        digits_value(digits)
    };
    if is_digits(digits) && i64::MIN <= value <= i64::MAX {
        Some(value as i64)
    } else {
        None
    }
}

/// `str::parse::<i64>`: reads a text as a whole number in decimal notation, with an
/// optional sign, and refuses every other text and every number out of range.
#[verifier::external_body]
fn parse_integer(text: &str) -> (res: Option<i64>)
    ensures
        res == parsed_integer(text@),
{
    text.parse::<i64>().ok()
}

/// The verb that the first word of a command line names.
pub open spec fn spec_verb(name: Seq<char>) -> Option<Verb> {
    if name == ADD_VERB@ {
        Some(Verb::Add)
    } else if name == REMOVE_VERB@ {
        Some(Verb::Remove)
    } else {
        None
    }
}

/// Whether a text is exactly the given word.
fn is_word(text: &str, word: &str) -> (res: bool)
    ensures
        res == (text@ == word@),
{
    text.to_owned() == word.to_owned()
}

/// Reads the verb of a command line.
pub fn verb_of(name: &str) -> (res: Option<Verb>)
    ensures
        res == spec_verb(name@),
{
    if is_word(name, ADD_VERB) {
        Some(Verb::Add)
    } else if is_word(name, REMOVE_VERB) {
        Some(Verb::Remove)
    } else {
        None
    }
}

/// What the word at position `at` asks for, where `id` is what the word two places
/// further reads as a whole number.
///
/// After `add`: `workspace NAME`, `collection NAME ID` and `request NAME ID METHOD URL`.
/// After `rm`: `workspace NAME`, `collection NAME` and `request NAME`. Any other word asks
/// for nothing, and so does a position behind the last word. Operands are looked at from
/// left to right: a missing one is reported before a later one is read, an id that is no
/// number before the operands behind it are missed.
pub open spec fn spec_command_at(verb: Verb, args: Seq<Seq<char>>, at: int, id: Option<i64>) -> Result<
    Option<CommandView>,
    CommandErrorView,
> {
    let word = args[at];
    let names_kind = word == WORKSPACE_WORD@ || word == COLLECTION_WORD@ || word == REQUEST_WORD@;
    if !(0 <= at < args.len()) || !names_kind {
        Ok(None)
    } else if at + 1 >= args.len() {
        Err(CommandErrorView::MissingOperand)
    } else {
        let name = args[at + 1];
        match verb {
            Verb::Remove => if word == WORKSPACE_WORD@ {
                Ok(Some(CommandView::RemoveWorkspace { name }))
            } else if word == COLLECTION_WORD@ {
                Ok(Some(CommandView::RemoveCollection { name }))
            } else {
                Ok(Some(CommandView::RemoveRequest { name }))
            },
            Verb::Add => if word == WORKSPACE_WORD@ {
                Ok(Some(CommandView::AddWorkspace { name }))
            } else if at + 2 >= args.len() {
                Err(CommandErrorView::MissingOperand)
            } else {
                match id {
                    None => Err(CommandErrorView::InvalidId),
                    Some(id) => if word == COLLECTION_WORD@ {
                        Ok(Some(CommandView::AddCollection { name, id_workspace: id }))
                    } else if at + 4 >= args.len() {
                        Err(CommandErrorView::MissingOperand)
                    } else {
                        Ok(
                            Some(
                                CommandView::AddRequest {
                                    name,
                                    id_collection: id,
                                    method: args[at + 3],
                                    url: args[at + 4],
                                },
                            ),
                        )
                    },
                }
            },
        }
    }
}

/// What the word two places after `at` reads as a whole number; `None` where there is no
/// such word.
pub open spec fn spec_id_after(args: Seq<Seq<char>>, at: int) -> Option<i64> {
    if at + 2 < args.len() {
        parsed_integer(args[at + 2])
    } else {
        None
    }
}

/// The commands that the first `upto` words of a command line ask for, in order. Every
/// word is looked at, also one that serves as an operand of a word before it. The first
/// word that cannot be read decides the error.
pub open spec fn spec_commands(verb: Verb, args: Seq<Seq<char>>, upto: int) -> Result<
    Seq<CommandView>,
    CommandErrorView,
>
    decreases upto,
{
    if upto <= 0 {
        Ok(Seq::empty())
    } else {
        match spec_commands(verb, args, upto - 1) {
            Err(error) => Err(error),
            Ok(before) => match spec_command_at(
                verb,
                args,
                upto - 1,
                spec_id_after(args, upto - 1),
            ) {
                Err(error) => Err(error),
                Ok(None) => Ok(before),
                Ok(Some(command)) => Ok(before.push(command)),
            },
        }
    }
}

/// What a command line means: the commands that its words ask for, or the reason why it
/// cannot be read. A line whose first word is no verb asks for nothing, whatever follows.
pub open spec fn spec_parse(name: Seq<char>, args: Seq<Seq<char>>) -> Result<
    Seq<CommandView>,
    CommandErrorView,
> {
    match spec_verb(name) {
        None => Ok(Seq::empty()),
        Some(verb) => spec_commands(verb, args, args.len() as int),
    }
}

/// Reads what the word at position `at` asks for, given what the word two places further
/// reads as a whole number.
pub fn command_at(verb: Verb, args: &Vec<&str>, at: usize, id: Option<i64>) -> (res: Result<
    Option<Command>,
    CommandError,
>)
    ensures
        parsed(res) == spec_command_at(verb, args.deep_view(), at as int, id),
{
    if at >= args.len() {
        return Ok(None);
    }
    let word = args[at];
    let workspace = is_word(word, WORKSPACE_WORD);
    let collection = is_word(word, COLLECTION_WORD);
    let request = is_word(word, REQUEST_WORD);
    if !(workspace || collection || request) {
        return Ok(None);
    }
    if args.len() - at <= 1 {
        return Err(CommandError::MissingOperand);
    }
    let name = args[at + 1].to_owned();
    match verb {
        Verb::Remove => {
            if workspace {
                Ok(Some(Command::RemoveWorkspace { name }))
            } else if collection {
                Ok(Some(Command::RemoveCollection { name }))
            } else {
                Ok(Some(Command::RemoveRequest { name }))
            }
        },
        Verb::Add => {
            if workspace {
                return Ok(Some(Command::AddWorkspace { name }));
            }
            if args.len() - at <= 2 {
                return Err(CommandError::MissingOperand);
            }
            match id {
                None => Err(CommandError::InvalidId),
                Some(id) => {
                    if collection {
                        Ok(Some(Command::AddCollection { name, id_workspace: id }))
                    } else if args.len() - at <= 4 {
                        Err(CommandError::MissingOperand)
                    } else {
                        Ok(
                            Some(
                                Command::AddRequest {
                                    name,
                                    id_collection: id,
                                    method: args[at + 3].to_owned(),
                                    url: args[at + 4].to_owned(),
                                },
                            ),
                        )
                    }
                },
            }
        },
    }
}

/// Once the words up to some position cannot be read, the whole line cannot, for the same
/// reason.
proof fn lemma_error_stays(verb: Verb, args: Seq<Seq<char>>, upto: int, end: int)
    requires
        0 <= upto <= end,
        spec_commands(verb, args, upto) is Err,
    ensures
        spec_commands(verb, args, end) == spec_commands(verb, args, upto),
    decreases end - upto,
{
    if upto < end {
        lemma_error_stays(verb, args, upto + 1, end);
    }
}

/// Reads a command line that has been split into words: the verb and the words after it.
pub fn parse_command(name: &str, args: &Vec<&str>) -> (res: Result<Vec<Command>, CommandError>)
    ensures
        parsed(res) == spec_parse(name@, args.deep_view()),
{
    let mut commands: Vec<Command> = Vec::new();
    assert(commands.deep_view() =~= Seq::<CommandView>::empty());
    let verb = match verb_of(name) {
        None => {
            return Ok(commands);
        },
        Some(verb) => verb,
    };
    let mut at: usize = 0;
    while at < args.len()
        invariant
            at <= args.len(),
            spec_verb(name@) == Some(verb),
            spec_commands(verb, args.deep_view(), at as int) == Ok::<
                Seq<CommandView>,
                CommandErrorView,
            >(commands.deep_view()),
        decreases args.len() - at,
    {
        let id = if args.len() - at > 2 {
            parse_integer(args[at + 2])
        } else {
            None
        };
        assert(id == spec_id_after(args.deep_view(), at as int));
        match command_at(verb, args, at, id) {
            Err(error) => {
                proof {
                    assert(spec_commands(verb, args.deep_view(), at + 1) is Err);
                    lemma_error_stays(verb, args.deep_view(), at + 1, args.len() as int);
                }
                return Err(error);
            },
            Ok(None) => {},
            Ok(Some(command)) => {
                let ghost before = commands.deep_view();
                commands.push(command);
                assert(commands.deep_view() =~= before.push(command.deep_view()));
            },
        }
        at = at + 1;
    }
    Ok(commands)
}

/// The result of a command as the result of the addition that it stands for.
pub open spec fn addition_of(res: Result<Option<i64>, RepoError>) -> Result<i64, RepoError> {
    match res {
        Ok(Some(id)) => Ok(id),
        Ok(None) => Ok(0),
        Err(error) => Err(error),
    }
}

/// The result of a command as the result of the removal that it stands for.
pub open spec fn removal_of(res: Result<Option<i64>, RepoError>) -> Result<(), RepoError> {
    match res {
        Ok(_) => Ok(()),
        Err(error) => Err(error),
    }
}

/// What holds of a handle and a result once a command has been carried out: what the
/// repository promises of the operation that the command stands for. An addition that
/// succeeds returns the id of what was added, a removal that succeeds returns none.
pub open spec fn command_ran(
    before: Database,
    after: Database,
    command: CommandView,
    id_user: i64,
    res: Result<Option<i64>, RepoError>,
) -> bool {
    match command {
        CommandView::AddWorkspace { name } => {
            &&& res matches Ok(made) ==> made is Some
            &&& workspace_created(before, after, id_user, name, addition_of(res))
        },
        CommandView::AddCollection { name, id_workspace } => {
            &&& res matches Ok(made) ==> made is Some
            &&& row_inserted(
                before,
                after,
                QueryView::InsertCollection { name, id_workspace },
                addition_of(res),
            )
        },
        CommandView::AddRequest { name, id_collection, method, url } => {
            &&& res matches Ok(made) ==> made is Some
            &&& request_created(before, after, name, id_collection, method, url, addition_of(res))
        },
        CommandView::RemoveWorkspace { name } => {
            &&& res matches Ok(made) ==> made is None
            &&& workspace_removed(before, after, name, removal_of(res))
        },
        CommandView::RemoveCollection { name } => {
            &&& res matches Ok(made) ==> made is None
            &&& statement_run(before, after, QueryView::DeleteCollection { name }, removal_of(res))
        },
        CommandView::RemoveRequest { name } => {
            &&& res matches Ok(made) ==> made is None
            &&& statement_run(before, after, QueryView::DeleteRequest { name }, removal_of(res))
        },
    }
}

/// Carries one command out on behalf of `user`.
pub fn run_command(command: &Command, user: &User, db: &mut Database) -> (res: Result<
    Option<i64>,
    RepoError,
>)
    ensures
        command_ran(*old(db), *final(db), command@, user.id, res),
{
    match command {
        Command::AddWorkspace { name } => {
            match create_workspace(user, name.as_str(), db) {
                Ok(id) => Ok(Some(id)),
                Err(error) => Err(error),
            }
        },
        Command::AddCollection { name, id_workspace } => {
            match create_collection(name.as_str(), *id_workspace, db) {
                Ok(id) => Ok(Some(id)),
                Err(error) => Err(error),
            }
        },
        Command::AddRequest { name, id_collection, method, url } => {
            match create_request(name.as_str(), *id_collection, method.as_str(), url.as_str(), db) {
                Ok(id) => Ok(Some(id)),
                Err(error) => Err(error),
            }
        },
        Command::RemoveWorkspace { name } => {
            match delete_workspace(name.as_str(), db) {
                Ok(()) => Ok(None),
                Err(error) => Err(error),
            }
        },
        Command::RemoveCollection { name } => {
            match delete_collection(name.as_str(), db) {
                Ok(()) => Ok(None),
                Err(error) => Err(error),
            }
        },
        Command::RemoveRequest { name } => {
            match delete_request(name.as_str(), db) {
                Ok(()) => Ok(None),
                Err(error) => Err(error),
            }
        },
    }
}

/// Whatever a command does, the handle keeps its name and the journal only grows.
pub proof fn lemma_command_continues(
    before: Database,
    after: Database,
    command: CommandView,
    id_user: i64,
    res: Result<Option<i64>, RepoError>,
)
    requires
        command_ran(before, after, command, id_user, res),
    ensures
        continues(before, after),
{
    if after == before {
        lemma_continues(before, after, Seq::empty(), Seq::empty());
    }
}

/// Whether the first `upto` of the commands have been carried out between two states of
/// a handle, one after the other on behalf of the user `id_user`, and each with success.
pub open spec fn ran_upto(
    before: Database,
    now: Database,
    commands: Seq<CommandView>,
    upto: int,
    id_user: i64,
) -> bool
    decreases upto,
{
    if upto <= 0 {
        now == before
    } else {
        exists|mid: Database, made: Result<Option<i64>, RepoError>|
            {
                &&& ran_upto(before, mid, commands, upto - 1, id_user)
                &&& #[trigger] command_ran(mid, now, commands[upto - 1], id_user, made)
                &&& made is Ok
            }
    }
}

/// Commands that have been carried out up to one, and then that one with success, have
/// been carried out up to the next.
pub proof fn lemma_ran_next(
    before: Database,
    mid: Database,
    now: Database,
    commands: Seq<CommandView>,
    upto: int,
    id_user: i64,
    made: Result<Option<i64>, RepoError>,
)
    requires
        0 <= upto,
        ran_upto(before, mid, commands, upto, id_user),
        command_ran(mid, now, commands[upto], id_user, made),
        made is Ok,
    ensures
        ran_upto(before, now, commands, upto + 1, id_user),
{
    let next = upto + 1;
    assert(commands[next - 1] == commands[upto]);
    assert(ran_upto(before, mid, commands, next - 1, id_user));
    assert(command_ran(mid, now, commands[next - 1], id_user, made));
}

/// What holds of a handle and a result once a command line of the given meaning has been
/// interpreted on behalf of the user `id_user`.
///
/// Where the line cannot be read, the reason is returned and the handle is exactly as it
/// was. Otherwise the commands have been carried out in order. The result is `Ok` where
/// each of them succeeded. Where one failed, those before it have succeeded, none after it
/// has been tried, and its error is returned as `Failed`. Either way the handle keeps its
/// name and its journal has only grown.
pub open spec fn interpreted(
    before: Database,
    after: Database,
    meaning: Result<Seq<CommandView>, CommandErrorView>,
    id_user: i64,
    res: Result<(), CommandError>,
) -> bool {
    &&& continues(before, after)
    &&& match meaning {
        Err(error) => res matches Err(given) && given@ == error && after == before,
        Ok(commands) => match res {
            Ok(()) => ran_upto(before, after, commands, commands.len() as int, id_user),
            Err(given) => exists|k: int, mid: Database, error: RepoError|
                {
                    &&& 0 <= k < commands.len()
                    &&& ran_upto(before, mid, commands, k, id_user)
                    &&& #[trigger] command_ran(mid, after, commands[k], id_user, Err(error))
                    &&& given == CommandError::Failed(error)
                },
        },
    }
}

/// Reads a command line and carries it out on behalf of `user`.
///
/// The line is read as a whole first. Where it cannot be read, nothing is carried out.
/// Otherwise its commands are carried out in order, up to the first that fails. A line
/// whose first word is no verb asks for nothing: it succeeds and leaves the handle as it
/// was.
pub fn interpret_command(user: &User, db: &mut Database, name: &str, args: Vec<&str>) -> (res: Result<
    (),
    CommandError,
>)
    ensures
        interpreted(*old(db), *final(db), spec_parse(name@, args.deep_view()), user.id, res),
{
    proof {
        lemma_continues(*db, *db, Seq::empty(), Seq::empty());
    }
    let commands = match parse_command(name, &args) {
        Err(error) => {
            return Err(error);
        },
        Ok(commands) => commands,
    };
    let mut at: usize = 0;
    while at < commands.len()
        invariant
            at <= commands.len(),
            spec_parse(name@, args.deep_view()) == Ok::<Seq<CommandView>, CommandErrorView>(
                commands.deep_view(),
            ),
            continues(*old(db), *db),
            ran_upto(*old(db), *db, commands.deep_view(), at as int, user.id),
        decreases commands.len() - at,
    {
        let ghost before = *db;
        match run_command(&commands[at], user, db) {
            Err(error) => {
                proof {
                    let failed = Err::<Option<i64>, RepoError>(error);
                    assert(command_ran(before, *db, commands.deep_view()[at as int], user.id, failed));
                    lemma_command_continues(before, *db, commands.deep_view()[at as int], user.id, failed);
                    lemma_continues_on(*old(db), before, *db);
                    assert(commands.deep_view().len() == commands.len());
                    assert(0 <= at < commands.deep_view().len());
                }
                return Err(CommandError::Failed(error));
            },
            Ok(made) => {
                proof {
                    let done = Ok::<Option<i64>, RepoError>(made);
                    assert(command_ran(before, *db, commands.deep_view()[at as int], user.id, done));
                    lemma_command_continues(before, *db, commands.deep_view()[at as int], user.id, done);
                    lemma_continues_on(*old(db), before, *db);
                    lemma_ran_next(
                        *old(db),
                        before,
                        *db,
                        commands.deep_view(),
                        at as int,
                        user.id,
                        done,
                    );
                }
            },
        }
        at = at + 1;
    }
    assert(commands.deep_view().len() == commands.len());
    Ok(())
}

} // verus!
