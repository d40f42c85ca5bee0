use vstd::prelude::*;
use crate::command::{
    command_ran, interpret_command, interpreted, run_command, spec_parse, spec_verb, verb_of,
    Command, CommandError, CommandErrorView, CommandView,
};
use crate::database::Database;
use crate::error::RepoError;
use crate::repository::lemma_continues;
use crate::user::User;

verus! {

/// `String::push`: appends one character.
pub assume_specification[ String::push ](text: &mut String, ch: char)
    ensures
        final(text)@ == old(text)@.push(ch),
;

/// `String::pop`: removes the last character and returns it; an empty string stays empty
/// and gives `None`.
pub assume_specification[ String::pop ](text: &mut String) -> (res: Option<char>)
    ensures
        old(text)@.len() == 0 ==> res is None && final(text)@ == old(text)@,
        old(text)@.len() > 0 ==> res == Some(old(text)@.last()) && final(text)@ == old(
            text,
        )@.drop_last(),
;

/// `String::clear`: removes every character.
pub assume_specification[ String::clear ](text: &mut String)
    ensures
        final(text)@ == Seq::<char>::empty(),
;

/// The words of a line: its maximal runs of characters that are not white space, in
/// order, as `str::split_whitespace` yields them.
pub uninterp spec fn words(line: Seq<char>) -> Seq<Seq<char>>;

/// `str::split_whitespace`: splits a line into its words. The result depends on the line
/// alone; the contract gives it its name and claims nothing else of it.
#[verifier::external_body]
fn split_words(line: &str) -> (res: Vec<&str>)
    ensures
        res.deep_view() == words(line@),
{
    line.split_whitespace().collect()
}

/// What the keys type into.
#[derive(Debug, Clone, Copy, PartialEq, Eq, Structural)]
pub enum InputMode {
    /// Keys are shortcuts.
    Normal,
    /// Keys edit the command line.
    Command,
    /// Keys are ignored.
    Editing,
}

/// Which list the selection moves in.
#[derive(Debug, Clone, Copy, PartialEq, Eq, Structural)]
pub enum SelectionMode {
    Collections,
    Requests,
}

/// A key press, as far as the application tells keys apart.
#[derive(Debug, Clone, Copy, PartialEq, Eq, Structural)]
pub enum Key {
    Char(char),
    Backspace,
    Esc,
    Other,
}

/// What the screen shows and what the keys act on.
#[derive(Debug, Clone, PartialEq)]
pub struct App {
    /// The command line as typed so far.
    pub input: String,
    pub input_mode: InputMode,
    pub selection_mode: SelectionMode,
    /// The workspace tab that is open, counted from 0.
    pub selected_tab: usize,
    /// The collection that is selected, counted from 0.
    pub selected_collection: usize,
    /// The request that is selected, counted from 0.
    pub selected_request: usize,
    /// How many collections the open workspace lists.
    pub collection_count: usize,
}

pub struct AppView {
    pub input: Seq<char>,
    pub input_mode: InputMode,
    pub selection_mode: SelectionMode,
    pub selected_tab: usize,
    pub selected_collection: usize,
    pub selected_request: usize,
    pub collection_count: usize,
}

impl View for App {
    type V = AppView;

    open spec fn view(&self) -> AppView {
        AppView {
            input: self.input@,
            input_mode: self.input_mode,
            selection_mode: self.selection_mode,
            selected_tab: self.selected_tab,
            selected_collection: self.selected_collection,
            selected_request: self.selected_request,
            collection_count: self.collection_count,
        }
    }
}

/// What a key press asks the application to do besides changing what the screen shows.
#[derive(Debug, Clone, PartialEq)]
pub enum Action {
    Nothing,
    /// Leave the application.
    Quit,
    /// Carry one command out.
    Run(Command),
    /// Read a command line and carry it out.
    Interpret(String),
}

pub enum ActionView {
    Nothing,
    Quit,
    Run(CommandView),
    Interpret(Seq<char>),
}

impl View for Action {
    type V = ActionView;

    open spec fn view(&self) -> ActionView {
        match *self {
            Action::Nothing => ActionView::Nothing,
            Action::Quit => ActionView::Quit,
            Action::Run(command) => ActionView::Run(command@),
            Action::Interpret(line) => ActionView::Interpret(line@),
        }
    }
}

pub const SHORTCUT_NAME: &'static str = "test";

/// The state at the start: an empty command line, keys as shortcuts, the first tab, and
/// the first entry of each list.
pub open spec fn initial() -> AppView {
    AppView {
        input: Seq::empty(),
        input_mode: InputMode::Normal,
        selection_mode: SelectionMode::Collections,
        selected_tab: 0,
        selected_collection: 0,
        selected_request: 0,
        collection_count: 0,
    }
}

/// The entry above `selected` in a list of `count` entries; above the first comes the last.
pub open spec fn entry_above(selected: usize, count: usize) -> usize {
    if selected > 0 {
        (selected - 1) as usize
    } else if count > 0 {
        (count - 1) as usize
    } else {
        0
    }
}

/// The entry below `selected` in a list of `count` entries; below the last comes the first.
pub open spec fn entry_below(selected: usize, count: usize) -> usize {
    if count == 0 || selected >= count - 1 {
        0
    } else {
        (selected + 1) as usize
    }
}

/// The id of the workspace that a tab shows: tabs are counted from 0, ids from 1. A tab
/// beyond every id shows the workspace with the largest id.
pub open spec fn tab_workspace(tab: usize) -> i64 {
    if tab < i64::MAX {
        (tab + 1) as i64
    } else {
        i64::MAX
    }
}

/// What a shortcut key does to the state and asks for.
pub open spec fn shortcut(app: AppView, c: char) -> (AppView, ActionView) {
    if c == 'w' {
        (app, ActionView::Run(CommandView::AddWorkspace { name: SHORTCUT_NAME@ }))
    } else if c == 'i' {
        (
            app,
            ActionView::Run(CommandView::AddCollection { name: SHORTCUT_NAME@, id_workspace: 1 }),
        )
    } else if c == 'q' {
        (app, ActionView::Quit)
    } else if c == ' ' {
        let toggled = match app.selection_mode {
            SelectionMode::Collections => SelectionMode::Requests,
            SelectionMode::Requests => SelectionMode::Collections,
        };
        (AppView { selection_mode: toggled, ..app }, ActionView::Nothing)
    } else if c == ':' {
        (AppView { input_mode: InputMode::Command, ..app }, ActionView::Nothing)
    } else if c == '1' {
        (AppView { selected_tab: 0, ..app }, ActionView::Nothing)
    } else if c == '2' {
        (AppView { selected_tab: 1, ..app }, ActionView::Nothing)
    } else if c == '3' {
        (AppView { selected_tab: 2, ..app }, ActionView::Nothing)
    } else if c == 'k' {
        (
            AppView {
                selected_collection: entry_above(app.selected_collection, app.collection_count),
                ..app
            },
            ActionView::Nothing,
        )
    } else if c == 'j' {
        (
            AppView {
                selected_collection: entry_below(app.selected_collection, app.collection_count),
                ..app
            },
            ActionView::Nothing,
        )
    } else {
        (app, ActionView::Nothing)
    }
}

/// What a key does to the command line and asks for.
pub open spec fn edit(app: AppView, key: Key) -> (AppView, ActionView) {
    match key {
        Key::Char(c) => if c == '\n' {
            (
                AppView { input: Seq::empty(), input_mode: InputMode::Normal, ..app },
                ActionView::Interpret(app.input),
            )
        } else {
            (AppView { input: app.input.push(c), ..app }, ActionView::Nothing)
        },
        Key::Backspace => if app.input.len() > 0 {
            (AppView { input: app.input.drop_last(), ..app }, ActionView::Nothing)
        } else {
            (app, ActionView::Nothing)
        },
        Key::Esc => (AppView { input_mode: InputMode::Normal, ..app }, ActionView::Nothing),
        Key::Other => (app, ActionView::Nothing),
    }
}

/// The state after a key press, and what the key asks for.
pub open spec fn step(app: AppView, key: Key) -> (AppView, ActionView) {
    match app.input_mode {
        InputMode::Normal => match key {
            Key::Char(c) => shortcut(app, c),
            _ => (app, ActionView::Nothing),
        },
        InputMode::Command => edit(app, key),
        InputMode::Editing => (app, ActionView::Nothing),
    }
}

impl Default for App {
    fn default() -> (app: App)
        ensures
            app@ == initial(),
    {
        App {
            input: String::new(),
            input_mode: InputMode::Normal,
            selection_mode: SelectionMode::Collections,
            selected_tab: 0,
            selected_collection: 0,
            selected_request: 0,
            collection_count: 0,
        }
    }
}

impl App {
    /// Takes one key press: changes the state and says what else is to be done.
    pub fn on_key(&mut self, key: Key) -> (action: Action)
        ensures
            (final(self)@, action@) == step(old(self)@, key),
    {
        match self.input_mode {
            InputMode::Normal => match key {
                Key::Char(c) => self.on_shortcut(c),
                _ => Action::Nothing,
            },
            InputMode::Command => self.on_edit(key),
            InputMode::Editing => Action::Nothing,
        }
    }

    fn on_shortcut(&mut self, c: char) -> (action: Action)
        ensures
            (final(self)@, action@) == shortcut(old(self)@, c),
    {
        if c == 'w' {
            Action::Run(Command::AddWorkspace { name: SHORTCUT_NAME.to_owned() })
        } else if c == 'i' {
            Action::Run(Command::AddCollection { name: SHORTCUT_NAME.to_owned(), id_workspace: 1 })
        } else if c == 'q' {
            Action::Quit
        } else if c == ' ' {
            self.selection_mode = match self.selection_mode {
                SelectionMode::Collections => SelectionMode::Requests,
                SelectionMode::Requests => SelectionMode::Collections,
            };
            Action::Nothing
        } else if c == ':' {
            self.input_mode = InputMode::Command;
            Action::Nothing
        } else if c == '1' {
            self.selected_tab = 0;
            Action::Nothing
        } else if c == '2' {
            self.selected_tab = 1;
            Action::Nothing
        } else if c == '3' {
            self.selected_tab = 2;
            Action::Nothing
        } else if c == 'k' {
            if self.selected_collection > 0 {
                self.selected_collection = self.selected_collection - 1;
            } else if self.collection_count > 0 {
                self.selected_collection = self.collection_count - 1;
            }
            Action::Nothing
        } else if c == 'j' {
            if self.collection_count == 0 || self.selected_collection >= self.collection_count - 1 {
                self.selected_collection = 0;
            } else {
                self.selected_collection = self.selected_collection + 1;
            }
            Action::Nothing
        } else {
            Action::Nothing
        }
    }

    fn on_edit(&mut self, key: Key) -> (action: Action)
        ensures
            (final(self)@, action@) == edit(old(self)@, key),
    {
        match key {
            Key::Char(c) => {
                if c == '\n' {
                    let line = self.input.clone();
                    self.input.clear();
                    self.input_mode = InputMode::Normal;
                    Action::Interpret(line)
                } else {
                    self.input.push(c);
                    Action::Nothing
                }
            },
            Key::Backspace => {
                let _ = self.input.pop();
                Action::Nothing
            },
            Key::Esc => {
                self.input_mode = InputMode::Normal;
                Action::Nothing
            },
            Key::Other => Action::Nothing,
        }
    }

    /// The id of the workspace whose tab is open.
    pub fn workspace_id(&self) -> (id: i64)
        ensures
            id == tab_workspace(self.selected_tab),
    {
        let tab = self.selected_tab as u64;
        if tab < 0x7fff_ffff_ffff_ffff {
            (tab + 1) as i64
        } else {
            i64::MAX
        }
    }
}

/// What a line of words means: nothing for no word at all, else the command line made of
/// the first word as its verb and of the words behind it.
pub open spec fn spec_line(tokens: Seq<Seq<char>>) -> Result<Seq<CommandView>, CommandErrorView> {
    if tokens.len() == 0 {
        Ok(Seq::empty())
    } else {
        spec_parse(tokens[0], tokens.drop_first())
    }
}

/// The first word of a line of words, where there is one and it is no verb.
pub open spec fn spec_unknown_verb(tokens: Seq<Seq<char>>) -> Option<Seq<char>> {
    if tokens.len() > 0 && spec_verb(tokens[0]) is None {
        Some(tokens[0])
    } else {
        None
    }
}

/// The first word of a line that has been split into words, where there is one and it is
/// no verb. Such a line asks for nothing.
pub fn unknown_verb_of(tokens: &Vec<&str>) -> (res: Option<String>)
    ensures
        res.deep_view() == spec_unknown_verb(tokens.deep_view()),
{
    if tokens.len() == 0 {
        return None;
    }
    match verb_of(tokens[0]) {
        Some(_) => None,
        None => Some(tokens[0].to_owned()),
    }
}

/// The first word of a line, where there is one and it is no verb; see `unknown_verb_of`,
/// which is handed `words` of the line.
pub fn unknown_verb(line: &str) -> (res: Option<String>)
    ensures
        res.deep_view() == spec_unknown_verb(words(line@)),
{
    let tokens = split_words(line);
    unknown_verb_of(&tokens)
}

/// Carries out a command line that has been split into words, on behalf of `user`. A
/// line without words does nothing.
pub fn interpret_words(user: &User, db: &mut Database, tokens: &Vec<&str>) -> (res: Result<
    (),
    CommandError,
>)
    ensures
        interpreted(*old(db), *final(db), spec_line(tokens.deep_view()), user.id, res),
{
    if tokens.len() == 0 {
        proof {
            lemma_continues(*db, *db, Seq::empty(), Seq::empty());
        }
        return Ok(());
    }
    let mut args: Vec<&str> = Vec::new();
    let mut at: usize = 1;
    assert(args.deep_view() =~= tokens.deep_view().subrange(1, 1));
    while at < tokens.len()
        invariant
            1 <= at <= tokens.len(),
            args.deep_view() == tokens.deep_view().subrange(1, at as int),
        decreases tokens.len() - at,
    {
        let ghost before = args.deep_view();
        args.push(tokens[at]);
        assert(args.deep_view() =~= before.push(tokens[at as int].deep_view()));
        assert(args.deep_view() =~= tokens.deep_view().subrange(1, at + 1));
        at = at + 1;
    }
    assert(args.deep_view() =~= tokens.deep_view().drop_first());
    interpret_command(user, db, tokens[0], args)
}

/// Splits a command line into words and carries it out on behalf of `user`; see
/// `interpret_words`, which is handed `words` of the line.
pub fn interpret_line(user: &User, db: &mut Database, line: &str) -> (res: Result<(), CommandError>)
    ensures
        interpreted(*old(db), *final(db), spec_line(words(line@)), user.id, res),
{
    let tokens = split_words(line);
    interpret_words(user, db, &tokens)
}

/// Whether the application goes on after an action.
#[derive(Debug, Clone, Copy, PartialEq, Eq, Structural)]
pub enum Flow {
    Continue,
    Quit,
}

/// The result of an action as the result of the work it asked for.
pub open spec fn work_of(res: Result<Flow, CommandError>) -> Result<(), CommandError> {
    match res {
        Ok(_) => Ok(()),
        Err(error) => Err(error),
    }
}

/// What holds of a handle and a result once an action has been performed. Only `Quit`
/// ends the application, and it touches nothing, as little as `Nothing` does. A command
/// has been carried out as `command_ran` says, for some result of its own that fails
/// exactly when the action does. A line has been interpreted as `interpreted` says.
pub open spec fn performed(
    before: Database,
    after: Database,
    action: ActionView,
    id_user: i64,
    res: Result<Flow, CommandError>,
) -> bool {
    match action {
        ActionView::Nothing => res == Ok::<Flow, CommandError>(Flow::Continue) && after == before,
        ActionView::Quit => res == Ok::<Flow, CommandError>(Flow::Quit) && after == before,
        ActionView::Run(command) => {
            &&& res matches Ok(flow) ==> flow == Flow::Continue
            &&& exists|made: Result<Option<i64>, RepoError>|
                {
                    &&& #[trigger] command_ran(before, after, command, id_user, made)
                    &&& match made {
                        Ok(_) => res is Ok,
                        Err(error) => res == Err::<Flow, CommandError>(
                            CommandError::Failed(error),
                        ),
                    }
                }
        },
        ActionView::Interpret(line) => {
            &&& res matches Ok(flow) ==> flow == Flow::Continue
            &&& interpreted(before, after, spec_line(words(line)), id_user, work_of(res))
        },
    }
}

/// Performs what a key press asked for, on behalf of `user`.
pub fn perform(action: &Action, user: &User, db: &mut Database) -> (res: Result<Flow, CommandError>)
    ensures
        performed(*old(db), *final(db), action@, user.id, res),
{
    match action {
        Action::Nothing => Ok(Flow::Continue),
        Action::Quit => Ok(Flow::Quit),
        Action::Run(command) => {
            let ghost before = *db;
            let made = run_command(command, user, db);
            assert(command_ran(before, *db, command@, user.id, made));
            match made {
                Ok(_) => Ok(Flow::Continue),
                Err(error) => Err(CommandError::Failed(error)),
            }
        },
        Action::Interpret(line) => {
            match interpret_line(user, db, line.as_str()) {
                Ok(()) => Ok(Flow::Continue),
                Err(error) => Err(error),
            }
        },
    }
}

} // verus!
