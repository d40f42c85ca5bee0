use vstd::prelude::*;
use crate::method::Methods;
use crate::value::{Arg, ArgView, Binding, BindingView};

verus! {

pub const BEGIN_SQL: &'static str = "BEGIN;";

pub const COMMIT_SQL: &'static str = "COMMIT;";

pub const ROLLBACK_SQL: &'static str = "ROLLBACK;";

pub const LAST_INSERT_ID_SQL: &'static str = "SELECT last_insert_rowid();";

pub const INSERT_WORKSPACE_SQL: &'static str = "INSERT INTO Workspace(name) VALUES (:name);";

pub const INSERT_JOIN_SQL: &'static str =
    "INSERT INTO User_Workspace(id_user, id_workspace) VALUES (:id_user, :id_workspace);";

pub const INSERT_COLLECTION_SQL: &'static str =
    "INSERT INTO Collection(name, id_workspace) VALUES (:name, :id_workspace);";

pub const INSERT_LOOSE_COLLECTION_SQL: &'static str = "INSERT INTO Collection(name) VALUES (:name);";

pub const INSERT_REQUEST_SQL: &'static str =
    "INSERT INTO Request(name, id_collection, method, url) VALUES (:name, :id_collection, :method, :url);";

pub const DELETE_JOINS_SQL: &'static str =
    "DELETE FROM User_Workspace WHERE id_workspace IN (SELECT id_workspace FROM User_Workspace uw INNER JOIN Workspace w ON w.id = uw.id_workspace WHERE w.name = :name);";

pub const DELETE_WORKSPACE_SQL: &'static str = "DELETE FROM Workspace WHERE name = :name;";

pub const DELETE_COLLECTION_SQL: &'static str = "DELETE FROM Collection WHERE name = :name;";

pub const DELETE_REQUEST_SQL: &'static str = "DELETE FROM Request WHERE name = :name;";

pub const SELECT_WORKSPACES_SQL: &'static str =
    "SELECT w.id, w.name FROM Workspace w INNER JOIN User_Workspace uw ON uw.id_workspace = w.id AND uw.id_user = :id_user;";

pub const SELECT_COLLECTIONS_SQL: &'static str =
    "SELECT id, name FROM Collection WHERE id_workspace = :id_workspace;";

pub const SELECT_REQUEST_SQL: &'static str =
    "SELECT id, name, method, url, params, body FROM Request WHERE id = :id;";

pub const SELECT_REQUESTS_SQL: &'static str =
    "SELECT id, name, method, url, params, body FROM Request WHERE id_collection = :id_collection;";

pub const SELECT_USER_SQL: &'static str = "SELECT id, name, email FROM User WHERE id = :user_id;";

pub const NAME_PARAM: &'static str = ":name";

pub const URL_PARAM: &'static str = ":url";

pub const METHOD_PARAM: &'static str = ":method";

pub const ID_PARAM: &'static str = ":id";

pub const USER_ID_PARAM: &'static str = ":user_id";

pub const ID_USER_PARAM: &'static str = ":id_user";

pub const ID_WORKSPACE_PARAM: &'static str = ":id_workspace";

pub const ID_COLLECTION_PARAM: &'static str = ":id_collection";

/// Everything the repository ever hands to the store: a closed set of statements, each
/// with the values it binds.
#[derive(Debug, Clone, PartialEq)]
pub enum Query {
    /// Opens a transaction.
    Begin,
    /// Makes the open transaction permanent.
    Commit,
    /// Undoes the open transaction.
    Rollback,
    /// Asks for the id that the store gave to the row inserted last.
    LastInsertId,
    InsertWorkspace { name: String },
    /// Links a workspace to a user.
    InsertJoin { id_user: i64, id_workspace: i64 },
    InsertCollection { name: String, id_workspace: i64 },
    /// A collection that is put in no workspace.
    InsertLooseCollection { name: String },
    /// A request is inserted with a method that has already been parsed.
    InsertRequest { name: String, id_collection: i64, method: Methods, url: String },
    /// Removes the links of every workspace called `name`.
    DeleteJoins { name: String },
    DeleteWorkspace { name: String },
    DeleteCollection { name: String },
    DeleteRequest { name: String },
    /// The workspaces linked to a user.
    SelectWorkspaces { id_user: i64 },
    /// The collections of a workspace.
    SelectCollections { id_workspace: i64 },
    /// One request, by id.
    SelectRequest { id: i64 },
    /// The requests of a collection.
    SelectRequests { id_collection: i64 },
    /// One user, by id.
    SelectUser { id: i64 },
    /// One user, by a credential that is matched against the id column as text.
    SelectUserByCredential { credential: String },
}

/// A statement with its texts seen as sequences of characters.
pub enum QueryView {
    Begin,
    Commit,
    Rollback,
    LastInsertId,
    InsertWorkspace { name: Seq<char> },
    InsertJoin { id_user: i64, id_workspace: i64 },
    InsertCollection { name: Seq<char>, id_workspace: i64 },
    InsertLooseCollection { name: Seq<char> },
    InsertRequest { name: Seq<char>, id_collection: i64, method: Methods, url: Seq<char> },
    DeleteJoins { name: Seq<char> },
    DeleteWorkspace { name: Seq<char> },
    DeleteCollection { name: Seq<char> },
    DeleteRequest { name: Seq<char> },
    SelectWorkspaces { id_user: i64 },
    SelectCollections { id_workspace: i64 },
    SelectRequest { id: i64 },
    SelectRequests { id_collection: i64 },
    SelectUser { id: i64 },
    SelectUserByCredential { credential: Seq<char> },
}

impl View for Query {
    type V = QueryView;

    open spec fn view(&self) -> QueryView {
        match *self {
            Query::Begin => QueryView::Begin,
            Query::Commit => QueryView::Commit,
            Query::Rollback => QueryView::Rollback,
            Query::LastInsertId => QueryView::LastInsertId,
            Query::InsertWorkspace { name } => QueryView::InsertWorkspace { name: name@ },
            Query::InsertJoin { id_user, id_workspace } => QueryView::InsertJoin {
                id_user,
                id_workspace,
            },
            Query::InsertCollection { name, id_workspace } => QueryView::InsertCollection {
                name: name@,
                id_workspace,
            },
            Query::InsertLooseCollection { name } => QueryView::InsertLooseCollection {
                name: name@,
            },
            Query::InsertRequest {
                name,
                id_collection,
                method,
                url,
            } => QueryView::InsertRequest { name: name@, id_collection, method, url: url@ },
            Query::DeleteJoins { name } => QueryView::DeleteJoins { name: name@ },
            Query::DeleteWorkspace { name } => QueryView::DeleteWorkspace { name: name@ },
            Query::DeleteCollection { name } => QueryView::DeleteCollection { name: name@ },
            Query::DeleteRequest { name } => QueryView::DeleteRequest { name: name@ },
            Query::SelectWorkspaces { id_user } => QueryView::SelectWorkspaces { id_user },
            Query::SelectCollections { id_workspace } => QueryView::SelectCollections {
                id_workspace,
            },
            Query::SelectRequest { id } => QueryView::SelectRequest { id },
            Query::SelectRequests { id_collection } => QueryView::SelectRequests {
                id_collection,
            },
            Query::SelectUser { id } => QueryView::SelectUser { id },
            Query::SelectUserByCredential { credential } => {
                QueryView::SelectUserByCredential { credential: credential@ }
            },
        }
    }
}

/// A text bound to a parameter.
pub open spec fn bound_text(name: &'static str, text: Seq<char>) -> BindingView {
    BindingView { name: name@, value: ArgView::Text(text) }
}

/// A whole number bound to a parameter.
pub open spec fn bound_integer(name: &'static str, number: i64) -> BindingView {
    BindingView { name: name@, value: ArgView::Integer(number) }
}

impl QueryView {
    /// The text of the statement as the store receives it.
    pub open spec fn sql(self) -> Seq<char> {
        match self {
            QueryView::Begin => BEGIN_SQL@,
            QueryView::Commit => COMMIT_SQL@,
            QueryView::Rollback => ROLLBACK_SQL@,
            QueryView::LastInsertId => LAST_INSERT_ID_SQL@,
            QueryView::InsertWorkspace { .. } => INSERT_WORKSPACE_SQL@,
            QueryView::InsertJoin { .. } => INSERT_JOIN_SQL@,
            QueryView::InsertCollection { .. } => INSERT_COLLECTION_SQL@,
            QueryView::InsertLooseCollection { .. } => INSERT_LOOSE_COLLECTION_SQL@,
            QueryView::InsertRequest { .. } => INSERT_REQUEST_SQL@,
            QueryView::DeleteJoins { .. } => DELETE_JOINS_SQL@,
            QueryView::DeleteWorkspace { .. } => DELETE_WORKSPACE_SQL@,
            QueryView::DeleteCollection { .. } => DELETE_COLLECTION_SQL@,
            QueryView::DeleteRequest { .. } => DELETE_REQUEST_SQL@,
            QueryView::SelectWorkspaces { .. } => SELECT_WORKSPACES_SQL@,
            QueryView::SelectCollections { .. } => SELECT_COLLECTIONS_SQL@,
            QueryView::SelectRequest { .. } => SELECT_REQUEST_SQL@,
            QueryView::SelectRequests { .. } => SELECT_REQUESTS_SQL@,
            QueryView::SelectUser { .. } => SELECT_USER_SQL@,
            QueryView::SelectUserByCredential { .. } => SELECT_USER_SQL@,
        }
    }

    /// The values bound to the statement's named parameters, in the order they are bound.
    /// A method is bound as its token.
    pub open spec fn bindings(self) -> Seq<BindingView> {
        match self {
            QueryView::Begin => seq![],
            QueryView::Commit => seq![],
            QueryView::Rollback => seq![],
            QueryView::LastInsertId => seq![],
            QueryView::InsertWorkspace { name } => seq![bound_text(NAME_PARAM, name)],
            QueryView::InsertJoin { id_user, id_workspace } => seq![
                bound_integer(ID_USER_PARAM, id_user),
                bound_integer(ID_WORKSPACE_PARAM, id_workspace),
            ],
            QueryView::InsertCollection { name, id_workspace } => seq![
                bound_text(NAME_PARAM, name),
                bound_integer(ID_WORKSPACE_PARAM, id_workspace),
            ],
            QueryView::InsertLooseCollection { name } => seq![bound_text(NAME_PARAM, name)],
            QueryView::InsertRequest { name, id_collection, method, url } => seq![
                bound_text(NAME_PARAM, name),
                bound_integer(ID_COLLECTION_PARAM, id_collection),
                bound_text(METHOD_PARAM, method.token()),
                bound_text(URL_PARAM, url),
            ],
            QueryView::DeleteJoins { name } => seq![bound_text(NAME_PARAM, name)],
            QueryView::DeleteWorkspace { name } => seq![bound_text(NAME_PARAM, name)],
            QueryView::DeleteCollection { name } => seq![bound_text(NAME_PARAM, name)],
            QueryView::DeleteRequest { name } => seq![bound_text(NAME_PARAM, name)],
            QueryView::SelectWorkspaces { id_user } => seq![
                bound_integer(ID_USER_PARAM, id_user),
            ],
            QueryView::SelectCollections { id_workspace } => seq![
                bound_integer(ID_WORKSPACE_PARAM, id_workspace),
            ],
            QueryView::SelectRequest { id } => seq![bound_integer(ID_PARAM, id)],
            QueryView::SelectRequests { id_collection } => seq![
                bound_integer(ID_COLLECTION_PARAM, id_collection),
            ],
            QueryView::SelectUser { id } => seq![bound_integer(USER_ID_PARAM, id)],
            QueryView::SelectUserByCredential { credential } => seq![
                bound_text(USER_ID_PARAM, credential),
            ],
        }
    }
}

/// Binds a text to a parameter.
fn text_binding(name: &'static str, text: &String) -> (res: Binding)
    ensures
        res@ == bound_text(name, text@),
{
    Binding { name, value: Arg::Text(text.clone()) }
}

/// Binds a whole number to a parameter.
fn integer_binding(name: &'static str, number: i64) -> (res: Binding)
    ensures
        res@ == bound_integer(name, number),
{
    Binding { name, value: Arg::Integer(number) }
}

impl Query {
    /// The text of the statement.
    pub fn sql(&self) -> (res: &'static str)
        ensures
            res@ == self@.sql(),
    {
        match self {
            Query::Begin => BEGIN_SQL,
            Query::Commit => COMMIT_SQL,
            Query::Rollback => ROLLBACK_SQL,
            Query::LastInsertId => LAST_INSERT_ID_SQL,
            Query::InsertWorkspace { .. } => INSERT_WORKSPACE_SQL,
            Query::InsertJoin { .. } => INSERT_JOIN_SQL,
            Query::InsertCollection { .. } => INSERT_COLLECTION_SQL,
            Query::InsertLooseCollection { .. } => INSERT_LOOSE_COLLECTION_SQL,
            Query::InsertRequest { .. } => INSERT_REQUEST_SQL,
            Query::DeleteJoins { .. } => DELETE_JOINS_SQL,
            Query::DeleteWorkspace { .. } => DELETE_WORKSPACE_SQL,
            Query::DeleteCollection { .. } => DELETE_COLLECTION_SQL,
            Query::DeleteRequest { .. } => DELETE_REQUEST_SQL,
            Query::SelectWorkspaces { .. } => SELECT_WORKSPACES_SQL,
            Query::SelectCollections { .. } => SELECT_COLLECTIONS_SQL,
            Query::SelectRequest { .. } => SELECT_REQUEST_SQL,
            Query::SelectRequests { .. } => SELECT_REQUESTS_SQL,
            Query::SelectUser { .. } => SELECT_USER_SQL,
            Query::SelectUserByCredential { .. } => SELECT_USER_SQL,
        }
    }

    /// The values to bind, in order.
    pub fn bindings(&self) -> (res: Vec<Binding>)
        ensures
            res.deep_view() == self@.bindings(),
    {
        let mut bound: Vec<Binding> = Vec::new();
        match self {
            Query::Begin => {},
            Query::Commit => {},
            Query::Rollback => {},
            Query::LastInsertId => {},
            Query::InsertWorkspace { name } => {
                bound.push(text_binding(NAME_PARAM, name));
            },
            Query::InsertJoin { id_user, id_workspace } => {
                bound.push(integer_binding(ID_USER_PARAM, *id_user));
                bound.push(integer_binding(ID_WORKSPACE_PARAM, *id_workspace));
            },
            Query::InsertCollection { name, id_workspace } => {
                bound.push(text_binding(NAME_PARAM, name));
                bound.push(integer_binding(ID_WORKSPACE_PARAM, *id_workspace));
            },
            Query::InsertLooseCollection { name } => {
                bound.push(text_binding(NAME_PARAM, name));
            },
            Query::InsertRequest { name, id_collection, method, url } => {
                let token = method.to_string();
                bound.push(text_binding(NAME_PARAM, name));
                bound.push(integer_binding(ID_COLLECTION_PARAM, *id_collection));
                bound.push(text_binding(METHOD_PARAM, &token));
                bound.push(text_binding(URL_PARAM, url));
            },
            Query::DeleteJoins { name } => {
                bound.push(text_binding(NAME_PARAM, name));
            },
            Query::DeleteWorkspace { name } => {
                bound.push(text_binding(NAME_PARAM, name));
            },
            Query::DeleteCollection { name } => {
                bound.push(text_binding(NAME_PARAM, name));
            },
            Query::DeleteRequest { name } => {
                bound.push(text_binding(NAME_PARAM, name));
            },
            Query::SelectWorkspaces { id_user } => {
                bound.push(integer_binding(ID_USER_PARAM, *id_user));
            },
            Query::SelectCollections { id_workspace } => {
                bound.push(integer_binding(ID_WORKSPACE_PARAM, *id_workspace));
            },
            Query::SelectRequest { id } => {
                bound.push(integer_binding(ID_PARAM, *id));
            },
            Query::SelectRequests { id_collection } => {
                bound.push(integer_binding(ID_COLLECTION_PARAM, *id_collection));
            },
            Query::SelectUser { id } => {
                bound.push(integer_binding(USER_ID_PARAM, *id));
            },
            Query::SelectUserByCredential { credential } => {
                bound.push(text_binding(USER_ID_PARAM, credential));
            },
        }
        assert(bound.deep_view() =~= self@.bindings());
        bound
    }
}

} // verus!
