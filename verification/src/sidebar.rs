use vstd::prelude::*;
use crate::database::Database;
use crate::error::RepoError;
use crate::method::Methods;
use crate::query::{Query, QueryView};
use crate::repository::{run, statement_run};

verus! {

/// Something that can put itself into the store and take itself out again.
pub trait Migration {
    fn add(&self) -> Result<(), RepoError>;

    fn remove(&self) -> Result<(), RepoError>;
}

/// A call as it is sketched in the sidebar: a method, a url and a port.
#[derive(Debug, Clone, PartialEq)]
pub struct HttpQuery {
    pub method: Methods,
    pub url: String,
    pub port: String,
}

/// A collection as it is sketched in the sidebar: a name and the calls under it.
#[derive(Debug, Clone, PartialEq)]
pub struct Collection {
    pub name: String,
    pub queries: Vec<HttpQuery>,
}

/// Creates a workspace called `name` that is linked to no user. Such a workspace is listed
/// for nobody until it is linked.
pub fn create_workspace(name: &str, db: &mut Database) -> (res: Result<(), RepoError>)
    ensures
        statement_run(*old(db), *final(db), QueryView::InsertWorkspace { name: name@ }, res),
{
    run(db, &Query::InsertWorkspace { name: name.to_owned() })
}

/// Creates a collection called `name` that is put in no workspace. Such a collection is
/// listed in no workspace until it is put in one.
pub fn create_collection(name: String, db: &mut Database) -> (res: Result<(), RepoError>)
    ensures
        statement_run(*old(db), *final(db), QueryView::InsertLooseCollection { name: name@ }, res),
{
    run(db, &Query::InsertLooseCollection { name })
}

} // verus!
