use vstd::prelude::*;
use crate::database::Database;
use crate::error::{RepoError, RepoErrorView};
use crate::query::{Query, QueryView};
use crate::record::{looked_for, malformed_row, optional_from, FromRow};
use crate::value::{integer_at, spec_integer_at, spec_text_at, text_at, Cell, RowView};

verus! {

/// Someone who owns workspaces. Users are made elsewhere; the repository only reads them.
#[derive(Debug, Clone, PartialEq)]
pub struct User {
    pub id: i64,
    pub name: String,
    pub email: String,
}

pub struct UserView {
    pub id: i64,
    pub name: Seq<char>,
    pub email: Seq<char>,
}

impl DeepView for User {
    type V = UserView;

    open spec fn deep_view(&self) -> UserView {
        UserView { id: self.id, name: self.name@, email: self.email@ }
    }
}

impl View for User {
    type V = UserView;

    open spec fn view(&self) -> UserView {
        self.deep_view()
    }
}

impl FromRow for User {
    /// A user is read from an id, a name and an e-mail address in columns 0 to 2.
    open spec fn decoded(row: RowView) -> Result<UserView, RepoErrorView> {
        match (spec_integer_at(row, 0), spec_text_at(row, 1), spec_text_at(row, 2)) {
            (Some(id), Some(name), Some(email)) => Ok(UserView { id, name, email }),
            _ => Err(malformed_row()),
        }
    }

    fn from_row(row: &Vec<Cell>) -> (res: Result<User, RepoError>) {
        match (integer_at(row, 0), text_at(row, 1), text_at(row, 2)) {
            (Some(id), Some(name), Some(email)) => Ok(User { id, name, email }),
            _ => Err(RepoError::malformed_row()),
        }
    }
}

/// Looks a user up by id. A user that does not exist is no error: the result is `None`.
pub fn get_user(user_id: i64, db: &mut Database) -> (res: Result<Option<User>, RepoError>)
    ensures
        looked_for::<User>(*old(db), *final(db), QueryView::SelectUser { id: user_id }, res),
{
    let answer = db.fetch_first(&Query::SelectUser { id: user_id });
    optional_from::<User>(answer)
}

/// Looks a user up by a credential, which the store compares with the id column.
pub fn get_user_from_credentials(user_name: &str, db: &mut Database) -> (res: Result<
    Option<User>,
    RepoError,
>)
    ensures
        looked_for::<User>(
            *old(db),
            *final(db),
            QueryView::SelectUserByCredential { credential: user_name@ },
            res,
        ),
{
    let answer = db.fetch_first(&Query::SelectUserByCredential { credential: user_name.to_owned() });
    optional_from::<User>(answer)
}

} // verus!
