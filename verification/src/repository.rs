use vstd::prelude::*;
use crate::container::{Collection, Request, Workspace};
use crate::database::{Answer, Database};
use crate::error::{outcome, RepoError, RepoErrorView};
use crate::method::Methods;
use crate::query::{Query, QueryView};
use crate::record::{decoded_id, id_from, list_from, listed, looked_up, match_from};
use crate::user::User;

verus! {

/// The statements that make a workspace and link it to its user, in the order in which
/// they go to the store.
pub open spec fn workspace_creation(id_user: i64, name: Seq<char>, id_workspace: i64) -> Seq<
    QueryView,
> {
    seq![
        QueryView::Begin,
        QueryView::InsertWorkspace { name },
        QueryView::LastInsertId,
        QueryView::InsertJoin { id_user, id_workspace },
        QueryView::Commit,
    ]
}

/// The statements that remove every workspace called `name` together with its links.
pub open spec fn workspace_removal(name: Seq<char>) -> Seq<QueryView> {
    seq![
        QueryView::Begin,
        QueryView::DeleteJoins { name },
        QueryView::DeleteWorkspace { name },
        QueryView::Commit,
    ]
}

/// The statements that insert one row and ask for its id, in one transaction.
pub open spec fn insertion(insert: QueryView) -> Seq<QueryView> {
    seq![QueryView::Begin, insert, QueryView::LastInsertId, QueryView::Commit]
}

/// What goes to the store when a transaction fails at its statement number `done`: the
/// statements up to that one and, unless the transaction never began, a rollback.
pub open spec fn abandoned(steps: Seq<QueryView>, done: int) -> Seq<QueryView> {
    if done <= 1 {
        steps.take(done)
    } else {
        steps.take(done).push(QueryView::Rollback)
    }
}

/// The statements that went to the store between two states of a handle.
pub open spec fn sent(before: Database, after: Database) -> Seq<QueryView> {
    after.journal().skip(before.journal().len() as int)
}

/// What came back for the statements that went to the store between two states of a
/// handle.
pub open spec fn got(before: Database, after: Database) -> Seq<Answer> {
    after.answers().skip(before.answers().len() as int)
}

/// Whether `after` is the handle `before` with more handed to the store: the name is
/// kept, and the journal has only grown, by as many answers as statements.
pub open spec fn continues(before: Database, after: Database) -> bool {
    &&& after.name() == before.name()
    &&& before.journal().is_prefix_of(after.journal())
    &&& before.answers().is_prefix_of(after.answers())
    &&& got(before, after).len() == sent(before, after).len()
}

/// Whether every statement but the one at position `asks` was run without reading.
pub open spec fn run_only(answers: Seq<Answer>, asks: int) -> bool {
    forall|k: int| 0 <= k < answers.len() && k != asks ==> (#[trigger] answers[k]) is Ran
}

/// The id that the store gave where a statement asked for it: what `decoded_id` makes of
/// the first row that was asked for. A statement that was run in another way asked for
/// none.
pub open spec fn answered_id(answer: Answer) -> Option<Result<i64, RepoErrorView>> {
    match answer {
        Answer::First(found) => Some(decoded_id(found)),
        _ => None,
    }
}

/// Whether the store carried out each of the first `upto` statements.
pub open spec fn consented(answers: Seq<Answer>, upto: int) -> bool {
    forall|k: int| 0 <= k < upto ==> (#[trigger] answers[k]).succeeded()
}

/// What holds of a handle and a result once workspace creation has run.
///
/// The result is `Ok` only where the store carried out all five statements of
/// `workspace_creation`, and the id is the one that the store gave in answer to the third.
/// Otherwise the transaction failed at its statement number `done`, after the store had
/// carried out those before it, and has been rolled back. The error is `JoinInsertFailed`
/// when the workspace row was written and the id could not be read or the link could not
/// be written; it is the store's own error when the transaction could not begin, the
/// workspace row could not be written, or the commit failed.
pub open spec fn workspace_created(
    before: Database,
    after: Database,
    id_user: i64,
    name: Seq<char>,
    res: Result<i64, RepoError>,
) -> bool {
    let answers = got(before, after);
    &&& continues(before, after)
    &&& match res {
        Ok(id) => {
            &&& sent(before, after) == workspace_creation(id_user, name, id)
            &&& run_only(answers, 2)
            &&& consented(answers, 5)
            &&& answered_id(answers[2]) == Some(Ok::<i64, RepoErrorView>(id))
        },
        Err(error) => exists|id: i64, done: int|
            {
                &&& 1 <= done <= 5
                &&& sent(before, after) == #[trigger] abandoned(
                    workspace_creation(id_user, name, id),
                    done,
                )
                &&& run_only(answers, if done >= 3 { 2int } else { -1int })
                &&& consented(answers, done - 1)
                &&& done >= 4 ==> answered_id(answers[2]) == Some(Ok::<i64, RepoErrorView>(id))
                &&& if done == 3 {
                    (answered_id(answers[2]) matches Some(Err(_))) && error is JoinInsertFailed
                } else if done == 4 {
                    !answers[3].succeeded() && error is JoinInsertFailed
                } else {
                    answers[done - 1].fault() == Some(error@) && error is StoreError
                }
            },
    }
}

/// What holds of a handle and a result once an insert has run.
///
/// The result is `Ok` only where the store carried out all four statements of
/// `insertion`, and the id is the one that the store gave in answer to the third.
/// Otherwise the transaction failed at its statement number `done`, after the store had
/// carried out those before it, and has been rolled back; the error is the store's own, or
/// that of an answer to the question for the id that holds no id.
pub open spec fn row_inserted(
    before: Database,
    after: Database,
    insert: QueryView,
    res: Result<i64, RepoError>,
) -> bool {
    let answers = got(before, after);
    &&& continues(before, after)
    &&& match res {
        Ok(id) => {
            &&& sent(before, after) == insertion(insert)
            &&& run_only(answers, 2)
            &&& consented(answers, 4)
            &&& answered_id(answers[2]) == Some(Ok::<i64, RepoErrorView>(id))
        },
        Err(error) => exists|done: int|
            {
                &&& 1 <= done <= 4
                &&& sent(before, after) == #[trigger] abandoned(insertion(insert), done)
                &&& run_only(answers, if done >= 3 { 2int } else { -1int })
                &&& consented(answers, done - 1)
                &&& error is StoreError
                &&& done >= 4 ==> (answered_id(answers[2]) matches Some(Ok(_)))
                &&& if done == 3 {
                    answered_id(answers[2]) == Some(Err::<i64, RepoErrorView>(error@))
                } else {
                    answers[done - 1].fault() == Some(error@)
                }
            },
    }
}

/// What holds of a handle and a result once request creation has run. Where the token
/// names no method the result is `InvalidMethod` and nothing at all has gone to the store:
/// the handle is exactly as it was. Otherwise the request has been inserted with the
/// method that the token names.
pub open spec fn request_created(
    before: Database,
    after: Database,
    name: Seq<char>,
    id_collection: i64,
    token: Seq<char>,
    url: Seq<char>,
    res: Result<i64, RepoError>,
) -> bool {
    match Methods::named_by(token) {
        None => res == Err::<i64, RepoError>(RepoError::InvalidMethod) && after == before,
        Some(method) => row_inserted(
            before,
            after,
            QueryView::InsertRequest { name, id_collection, method, url },
            res,
        ),
    }
}

/// What holds of a handle and a result once workspace removal has run.
///
/// The result is `Ok` only where the store carried out all four statements of
/// `workspace_removal`. Otherwise the transaction failed at its statement number `done`,
/// after the store had carried out those before it, and has been rolled back; the error
/// is the one that the store gave for that statement.
pub open spec fn workspace_removed(
    before: Database,
    after: Database,
    name: Seq<char>,
    res: Result<(), RepoError>,
) -> bool {
    let answers = got(before, after);
    &&& continues(before, after)
    &&& match res {
        Ok(()) => {
            &&& sent(before, after) == workspace_removal(name)
            &&& run_only(answers, -1)
            &&& consented(answers, 4)
        },
        Err(error) => exists|done: int|
            {
                &&& 1 <= done <= 4
                &&& sent(before, after) == #[trigger] abandoned(workspace_removal(name), done)
                &&& run_only(answers, -1)
                &&& consented(answers, done - 1)
                &&& error is StoreError
                &&& answers[done - 1].fault() == Some(error@)
            },
    }
}

/// What holds of a handle and a result once a single statement has run: it has gone to
/// the store, what came back for it is the result, and a failure is the store's own.
pub open spec fn statement_run(
    before: Database,
    after: Database,
    query: QueryView,
    res: Result<(), RepoError>,
) -> bool {
    &&& continues(before, after)
    &&& sent(before, after) == seq![query]
    &&& got(before, after) == seq![Answer::Ran(outcome(res))]
    &&& res matches Err(error) ==> error is StoreError
}

/// A handle whose journal has gained the given statements and answers continues the
/// earlier one, and these are what was sent and what came back in between.
pub proof fn lemma_continues(
    before: Database,
    after: Database,
    statements: Seq<QueryView>,
    answers: Seq<Answer>,
)
    requires
        after.name() == before.name(),
        after.journal() =~= before.journal() + statements,
        after.answers() =~= before.answers() + answers,
        statements.len() == answers.len(),
    ensures
        continues(before, after),
        sent(before, after) == statements,
        got(before, after) == answers,
{
    assert(sent(before, after) =~= statements);
    assert(got(before, after) =~= answers);
    assert(before.journal() =~= after.journal().subrange(0, before.journal().len() as int));
    assert(before.answers() =~= after.answers().subrange(0, before.answers().len() as int));
}

/// A handle that continues one that continues a third continues the third, and what was
/// sent and what came back add up.
pub proof fn lemma_continues_on(before: Database, between: Database, after: Database)
    requires
        continues(before, between),
        continues(between, after),
    ensures
        continues(before, after),
        sent(before, after) == sent(before, between) + sent(between, after),
        got(before, after) == got(before, between) + got(between, after),
{
    assert(before.journal() =~= after.journal().subrange(0, before.journal().len() as int));
    assert(before.answers() =~= after.answers().subrange(0, before.answers().len() as int));
    assert(sent(before, after) =~= sent(before, between) + sent(between, after));
    assert(got(before, after) =~= got(before, between) + got(between, after));
}

/// Hands one statement to the store and returns what came back.
pub(crate) fn run(db: &mut Database, query: &Query) -> (res: Result<(), RepoError>)
    ensures
        statement_run(*old(db), *final(db), query@, res),
{
    let res = db.execute(query);
    proof {
        lemma_continues(*old(db), *db, seq![query@], seq![Answer::Ran(outcome(res))]);
    }
    res
}

/// Creates a workspace called `name` and links it to `user`, in one transaction. Returns
/// the id that the store gave to the workspace.
pub fn create_workspace(user: &User, name: &str, db: &mut Database) -> (res: Result<i64, RepoError>)
    ensures
        workspace_created(*old(db), *final(db), user.id, name@, res),
{
    let ghost start = *db;
    let ghost draft = workspace_creation(user.id, name@, 0);
    let began = db.execute(&Query::Begin);
    let ghost a1 = Answer::Ran(outcome(began));
    match began {
        Err(error) => {
            proof {
                lemma_continues(start, *db, abandoned(draft, 1), seq![a1]);
            }
            return Err(error);
        },
        Ok(()) => {},
    }
    let inserted = db.execute(&Query::InsertWorkspace { name: name.to_owned() });
    let ghost a2 = Answer::Ran(outcome(inserted));
    match inserted {
        Err(error) => {
            let undone = db.execute(&Query::Rollback);
            proof {
                let a3 = Answer::Ran(outcome(undone));
                lemma_continues(start, *db, abandoned(draft, 2), seq![a1, a2, a3]);
            }
            return Err(error);
        },
        Ok(()) => {},
    }
    let found = db.fetch_first(&Query::LastInsertId);
    let ghost a3 = Answer::First(outcome(found));
    let id: i64 = match id_from(found) {
        Err(_) => {
            let undone = db.execute(&Query::Rollback);
            proof {
                let a4 = Answer::Ran(outcome(undone));
                lemma_continues(start, *db, abandoned(draft, 3), seq![a1, a2, a3, a4]);
            }
            return Err(RepoError::JoinInsertFailed);
        },
        Ok(id) => id,
    };
    let ghost steps = workspace_creation(user.id, name@, id);
    let linked = db.execute(&Query::InsertJoin { id_user: user.id, id_workspace: id });
    let ghost a4 = Answer::Ran(outcome(linked));
    match linked {
        Err(_) => {
            let undone = db.execute(&Query::Rollback);
            proof {
                let a5 = Answer::Ran(outcome(undone));
                lemma_continues(start, *db, abandoned(steps, 4), seq![a1, a2, a3, a4, a5]);
            }
            return Err(RepoError::JoinInsertFailed);
        },
        Ok(()) => {},
    }
    let committed = db.execute(&Query::Commit);
    let ghost a5 = Answer::Ran(outcome(committed));
    match committed {
        Err(error) => {
            let undone = db.execute(&Query::Rollback);
            proof {
                let a6 = Answer::Ran(outcome(undone));
                lemma_continues(start, *db, abandoned(steps, 5), seq![a1, a2, a3, a4, a5, a6]);
            }
            Err(error)
        },
        Ok(()) => {
            proof {
                lemma_continues(start, *db, steps, seq![a1, a2, a3, a4, a5]);
            }
            Ok(id)
        },
    }
}

/// Creates a collection called `name` in the workspace `workspace_id`, in one
/// transaction. Returns the id that the store gave to it. Whether the workspace exists is
/// left to the store.
pub fn create_collection(name: &str, workspace_id: i64, db: &mut Database) -> (res: Result<
    i64,
    RepoError,
>)
    ensures
        row_inserted(
            *old(db),
            *final(db),
            QueryView::InsertCollection { name: name@, id_workspace: workspace_id },
            res,
        ),
{
    insert_row(Query::InsertCollection { name: name.to_owned(), id_workspace: workspace_id }, db)
}

/// Creates a request called `name` in the collection `id_collection`, with empty
/// parameters and body, in one transaction. Returns the id that the store gave to it. The
/// method is parsed before anything goes to the store.
pub fn create_request(
    name: &str,
    id_collection: i64,
    method: &str,
    url: &str,
    db: &mut Database,
) -> (res: Result<i64, RepoError>)
    ensures
        request_created(*old(db), *final(db), name@, id_collection, method@, url@, res),
{
    match Methods::from_str(method) {
        Err(error) => Err(error),
        Ok(parsed) => insert_row(
            Query::InsertRequest {
                name: name.to_owned(),
                id_collection,
                method: parsed,
                url: url.to_owned(),
            },
            db,
        ),
    }
}

/// Hands an insert to the store and asks for the id of the new row, in one transaction.
fn insert_row(insert: Query, db: &mut Database) -> (res: Result<i64, RepoError>)
    ensures
        row_inserted(*old(db), *final(db), insert@, res),
{
    let ghost start = *db;
    let ghost steps = insertion(insert@);
    let began = db.execute(&Query::Begin);
    let ghost a1 = Answer::Ran(outcome(began));
    match began {
        Err(error) => {
            proof {
                lemma_continues(start, *db, abandoned(steps, 1), seq![a1]);
            }
            return Err(error);
        },
        Ok(()) => {},
    }
    let inserted = db.execute(&insert);
    let ghost a2 = Answer::Ran(outcome(inserted));
    match inserted {
        Err(error) => {
            let undone = db.execute(&Query::Rollback);
            proof {
                let a3 = Answer::Ran(outcome(undone));
                lemma_continues(start, *db, abandoned(steps, 2), seq![a1, a2, a3]);
            }
            return Err(error);
        },
        Ok(()) => {},
    }
    let found = db.fetch_first(&Query::LastInsertId);
    let ghost a3 = Answer::First(outcome(found));
    let id: i64 = match id_from(found) {
        Err(error) => {
            let undone = db.execute(&Query::Rollback);
            proof {
                let a4 = Answer::Ran(outcome(undone));
                lemma_continues(start, *db, abandoned(steps, 3), seq![a1, a2, a3, a4]);
            }
            return Err(error);
        },
        Ok(id) => id,
    };
    let committed = db.execute(&Query::Commit);
    let ghost a4 = Answer::Ran(outcome(committed));
    match committed {
        Err(error) => {
            let undone = db.execute(&Query::Rollback);
            proof {
                let a5 = Answer::Ran(outcome(undone));
                lemma_continues(start, *db, abandoned(steps, 4), seq![a1, a2, a3, a4, a5]);
            }
            Err(error)
        },
        Ok(()) => {
            proof {
                lemma_continues(start, *db, steps, seq![a1, a2, a3, a4]);
            }
            Ok(id)
        },
    }
}

/// Deletes every workspace called `name`, and with it every link from a user to such a
/// workspace, in one transaction. Collections of the workspaces stay behind.
pub fn delete_workspace(name: &str, db: &mut Database) -> (res: Result<(), RepoError>)
    ensures
        workspace_removed(*old(db), *final(db), name@, res),
{
    let ghost start = *db;
    let ghost steps = workspace_removal(name@);
    let began = db.execute(&Query::Begin);
    let ghost a1 = Answer::Ran(outcome(began));
    match began {
        Err(error) => {
            proof {
                lemma_continues(start, *db, abandoned(steps, 1), seq![a1]);
            }
            return Err(error);
        },
        Ok(()) => {},
    }
    let unlinked = db.execute(&Query::DeleteJoins { name: name.to_owned() });
    let ghost a2 = Answer::Ran(outcome(unlinked));
    match unlinked {
        Err(error) => {
            let undone = db.execute(&Query::Rollback);
            proof {
                let a3 = Answer::Ran(outcome(undone));
                lemma_continues(start, *db, abandoned(steps, 2), seq![a1, a2, a3]);
            }
            return Err(error);
        },
        Ok(()) => {},
    }
    let removed = db.execute(&Query::DeleteWorkspace { name: name.to_owned() });
    let ghost a3 = Answer::Ran(outcome(removed));
    match removed {
        Err(error) => {
            let undone = db.execute(&Query::Rollback);
            proof {
                let a4 = Answer::Ran(outcome(undone));
                lemma_continues(start, *db, abandoned(steps, 3), seq![a1, a2, a3, a4]);
            }
            return Err(error);
        },
        Ok(()) => {},
    }
    let committed = db.execute(&Query::Commit);
    let ghost a4 = Answer::Ran(outcome(committed));
    match committed {
        Err(error) => {
            let undone = db.execute(&Query::Rollback);
            proof {
                let a5 = Answer::Ran(outcome(undone));
                lemma_continues(start, *db, abandoned(steps, 4), seq![a1, a2, a3, a4, a5]);
            }
            Err(error)
        },
        Ok(()) => {
            proof {
                lemma_continues(start, *db, steps, seq![a1, a2, a3, a4]);
            }
            Ok(())
        },
    }
}

/// Deletes every collection called `name`. Requests of the collections stay behind.
pub fn delete_collection(name: &str, db: &mut Database) -> (res: Result<(), RepoError>)
    ensures
        statement_run(*old(db), *final(db), QueryView::DeleteCollection { name: name@ }, res),
{
    run(db, &Query::DeleteCollection { name: name.to_owned() })
}

/// Deletes every request called `name`.
pub fn delete_request(name: &str, db: &mut Database) -> (res: Result<(), RepoError>)
    ensures
        statement_run(*old(db), *final(db), QueryView::DeleteRequest { name: name@ }, res),
{
    run(db, &Query::DeleteRequest { name: name.to_owned() })
}

/// The workspaces linked to the user `id_user`, in the order in which the store yields
/// them, each without its collections.
pub fn get_all_workspaces(id_user: i64, db: &mut Database) -> (res: Result<
    Vec<Workspace>,
    RepoError,
>)
    ensures
        listed::<Workspace>(*old(db), *final(db), QueryView::SelectWorkspaces { id_user }, res),
{
    let answer = db.fetch_all(&Query::SelectWorkspaces { id_user });
    list_from::<Workspace>(answer)
}

/// The collections of the workspace `id_workspace`, in the order in which the store yields
/// them, each without its requests.
pub fn get_all_collections(id_workspace: i64, db: &mut Database) -> (res: Result<
    Vec<Collection>,
    RepoError,
>)
    ensures
        listed::<Collection>(
            *old(db),
            *final(db),
            QueryView::SelectCollections { id_workspace },
            res,
        ),
{
    let answer = db.fetch_all(&Query::SelectCollections { id_workspace });
    list_from::<Collection>(answer)
}

/// The request with the given id; `NotFound` where there is none.
pub fn get_request(id: i64, db: &mut Database) -> (res: Result<Request, RepoError>)
    ensures
        looked_up::<Request>(*old(db), *final(db), QueryView::SelectRequest { id }, res),
{
    let answer = db.fetch_first(&Query::SelectRequest { id });
    match_from::<Request>(answer)
}

/// The requests of the collection `id_collection`, in the order in which the store yields
/// them.
pub fn get_all_requests(id_collection: i64, db: &mut Database) -> (res: Result<
    Vec<Request>,
    RepoError,
>)
    ensures
        listed::<Request>(*old(db), *final(db), QueryView::SelectRequests { id_collection }, res),
{
    let answer = db.fetch_all(&Query::SelectRequests { id_collection });
    list_from::<Request>(answer)
}

} // verus!
