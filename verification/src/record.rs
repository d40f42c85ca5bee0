use vstd::prelude::*;
use crate::database::{Answer, Database};
use crate::error::{malformed_row_text, outcome, RepoError, RepoErrorView};
use crate::query::QueryView;
use crate::value::{integer_at, spec_integer_at, Cell, RowView};

verus! {

/// The error for a row whose cells are not of the expected kinds, as a mathematical value.
pub open spec fn malformed_row() -> RepoErrorView {
    RepoErrorView::StoreError { code: None, message: Some(malformed_row_text()) }
}

/// A kind of record that can be read from one row of a result.
pub trait FromRow: Sized + DeepView {
    /// What a row decodes to: the record, or the reason why it is refused.
    spec fn decoded(row: RowView) -> Result<Self::V, RepoErrorView>;

    /// Decodes one row.
    fn from_row(row: &Vec<Cell>) -> (res: Result<Self, RepoError>)
        ensures
            outcome(res) == Self::decoded(row.deep_view()),
    ;
}

/// What a list of rows decodes to: the records in the order of the rows, or the refusal of
/// the first row that is refused.
pub open spec fn decoded_rows<T: FromRow>(rows: Seq<RowView>) -> Result<Seq<T::V>, RepoErrorView>
    decreases rows.len(),
{
    if rows.len() == 0 {
        Ok(Seq::empty())
    } else {
        match decoded_rows::<T>(rows.drop_last()) {
            Err(error) => Err(error),
            Ok(records) => match T::decoded(rows.last()) {
                Err(error) => Err(error),
                Ok(record) => Ok(records.push(record)),
            },
        }
    }
}

/// Decodes every row of a result.
pub fn from_rows<T: FromRow>(rows: &Vec<Vec<Cell>>) -> (res: Result<Vec<T>, RepoError>)
    ensures
        outcome(res) == decoded_rows::<T>(rows.deep_view()),
{
    let mut records: Vec<T> = Vec::new();
    let mut index: usize = 0;
    assert(records.deep_view() =~= Seq::<T::V>::empty());
    while index < rows.len()
        invariant
            index <= rows.len(),
            decoded_rows::<T>(rows.deep_view().take(index as int)) == Ok::<
                Seq<T::V>,
                RepoErrorView,
            >(records.deep_view()),
        decreases rows.len() - index,
    {
        proof {
            let seen = rows.deep_view().take(index + 1);
            assert(seen.drop_last() =~= rows.deep_view().take(index as int));
            assert(seen.last() == rows[index as int].deep_view());
        }
        match T::from_row(&rows[index]) {
            Err(error) => {
                proof {
                    lemma_refusal_stays::<T>(rows.deep_view(), index + 1);
                }
                return Err(error);
            },
            Ok(record) => {
                let ghost before = records.deep_view();
                records.push(record);
                assert(records.deep_view() =~= before.push(record.deep_view()));
            },
        }
        index = index + 1;
    }
    assert(rows.deep_view().take(index as int) =~= rows.deep_view());
    Ok(records)
}

/// Once a prefix of the rows is refused, the whole list is refused for the same reason.
proof fn lemma_refusal_stays<T: FromRow>(rows: Seq<RowView>, upto: int)
    requires
        0 <= upto <= rows.len(),
        decoded_rows::<T>(rows.take(upto)) is Err,
    ensures
        decoded_rows::<T>(rows) == decoded_rows::<T>(rows.take(upto)),
    decreases rows.len() - upto,
{
    if upto == rows.len() {
        assert(rows.take(upto) =~= rows);
    } else {
        let longer = rows.take(upto + 1);
        assert(longer.drop_last() =~= rows.take(upto));
        lemma_refusal_stays::<T>(rows, upto + 1);
    }
}

/// Whether an answer is one that the store can give: rows, or a fault of its own.
pub open spec fn from_store<A>(answer: Result<A, RepoErrorView>) -> bool {
    answer matches Err(error) ==> error is StoreError
}

/// What an answer to a listing means: the fault, or the decoded rows.
pub open spec fn decoded_list<T: FromRow>(answer: Result<Seq<RowView>, RepoErrorView>) -> Result<
    Seq<T::V>,
    RepoErrorView,
> {
    match answer {
        Err(error) => Err(error),
        Ok(rows) => decoded_rows::<T>(rows),
    }
}

/// What an answer to a lookup means where the record must exist: the fault, `NotFound`
/// for no row, or the decoded row.
pub open spec fn decoded_match<T: FromRow>(
    answer: Result<Option<RowView>, RepoErrorView>,
) -> Result<T::V, RepoErrorView> {
    match answer {
        Err(error) => Err(error),
        Ok(None) => Err(RepoErrorView::NotFound),
        Ok(Some(row)) => T::decoded(row),
    }
}

/// What an answer to a lookup means where the record may be absent: the fault, nothing
/// for no row, or the decoded row.
pub open spec fn decoded_optional<T: FromRow>(
    answer: Result<Option<RowView>, RepoErrorView>,
) -> Result<Option<T::V>, RepoErrorView> {
    match answer {
        Err(error) => Err(error),
        Ok(None) => Ok(None),
        Ok(Some(row)) => match T::decoded(row) {
            Err(error) => Err(error),
            Ok(record) => Ok(Some(record)),
        },
    }
}

/// What an answer to the question for the last inserted id means: the fault, or the whole
/// number in column 0 of the one row; an answer without such a number is malformed.
pub open spec fn decoded_id(answer: Result<Option<RowView>, RepoErrorView>) -> Result<
    i64,
    RepoErrorView,
> {
    match answer {
        Err(error) => Err(error),
        Ok(None) => Err(malformed_row()),
        Ok(Some(row)) => match spec_integer_at(row, 0) {
            Some(id) => Ok(id),
            None => Err(malformed_row()),
        },
    }
}

/// Reads the records out of the answer to a listing.
pub fn list_from<T: FromRow>(answer: Result<Vec<Vec<Cell>>, RepoError>) -> (res: Result<
    Vec<T>,
    RepoError,
>)
    ensures
        outcome(res) == decoded_list::<T>(outcome(answer)),
{
    match answer {
        Err(error) => Err(error),
        Ok(rows) => from_rows::<T>(&rows),
    }
}

/// Reads the record out of the answer to a lookup; no row means `NotFound`.
pub fn match_from<T: FromRow>(answer: Result<Option<Vec<Cell>>, RepoError>) -> (res: Result<
    T,
    RepoError,
>)
    ensures
        outcome(res) == decoded_match::<T>(outcome(answer)),
{
    match answer {
        Err(error) => Err(error),
        Ok(None) => Err(RepoError::NotFound),
        Ok(Some(row)) => T::from_row(&row),
    }
}

/// Reads the record out of the answer to a lookup; no row means no record.
pub fn optional_from<T: FromRow>(answer: Result<Option<Vec<Cell>>, RepoError>) -> (res: Result<
    Option<T>,
    RepoError,
>)
    ensures
        outcome(res) == decoded_optional::<T>(outcome(answer)),
{
    match answer {
        Err(error) => Err(error),
        Ok(None) => Ok(None),
        Ok(Some(row)) => match T::from_row(&row) {
            Err(error) => Err(error),
            Ok(record) => Ok(Some(record)),
        },
    }
}

/// Reads the id out of the answer to the question for the last inserted id.
pub fn id_from(answer: Result<Option<Vec<Cell>>, RepoError>) -> (res: Result<i64, RepoError>)
    ensures
        outcome(res) == decoded_id(outcome(answer)),
{
    match answer {
        Err(error) => Err(error),
        Ok(None) => Err(RepoError::malformed_row()),
        Ok(Some(row)) => match integer_at(&row, 0) {
            Some(id) => Ok(id),
            None => Err(RepoError::malformed_row()),
        },
    }
}

/// What holds of a handle once one statement that reads has gone to the store: the
/// journal has gained the statement and what came back for it, and nothing else.
pub open spec fn asked(before: Database, after: Database, query: QueryView) -> bool {
    &&& after.name() == before.name()
    &&& after.journal() == before.journal().push(query)
    &&& after.answers() == before.answers().push(after.answers().last())
}

/// What holds of a handle and a result once a listing has run: the statement has gone to
/// the store and every row was asked for; the result is what `decoded_list` makes of what
/// came back; and the rows were read up to the end of the cursor, unless there are as many
/// as a vector can hold.
pub open spec fn listed<T: FromRow>(
    before: Database,
    after: Database,
    query: QueryView,
    res: Result<Vec<T>, RepoError>,
) -> bool {
    &&& asked(before, after, query)
    &&& after.answers().last() matches Answer::All(found, whole) && {
        &&& from_store(found)
        &&& outcome(res) == decoded_list::<T>(found)
        &&& found matches Ok(rows) ==> whole || rows.len() == usize::MAX
    }
}

/// What holds of a handle and a result once a lookup of a record that must exist has
/// run: the statement has gone to the store and its first row was asked for; the result
/// is what `decoded_match` makes of what came back.
pub open spec fn looked_up<T: FromRow>(
    before: Database,
    after: Database,
    query: QueryView,
    res: Result<T, RepoError>,
) -> bool {
    &&& asked(before, after, query)
    &&& after.answers().last() matches Answer::First(found) && {
        &&& from_store(found)
        &&& outcome(res) == decoded_match::<T>(found)
    }
}

/// What holds of a handle and a result once a lookup of a record that may be absent has
/// run: the statement has gone to the store and its first row was asked for; the result
/// is what `decoded_optional` makes of what came back.
pub open spec fn looked_for<T: FromRow>(
    before: Database,
    after: Database,
    query: QueryView,
    res: Result<Option<T>, RepoError>,
) -> bool {
    &&& asked(before, after, query)
    &&& after.answers().last() matches Answer::First(found) && {
        &&& from_store(found)
        &&& outcome(res) == decoded_optional::<T>(found)
    }
}

} // verus!
