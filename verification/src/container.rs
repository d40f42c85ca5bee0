use vstd::prelude::*;
use crate::error::{RepoError, RepoErrorView};
use crate::method::{lemma_parse_of_render, Methods};
use crate::query::QueryView;
use crate::record::{malformed_row, FromRow};
use crate::value::{
    integer_at, spec_integer_at, spec_text_at, spec_text_or_empty_at, text_at, text_or_empty_at,
    Cell, CellView, RowView,
};

verus! {

/// A saved HTTP call.
#[derive(Debug, Clone, PartialEq)]
pub struct Request {
    pub id: i64,
    pub name: String,
    pub method: Methods,
    pub url: String,
    pub params: String,
    pub body: String,
}

/// A named group of requests inside a workspace.
#[derive(Debug, Clone, PartialEq)]
pub struct Collection {
    pub id: i64,
    pub name: String,
    pub queries: Vec<Request>,
}

/// A top-level group of collections.
#[derive(Debug, Clone, PartialEq)]
pub struct Workspace {
    pub id: i64,
    pub name: String,
    pub collections: Vec<Collection>,
}

pub struct RequestView {
    pub id: i64,
    pub name: Seq<char>,
    pub method: Methods,
    pub url: Seq<char>,
    pub params: Seq<char>,
    pub body: Seq<char>,
}

pub struct CollectionView {
    pub id: i64,
    pub name: Seq<char>,
    pub queries: Seq<RequestView>,
}

pub struct WorkspaceView {
    pub id: i64,
    pub name: Seq<char>,
    pub collections: Seq<CollectionView>,
}

impl DeepView for Request {
    type V = RequestView;

    open spec fn deep_view(&self) -> RequestView {
        RequestView {
            id: self.id,
            name: self.name@,
            method: self.method,
            url: self.url@,
            params: self.params@,
            body: self.body@,
        }
    }
}

impl View for Request {
    type V = RequestView;

    open spec fn view(&self) -> RequestView {
        self.deep_view()
    }
}

impl DeepView for Collection {
    type V = CollectionView;

    open spec fn deep_view(&self) -> CollectionView {
        CollectionView { id: self.id, name: self.name@, queries: self.queries.deep_view() }
    }
}

impl View for Collection {
    type V = CollectionView;

    open spec fn view(&self) -> CollectionView {
        self.deep_view()
    }
}

impl DeepView for Workspace {
    type V = WorkspaceView;

    open spec fn deep_view(&self) -> WorkspaceView {
        WorkspaceView {
            id: self.id,
            name: self.name@,
            collections: self.collections.deep_view(),
        }
    }
}

impl View for Workspace {
    type V = WorkspaceView;

    open spec fn view(&self) -> WorkspaceView {
        self.deep_view()
    }
}

/// Something that holds other things and is shown under a name.
pub trait Container: Sized {
    /// The id the container was made with.
    spec fn key(&self) -> i64;

    /// The name the container is shown under.
    spec fn label(&self) -> Seq<char>;

    /// How many things the container holds.
    spec fn size(&self) -> nat;

    /// An empty container.
    fn new(id: i64, name: String) -> (made: Self)
        ensures
            made.key() == id,
            made.label() == name@,
            made.size() == 0,
    ;

    /// A copy of the name.
    fn name(&self) -> (res: String)
        ensures
            res@ == self.label(),
    ;
}

impl Container for Workspace {
    open spec fn key(&self) -> i64 {
        self.id
    }

    open spec fn label(&self) -> Seq<char> {
        self.name@
    }

    open spec fn size(&self) -> nat {
        self.collections@.len()
    }

    fn new(id: i64, name: String) -> (made: Workspace)
        ensures
            made@ == (WorkspaceView { id, name: name@, collections: Seq::empty() }),
    {
        let made = Workspace { id, name, collections: Vec::new() };
        assert(made.collections.deep_view() =~= Seq::<CollectionView>::empty());
        made
    }

    fn name(&self) -> (res: String) {
        self.name.clone()
    }
}

impl Container for Collection {
    open spec fn key(&self) -> i64 {
        self.id
    }

    open spec fn label(&self) -> Seq<char> {
        self.name@
    }

    open spec fn size(&self) -> nat {
        self.queries@.len()
    }

    fn new(id: i64, name: String) -> (made: Collection)
        ensures
            made@ == (CollectionView { id, name: name@, queries: Seq::empty() }),
    {
        let made = Collection { id, name, queries: Vec::new() };
        assert(made.queries.deep_view() =~= Seq::<RequestView>::empty());
        made
    }

    fn name(&self) -> (res: String) {
        self.name.clone()
    }
}

/// Something that can be sent and is shown under a name.
pub trait Protocol: Sized {
    /// The name the call is shown under.
    spec fn label(&self) -> Seq<char>;

    /// A request with exactly the given fields.
    fn new(
        id: i64,
        name: String,
        method: Methods,
        url: String,
        params: String,
        body: String,
    ) -> (made: Request)
        ensures
            made@ == (RequestView {
                id,
                name: name@,
                method,
                url: url@,
                params: params@,
                body: body@,
            }),
    ;

    /// A copy of the name.
    fn name(&self) -> (res: String)
        ensures
            res@ == self.label(),
    ;
}

impl Protocol for Request {
    open spec fn label(&self) -> Seq<char> {
        self.name@
    }

    fn new(
        id: i64,
        name: String,
        method: Methods,
        url: String,
        params: String,
        body: String,
    ) -> (made: Request) {
        Request { id, name, method, url, params, body }
    }

    fn name(&self) -> (res: String) {
        self.name.clone()
    }
}

impl FromRow for Workspace {
    /// A workspace is read from an id in column 0 and a name in column 1; it comes
    /// without its collections.
    open spec fn decoded(row: RowView) -> Result<WorkspaceView, RepoErrorView> {
        match (spec_integer_at(row, 0), spec_text_at(row, 1)) {
            (Some(id), Some(name)) => Ok(WorkspaceView { id, name, collections: Seq::empty() }),
            _ => Err(malformed_row()),
        }
    }

    fn from_row(row: &Vec<Cell>) -> (res: Result<Workspace, RepoError>) {
        match (integer_at(row, 0), text_at(row, 1)) {
            (Some(id), Some(name)) => Ok(<Workspace as Container>::new(id, name)),
            _ => Err(RepoError::malformed_row()),
        }
    }
}

impl FromRow for Collection {
    /// A collection is read from an id in column 0 and a name in column 1; it comes
    /// without its requests.
    open spec fn decoded(row: RowView) -> Result<CollectionView, RepoErrorView> {
        match (spec_integer_at(row, 0), spec_text_at(row, 1)) {
            (Some(id), Some(name)) => Ok(CollectionView { id, name, queries: Seq::empty() }),
            _ => Err(malformed_row()),
        }
    }

    fn from_row(row: &Vec<Cell>) -> (res: Result<Collection, RepoError>) {
        match (integer_at(row, 0), text_at(row, 1)) {
            (Some(id), Some(name)) => Ok(<Collection as Container>::new(id, name)),
            _ => Err(RepoError::malformed_row()),
        }
    }
}

impl FromRow for Request {
    /// A request is read from an id, a name, a method token, a url, parameters and a body,
    /// in columns 0 to 5. Parameters and body that are not text are read as empty. A token
    /// that names no method is refused as such; any other mismatch makes the row malformed.
    open spec fn decoded(row: RowView) -> Result<RequestView, RepoErrorView> {
        match (
            spec_integer_at(row, 0),
            spec_text_at(row, 1),
            spec_text_at(row, 2),
            spec_text_at(row, 3),
            spec_text_or_empty_at(row, 4),
            spec_text_or_empty_at(row, 5),
        ) {
            (Some(id), Some(name), Some(token), Some(url), Some(params), Some(body)) => {
                match Methods::named_by(token) {
                    Some(method) => Ok(RequestView { id, name, method, url, params, body }),
                    None => Err(RepoErrorView::InvalidMethod),
                }
            },
            _ => Err(malformed_row()),
        }
    }

    fn from_row(row: &Vec<Cell>) -> (res: Result<Request, RepoError>) {
        match (
            integer_at(row, 0),
            text_at(row, 1),
            text_at(row, 2),
            text_at(row, 3),
            text_or_empty_at(row, 4),
            text_or_empty_at(row, 5),
        ) {
            (Some(id), Some(name), Some(token), Some(url), Some(params), Some(body)) => {
                match Methods::from_str(token.as_str()) {
                    Ok(method) => Ok(<Request as Protocol>::new(id, name, method, url, params, body)),
                    Err(error) => Err(error),
                }
            },
            _ => Err(RepoError::malformed_row()),
        }
    }
}

/// The row that the store holds for a workspace or a collection once `insert` has run:
/// the id that the store gave, then the name that the insert bound.
pub open spec fn stored_container(id: i64, insert: QueryView) -> RowView {
    seq![CellView::Integer(id), insert.bindings()[0].value.stored()]
}

/// The row that the store holds for a request once `insert` has run: the id that the
/// store gave, the name, the method token and the url that the insert bound, and nothing
/// for the parameters and the body, which the insert leaves out.
pub open spec fn stored_request(id: i64, insert: QueryView) -> RowView {
    seq![
        CellView::Integer(id),
        insert.bindings()[0].value.stored(),
        insert.bindings()[2].value.stored(),
        insert.bindings()[3].value.stored(),
        CellView::Null,
        CellView::Null,
    ]
}

/// A workspace read back from the row that its insert wrote has the name it was created
/// with, the id that the store gave, and no collections.
pub proof fn lemma_workspace_round_trip(id: i64, name: Seq<char>)
    ensures
        Workspace::decoded(stored_container(id, QueryView::InsertWorkspace { name })) == Ok::<
            WorkspaceView,
            RepoErrorView,
        >(WorkspaceView { id, name, collections: Seq::empty() }),
{
}

/// A collection read back from the row that its insert wrote has the name it was created
/// with, the id that the store gave, and no requests.
pub proof fn lemma_collection_round_trip(id: i64, name: Seq<char>, id_workspace: i64)
    ensures
        Collection::decoded(
            stored_container(id, QueryView::InsertCollection { name, id_workspace }),
        ) == Ok::<CollectionView, RepoErrorView>(
            CollectionView { id, name, queries: Seq::empty() },
        ),
{
}

/// A request read back from the row that its insert wrote has the name, the method and
/// the url it was created with, the id that the store gave, and empty parameters and body.
pub proof fn lemma_request_round_trip(
    id: i64,
    name: Seq<char>,
    id_collection: i64,
    method: Methods,
    url: Seq<char>,
)
    ensures
        Request::decoded(
            stored_request(id, QueryView::InsertRequest { name, id_collection, method, url }),
        ) == Ok::<RequestView, RepoErrorView>(
            RequestView { id, name, method, url, params: Seq::empty(), body: Seq::empty() },
        ),
{
    lemma_parse_of_render(method);
}

} // verus!
