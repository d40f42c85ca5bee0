use reqbook::container::{Collection, Request, Workspace};
use reqbook::database::Database;
use reqbook::error::RepoError;
use reqbook::method::Methods;
use reqbook::query::Query;
use reqbook::record::{from_rows, id_from, list_from, match_from, optional_from, FromRow};
use reqbook::repository::get_all_collections;
use reqbook::sidebar;
use reqbook::user::User;
use reqbook::value::{integer_at, text_at, text_or_empty_at, Arg, Binding, Cell};

fn text(s: &str) -> Cell {
    Cell::Text(String::from(s))
}

fn malformed() -> RepoError {
    RepoError::StoreError {
        code: None,
        message: Some(String::from("the store returned a row of an unexpected shape")),
    }
}

fn fault() -> RepoError {
    RepoError::StoreError { code: Some(5), message: Some(String::from("database is locked")) }
}

fn request_row(id: i64, method: &str) -> Vec<Cell> {
    vec![Cell::Integer(id), text("Login"), text(method), text("http://localhost"), Cell::Null, Cell::Null]
}

#[test]
fn cells_are_read_by_kind_and_position() {
    let row = vec![Cell::Integer(7), text("seven"), Cell::Null, Cell::Real(0), Cell::Binary(vec![1])];
    assert_eq!(integer_at(&row, 0), Some(7));
    assert_eq!(integer_at(&row, 1), None);
    assert_eq!(integer_at(&row, 5), None);
    assert_eq!(text_at(&row, 1), Some(String::from("seven")));
    assert_eq!(text_at(&row, 0), None);
    assert_eq!(text_at(&row, 2), None);
    assert_eq!(text_at(&row, 9), None);
    assert_eq!(text_or_empty_at(&row, 1), Some(String::from("seven")));
    assert_eq!(text_or_empty_at(&row, 0), Some(String::new()));
    assert_eq!(text_or_empty_at(&row, 2), Some(String::new()));
    assert_eq!(text_or_empty_at(&row, 3), Some(String::new()));
    assert_eq!(text_or_empty_at(&row, 4), Some(String::new()));
    assert_eq!(text_or_empty_at(&row, 5), None);
}

#[test]
fn workspace_is_read_from_id_and_name() {
    let row = vec![Cell::Integer(3), text("Personal"), Cell::Integer(1), Cell::Integer(3)];
    assert_eq!(
        Workspace::from_row(&row),
        Ok(Workspace { id: 3, name: String::from("Personal"), collections: vec![] })
    );
    assert_eq!(Workspace::from_row(&vec![Cell::Integer(3)]), Err(malformed()));
    assert_eq!(Workspace::from_row(&vec![text("3"), text("Personal")]), Err(malformed()));
    assert_eq!(Workspace::from_row(&vec![Cell::Integer(3), Cell::Null]), Err(malformed()));
    assert_eq!(Workspace::from_row(&vec![]), Err(malformed()));
}

#[test]
fn collection_is_read_from_id_and_name() {
    let row = vec![Cell::Integer(-4), text("")];
    assert_eq!(
        Collection::from_row(&row),
        Ok(Collection { id: -4, name: String::new(), queries: vec![] })
    );
    assert_eq!(Collection::from_row(&vec![Cell::Null, text("Auth")]), Err(malformed()));
}

#[test]
fn user_is_read_from_id_name_and_email() {
    let row = vec![Cell::Integer(1), text("ada"), text("ada@example.com")];
    assert_eq!(
        User::from_row(&row),
        Ok(User { id: 1, name: String::from("ada"), email: String::from("ada@example.com") })
    );
    assert_eq!(User::from_row(&vec![Cell::Integer(1), text("ada")]), Err(malformed()));
    assert_eq!(User::from_row(&vec![Cell::Integer(1), text("ada"), Cell::Null]), Err(malformed()));
}

#[test]
fn request_is_read_from_six_columns() {
    let row = vec![
        Cell::Integer(9),
        text("Login"),
        text("MODIFY"),
        text("http://localhost"),
        text("a=1"),
        text("{}"),
    ];
    assert_eq!(
        Request::from_row(&row),
        Ok(Request {
            id: 9,
            name: String::from("Login"),
            method: Methods::MODIFY,
            url: String::from("http://localhost"),
            params: String::from("a=1"),
            body: String::from("{}"),
        })
    );
}

#[test]
fn request_without_parameters_and_body_has_them_empty() {
    let read = Request::from_row(&request_row(9, "GET")).unwrap();
    assert_eq!(read.params, "");
    assert_eq!(read.body, "");
    let mut row = request_row(9, "GET");
    row[4] = Cell::Integer(4);
    row[5] = Cell::Binary(vec![1, 2]);
    let read = Request::from_row(&row).unwrap();
    assert_eq!(read.params, "");
    assert_eq!(read.body, "");
}

#[test]
fn request_with_an_unknown_method_is_refused_as_such() {
    assert_eq!(Request::from_row(&request_row(9, "FETCH")), Err(RepoError::InvalidMethod));
    assert_eq!(Request::from_row(&request_row(9, "post")), Err(RepoError::InvalidMethod));
}

#[test]
fn request_of_unexpected_shape_is_malformed() {
    let mut short = request_row(9, "GET");
    short.pop();
    assert_eq!(Request::from_row(&short), Err(malformed()));
    let mut row = request_row(9, "GET");
    row[2] = Cell::Null;
    assert_eq!(Request::from_row(&row), Err(malformed()));
    let mut row = request_row(9, "FETCH");
    row[3] = Cell::Null;
    assert_eq!(Request::from_row(&row), Err(malformed()));
    let mut row = request_row(9, "GET");
    row[0] = text("9");
    assert_eq!(Request::from_row(&row), Err(malformed()));
}

#[test]
fn rows_are_decoded_in_order() {
    let rows = vec![
        vec![Cell::Integer(2), text("b")],
        vec![Cell::Integer(1), text("a")],
        vec![Cell::Integer(2), text("b")],
    ];
    let read: Vec<Workspace> = from_rows(&rows).unwrap();
    let ids: Vec<i64> = read.iter().map(|w| w.id).collect();
    assert_eq!(ids, vec![2, 1, 2]);
    assert_eq!(from_rows::<Workspace>(&vec![]), Ok(vec![]));
}

#[test]
fn first_refused_row_decides_the_error() {
    let rows = vec![
        request_row(1, "GET"),
        request_row(2, "FETCH"),
        vec![Cell::Null],
        request_row(4, "PUT"),
    ];
    assert_eq!(from_rows::<Request>(&rows), Err(RepoError::InvalidMethod));
    let rows = vec![request_row(1, "GET"), vec![Cell::Null], request_row(2, "FETCH")];
    assert_eq!(from_rows::<Request>(&rows), Err(malformed()));
}

#[test]
fn answer_to_a_listing_is_read() {
    let rows = vec![vec![Cell::Integer(1), text("a")]];
    assert_eq!(
        list_from::<Collection>(Ok(rows)),
        Ok(vec![Collection { id: 1, name: String::from("a"), queries: vec![] }])
    );
    assert_eq!(list_from::<Collection>(Ok(vec![vec![]])), Err(malformed()));
    assert_eq!(list_from::<Collection>(Err(fault())), Err(fault()));
}

#[test]
fn answer_to_a_lookup_is_read() {
    assert_eq!(match_from::<Request>(Ok(None)), Err(RepoError::NotFound));
    assert_eq!(match_from::<Request>(Err(fault())), Err(fault()));
    assert_eq!(match_from::<Request>(Ok(Some(request_row(3, "PUT")))).unwrap().id, 3);
    assert_eq!(match_from::<Request>(Ok(Some(vec![]))), Err(malformed()));

    assert_eq!(optional_from::<User>(Ok(None)), Ok(None));
    assert_eq!(optional_from::<User>(Err(fault())), Err(fault()));
    assert_eq!(optional_from::<User>(Ok(Some(vec![Cell::Null]))), Err(malformed()));
    let row = vec![Cell::Integer(1), text("ada"), text("ada@example.com")];
    assert_eq!(optional_from::<User>(Ok(Some(row))).unwrap().unwrap().name, "ada");
}

#[test]
fn answer_to_the_question_for_an_id_is_read() {
    assert_eq!(id_from(Ok(Some(vec![Cell::Integer(12)]))), Ok(12));
    assert_eq!(id_from(Ok(Some(vec![Cell::Integer(i64::MIN), text("x")]))), Ok(i64::MIN));
    assert_eq!(id_from(Ok(Some(vec![text("12")]))), Err(malformed()));
    assert_eq!(id_from(Ok(Some(vec![]))), Err(malformed()));
    assert_eq!(id_from(Ok(None)), Err(malformed()));
    assert_eq!(id_from(Err(fault())), Err(fault()));
}

#[test]
fn statements_bind_what_they_carry() {
    let insert = Query::InsertRequest {
        name: String::from("Login"),
        id_collection: 7,
        method: Methods::DELETE,
        url: String::from("http://localhost"),
    };
    assert_eq!(
        insert.sql(),
        "INSERT INTO Request(name, id_collection, method, url) VALUES (:name, :id_collection, :method, :url);"
    );
    assert_eq!(
        insert.bindings(),
        vec![
            Binding { name: ":name", value: Arg::Text(String::from("Login")) },
            Binding { name: ":id_collection", value: Arg::Integer(7) },
            Binding { name: ":method", value: Arg::Text(String::from("DELETE")) },
            Binding { name: ":url", value: Arg::Text(String::from("http://localhost")) },
        ]
    );
    let link = Query::InsertJoin { id_user: 1, id_workspace: 2 };
    assert_eq!(
        link.bindings(),
        vec![
            Binding { name: ":id_user", value: Arg::Integer(1) },
            Binding { name: ":id_workspace", value: Arg::Integer(2) },
        ]
    );
    assert_eq!(Query::Begin.sql(), "BEGIN;");
    assert_eq!(Query::Commit.sql(), "COMMIT;");
    assert_eq!(Query::Rollback.sql(), "ROLLBACK;");
    assert!(Query::Begin.bindings().is_empty());
    assert!(Query::LastInsertId.bindings().is_empty());
    assert_eq!(
        Query::SelectUserByCredential { credential: String::from("ada") }.bindings(),
        vec![Binding { name: ":user_id", value: Arg::Text(String::from("ada")) }]
    );
}

#[test]
fn handle_runs_statements_and_reads_rows() {
    let connection = sqlite::open(":memory:").unwrap();
    connection
        .execute(
            "CREATE TABLE Collection (id INTEGER PRIMARY KEY, name TEXT, id_workspace INTEGER);
             CREATE TABLE Odd (a, b, c, d, e);
             INSERT INTO Odd VALUES (NULL, 2, 1.5, 'four', x'0506');",
        )
        .unwrap();
    let mut db = Database::new(String::from(":memory:"), connection);
    let insert = Query::InsertCollection { name: String::from("Auth"), id_workspace: 3 };
    assert_eq!(db.execute(&insert), Ok(()));
    assert_eq!(db.execute(&insert), Ok(()));
    let select = Query::SelectCollections { id_workspace: 3 };
    assert_eq!(
        db.fetch_all(&select),
        Ok(vec![vec![Cell::Integer(1), text("Auth")], vec![Cell::Integer(2), text("Auth")]])
    );
    assert_eq!(db.fetch_first(&select), Ok(Some(vec![Cell::Integer(1), text("Auth")])));
    assert_eq!(db.fetch_first(&Query::SelectCollections { id_workspace: 4 }), Ok(None));
    assert_eq!(db.fetch_all(&Query::SelectCollections { id_workspace: 4 }), Ok(vec![]));
    assert_eq!(db.fetch_first(&Query::LastInsertId), Ok(Some(vec![Cell::Integer(2)])));
    assert!(matches!(
        db.execute(&Query::SelectUser { id: 1 }),
        Err(RepoError::StoreError { code: Some(1), .. })
    ));
}

#[test]
fn every_kind_of_cell_comes_out_of_the_store() {
    let connection = sqlite::open(":memory:").unwrap();
    connection
        .execute(
            "CREATE TABLE Collection (id, name, id_workspace);
             INSERT INTO Collection VALUES (NULL, 1.5, 1);
             INSERT INTO Collection VALUES (x'0506', 'four', 1);",
        )
        .unwrap();
    let mut db = Database::new(String::from(":memory:"), connection);
    let rows = db.fetch_all(&Query::SelectCollections { id_workspace: 1 }).unwrap();
    assert_eq!(
        rows,
        vec![
            vec![Cell::Null, Cell::Real(0x3ff8_0000_0000_0000)],
            vec![Cell::Binary(vec![5, 6]), text("four")],
        ]
    );
}

#[test]
fn sidebar_entries_are_listed_nowhere() {
    let connection = sqlite::open(":memory:").unwrap();
    connection
        .execute(
            "CREATE TABLE Workspace (id INTEGER PRIMARY KEY, name TEXT);
             CREATE TABLE User_Workspace (id_user INTEGER, id_workspace INTEGER);
             CREATE TABLE Collection (id INTEGER PRIMARY KEY, name TEXT, id_workspace INTEGER);",
        )
        .unwrap();
    let probe = sqlite::open(":memory:").unwrap();
    drop(probe);
    let mut db = Database::new(String::from(":memory:"), connection);
    assert_eq!(sidebar::create_workspace("Loose", &mut db), Ok(()));
    assert_eq!(sidebar::create_collection(String::from("Loose"), &mut db), Ok(()));
    assert_eq!(db.fetch_first(&Query::LastInsertId), Ok(Some(vec![Cell::Integer(1)])));
    assert!(reqbook::repository::get_all_workspaces(1, &mut db).unwrap().is_empty());
    assert!(get_all_collections(1, &mut db).unwrap().is_empty());
    // the rows are there all the same
    assert_eq!(reqbook::repository::delete_workspace("Loose", &mut db), Ok(()));
    let detached = sidebar::Collection {
        name: String::from("Loose"),
        queries: vec![sidebar::HttpQuery {
            method: Methods::GET,
            url: String::from("http://localhost"),
            port: String::from("80"),
        }],
    };
    assert_eq!(detached.queries[0].port, "80");
}
