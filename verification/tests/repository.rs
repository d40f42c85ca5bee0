use reqbook::container::{Collection, Request, Workspace};
use reqbook::database::Database;
use reqbook::error::RepoError;
use reqbook::method::Methods;
use reqbook::repository::{
    create_collection, create_request, create_workspace, delete_collection, delete_request,
    delete_workspace, get_all_collections, get_all_requests, get_all_workspaces, get_request,
};
use reqbook::user::{get_user, get_user_from_credentials, User};

const SCHEMA: &str = "
    CREATE TABLE User (id INTEGER PRIMARY KEY, name TEXT, email TEXT);
    CREATE TABLE Workspace (id INTEGER PRIMARY KEY, name TEXT);
    CREATE TABLE User_Workspace (id_user INTEGER NOT NULL, id_workspace INTEGER NOT NULL);
    CREATE TABLE Collection (id INTEGER PRIMARY KEY, name TEXT, id_workspace INTEGER);
    CREATE TABLE Request (id INTEGER PRIMARY KEY, name TEXT, id_collection INTEGER,
                          method TEXT, url TEXT, params TEXT, body TEXT);
    INSERT INTO User (id, name, email) VALUES (1, 'ada', 'ada@example.com');
    INSERT INTO User (id, name, email) VALUES (2, 'bob', 'bob@example.com');
";

fn store_with(script: &str) -> Database {
    let connection = sqlite::open(":memory:").unwrap();
    connection.execute(script).unwrap();
    Database::new(String::from(":memory:"), connection)
}

fn store() -> Database {
    store_with(SCHEMA)
}

fn user(id: i64) -> User {
    User { id, name: format!("user{}", id), email: format!("user{}@example.com", id) }
}

fn names(workspaces: &Vec<Workspace>) -> Vec<String> {
    workspaces.iter().map(|w| w.name.clone()).collect()
}

#[test]
fn created_workspace_is_listed_for_its_user_only() {
    let mut db = store();
    let id = create_workspace(&user(1), "Personal", &mut db).unwrap();
    let mine = get_all_workspaces(1, &mut db).unwrap();
    assert_eq!(mine, vec![Workspace { id, name: String::from("Personal"), collections: vec![] }]);
    assert_eq!(mine.iter().filter(|w| w.name == "Personal").count(), 1);
    assert!(get_all_workspaces(2, &mut db).unwrap().is_empty());
}

#[test]
fn workspace_of_another_user_is_not_touched() {
    let mut db = store();
    let theirs = create_workspace(&user(2), "Team", &mut db).unwrap();
    let before = get_all_workspaces(2, &mut db).unwrap();
    let mine = create_workspace(&user(1), "Personal", &mut db).unwrap();
    assert_ne!(theirs, mine);
    assert_eq!(get_all_workspaces(2, &mut db).unwrap(), before);
    assert_eq!(names(&get_all_workspaces(1, &mut db).unwrap()), vec!["Personal"]);
}

#[test]
fn workspaces_of_one_name_get_ids_of_their_own() {
    let mut db = store();
    let first = create_workspace(&user(1), "Twin", &mut db).unwrap();
    let second = create_workspace(&user(1), "Twin", &mut db).unwrap();
    assert_ne!(first, second);
    let listed = get_all_workspaces(1, &mut db).unwrap();
    assert_eq!(listed.len(), 2);
    assert_eq!(listed[0].id, first);
    assert_eq!(listed[1].id, second);
}

#[test]
fn created_collection_is_listed_in_its_workspace_only() {
    let mut db = store();
    let workspace = create_workspace(&user(1), "Personal", &mut db).unwrap();
    let other = create_workspace(&user(1), "Work", &mut db).unwrap();
    let id = create_collection("Auth", workspace, &mut db).unwrap();
    let listed = get_all_collections(workspace, &mut db).unwrap();
    assert_eq!(listed, vec![Collection { id, name: String::from("Auth"), queries: vec![] }]);
    assert!(get_all_collections(other, &mut db).unwrap().is_empty());
}

#[test]
fn created_request_is_read_back_field_for_field() {
    let mut db = store();
    let id = create_request("Login", 7, "POST", "https://api.example.com/login", &mut db).unwrap();
    let read = get_request(id, &mut db).unwrap();
    assert_eq!(
        read,
        Request {
            id,
            name: String::from("Login"),
            method: Methods::POST,
            url: String::from("https://api.example.com/login"),
            params: String::new(),
            body: String::new(),
        }
    );
    assert_eq!(get_all_requests(7, &mut db).unwrap(), vec![read]);
    assert!(get_all_requests(8, &mut db).unwrap().is_empty());
}

#[test]
fn request_that_does_not_exist_is_not_found() {
    let mut db = store();
    assert!(matches!(get_request(41, &mut db), Err(RepoError::NotFound)));
    create_request("Login", 7, "GET", "http://localhost", &mut db).unwrap();
    assert!(matches!(get_request(41, &mut db), Err(RepoError::NotFound)));
}

#[test]
fn request_with_unknown_method_writes_nothing() {
    let mut db = store();
    let res = create_request("Login", 7, "FETCH", "http://localhost", &mut db);
    assert!(matches!(res, Err(RepoError::InvalidMethod)));
    assert!(get_all_requests(7, &mut db).unwrap().is_empty());
    assert!(matches!(get_request(1, &mut db), Err(RepoError::NotFound)));
}

#[test]
fn every_method_survives_the_store() {
    let mut db = store();
    for (token, method) in [
        ("GET", Methods::GET),
        ("POST", Methods::POST),
        ("PUT", Methods::PUT),
        ("DELETE", Methods::DELETE),
        ("MODIFY", Methods::MODIFY),
    ] {
        let id = create_request(token, 1, token, "http://localhost", &mut db).unwrap();
        assert_eq!(get_request(id, &mut db).unwrap().method, method);
    }
    assert_eq!(get_all_requests(1, &mut db).unwrap().len(), 5);
}

#[test]
fn deleted_workspace_is_listed_for_no_user() {
    let mut db = store();
    create_workspace(&user(1), "Shared", &mut db).unwrap();
    create_workspace(&user(2), "Shared", &mut db).unwrap();
    let kept = create_workspace(&user(1), "Kept", &mut db).unwrap();
    delete_workspace("Shared", &mut db).unwrap();
    let mine = get_all_workspaces(1, &mut db).unwrap();
    assert_eq!(mine, vec![Workspace { id: kept, name: String::from("Kept"), collections: vec![] }]);
    assert!(get_all_workspaces(2, &mut db).unwrap().is_empty());
}

#[test]
fn deleted_workspace_leaves_no_link_behind() {
    let mut db = store();
    let first = create_workspace(&user(1), "Gone", &mut db).unwrap();
    delete_workspace("Gone", &mut db).unwrap();
    // the store gives the id out again; a link left behind would list the new workspace
    // for the old user
    let second = create_workspace(&user(2), "New", &mut db).unwrap();
    assert_eq!(first, second);
    assert!(get_all_workspaces(1, &mut db).unwrap().is_empty());
    assert_eq!(names(&get_all_workspaces(2, &mut db).unwrap()), vec!["New"]);
}

#[test]
fn deleting_a_workspace_leaves_its_collections() {
    let mut db = store();
    let workspace = create_workspace(&user(1), "Personal", &mut db).unwrap();
    create_collection("Auth", workspace, &mut db).unwrap();
    delete_workspace("Personal", &mut db).unwrap();
    assert_eq!(get_all_collections(workspace, &mut db).unwrap().len(), 1);
}

#[test]
fn deleting_by_name_removes_every_match() {
    let mut db = store();
    create_collection("Auth", 1, &mut db).unwrap();
    create_collection("Auth", 1, &mut db).unwrap();
    create_collection("Misc", 1, &mut db).unwrap();
    delete_collection("Auth", &mut db).unwrap();
    let left = get_all_collections(1, &mut db).unwrap();
    assert_eq!(left.len(), 1);
    assert_eq!(left[0].name, "Misc");

    create_request("Ping", 1, "GET", "http://a", &mut db).unwrap();
    create_request("Ping", 2, "PUT", "http://b", &mut db).unwrap();
    let kept = create_request("Pong", 1, "GET", "http://c", &mut db).unwrap();
    delete_request("Ping", &mut db).unwrap();
    let left = get_all_requests(1, &mut db).unwrap();
    assert_eq!(left.len(), 1);
    assert_eq!(left[0].id, kept);
    assert!(get_all_requests(2, &mut db).unwrap().is_empty());
}

#[test]
fn deleting_a_collection_leaves_its_requests() {
    let mut db = store();
    let collection = create_collection("Auth", 1, &mut db).unwrap();
    create_request("Login", collection, "POST", "http://localhost", &mut db).unwrap();
    delete_collection("Auth", &mut db).unwrap();
    assert_eq!(get_all_requests(collection, &mut db).unwrap().len(), 1);
}

#[test]
fn deleting_a_name_that_is_absent_succeeds() {
    let mut db = store();
    assert!(delete_workspace("Nobody", &mut db).is_ok());
    assert!(delete_collection("Nobody", &mut db).is_ok());
    assert!(delete_request("Nobody", &mut db).is_ok());
}

#[test]
fn failed_link_rolls_the_workspace_back() {
    let script = "
        CREATE TABLE Workspace (id INTEGER PRIMARY KEY, name TEXT);
        CREATE TABLE User_Workspace (id_user INTEGER NOT NULL CHECK (id_user > 0),
                                     id_workspace INTEGER NOT NULL);
    ";
    let mut db = store_with(script);
    let res = create_workspace(&user(0), "Orphan", &mut db);
    assert!(matches!(res, Err(RepoError::JoinInsertFailed)));
    // nothing is left behind, and the handle is usable again
    let id = create_workspace(&user(3), "Personal", &mut db).unwrap();
    assert_eq!(id, 1);
    assert_eq!(names(&get_all_workspaces(3, &mut db).unwrap()), vec!["Personal"]);
}

#[test]
fn missing_link_table_is_a_failed_link() {
    let mut db = store_with("CREATE TABLE Workspace (id INTEGER PRIMARY KEY, name TEXT);");
    let res = create_workspace(&user(1), "Orphan", &mut db);
    assert!(matches!(res, Err(RepoError::JoinInsertFailed)));
}

#[test]
fn missing_table_is_a_store_error() {
    let mut db = store_with("CREATE TABLE Other (id INTEGER);");
    assert!(matches!(
        create_workspace(&user(1), "Personal", &mut db),
        Err(RepoError::StoreError { .. })
    ));
    assert!(matches!(create_collection("Auth", 1, &mut db), Err(RepoError::StoreError { .. })));
    assert!(matches!(
        create_request("Login", 1, "GET", "http://localhost", &mut db),
        Err(RepoError::StoreError { .. })
    ));
    assert!(matches!(delete_workspace("x", &mut db), Err(RepoError::StoreError { .. })));
    assert!(matches!(delete_collection("x", &mut db), Err(RepoError::StoreError { .. })));
    assert!(matches!(delete_request("x", &mut db), Err(RepoError::StoreError { .. })));
    assert!(matches!(get_all_workspaces(1, &mut db), Err(RepoError::StoreError { .. })));
    assert!(matches!(get_all_collections(1, &mut db), Err(RepoError::StoreError { .. })));
    assert!(matches!(get_all_requests(1, &mut db), Err(RepoError::StoreError { .. })));
    assert!(matches!(get_request(1, &mut db), Err(RepoError::StoreError { .. })));
    assert!(matches!(get_user(1, &mut db), Err(RepoError::StoreError { .. })));
    // a failed operation leaves no transaction open
    assert!(matches!(delete_workspace("x", &mut db), Err(RepoError::StoreError { .. })));
}

#[test]
fn store_error_carries_the_store_message() {
    let mut db = store_with("CREATE TABLE Other (id INTEGER);");
    match get_request(1, &mut db) {
        Err(RepoError::StoreError { code, message }) => {
            assert_eq!(code, Some(1));
            assert!(message.unwrap().contains("no such table"));
        }
        other => panic!("unexpected outcome: {:?}", other),
    }
}

#[test]
fn stored_method_that_is_unknown_is_refused_on_reading() {
    let script = "INSERT INTO Request (id, name, id_collection, method, url)
                  VALUES (9, 'Odd', 1, 'FETCH', 'http://localhost');";
    let mut db = store_with(&format!("{}{}", SCHEMA, script));
    assert!(matches!(get_request(9, &mut db), Err(RepoError::InvalidMethod)));
    assert!(matches!(get_all_requests(1, &mut db), Err(RepoError::InvalidMethod)));
}

#[test]
fn row_of_unexpected_shape_is_refused_on_reading() {
    let script = "
        CREATE TABLE Collection (id TEXT, name TEXT, id_workspace INTEGER);
        INSERT INTO Collection VALUES ('one', 'Auth', 1);
    ";
    let mut db = store_with(script);
    match get_all_collections(1, &mut db) {
        Err(RepoError::StoreError { code, message }) => {
            assert_eq!(code, None);
            assert_eq!(
                message.as_deref(),
                Some("the store returned a row of an unexpected shape")
            );
        }
        other => panic!("unexpected outcome: {:?}", other),
    }
}

#[test]
fn user_is_found_by_id() {
    let mut db = store();
    let ada = get_user(1, &mut db).unwrap();
    assert_eq!(
        ada,
        Some(User {
            id: 1,
            name: String::from("ada"),
            email: String::from("ada@example.com"),
        })
    );
}

#[test]
fn user_that_does_not_exist_is_none() {
    let mut db = store();
    assert_eq!(get_user(3, &mut db).unwrap(), None);
}

#[test]
fn credential_is_matched_against_the_id() {
    let mut db = store();
    let bob = get_user_from_credentials("2", &mut db).unwrap().unwrap();
    assert_eq!(bob.name, "bob");
    assert_eq!(get_user_from_credentials("bob", &mut db).unwrap(), None);
}

#[test]
fn handle_remembers_its_file_name() {
    let db = Database::open(":memory:").unwrap();
    assert_eq!(db.filename(), ":memory:");
    let db = Database::new(String::from("requests.db"), sqlite::open(":memory:").unwrap());
    assert_eq!(db.filename(), "requests.db");
}

#[test]
fn opening_a_path_that_cannot_exist_is_a_store_error() {
    assert!(matches!(
        Database::open("/nonexistent-directory/requests.db"),
        Err(RepoError::StoreError { .. })
    ));
}

#[test]
fn failed_insert_leaves_the_store_as_it_was() {
    let script = "
        CREATE TABLE Collection (id INTEGER PRIMARY KEY, name TEXT CHECK (name <> 'bad'),
                                 id_workspace INTEGER);
        CREATE TABLE Request (id INTEGER PRIMARY KEY, name TEXT, id_collection INTEGER,
                              method TEXT, url TEXT CHECK (url <> 'bad'), params TEXT, body TEXT);
    ";
    let mut db = store_with(script);
    let kept = create_collection("good", 1, &mut db).unwrap();
    assert!(matches!(create_collection("bad", 1, &mut db), Err(RepoError::StoreError { .. })));
    assert!(matches!(
        create_request("Login", 1, "GET", "bad", &mut db),
        Err(RepoError::StoreError { .. })
    ));
    let listed = get_all_collections(1, &mut db).unwrap();
    assert_eq!(listed.len(), 1);
    assert_eq!(listed[0].id, kept);
    assert!(get_all_requests(1, &mut db).unwrap().is_empty());
    // no transaction is left open: the next one begins and commits
    assert_eq!(create_collection("next", 1, &mut db).unwrap(), kept + 1);
    assert_eq!(create_request("Login", 1, "GET", "fine", &mut db).unwrap(), 1);
}

#[test]
fn insert_inside_an_open_transaction_is_refused_and_undone_with_it() {
    let connection = sqlite::open(":memory:").unwrap();
    connection.execute(SCHEMA).unwrap();
    connection.execute("BEGIN;").unwrap();
    let mut db = Database::new(String::from(":memory:"), connection);
    // the store refuses to begin a transaction inside another
    assert!(matches!(create_collection("Auth", 1, &mut db), Err(RepoError::StoreError { .. })));
    assert!(matches!(
        create_workspace(&user(1), "Personal", &mut db),
        Err(RepoError::StoreError { .. })
    ));
    assert!(matches!(delete_workspace("Personal", &mut db), Err(RepoError::StoreError { .. })));
    assert!(get_all_collections(1, &mut db).unwrap().is_empty());
    assert!(get_all_workspaces(1, &mut db).unwrap().is_empty());
}
