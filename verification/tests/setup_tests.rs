use dragon_display::gd_client::{DriveFile, GdClientEvent, GoogleFolder};
use dragon_display::google_drive::FolderResult;
use dragon_display::setup::{clone_folders, GdClientState, LoadFolders, LoadFoldersAction, Token};

fn token(a: &str, r: &str) -> Token {
    Token { access_token: a.to_string(), refresh_token: r.to_string() }
}

fn folder(id: &str, name: &str) -> GoogleFolder {
    GoogleFolder::new(id.to_string(), name.to_string())
}

fn new_window() -> LoadFolders {
    LoadFolders { state: GdClientState::default(), new_folders: Vec::new(), token: token("a", "r") }
}

fn ids(folders: &[GoogleFolder]) -> Vec<String> {
    folders.iter().map(|f| f.id.clone()).collect()
}

#[test]
fn client_state_counts_then_lists() {
    let mut state: GdClientState<u32> = GdClientState::default();
    assert!(matches!(state, GdClientState::TotalFolders));
    state.pop_folder();
    state.new_indexed(7);
    assert!(matches!(state, GdClientState::TotalFolders));

    let mut state = GdClientState::ListFolders { folders: vec![1u32, 2, 3], indexed_folders: Vec::new() };
    state.pop_folder();
    state.new_indexed(3);
    match &state {
        GdClientState::ListFolders { folders, indexed_folders } => {
            assert_eq!(folders, &vec![1, 2]);
            assert_eq!(indexed_folders, &vec![3]);
        }
        _ => panic!("expected the listing state"),
    }
    assert_eq!(state.indexed_folders(), vec![3]);
    let mut empty = GdClientState::ListFolders { folders: Vec::<u32>::new(), indexed_folders: Vec::new() };
    empty.pop_folder();
    assert!(matches!(empty, GdClientState::ListFolders { ref folders, .. } if folders.is_empty()));
}

#[test]
fn indexing_window_follows_the_client() {
    let mut w = new_window();
    assert!(matches!(w.handle(GdClientEvent::Folder { folder: folder("1", "maps") }), LoadFoldersAction::Wait));
    assert!(matches!(w.handle(GdClientEvent::Folder { folder: folder("2", "npcs") }), LoadFoldersAction::Wait));
    assert_eq!(ids(&w.new_folders), vec!["1".to_string(), "2".to_string()]);

    match w.handle(GdClientEvent::Totalfolders { total: 2 }) {
        LoadFoldersAction::ListFolders { total, token, folders } => {
            assert_eq!(total, 2);
            assert_eq!(token.access_token, "a");
            assert_eq!(token.refresh_token, "r");
            assert_eq!(ids(&folders), vec!["1".to_string(), "2".to_string()]);
        }
        _ => panic!("expected the folders to be listed"),
    }
    assert!(w.new_folders.is_empty());

    let mut parent = folder("2", "npcs");
    parent.set_children(vec!["3".to_string()]);
    assert!(matches!(
        w.handle(GdClientEvent::Childrenfolders { parent, children: 1 }),
        LoadFoldersAction::Progress { children: 1 }
    ));
    match &w.state {
        GdClientState::ListFolders { folders, indexed_folders } => {
            assert_eq!(ids(folders), vec!["1".to_string()]);
            assert_eq!(ids(indexed_folders), vec!["2".to_string()]);
            assert_eq!(indexed_folders[0].children, vec!["3".to_string()]);
        }
        _ => panic!("expected the listing state"),
    }
    assert!(matches!(w.handle(GdClientEvent::Finished), LoadFoldersAction::SelectFolder));
}

#[test]
fn indexing_window_handles_expired_tokens() {
    let mut w = new_window();
    match w.handle(GdClientEvent::Refresh) {
        LoadFoldersAction::RefreshToken { token } => {
            assert_eq!(token.access_token, "a");
            assert_eq!(token.refresh_token, "r");
        }
        _ => panic!("expected a refresh"),
    }
    assert!(matches!(w.handle(GdClientEvent::Accesstoken { token: token("a2", "r2") }), LoadFoldersAction::Restart));
    assert_eq!(w.token.access_token, "a2");
    assert_eq!(w.token.refresh_token, "r2");
    assert!(matches!(w.handle(GdClientEvent::Reconnect), LoadFoldersAction::Reconnect));
}

#[test]
fn folder_copies_keep_everything() {
    let mut a = folder("1", "one");
    a.set_children(vec!["x".to_string(), "y".to_string()]);
    let copies = clone_folders(&vec![a, folder("2", "two")]);
    assert_eq!(copies.len(), 2);
    assert_eq!(copies[0].id, "1");
    assert_eq!(copies[0].name, "one");
    assert_eq!(copies[0].children, vec!["x".to_string(), "y".to_string()]);
    assert_eq!(copies[1].name, "two");
}

#[test]
fn folder_tree_records_children_and_names() {
    let mut tree = FolderResult::new("a".to_string(), "r".to_string());
    let children = vec![
        DriveFile { id: "c1".to_string(), name: "maps".to_string() },
        DriveFile { id: "c2".to_string(), name: "handouts".to_string() },
    ];
    let ids = tree.record_children("root".to_string(), &children);
    assert_eq!(ids, vec!["c1".to_string(), "c2".to_string()]);
    assert_eq!(
        tree.child_folders("root"),
        vec![("maps".to_string(), "c1".to_string()), ("handouts".to_string(), "c2".to_string())]
    );
    let none = tree.record_children("c1".to_string(), &Vec::new());
    assert!(none.is_empty());
    assert!(tree.child_folders("c1").is_empty());
    assert_eq!(tree.access_token, "a");
}
