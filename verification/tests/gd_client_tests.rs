use dragon_display::errors::DragonDisplayError;
use dragon_display::gd_client::{
    all_folders_query, child_folders_query, download_url, encoded_client_secret, folder_files_query,
    folder_listed, get_state_and_code, list_step, plan_get_and_remove, redirect_reply, refreshed,
    total_folders_events, DownloadOutcome, DownloadProgress, DriveFile, GdClientEvent, GoogleFolder,
    SCOPE,
};
use dragon_display::setup::Token;

fn redirect(state: &str, code: &str) -> String {
    format!("/?state={}&code={}&scope={}", state, code, SCOPE)
}

fn file(id: &str, name: &str) -> DriveFile {
    DriveFile { id: id.to_string(), name: name.to_string() }
}

#[test]
fn state_and_code_are_read_from_a_redirect() {
    let res = get_state_and_code(&redirect("abc", "4/xyz"));
    match res {
        Ok((state, code)) => {
            assert_eq!(state, "abc");
            assert_eq!(code, "4/xyz");
        }
        Err(_) => panic!("expected the state and code"),
    }
}

#[test]
fn state_may_hold_the_code_marker() {
    let res = get_state_and_code(&redirect("a&code=b", "c"));
    match res {
        Ok((state, code)) => {
            assert_eq!(state, "a&code=b");
            assert_eq!(code, "c");
        }
        Err(_) => panic!("expected the state and code"),
    }
}

#[test]
fn request_without_state_prefix_is_address_in_use() {
    assert!(matches!(get_state_and_code("/favicon.ico"), Err(DragonDisplayError::AddressInUse)));
    assert!(matches!(get_state_and_code(""), Err(DragonDisplayError::AddressInUse)));
}

#[test]
fn request_without_scope_is_invalid_data() {
    match get_state_and_code("/?state=abc&code=def") {
        Err(DragonDisplayError::InvalidData { msg }) => assert_eq!(
            msg,
            "The request gotten from google has unexpected format (no 'scope' found)"
        ),
        _ => panic!("expected invalid data"),
    }
}

#[test]
fn request_without_code_is_invalid_data() {
    let request = format!("/?state=abc&scope={}", SCOPE);
    match get_state_and_code(&request) {
        Err(DragonDisplayError::InvalidData { msg }) => {
            assert_eq!(msg, "Could not find code in the google request")
        }
        _ => panic!("expected invalid data"),
    }
}

#[test]
fn empty_state_and_code_are_read() {
    match get_state_and_code(&redirect("", "")) {
        Ok((state, code)) => {
            assert_eq!(state, "");
            assert_eq!(code, "");
        }
        Err(_) => panic!("expected the state and code"),
    }
}

#[test]
fn server_replies_to_each_kind_of_request() {
    let (found, text) = redirect_reply(&redirect("s", "c"));
    assert_eq!(found, Some(("s".to_string(), "c".to_string())));
    assert_eq!(text, "linked succesfully, you can close this page now!");
    let (found, text) = redirect_reply("/favicon.ico");
    assert_eq!(found, None);
    assert_eq!(text, "sssshhhhh! I'm trying to listen!");
    let (found, text) = redirect_reply("/?state=s&code=c");
    assert_eq!(found, None);
    assert_eq!(text, "The state or code given by google was invalid!");
}

#[test]
fn sync_plan_downloads_missing_and_removes_stale_files() {
    let local = vec!["a.png".to_string(), "old.png".to_string(), "b.jpg".to_string()];
    let drive = vec![file("1", "b.jpg"), file("2", "c.png"), file("3", "a.png"), file("4", "d.png")];
    let plan = plan_get_and_remove(&local, &drive);
    let downloads: Vec<(String, String)> =
        plan.downloads.iter().map(|f| (f.id.clone(), f.name.clone())).collect();
    assert_eq!(
        downloads,
        vec![("2".to_string(), "c.png".to_string()), ("4".to_string(), "d.png".to_string())]
    );
    assert_eq!(plan.removals, vec!["old.png".to_string()]);
    assert_eq!(plan.total, 4);
}

#[test]
fn sync_plan_of_empty_folders_is_empty() {
    let plan = plan_get_and_remove(&Vec::new(), &Vec::new());
    assert!(plan.downloads.is_empty());
    assert!(plan.removals.is_empty());
    assert_eq!(plan.total, 0);
}

#[test]
fn sync_plan_of_a_synchronised_folder_changes_nothing() {
    let local = vec!["x.png".to_string(), "y.png".to_string()];
    let drive = vec![file("9", "y.png"), file("8", "x.png")];
    let plan = plan_get_and_remove(&local, &drive);
    assert!(plan.downloads.is_empty());
    assert!(plan.removals.is_empty());
    assert_eq!(plan.total, 2);
}

#[test]
fn client_secret_is_base64_encoded() {
    assert_eq!(encoded_client_secret("hello"), "aGVsbG8=");
    assert_eq!(encoded_client_secret(""), "");
    assert_eq!(encoded_client_secret("ab"), "YWI=");
    assert_eq!(encoded_client_secret("abc"), "YWJj");
    assert_eq!(encoded_client_secret("{\"a\":1}"), "eyJhIjoxfQ==");
}

#[test]
fn drive_urls_and_queries() {
    assert_eq!(download_url("abc"), "https://www.googleapis.com/drive/v3/files/abc?alt=media");
    assert_eq!(all_folders_query(), "mimeType = 'application/vnd.google-apps.folder' and trashed = false");
    assert_eq!(
        child_folders_query("id1"),
        "mimeType = 'application/vnd.google-apps.folder' and 'id1' in parents and trashed = false"
    );
    assert_eq!(
        folder_files_query("id2"),
        "mimeType != 'application/vnd.google-apps.folder' and 'id2' in parents and trashed = false"
    );
}

#[test]
fn listed_folders_are_reported_then_counted() {
    let events = total_folders_events(Some(vec![file("1", "maps"), file("2", "tokens")]));
    assert_eq!(events.len(), 3);
    match &events[0] {
        GdClientEvent::Folder { folder } => {
            assert_eq!(folder.id, "1");
            assert_eq!(folder.name, "maps");
            assert!(folder.children.is_empty());
        }
        _ => panic!("expected a folder"),
    }
    match &events[1] {
        GdClientEvent::Folder { folder } => assert_eq!(folder.name, "tokens"),
        _ => panic!("expected a folder"),
    }
    assert!(matches!(events[2], GdClientEvent::Totalfolders { total: 2 }));
}

#[test]
fn failed_folder_listing_asks_for_refresh() {
    let events = total_folders_events(None);
    assert_eq!(events.len(), 1);
    assert!(matches!(events[0], GdClientEvent::Refresh));
    assert!(matches!(folder_listed(GoogleFolder::new("1".to_string(), "a".to_string()), None), GdClientEvent::Refresh));
}

#[test]
fn listed_children_are_attached_to_their_folder() {
    let folder = GoogleFolder::new("p".to_string(), "parent".to_string());
    match folder_listed(folder, Some(vec![file("c1", "one"), file("c2", "two")])) {
        GdClientEvent::Childrenfolders { parent, children } => {
            assert_eq!(children, 2);
            assert_eq!(parent.id, "p");
            assert_eq!(parent.name, "parent");
            assert_eq!(parent.children, vec!["c1".to_string(), "c2".to_string()]);
        }
        _ => panic!("expected the children"),
    }
}

#[test]
fn refresh_gives_tokens_or_asks_to_reconnect() {
    let token = Token { access_token: "a".to_string(), refresh_token: "r".to_string() };
    match refreshed(Some(token)) {
        GdClientEvent::Accesstoken { token } => {
            assert_eq!(token.access_token, "a");
            assert_eq!(token.refresh_token, "r");
        }
        _ => panic!("expected the tokens"),
    }
    assert!(matches!(refreshed(None), GdClientEvent::Reconnect));
}

#[test]
fn downloads_report_progress_and_failures() {
    let mut progress = DownloadProgress::new();
    let (event, stop) = progress.record("a.png".to_string(), DownloadOutcome::Downloaded);
    assert!(matches!(event, Some(GdClientEvent::FileDownloaded)));
    assert!(!stop);
    let (event, stop) = progress.record("b.png".to_string(), DownloadOutcome::WriteFailed);
    assert!(event.is_none());
    assert!(!stop);
    let (event, stop) = progress.record("c.png".to_string(), DownloadOutcome::RequestFailed);
    assert!(matches!(event, Some(GdClientEvent::Refresh)));
    assert!(stop);
    assert_eq!(progress.failed_files, vec!["b.png".to_string()]);
    let events = progress.finish();
    assert_eq!(events.len(), 2);
    match &events[0] {
        GdClientEvent::FailedFiles { files } => assert_eq!(files, &vec!["b.png".to_string()]),
        _ => panic!("expected the failed files"),
    }
    assert!(matches!(events[1], GdClientEvent::Finished));
}

#[test]
fn folders_are_listed_last_first_then_finished() {
    let mut pending = vec![GoogleFolder::new("1".to_string(), "a".to_string()), GoogleFolder::new("2".to_string(), "b".to_string())];
    let (events, done) = list_step(&mut pending, Some(vec![file("c", "child")]));
    assert!(!done);
    assert_eq!(events.len(), 1);
    match &events[0] {
        GdClientEvent::Childrenfolders { parent, children } => {
            assert_eq!(parent.id, "2");
            assert_eq!(*children, 1);
            assert_eq!(parent.children, vec!["c".to_string()]);
        }
        _ => panic!("expected the last folder"),
    }
    let (events, done) = list_step(&mut pending, Some(Vec::new()));
    assert!(!done);
    assert!(matches!(&events[0], GdClientEvent::Childrenfolders { parent, children: 0 } if parent.id == "1"));
    let (events, done) = list_step(&mut pending, None);
    assert!(done);
    assert_eq!(events.len(), 1);
    assert!(matches!(events[0], GdClientEvent::Finished));
}

#[test]
fn failed_listing_stops_the_run() {
    let mut pending = vec![GoogleFolder::new("1".to_string(), "a".to_string()), GoogleFolder::new("2".to_string(), "b".to_string())];
    let (events, done) = list_step(&mut pending, None);
    assert!(done);
    assert!(matches!(events[0], GdClientEvent::Refresh));
    assert_eq!(pending.len(), 1);
}

#[test]
fn downloads_without_failure_just_finish() {
    let events = DownloadProgress::new().finish();
    assert_eq!(events.len(), 1);
    assert!(matches!(events[0], GdClientEvent::Finished));
}
