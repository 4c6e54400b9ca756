use dragon_display::campaign::DdCampaign;
use dragon_display::config::{
    campaign_exists, campaigns_after_write, check_integrity, check_save_removal, image_extension,
    read_campaign_from_config, remove_campaign_from_config, remove_campaign_from_list, video_extension,
    vtt_extension, write_campaign_to_config, Campaign, ConfigFile, FolderEntry, FolderListing, SynchronizationOption,
    IMAGE_EXTENSIONS, MAX_CAMPAIGN_AMOUNT, VIDEO_EXTENSIONS, VTT_EXTENSIONS,
};
use dragon_display::errors::DragonDisplayError;
use dragon_display::manage_campaign::{
    campaigns_after_removal, check_integrity as check_named_integrity, CampaignData, ConfigErrorKind,
    ConfigUpdate,
};
use dragon_display::setup::Token;

fn campaign(name: &str, path: &str) -> Campaign {
    Campaign::new(name.to_string(), path.to_string())
}

fn names(list: &[Campaign]) -> Vec<String> {
    list.iter().map(|c| c.name.clone()).collect()
}

fn paths(list: &[Campaign]) -> Vec<String> {
    list.iter().map(|c| c.path.clone()).collect()
}

fn images(paths: &[&str]) -> FolderListing {
    FolderListing::Entries(paths.iter().map(|p| FolderEntry::Path(p.to_string())).collect())
}

#[test]
fn new_campaign_has_no_synchronisation() {
    let c = campaign("dragons", "/home/dm/dragons");
    assert_eq!(c.name, "dragons");
    assert_eq!(c.path, "/home/dm/dragons");
    assert!(matches!(c.sync_option, SynchronizationOption::NoSync));
    let d = Campaign::default();
    assert_eq!(d.name, "");
    assert_eq!(d.path, "");
    assert!(matches!(d.sync_option, SynchronizationOption::NoSync));
}

#[test]
fn google_drive_campaign_keeps_its_tokens() {
    let c = Campaign::new_googledrive(
        "gd".to_string(),
        "/p".to_string(),
        "acc".to_string(),
        "ref".to_string(),
        "folder".to_string(),
    );
    assert_eq!(
        c.get_campaign_data(),
        (
            "gd".to_string(),
            "/p".to_string(),
            "acc".to_string(),
            "ref".to_string(),
            "folder".to_string()
        )
    );
    let updated = c.update_tokens("acc2".to_string(), "ref2".to_string());
    assert_eq!(
        updated.get_campaign_data(),
        (
            "gd".to_string(),
            "/p".to_string(),
            "acc2".to_string(),
            "ref2".to_string(),
            "folder".to_string()
        )
    );
}

#[test]
fn campaign_data_of_unsynchronised_campaign_has_empty_fields() {
    let c = campaign("a", "/a");
    assert_eq!(
        c.get_campaign_data(),
        ("a".to_string(), "/a".to_string(), String::new(), String::new(), String::new())
    );
}

#[test]
fn campaign_converts_to_and_from_the_program_campaign() {
    let c = campaign("a", "/a");
    let dd = DdCampaign::from(c.clone());
    assert_eq!(dd.name(), "a");
    assert_eq!(dd.path(), "/a");
    let back = Campaign::from(&dd);
    assert_eq!(back.name, "a");
    assert_eq!(back.path, "/a");
}

#[test]
fn program_campaign_tokens_and_folder() {
    let mut dd = DdCampaign::new(
        "gd".to_string(),
        "/gd".to_string(),
        SynchronizationOption::GoogleDrive {
            access_token: "a".to_string(),
            refresh_token: "r".to_string(),
            google_drive_sync_folder: String::new(),
        },
    );
    dd.set_token(Token { access_token: "a2".to_string(), refresh_token: "r2".to_string() });
    dd.set_google_folder("fid".to_string());
    let token = dd.token().expect("a drive campaign has tokens");
    assert_eq!(token.access_token, "a2");
    assert_eq!(token.refresh_token, "r2");
    assert_eq!(dd.sync_folder(), Some("fid".to_string()));

    let mut plain = DdCampaign::new("n".to_string(), "/n".to_string(), SynchronizationOption::NoSync);
    plain.set_token(Token { access_token: "a".to_string(), refresh_token: "r".to_string() });
    plain.set_google_folder("x".to_string());
    assert!(plain.token().is_none());
    assert!(plain.sync_folder().is_none());
    let empty = DdCampaign::default();
    assert!(empty.name.is_none());
    assert!(empty.path.is_none());
}

#[test]
fn integrity_rejects_too_many_campaigns() {
    let list: Vec<Campaign> =
        (0..11).map(|i| campaign(&format!("c{}", i), &format!("/p{}", i))).collect();
    match check_integrity(&list) {
        Err(DragonDisplayError::Other { msg }) => assert!(msg.starts_with("Too many campaigns")),
        _ => panic!("expected too many campaigns"),
    }
    let ten: Vec<Campaign> = list.into_iter().take(usize::from(MAX_CAMPAIGN_AMOUNT)).collect();
    assert!(check_integrity(&ten).is_ok());
}

#[test]
fn integrity_rejects_shared_folders() {
    let list = vec![campaign("a", "/x"), campaign("b", "/y"), campaign("c", "/x")];
    match check_integrity(&list) {
        Err(DragonDisplayError::Other { msg }) => assert!(msg.starts_with("Found a duplicate")),
        _ => panic!("expected a duplicate"),
    }
    assert!(check_integrity(&Vec::new()).is_ok());
}

#[test]
fn reading_the_configuration() {
    assert!(matches!(read_campaign_from_config(ConfigFile::NotFound), Ok(l) if l.is_empty()));
    match read_campaign_from_config(ConfigFile::OpenFailed) {
        Err(DragonDisplayError::IOError { msg }) => assert_eq!(msg, "Could not read the config file"),
        _ => panic!("expected an io error"),
    }
    match read_campaign_from_config(ConfigFile::ReadFailed) {
        Err(DragonDisplayError::IOError { msg }) => assert_eq!(msg, "Could not read configuration file"),
        _ => panic!("expected an io error"),
    }
    assert!(matches!(
        read_campaign_from_config(ConfigFile::Corrupted),
        Err(DragonDisplayError::SerializeError { .. })
    ));
    let ok = read_campaign_from_config(ConfigFile::Parsed(vec![campaign("a", "/a"), campaign("b", "/b")]))
        .ok()
        .expect("a sound configuration is read");
    assert_eq!(names(&ok), vec!["a".to_string(), "b".to_string()]);
    assert!(matches!(
        read_campaign_from_config(ConfigFile::Parsed(vec![campaign("a", "/a"), campaign("b", "/a")])),
        Err(DragonDisplayError::Other { .. })
    ));
}

#[test]
fn campaign_exists_by_name() {
    let list = vec![campaign("a", "/a"), campaign("b", "/b")];
    assert!(campaign_exists(&list, &campaign("b", "/elsewhere")));
    assert!(!campaign_exists(&list, &campaign("c", "/a")));
}

#[test]
fn removal_swaps_in_the_last_campaign() {
    let list = vec![campaign("a", "/a"), campaign("b", "/b"), campaign("c", "/c")];
    let after = remove_campaign_from_list(list, &"a".to_string()).ok().expect("a is stored");
    assert_eq!(names(&after), vec!["c".to_string(), "b".to_string()]);
}

#[test]
fn removal_of_the_only_campaign_empties_the_list() {
    let after = remove_campaign_from_list(vec![campaign("a", "/a")], &"a".to_string())
        .ok()
        .expect("the stored campaign is removed");
    assert!(after.is_empty());
    assert!(matches!(
        remove_campaign_from_list(vec![campaign("a", "/a")], &"zzz".to_string()),
        Err(DragonDisplayError::Other { .. })
    ));
}

#[test]
fn removal_of_an_unknown_campaign_fails() {
    let list = vec![campaign("a", "/a"), campaign("b", "/b")];
    match remove_campaign_from_list(list, &"c".to_string()) {
        Err(DragonDisplayError::Other { msg }) => assert_eq!(msg, "Could not find the campaign to be removed"),
        _ => panic!("expected not found"),
    }
    assert!(matches!(
        remove_campaign_from_list(Vec::new(), &"a".to_string()),
        Err(DragonDisplayError::Other { .. })
    ));
}

#[test]
fn written_campaign_replaces_one_of_the_same_name() {
    let list = vec![campaign("a", "/a"), campaign("b", "/b")];
    let after = campaigns_after_write(list, campaign("a", "/new"));
    assert_eq!(names(&after), vec!["b".to_string(), "a".to_string()]);
    assert_eq!(paths(&after), vec!["/b".to_string(), "/new".to_string()]);
    let grown = campaigns_after_write(after, campaign("c", "/c"));
    assert_eq!(names(&grown), vec!["b".to_string(), "a".to_string(), "c".to_string()]);
}

#[test]
fn write_then_read_gives_the_campaign_back() {
    let stored = vec![campaign("a", "/a"), campaign("b", "/b")];
    let after = write_campaign_to_config(campaign("z", "/z"), Ok(stored))
        .ok()
        .expect("a new campaign is written");
    let read = read_campaign_from_config(ConfigFile::Parsed(after)).ok().expect("still sound");
    let found: Vec<&Campaign> = read.iter().filter(|c| c.name == "z").collect();
    assert_eq!(found.len(), 1);
    assert_eq!(found[0].path, "/z");
}

#[test]
fn write_passes_on_a_read_error() {
    let res = write_campaign_to_config(
        campaign("a", "/a"),
        Err(DragonDisplayError::IOError { msg: "boom".to_string() }),
    );
    match res {
        Err(DragonDisplayError::IOError { msg }) => assert_eq!(msg, "boom"),
        _ => panic!("expected the read error"),
    }
}

#[test]
fn rewriting_a_campaign_updates_it_whatever_its_folder_holds() {
    let stored = vec![campaign("a", "/a"), campaign("b", "/b")];
    let res = write_campaign_to_config(campaign("a", "/a2"), Ok(stored))
        .ok()
        .expect("a stored campaign is updated");
    assert_eq!(names(&res), vec!["b".to_string(), "a".to_string()]);
    assert_eq!(paths(&res), vec!["/b".to_string(), "/a2".to_string()]);
}

#[test]
fn save_removal_accepts_only_images() {
    assert!(check_save_removal(&FolderListing::NotFound).is_ok());
    assert!(check_save_removal(&images(&["/c/a.png", "/c/b.jpg", "/c/c.jpeg"])).is_ok());
    assert!(check_save_removal(&images(&[])).is_ok());
    match check_save_removal(&FolderListing::Failed) {
        Err(DragonDisplayError::IOError { msg }) => assert_eq!(msg, "Could not read the campaign path"),
        _ => panic!("expected an io error"),
    }
    match check_save_removal(&images(&["/c/a.png", "/c/README"])) {
        Err(DragonDisplayError::Other { msg }) => assert_eq!(msg, "Could not get file extension"),
        _ => panic!("expected a missing extension"),
    }
    match check_save_removal(&images(&["/c/a.png", "/c/movie.mp4"])) {
        Err(DragonDisplayError::Other { msg }) => assert_eq!(msg, "Could not remove the campaign"),
        _ => panic!("expected a non-image"),
    }
    match check_save_removal(&FolderListing::Entries(vec![FolderEntry::Unreadable])) {
        Err(DragonDisplayError::IOError { msg }) => assert_eq!(msg, "Could not read the campaign path"),
        _ => panic!("expected an unreadable entry"),
    }
    let odd = |extension| FolderListing::Entries(vec![FolderEntry::NonUnicode { extension }]);
    assert!(check_save_removal(&odd(Some(Some("png".to_string())))).is_ok());
    match check_save_removal(&odd(Some(None))) {
        Err(DragonDisplayError::Other { msg }) => {
            assert_eq!(msg, "Some internal error occured while reading file extensions")
        }
        _ => panic!("expected an extension that is not text"),
    }
    match check_save_removal(&odd(None)) {
        Err(DragonDisplayError::Other { msg }) => assert_eq!(msg, "Could not get file extension"),
        _ => panic!("expected a missing extension"),
    }
    match check_save_removal(&odd(Some(Some("txt".to_string())))) {
        Err(DragonDisplayError::Other { msg }) => assert_eq!(msg, "Could not remove the campaign"),
        _ => panic!("expected a non-image"),
    }
}

#[test]
fn remove_campaign_from_config_checks_the_folder_first() {
    let stored = vec![campaign("a", "/a"), campaign("b", "/b")];
    let res = remove_campaign_from_config(&campaign("a", "/a"), &images(&["/a/x.mp4"]), Ok(stored));
    assert!(matches!(res, Err(DragonDisplayError::Other { .. })));
    let stored = vec![campaign("a", "/a"), campaign("b", "/b")];
    let after = remove_campaign_from_config(&campaign("a", "/a"), &images(&["/a/x.png"]), Ok(stored))
        .ok()
        .expect("removal of a stored campaign");
    assert_eq!(names(&after), vec!["b".to_string()]);
}

#[test]
fn extension_kinds() {
    for e in IMAGE_EXTENSIONS {
        assert!(image_extension(e));
        assert!(!video_extension(e));
        assert!(!vtt_extension(e));
    }
    for e in VIDEO_EXTENSIONS {
        assert!(video_extension(e));
        assert!(!image_extension(e));
    }
    for e in VTT_EXTENSIONS {
        assert!(vtt_extension(e));
        assert!(!image_extension(e));
    }
    assert!(!image_extension("PNG"));
    assert!(!image_extension(""));
}

fn data(path: &str) -> CampaignData {
    CampaignData {
        sync_option: "None".to_string(),
        path: path.to_string(),
        access_token: None,
        refresh_token: None,
    }
}

#[test]
fn named_configuration_integrity() {
    let ok = vec![("a".to_string(), data("/a")), ("b".to_string(), data("/b"))];
    assert!(check_named_integrity(&ok).is_ok());
    let shared = vec![("a".to_string(), data("/a")), ("b".to_string(), data("/a"))];
    assert!(check_named_integrity(&shared) == Err(ConfigErrorKind::InvalidData));
    let many: Vec<(String, CampaignData)> =
        (0..11).map(|i| (format!("c{}", i), data(&format!("/p{}", i)))).collect();
    assert!(check_named_integrity(&many) == Err(ConfigErrorKind::OutOfMemory));
}

#[test]
fn named_configuration_removal() {
    let list = vec![
        ("a".to_string(), data("/a")),
        ("b".to_string(), data("/b")),
        ("c".to_string(), data("/c")),
    ];
    match campaigns_after_removal(list, "b") {
        Ok(ConfigUpdate::Rewrite(kept)) => {
            let names: Vec<String> = kept.iter().map(|e| e.0.clone()).collect();
            assert_eq!(names, vec!["a".to_string(), "c".to_string()]);
            assert_eq!(kept[1].1.path, "/c");
        }
        _ => panic!("expected the others to be written back"),
    }
    assert!(matches!(
        campaigns_after_removal(vec![("a".to_string(), data("/a"))], "a"),
        Ok(ConfigUpdate::DeleteFile)
    ));
    assert!(matches!(
        campaigns_after_removal(vec![("a".to_string(), data("/a"))], "x"),
        Ok(ConfigUpdate::DeleteFile)
    ));
    assert!(matches!(campaigns_after_removal(Vec::new(), "x"), Err(ConfigErrorKind::NotFound)));
    match campaigns_after_removal(vec![("a".to_string(), data("/a")), ("b".to_string(), data("/b"))], "x") {
        Ok(ConfigUpdate::Rewrite(kept)) => assert_eq!(kept.len(), 2),
        _ => panic!("an unknown name keeps every campaign"),
    }
}

#[test]
fn removing_a_new_campaign_undoes_its_write() {
    let before = vec![campaign("a", "/a"), campaign("b", "/b"), campaign("c", "/c")];
    let written = campaigns_after_write(before.clone(), campaign("d", "/d"));
    let after = remove_campaign_from_list(written, &"d".to_string()).ok().expect("d is stored");
    assert_eq!(names(&after), names(&before));
    assert_eq!(paths(&after), paths(&before));
    let written = campaigns_after_write(Vec::new(), campaign("d", "/d"));
    let after = remove_campaign_from_list(written, &"d".to_string()).ok().expect("d is stored");
    assert!(after.is_empty());
}
