use dragon_display::config::{Campaign, SynchronizationOption};
use dragon_display::errors::DragonDisplayError;
use dragon_display::ui::add_campaign::{
    allowed_char, char_is_whitespace, chosen_campaign, default_campaign_path, finish_label, valid_name,
    valid_path, AddCampaignOutcome, WorkingDir,
};
use dragon_display::ui::control_window::seperate_media;
use dragon_display::ui::display_window::{get_rotation, ContentFit, DdDisplayWindow, Rotation};
use dragon_display::ui::error_dialog::dialog_message;
use dragon_display::ui::googledrive_connect::{connect_message, url_message};
use dragon_display::ui::options::{ColorPreset, PresetColor};

fn stored(names_and_paths: &[(&str, &str)]) -> Result<Vec<Campaign>, DragonDisplayError> {
    Ok(names_and_paths
        .iter()
        .map(|(n, p)| Campaign::new(n.to_string(), p.to_string()))
        .collect())
}

fn invalid_name(res: Result<(), DragonDisplayError>) -> String {
    match res {
        Err(DragonDisplayError::InvalidName { msg }) => msg,
        _ => panic!("expected an invalid name"),
    }
}

#[test]
fn name_checks() {
    assert!(valid_name("Lost Mine", stored(&[])).is_ok());
    assert!(valid_name("  Lost_Mine-2 ", stored(&[("Other", "/o")])).is_ok());
    assert_eq!(invalid_name(valid_name("   ", stored(&[]))), "input may not be all whitespace");
    assert_eq!(invalid_name(valid_name("", stored(&[]))), "input may not be all whitespace");
    assert_eq!(invalid_name(valid_name("a/b", stored(&[]))), "Input contained invalid character");
    assert_eq!(invalid_name(valid_name("café", stored(&[]))), "Input contained invalid character");
    assert_eq!(invalid_name(valid_name(" Strahd ", stored(&[("Strahd", "/s")]))), "Name already exists");
}

#[test]
fn name_check_passes_on_a_read_error_only_after_the_text_checks() {
    let read_error = || Err(DragonDisplayError::IOError { msg: "unreadable".to_string() });
    match valid_name("ok name", read_error()) {
        Err(DragonDisplayError::IOError { msg }) => assert_eq!(msg, "unreadable"),
        _ => panic!("expected the read error"),
    }
    assert_eq!(invalid_name(valid_name("bad!", read_error())), "Input contained invalid character");
}

#[test]
fn path_checks() {
    let here = || WorkingDir::Path("/home/dm".to_string());
    assert!(valid_path("/home/dm/new", stored(&[("a", "/a")]), here()).is_ok());
    match valid_path("/a", stored(&[("a", "/a")]), here()) {
        Err(DragonDisplayError::InvalidPath { msg }) => assert_eq!(msg, "Another campaign already uses this folder"),
        _ => panic!("expected a folder in use"),
    }
    match valid_path("/home/dm", stored(&[]), here()) {
        Err(DragonDisplayError::InvalidPath { msg }) => assert_eq!(
            msg,
            "Cannot use the current working directory as a folder for campaign images"
        ),
        _ => panic!("expected the working directory to be refused"),
    }
    assert!(matches!(
        valid_path("/x", stored(&[]), WorkingDir::Unavailable),
        Err(DragonDisplayError::IOError { .. })
    ));
    assert!(matches!(
        valid_path("/x", stored(&[]), WorkingDir::NotUnicode),
        Err(DragonDisplayError::Other { .. })
    ));
    assert!(matches!(
        valid_path("/x", Err(DragonDisplayError::AddressInUse), here()),
        Err(DragonDisplayError::AddressInUse)
    ));
}

#[test]
fn character_classes() {
    for c in ['a', 'Z', '0', '9', '-', '\'', ' ', '_'] {
        assert!(allowed_char(c));
    }
    for c in ['!', '/', 'é', '\t', '.'] {
        assert!(!allowed_char(c));
    }
    for c in [' ', '\t', '\n', '\u{a0}', '\u{2003}', '\u{3000}'] {
        assert!(char_is_whitespace(c));
        assert_eq!(char_is_whitespace(c), c.is_whitespace());
    }
    for c in ['a', '_', '\u{200b}'] {
        assert!(!char_is_whitespace(c));
        assert_eq!(char_is_whitespace(c), c.is_whitespace());
    }
}

#[test]
fn add_campaign_form_steps() {
    assert_eq!(finish_label(0), "Finish");
    assert_eq!(finish_label(1), "Next");
    match default_campaign_path(WorkingDir::Path("/home/dm".to_string()), "Curse") {
        Ok(p) => assert_eq!(p, "/home/dm/Curse"),
        Err(_) => panic!("expected a path"),
    }
    match default_campaign_path(WorkingDir::Unavailable, "Curse") {
        Err(DragonDisplayError::IOError { msg }) => assert_eq!(msg, "Could not get current working directory"),
        _ => panic!("expected an io error"),
    }
    match chosen_campaign("n".to_string(), "/p".to_string(), 0) {
        AddCampaignOutcome::CampaignNone(c) => {
            assert_eq!(c.name(), "n");
            assert_eq!(c.path(), "/p");
            assert!(matches!(c.sync_option, SynchronizationOption::NoSync));
        }
        _ => panic!("expected a campaign without synchronisation"),
    }
    match chosen_campaign("n".to_string(), "/p".to_string(), 1) {
        AddCampaignOutcome::CampaignGd(c) => match c.sync_option {
            SynchronizationOption::GoogleDrive { access_token, refresh_token, google_drive_sync_folder } => {
                assert!(access_token.is_empty());
                assert!(refresh_token.is_empty());
                assert!(google_drive_sync_folder.is_empty());
            }
            _ => panic!("expected a drive campaign"),
        },
        _ => panic!("expected a drive campaign"),
    }
}

#[test]
fn media_are_separated_by_extension() {
    let files: Vec<String> = ["/c/a.png", "/c/map.uvtt", "/c/b.JPG", "/c/c.jpg", "/c/intro.mp4", "/c/notes", "/c/d.webm", "/c/e.jpeg"]
        .iter()
        .map(|s| s.to_string())
        .collect();
    let (images, vtts, videos) = seperate_media(&files);
    assert_eq!(images, vec!["/c/a.png".to_string(), "/c/c.jpg".to_string(), "/c/e.jpeg".to_string()]);
    assert_eq!(vtts, vec!["/c/map.uvtt".to_string()]);
    assert_eq!(videos, vec!["/c/intro.mp4".to_string(), "/c/d.webm".to_string()]);
}

#[test]
fn rotations_compose_and_undo() {
    let mut w = DdDisplayWindow::new(0);
    assert!(w.rotation == Rotation::NoRotation);
    w.rotate_90();
    assert!(w.rotation == Rotation::Clockwise);
    assert_eq!(w.rotation.get_angle_degree(), 90);
    w.rotate_180();
    assert!(w.rotation == Rotation::Counterclockwise);
    w.rotate_270();
    assert!(w.rotation == Rotation::UpsideDown);
    w.rotate_90();
    w.rotate_90();
    assert!(w.rotation == Rotation::NoRotation);
    for _ in 0..4 {
        w.rotate_90();
    }
    assert!(w.rotation == Rotation::NoRotation);
    w.rotate_90();
    w.rotate_270();
    assert!(w.rotation == Rotation::NoRotation);
    assert!(Rotation::default() == Rotation::NoRotation);
}

#[test]
fn turned_angles_stay_below_a_full_turn() {
    assert!(get_rotation(0, Rotation::Clockwise) == (90, Rotation::Clockwise));
    assert!(get_rotation(270, Rotation::UpsideDown) == (90, Rotation::Clockwise));
    assert!(get_rotation(180, Rotation::NoRotation) == (180, Rotation::UpsideDown));
    assert!(get_rotation(90, Rotation::Counterclockwise) == (0, Rotation::NoRotation));
    assert!(get_rotation(720, Rotation::Counterclockwise) == (270, Rotation::Counterclockwise));
}

#[test]
fn fit_grid_colour_and_size() {
    let mut w = DdDisplayWindow::new(2);
    assert!(w.color == ColorPreset::Red);
    assert!(!w.fit && !w.grid);
    assert!(w.content_fit() == ContentFit::Contain);
    w.toggle_fit();
    assert!(w.content_fit() == ContentFit::Fill);
    w.toggle_fit();
    assert!(w.content_fit() == ContentFit::Contain);
    w.toggle_grid();
    assert!(w.grid);
    w.toggle_grid();
    assert!(!w.grid);
    w.update_grid_color(ColorPreset::Blue);
    assert!(w.color == ColorPreset::Blue);
    assert_eq!(w.rotated_size(1920, 1080), (1920, 1080));
    w.rotate_90();
    assert_eq!(w.rotated_size(1920, 1080), (1080, 1920));
    w.rotate_90();
    assert_eq!(w.rotated_size(1920, 1080), (1920, 1080));
}

#[test]
fn colour_presets() {
    let expected = [
        (ColorPreset::Black, (0, 0, 0)),
        (ColorPreset::White, (255, 255, 255)),
        (ColorPreset::Red, (255, 0, 0)),
        (ColorPreset::Green, (0, 255, 0)),
        (ColorPreset::Blue, (0, 0, 255)),
    ];
    for (i, (preset, (r, g, b))) in expected.iter().enumerate() {
        let p = ColorPreset::from_index(i as u32);
        assert!(p == *preset);
        assert!(p.to_rgba() == PresetColor { red: *r, green: *g, blue: *b });
    }
}

#[test]
fn messages_shown_to_the_user() {
    assert_eq!(dialog_message("boom", false), "boom");
    assert_eq!(dialog_message("boom", true), "A fatal error occured:\n boom");
    assert_eq!(
        connect_message(true),
        "Google Drive session is expired, please reconnect to continue using google drive synchronization."
    );
    assert!(connect_message(false).starts_with("In order to use Google Drive synchronization"));
    assert_eq!(
        url_message("https://x"),
        "If the browser does not open automatically, copy paste the following link into your browser: https://x"
    );
}

#[test]
fn error_messages() {
    assert_eq!(
        DragonDisplayError::InvalidName { msg: "x".to_string() }.message(),
        "The inputted name is invalid: x"
    );
    assert_eq!(DragonDisplayError::InvalidPath { msg: "y".to_string() }.message(), "Cannot use path: y");
    assert_eq!(DragonDisplayError::AddressInUse.message(), "Address in use");
    assert_eq!(DragonDisplayError::SendMessageError.message(), "Failed to send message to server");
    assert_eq!(DragonDisplayError::Other { msg: "z".to_string() }.message(), "z");
    assert!(DragonDisplayError::ClientSecretError.message().starts_with("There was a problem with the client secret"));
}
