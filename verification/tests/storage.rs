use kiosk_panel::disk::SDHandler;

#[test]
fn find_sd_picks_the_first_media_mount() {
    let mounts = vec![
        "/".to_string(),
        "/boot/firmware".to_string(),
        "/media/sd".to_string(),
        "/media/usb0".to_string(),
    ];
    let handler = SDHandler::find_sd(&mounts).expect("a media mount is present");
    assert_eq!(handler.mount_path().as_str(), "/media/sd");
}

#[test]
fn find_sd_accepts_the_media_directory_itself() {
    let mounts = vec!["/".to_string(), "/media".to_string()];
    let handler = SDHandler::find_sd(&mounts).expect("/media counts as a media mount");
    assert_eq!(handler.mount_path().as_str(), "/media");
}

#[test]
fn find_sd_without_media_mounts() {
    let mounts = vec!["/".to_string(), "/boot".to_string(), "/mediator".to_string()];
    assert!(SDHandler::find_sd(&mounts).is_none());
}

#[test]
fn find_sd_on_empty_list() {
    let mounts: Vec<String> = Vec::new();
    assert!(SDHandler::find_sd(&mounts).is_none());
}

#[test]
fn version_is_read_from_the_matching_meta() {
    let other = "<app><name>Homebrew Channel</name><version>1.0.8</version></app>".to_string();
    let slippi = "<app>\n  <name>Slippi Nintendont</name>\n  <version>1.9.5</version>\n</app>"
        .to_string();
    let metas = vec![other, slippi];
    assert_eq!(SDHandler::get_slippi_version(&metas).as_deref(), Some("1.9.5"));
}

#[test]
fn version_skips_documents_that_do_not_qualify() {
    let broken = "not xml at all".to_string();
    let no_version = "<app><name>Slippi Nintendont</name></app>".to_string();
    let wrong_name = "<app><name>Nintendont</name><version>7.1</version></app>".to_string();
    let good = "<app><name>Slippi Nintendont</name><version>2.3.4</version></app>".to_string();
    let metas = vec![broken, no_version, wrong_name, good];
    assert_eq!(SDHandler::get_slippi_version(&metas).as_deref(), Some("2.3.4"));
}

#[test]
fn hostile_documents_are_skipped_not_fatal() {
    // a long non-ASCII directive would abort inside the XML parser's error
    // reporting; such a document is screened out before parsing
    let hostile = "<root><!\u{0391}\u{0391}\u{0391}\u{0391}\u{0391}\u{0391}\u{0391}\u{0391}\u{0391}\u{0391}\u{0391}\u{0391}\u{0391}\u{0391}\u{0391}\u{0391}\u{0391}></root>".to_string();
    // a long ASCII directive reaches the parser and comes back as an error
    let ascii_directive = "<root><!AAAAAAAAAAAAAAAAAAAAAAAAAAAAAAAAAAAAAAAA></root>".to_string();
    let good = "<app><name>Slippi Nintendont</name><version>3.1.0</version></app>".to_string();
    let metas = vec![hostile.clone(), ascii_directive, good];
    assert_eq!(SDHandler::get_slippi_version(&metas).as_deref(), Some("3.1.0"));
    let only_hostile = vec![hostile];
    assert!(SDHandler::get_slippi_version(&only_hostile).is_none());
}

#[test]
fn no_matching_meta_means_no_version() {
    let metas = vec![
        "<app><name>Homebrew Channel</name><version>1.0.8</version></app>".to_string(),
    ];
    assert!(SDHandler::get_slippi_version(&metas).is_none());
    let empty: Vec<String> = Vec::new();
    assert!(SDHandler::get_slippi_version(&empty).is_none());
}
