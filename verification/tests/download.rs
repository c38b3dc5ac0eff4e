use openesoui_mm::download::{fallback_name, get_filename, resolve_filename, temporary_path};

#[test]
fn filename_is_read_from_the_header() {
    assert_eq!(
        get_filename("attachment; filename=\"My Addon.zip\""),
        Some("My Addon.zip".to_string())
    );
    assert_eq!(get_filename("attachment; filename=plain.zip"), Some("plain.zip".to_string()));
    assert_eq!(get_filename("filename=first.zip"), Some("first.zip".to_string()));
    assert_eq!(
        get_filename("attachment;   filename=\"spaced.zip\"   ; size=3"),
        Some("spaced.zip".to_string())
    );
}

#[test]
fn filename_of_the_first_part_that_has_one_counts() {
    assert_eq!(
        get_filename("attachment; filename=\"a.zip\"; filename=\"b.zip\""),
        Some("a.zip".to_string())
    );
}

#[test]
fn filename_loses_all_quotes_at_its_ends_only() {
    assert_eq!(get_filename("filename=\"\"a\"b\"\"\""), Some("a\"b".to_string()));
    assert_eq!(get_filename("filename=\"\""), Some("".to_string()));
    assert_eq!(get_filename("filename="), Some("".to_string()));
    assert_eq!(get_filename("filename=\" a.zip \""), Some(" a.zip ".to_string()));
}

#[test]
fn filename_is_missing_without_the_key() {
    assert_eq!(get_filename(""), None);
    assert_eq!(get_filename("attachment"), None);
    assert_eq!(get_filename("attachment; name=\"a.zip\""), None);
    assert_eq!(get_filename("attachment; FILENAME=\"a.zip\""), None);
    assert_eq!(get_filename("attachment; filename =\"a.zip\""), None);
    assert_eq!(get_filename("attachment; xfilename=\"a.zip\""), None);
}

#[test]
fn filename_keeps_characters_beyond_ascii() {
    assert_eq!(
        get_filename("attachment;\u{00A0}filename=\"K\u{00E4}se.zip\""),
        Some("K\u{00E4}se.zip".to_string())
    );
}

#[test]
fn fallback_name_holds_the_id() {
    assert_eq!(fallback_name(4063), "file4063.zip");
    assert_eq!(fallback_name(0), "file0.zip");
    assert_eq!(fallback_name(65535), "file65535.zip");
}

#[test]
fn resolved_name_prefers_the_header() {
    assert_eq!(
        resolve_filename(Some("attachment; filename=\"My Addon.zip\""), 4063),
        "My Addon.zip"
    );
    assert_eq!(resolve_filename(None, 4063), "file4063.zip");
    assert_eq!(resolve_filename(Some("attachment"), 3501), "file3501.zip");
    assert_eq!(resolve_filename(Some(""), 1), "file1.zip");
}

#[test]
fn temporary_file_lies_below_its_directory() {
    assert_eq!(temporary_path("/tmp", "My Addon.zip"), Some("/tmp/My Addon.zip".to_string()));
    assert_eq!(temporary_path("/tmp/", "file4063.zip"), Some("/tmp/file4063.zip".to_string()));
    assert_eq!(temporary_path("/tmp", "a/b.zip"), Some("/tmp/a/b.zip".to_string()));
    assert_eq!(temporary_path("/tmp", "a/../b.zip"), Some("/tmp/b.zip".to_string()));
    assert_eq!(temporary_path("", "b.zip"), Some("b.zip".to_string()));
}

#[test]
fn temporary_file_has_no_place_outside_its_directory() {
    assert_eq!(temporary_path("/tmp", "../evil.zip"), None);
    assert_eq!(temporary_path("/tmp", "/etc/passwd"), None);
    assert_eq!(temporary_path("/tmp", "a/../../b.zip"), None);
    assert_eq!(temporary_path("/tmp", "..\\..\\b.zip"), None);
    assert_eq!(temporary_path("/tmp", ""), None);
    assert_eq!(temporary_path("/tmp", "."), None);
    assert_eq!(temporary_path("/tmp", "/"), None);
}
