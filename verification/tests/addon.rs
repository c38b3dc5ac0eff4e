use openesoui_mm::addon::{status_is_success, Addon, ExtractionField, Installation};
use openesoui_mm::archive::{ExtractError, FsAction};
use openesoui_mm::pipeline::Failure;
use std::io::Write;

const INFO_PAGE: &str = "<!DOCTYPE html>\n<html><head>\n<title>Simple Skyshards : Map, Coords, Compasses : Elder Scrolls Online AddOns</title>\n</head><body>\n<div id=\"patch\"><abbr title=\"Gold Road (10.0.0)\">10.0.0</abbr></div>\n<div id=\"version\">Version: 2.1</div>\n<div id=\"safe\">Updated: 06/17/24 04:12 PM</div>\n</body></html>\n";

const DOWNLOAD_PAGE: &str = "<html><head><title>Download</title></head><body>\n<p>Problems with the download? <a href=\"https://cdn.esoui.com/downloads/file4063/SimpleSkyshards.zip\">Click here</a>.</p>\n</body></html>\n";

fn fixture_zip(name: &str, content: &[u8]) -> Vec<u8> {
    let mut writer = zip::ZipWriter::new(std::io::Cursor::new(Vec::new()));
    writer
        .start_file(name, zip::write::SimpleFileOptions::default().unix_permissions(0o644))
        .unwrap();
    writer.write_all(content).unwrap();
    writer.finish().unwrap().into_inner()
}

#[test]
fn new_addon_has_only_its_id() {
    let addon = Addon::new(4063);
    assert_eq!(addon.id, 4063);
    assert_eq!(addon.name, "");
    assert_eq!(addon.dl_url, "");
    assert_eq!(addon.addon_version, "");
    assert_eq!(addon.game_version, "");
    assert_eq!(addon.updated, "");
}

#[test]
fn page_addresses_end_with_the_id() {
    let addon = Addon::new(4063);
    assert_eq!(addon.info_url(), "https://www.esoui.com/downloads/info4063");
    assert_eq!(addon.download_page_url(), "https://www.esoui.com/downloads/download4063");
    assert_eq!(Addon::new(0).info_url(), "https://www.esoui.com/downloads/info0");
    assert_eq!(
        Addon::new(65535).download_page_url(),
        "https://www.esoui.com/downloads/download65535"
    );
}

#[test]
fn info_page_with_all_markers_fills_all_fields() {
    let mut addon = Addon::new(4063);
    addon.parse_infopage(200, INFO_PAGE);
    assert_eq!(addon.id, 4063);
    assert_eq!(addon.name, "Simple Skyshards");
    assert_eq!(addon.addon_version, "2.1");
    assert_eq!(addon.game_version, "10.0.0");
    assert_eq!(addon.updated, "06/17/24 04:12 PM");
    assert_eq!(addon.dl_url, "");
}

#[test]
fn info_page_without_markers_leaves_fields_empty() {
    let mut addon = Addon::new(7);
    addon.parse_infopage(200, "<html><body><p>Nothing to see.</p></body></html>");
    assert_eq!(addon, Addon::new(7));
}

#[test]
fn info_page_with_some_markers_fills_those() {
    let mut addon = Addon::new(7);
    addon.parse_infopage(
        200,
        "<html><body><div id=\"version\">Version: 1.4.2</div></body></html>",
    );
    assert_eq!(addon.addon_version, "1.4.2");
    assert_eq!(addon.name, "");
    assert_eq!(addon.game_version, "");
    assert_eq!(addon.updated, "");
}

#[test]
fn info_page_without_success_changes_nothing() {
    for status in [0u16, 100, 199, 300, 301, 404, 500, 65535] {
        let mut addon = Addon::new(4063);
        addon.parse_infopage(status, INFO_PAGE);
        assert_eq!(addon, Addon::new(4063));
    }
    for status in [200u16, 204, 299] {
        let mut addon = Addon::new(4063);
        addon.parse_infopage(status, INFO_PAGE);
        assert_eq!(addon.name, "Simple Skyshards");
    }
}

#[test]
fn info_page_keeps_earlier_values_where_nothing_is_found() {
    let mut addon = Addon::new(4063);
    addon.parse_infopage(200, INFO_PAGE);
    addon.parse_infopage(
        200,
        "<html><body><div id=\"version\">Version: 2.2</div></body></html>",
    );
    assert_eq!(addon.addon_version, "2.2");
    assert_eq!(addon.name, "Simple Skyshards");
    assert_eq!(addon.game_version, "10.0.0");
}

#[test]
fn download_page_gives_the_link() {
    let mut addon = Addon::new(4063);
    addon.parse_downloadpage(200, DOWNLOAD_PAGE);
    assert_eq!(addon.dl_url, "https://cdn.esoui.com/downloads/file4063/SimpleSkyshards.zip");
    assert_eq!(addon.name, "");
}

#[test]
fn download_page_without_success_or_link_leaves_the_address_empty() {
    let mut addon = Addon::new(4063);
    addon.parse_downloadpage(404, DOWNLOAD_PAGE);
    assert_eq!(addon.dl_url, "");
    addon.parse_downloadpage(200, "<html><body>No link here.</body></html>");
    assert_eq!(addon.dl_url, "");
}

#[test]
fn the_two_pages_can_come_in_either_order() {
    let mut first = Addon::new(4063);
    first.parse_infopage(200, INFO_PAGE);
    first.parse_downloadpage(200, DOWNLOAD_PAGE);
    let mut second = Addon::new(4063);
    second.parse_downloadpage(200, DOWNLOAD_PAGE);
    second.parse_infopage(200, INFO_PAGE);
    assert_eq!(first, second);
}

fn info_page_with_body(body: &str) -> Addon {
    let mut addon = Addon::new(4063);
    addon.parse_infopage(200, &format!("<html><head></head><body>{}</body></html>", body));
    addon
}

#[test]
fn info_page_value_loses_the_white_space_around_it() {
    let addon = info_page_with_body("<div id=\"version\">Version: 2.1 </div>");
    assert_eq!(addon.addon_version, "2.1");
    let addon = info_page_with_body("<div id=\"safe\">Updated:  \t 01/02/25 04:12 PM \n</div>");
    assert_eq!(addon.updated, "01/02/25 04:12 PM");
}

#[test]
fn info_page_markers_on_one_line_keep_apart() {
    let addon = info_page_with_body(
        "<div id=\"version\">Version: 2.1</div><div id=\"safe\">Updated: 01/02/25</div>",
    );
    assert_eq!(addon.addon_version, "2.1");
    assert_eq!(addon.updated, "01/02/25");
    let addon = info_page_with_body(
        "<div id=\"patch\"><abbr title=\"Gold Road (10.0.0)\">10.0.0</abbr></div><div id=\"patch\"><abbr title=\"x\">9</abbr></div>",
    );
    assert_eq!(addon.game_version, "10.0.0");
}

#[test]
fn info_page_value_may_span_lines() {
    let addon = info_page_with_body("<div id=\"version\">Version: 2.1\n</div>");
    assert_eq!(addon.addon_version, "2.1");
    let addon = info_page_with_body(
        "<div id=\"patch\"><abbr title=\"Gold\nRoad\">\n10.0.0\n</abbr></div>",
    );
    assert_eq!(addon.game_version, "10.0.0");
    let mut addon = Addon::new(4063);
    addon.parse_infopage(
        200,
        "<html><head><title>Simple\nSkyshards :\nElder Scrolls Online AddOns</title></head></html>",
    );
    assert_eq!(addon.name, "Simple\nSkyshards");
}

#[test]
fn info_page_title_decides_the_name_alone() {
    let mut addon = Addon::new(4063);
    addon.parse_infopage(
        200,
        "<html><head><title>No colon here</title></head><body>a : b</body></html>",
    );
    assert_eq!(addon.name, "");
}

#[test]
fn download_link_ends_at_its_own_quote() {
    let mut addon = Addon::new(4063);
    addon.parse_downloadpage(
        200,
        "<html><body>Problems with the download? <a href=\"https://example.org/a.zip\">Click here</a> <a href=\"https://example.org/b\">Click here</a></body></html>",
    );
    assert_eq!(addon.dl_url, "https://example.org/a.zip");
    let mut addon = Addon::new(4063);
    addon.parse_downloadpage(
        200,
        "<html><body>Problems with the download? <a href=\" https://example.org/a.zip \">Click here</a></body></html>",
    );
    assert_eq!(addon.dl_url, "https://example.org/a.zip");
}

#[test]
fn store_drops_white_space_at_both_ends() {
    let mut addon = Addon::new(1);
    addon.store(ExtractionField::AddonVersion, Some("2.1 ".to_string()));
    assert_eq!(addon.addon_version, "2.1");
    addon.store(ExtractionField::Name, Some(" \n Simple  Skyshards\u{00A0}\t".to_string()));
    assert_eq!(addon.name, "Simple  Skyshards");
    addon.store(ExtractionField::Updated, Some("   ".to_string()));
    assert_eq!(addon.updated, "");
    addon.store(ExtractionField::GameVersion, Some("".to_string()));
    assert_eq!(addon.game_version, "");
}

#[test]
fn store_puts_a_value_into_its_field_only() {
    let mut addon = Addon::new(1);
    addon.store(ExtractionField::GameVersion, Some("10.0".to_string()));
    assert_eq!(addon, Addon { game_version: "10.0".to_string(), ..Addon::new(1) });
    addon.store(ExtractionField::AddonVersion, Some("3".to_string()));
    addon.store(ExtractionField::Updated, Some("today".to_string()));
    addon.store(ExtractionField::Name, Some("Name".to_string()));
    addon.store(ExtractionField::DownloadLink, Some("https://example.org/a.zip".to_string()));
    let full = Addon {
        id: 1,
        name: "Name".to_string(),
        dl_url: "https://example.org/a.zip".to_string(),
        addon_version: "3".to_string(),
        game_version: "10.0".to_string(),
        updated: "today".to_string(),
    };
    assert_eq!(addon, full);
    for field in [
        ExtractionField::GameVersion,
        ExtractionField::AddonVersion,
        ExtractionField::Updated,
        ExtractionField::Name,
        ExtractionField::DownloadLink,
    ] {
        addon.store(field, None);
        assert_eq!(addon, full);
    }
}

#[test]
fn fields_are_found_by_their_patterns() {
    let document = "<title>Simple Skyshards : Elder Scrolls Online AddOns</title>\n<div id=\"patch\"><abbr title=\"Gold Road\">10.0.0</abbr></div>\n<div id=\"version\">Version: 2.1</div>\n<div id=\"safe\">Updated: 06/17/24</div>\nProblems with the download? <a href=\"https://example.org/a.zip\">Click here</a>.";
    assert_eq!(ExtractionField::Name.find(document), Some("Simple Skyshards".to_string()));
    assert_eq!(ExtractionField::GameVersion.find(document), Some("10.0.0".to_string()));
    assert_eq!(ExtractionField::AddonVersion.find(document), Some("2.1".to_string()));
    assert_eq!(ExtractionField::Updated.find(document), Some("06/17/24".to_string()));
    assert_eq!(
        ExtractionField::DownloadLink.find(document),
        Some("https://example.org/a.zip".to_string())
    );
    assert_eq!(ExtractionField::Name.find("<title>No colon</title>"), None);
    assert_eq!(ExtractionField::DownloadLink.find(""), None);
    assert_eq!(ExtractionField::Name.pattern(), "<title>([^<]+?) :[^<]+</title>");
    assert_eq!(
        ExtractionField::AddonVersion.pattern(),
        "(?s)<div id=\"version\">Version: (.*?)</div>"
    );
}

#[test]
fn search_stores_what_the_document_shows() {
    let mut addon = Addon::new(9);
    addon.search(ExtractionField::AddonVersion, "<div id=\"version\">Version: 7</div>");
    assert_eq!(addon.addon_version, "7");
    addon.search(ExtractionField::AddonVersion, "nothing");
    assert_eq!(addon.addon_version, "7");
    addon.search(ExtractionField::Name, "nothing");
    assert_eq!(addon.name, "");
}

#[test]
fn success_is_any_status_from_200_to_299() {
    for status in [200u16, 201, 250, 299] {
        assert!(status_is_success(status));
    }
    for status in [0u16, 199, 300, 404, 500, 65535] {
        assert!(!status_is_success(status));
    }
}

#[test]
fn without_address_there_is_nothing_to_do() {
    let addon = Addon::new(4063);
    assert_eq!(addon.download_and_extract("target", 200, None, b"no archive"), Ok(None));
    assert_eq!(addon.download_and_extract("target", 500, None, b""), Ok(None));
}

#[test]
fn download_without_success_fails_with_the_status() {
    let mut addon = Addon::new(4063);
    addon.store(ExtractionField::DownloadLink, Some("https://example.org/a.zip".to_string()));
    let archive = fixture_zip("a.txt", b"a");
    assert_eq!(
        addon.download_and_extract("target", 404, None, &archive),
        Err(Failure::NonSuccessStatus { status: 404 })
    );
    assert_eq!(
        addon.download_and_extract("target", 199, None, &archive),
        Err(Failure::NonSuccessStatus { status: 199 })
    );
}

#[test]
fn download_of_no_archive_fails() {
    let mut addon = Addon::new(4063);
    addon.store(ExtractionField::DownloadLink, Some("https://example.org/a.zip".to_string()));
    assert_eq!(
        addon.download_and_extract("target", 200, None, b"<html>not a zip</html>"),
        Err(Failure::Extraction { error: ExtractError::CorruptArchive })
    );
}

#[test]
fn download_is_named_and_planned() {
    let mut addon = Addon::new(4063);
    addon.store(ExtractionField::DownloadLink, Some("https://example.org/a.zip".to_string()));
    let archive = fixture_zip("Skyshards/main.lua", b"-- lua\n");
    let expected = vec![FsAction::WriteFile {
        path: "target/Skyshards/main.lua".to_string(),
        parent: "target/Skyshards".to_string(),
        content: b"-- lua\n".to_vec(),
        mode: Some(0o100644),
    }];
    assert_eq!(
        addon.download_and_extract("target", 200, None, &archive),
        Ok(Some(Installation { file_name: "file4063.zip".to_string(), actions: expected.clone() }))
    );
    assert_eq!(
        addon.download_and_extract(
            "target",
            200,
            Some("attachment; filename=\"My Addon.zip\""),
            &archive
        ),
        Ok(Some(Installation { file_name: "My Addon.zip".to_string(), actions: expected }))
    );
}
