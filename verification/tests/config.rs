use openesoui_mm::config::{parse_download_ids, Config, InvalidDownloadId};

#[test]
fn ids_are_read_in_order() {
    assert_eq!(parse_download_ids("4063"), Ok(vec![4063]));
    assert_eq!(parse_download_ids("4063,3501"), Ok(vec![4063, 3501]));
    assert_eq!(parse_download_ids(" 1 ,\t2,3\n"), Ok(vec![1, 2, 3]));
    assert_eq!(parse_download_ids("0,65535,+7,007"), Ok(vec![0, 65535, 7, 7]));
}

#[test]
fn first_invalid_id_is_reported() {
    assert_eq!(parse_download_ids(""), Err(InvalidDownloadId { position: 0 }));
    assert_eq!(parse_download_ids("abc"), Err(InvalidDownloadId { position: 0 }));
    assert_eq!(parse_download_ids("1,,2"), Err(InvalidDownloadId { position: 1 }));
    assert_eq!(parse_download_ids("1,2,"), Err(InvalidDownloadId { position: 2 }));
    assert_eq!(parse_download_ids("1,65536"), Err(InvalidDownloadId { position: 1 }));
    assert_eq!(parse_download_ids("1,-2,x"), Err(InvalidDownloadId { position: 1 }));
    assert_eq!(parse_download_ids("1 2"), Err(InvalidDownloadId { position: 0 }));
    assert_eq!(parse_download_ids("+"), Err(InvalidDownloadId { position: 0 }));
    assert_eq!(parse_download_ids("99999999999999999999"), Err(InvalidDownloadId { position: 0 }));
}

#[test]
fn ids_agree_with_the_standard_parser() {
    for text in ["0", "12", " 65535 ", "65536", "+1", "++1", "-1", "1e3", "", " ", "0x10", "\u{0661}"] {
        let expected = text.trim().parse::<u16>().ok().map(|id| vec![id]);
        assert_eq!(parse_download_ids(text).ok(), expected);
    }
}

#[test]
fn fresh_config_names_the_examples() {
    let config = Config::with_examples("/home/user/.config/openesoui-mm".to_string());
    assert_eq!(config.target_directory, "/home/user/.config/openesoui-mm");
    assert_eq!(config.addon_ids, vec![4063, 3501]);
}

#[test]
fn overrides_replace_what_they_name() {
    let config = Config { target_directory: "addons".to_string(), addon_ids: vec![1, 2] };
    assert_eq!(config.clone().with_overrides(None, None), Ok(config.clone()));
    assert_eq!(
        config.clone().with_overrides(Some("elsewhere".to_string()), None),
        Ok(Config { target_directory: "elsewhere".to_string(), addon_ids: vec![1, 2] })
    );
    assert_eq!(
        config.clone().with_overrides(None, Some("7, 8")),
        Ok(Config { target_directory: "addons".to_string(), addon_ids: vec![7, 8] })
    );
    assert_eq!(
        config.clone().with_overrides(Some("elsewhere".to_string()), Some("9")),
        Ok(Config { target_directory: "elsewhere".to_string(), addon_ids: vec![9] })
    );
    assert_eq!(
        config.with_overrides(Some("elsewhere".to_string()), Some("9,x")),
        Err(InvalidDownloadId { position: 1 })
    );
}
