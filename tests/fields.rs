use dexrs::exec::{locale_from_lang, parse_exec_string, split_words, ArgOrFieldCode};
use dexrs::{DesktopEntry, ExecError};

fn entry() -> DesktopEntry {
    DesktopEntry {
        path: "/usr/share/applications/app.desktop".to_string(),
        exec_line: None,
        actions: None,
        action_execs: vec![],
        icon: Some("app-icon".to_string()),
        name: Some("App".to_string()),
        localized_names: vec![("fr_FR".to_string(), "Appli".to_string())],
        working_dir: None,
        terminal: false,
    }
}

fn args_of(exec: &str, uris: &[&str], lang: Option<&str>) -> Vec<String> {
    let de = entry();
    let tokens = parse_exec_string(exec).unwrap();
    let locale = lang.map(locale_from_lang);
    de.get_args(uris, &tokens, locale)
}

#[test]
fn words_split_on_ascii_whitespace() {
    assert_eq!(split_words("  a\tbb \n c\r\x0Cd  "), vec!["a", "bb", "c", "d"]);
    assert!(split_words("   ").is_empty());
    assert!(split_words("").is_empty());
}

#[test]
fn literal_words_are_kept_in_order() {
    let tokens = parse_exec_string("app -x --flag=1 file%").unwrap();
    assert_eq!(
        tokens,
        vec![
            ArgOrFieldCode::Arg("app".to_string()),
            ArgOrFieldCode::Arg("-x".to_string()),
            ArgOrFieldCode::Arg("--flag=1".to_string()),
            ArgOrFieldCode::Arg("file%".to_string()),
        ]
    );
}

#[test]
fn known_field_codes_are_classified() {
    let tokens = parse_exec_string("%f %F %u %U %i %c %k").unwrap();
    assert_eq!(
        tokens,
        vec![
            ArgOrFieldCode::SingleFileName,
            ArgOrFieldCode::FileList,
            ArgOrFieldCode::SingleUrl,
            ArgOrFieldCode::UrlList,
            ArgOrFieldCode::IconKey,
            ArgOrFieldCode::TranslatedName,
            ArgOrFieldCode::DesktopFileLocation,
        ]
    );
}

#[test]
fn deprecated_field_codes_fail() {
    for code in ["%d", "%D", "%n", "%N", "%v", "%m"] {
        let exec = format!("app {}", code);
        assert_eq!(
            parse_exec_string(&exec),
            Err(ExecError::DeprecatedFieldCode(code.to_string()))
        );
    }
}

#[test]
fn unknown_field_codes_fail() {
    for code in ["%x", "%%", "%", "%ff", "%dd"] {
        let exec = format!("app {} %f", code);
        assert_eq!(
            parse_exec_string(&exec),
            Err(ExecError::UnknownFieldCode(code.to_string()))
        );
    }
}

#[test]
fn first_bad_code_decides_the_error() {
    assert_eq!(
        parse_exec_string("app %z %d"),
        Err(ExecError::UnknownFieldCode("%z".to_string()))
    );
    assert_eq!(
        parse_exec_string("app %d %z"),
        Err(ExecError::DeprecatedFieldCode("%d".to_string()))
    );
}

#[test]
fn quoted_exec_is_stripped_once() {
    assert_eq!(
        parse_exec_string("\"app arg\"").unwrap(),
        vec![ArgOrFieldCode::Arg("app".to_string()), ArgOrFieldCode::Arg("arg".to_string())]
    );
    assert_eq!(
        parse_exec_string("\"\"app\"\"").unwrap(),
        vec![ArgOrFieldCode::Arg("\"app\"".to_string())]
    );
}

#[test]
fn unmatched_quote_fails() {
    assert_eq!(
        parse_exec_string("\"app arg"),
        Err(ExecError::UnmatchedQuote { command: "\"app arg".to_string() })
    );
    assert_eq!(
        parse_exec_string("\""),
        Err(ExecError::UnmatchedQuote { command: "\"".to_string() })
    );
}

#[test]
fn single_uri_codes_take_the_first_uri() {
    assert_eq!(args_of("app %f", &["/a", "/b", "/c"], None), vec!["app", "/a"]);
    assert_eq!(args_of("app %u end", &["x"], None), vec!["app", "x", "end"]);
}

#[test]
fn single_uri_codes_are_dropped_without_uris() {
    assert_eq!(args_of("app %f end", &[], None), vec!["app", "end"]);
    assert_eq!(args_of("app %u", &[], None), vec!["app"]);
}

#[test]
fn uri_list_codes_join_with_spaces() {
    assert_eq!(args_of("app %F", &["a", "b"], None), vec!["app", "a b"]);
    assert_eq!(args_of("app %U", &["a", "b"], None), vec!["app", "a b"]);
    assert_eq!(args_of("app %U", &["one"], None), vec!["app", "one"]);
    assert_eq!(args_of("app %F x", &[], None), vec!["app", "x"]);
}

#[test]
fn icon_name_and_location_codes() {
    assert_eq!(
        args_of("app %i %c %k", &[], Some("fr_FR.UTF-8")),
        vec!["app", "app-icon", "Appli", "/usr/share/applications/app.desktop"]
    );
}

#[test]
fn translated_name_is_dropped_without_locale_or_translation() {
    assert_eq!(args_of("app %c", &[], None), vec!["app"]);
    assert_eq!(args_of("app %c", &[], Some("de_DE.UTF-8")), vec!["app"]);
    assert_eq!(args_of("app %c", &[], Some("fr_FR")), vec!["app", "Appli"]);
}

#[test]
fn icon_is_dropped_when_absent() {
    let mut de = entry();
    de.icon = None;
    let tokens = parse_exec_string("app %i").unwrap();
    assert_eq!(de.get_args(&[], &tokens, None), vec!["app"]);
}

#[test]
fn locale_is_the_part_before_the_encoding() {
    assert_eq!(locale_from_lang("fr_FR.UTF-8"), "fr_FR");
    assert_eq!(locale_from_lang("C"), "C");
    assert_eq!(locale_from_lang(".x"), "");
}
