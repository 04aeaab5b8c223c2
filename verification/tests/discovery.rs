use pendulum_launch::discovery::{locate_config, search_default_config, try_get_config_entry, Entry};
use pendulum_launch::error::Error;
use pendulum_launch::text::{chars_of, contains, stands_at};

fn file(path: &str) -> Result<Entry, String> {
    Ok(Entry { path: path.to_string(), is_file: true })
}

fn dir(path: &str) -> Result<Entry, String> {
    Ok(Entry { path: path.to_string(), is_file: false })
}

#[test]
fn contains_finds_a_pattern_anywhere() {
    assert!(contains("/project/launch.json", "launch.json"));
    assert!(contains("launch.json", "launch.json"));
    assert!(contains("/project/my-launch.json.bak", "launch.json"));
    assert!(contains("abc", ""));
    assert!(contains("", ""));
}

#[test]
fn contains_rejects_what_is_not_there() {
    assert!(!contains("/project/launch.jso", "launch.json"));
    assert!(!contains("", "launch.json"));
    assert!(!contains("launch_json", "launch.json"));
    assert!(!contains("aab", "abb"));
}

#[test]
fn contains_counts_characters_not_bytes() {
    assert!(contains("/prøject/launch.json", "launch.json"));
    assert!(contains("日本語", "本"));
    assert!(!contains("日本語", "語日"));
}

#[test]
fn stands_at_checks_one_position() {
    let text = chars_of("aXbXc");
    let pattern = chars_of("Xc");
    assert_eq!(text, vec!['a', 'X', 'b', 'X', 'c']);
    assert!(!stands_at(&text, &pattern, 1));
    assert!(stands_at(&text, &pattern, 3));
    assert!(!stands_at(&text, &pattern, 4));
    assert!(!stands_at(&text, &pattern, usize::MAX));
    assert!(!stands_at(&pattern, &text, 0));
    assert!(stands_at(&text, &chars_of(""), 5));
    assert!(!stands_at(&text, &chars_of(""), 6));
}

#[test]
fn config_entry_is_a_file_with_the_name() {
    assert_eq!(
        try_get_config_entry(&file("/project/launch.json")),
        Ok(Some("/project/launch.json".to_string()))
    );
    assert_eq!(try_get_config_entry(&file("/project/Cargo.toml")), Ok(None));
    assert_eq!(try_get_config_entry(&dir("/project/launch.json")), Ok(None));
    assert_eq!(
        try_get_config_entry(&Err("Permission denied".to_string())),
        Err(Error::Io("Permission denied".to_string()))
    );
}

#[test]
fn search_takes_the_first_configuration() {
    let listing = vec![
        file("/project/README.md"),
        dir("/project/launch.json.d"),
        file("/project/a.launch.json"),
        file("/project/launch.json"),
    ];
    assert_eq!(search_default_config(&listing), Ok(Some("/project/a.launch.json".to_string())));
}

#[test]
fn search_finds_nothing_in_a_listing_without_configuration() {
    assert_eq!(search_default_config(&vec![]), Ok(None));
    assert_eq!(search_default_config(&vec![file("/project/README.md"), dir("/project/src")]), Ok(None));
}

#[test]
fn unreadable_entry_before_the_configuration_is_an_error() {
    let listing = vec![file("/project/README.md"), Err("Input/output error".to_string()), file("/project/launch.json")];
    assert_eq!(search_default_config(&listing), Err(Error::Io("Input/output error".to_string())));
}

#[test]
fn unreadable_entry_after_the_configuration_does_not_matter() {
    let listing = vec![file("/project/launch.json"), Err("Input/output error".to_string())];
    assert_eq!(search_default_config(&listing), Ok(Some("/project/launch.json".to_string())));
}

#[test]
fn named_configuration_wins() {
    let listing = vec![Err("Input/output error".to_string()), file("/project/launch.json")];
    assert_eq!(locate_config(&Some("fleet.json".to_string()), &listing), Ok("fleet.json".to_string()));
}

#[test]
fn without_a_name_the_listing_decides() {
    let listing = vec![file("/project/launch.json")];
    assert_eq!(locate_config(&None, &listing), Ok("/project/launch.json".to_string()));
}

#[test]
fn no_configuration_anywhere() {
    assert_eq!(locate_config(&None, &vec![file("/project/README.md")]), Err(Error::NoConfig));
    assert_eq!(locate_config(&None, &vec![]), Err(Error::NoConfig));
}
