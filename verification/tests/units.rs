//! The leaf components: script paths, selection parsing, the catalog,
//! the watch classifier with its debouncer, and the MIDI surface.

use mep::catalog::{build_catalog, find_path, rename_candidate};
use mep::midi::{listener_check, port_names, validate_send, ListenerLookup, SendArg, SendItem};
use mep::paths::{display_name, get_scripts_folder_path, path_is_script};
use mep::text::parse_index;
use mep::watch::{classify, Debouncer, RawNotification, WatchEvent};

fn strings(paths: &[&str]) -> Vec<String> {
    paths.iter().map(|p| p.to_string()).collect()
}

#[test]
fn script_paths_are_recognized() {
    assert!(path_is_script("/home/u/.mep/a.koto"));
    assert!(path_is_script("a.koto"));
    assert!(path_is_script("x..koto"));
    assert!(path_is_script("/d/ab.cd.koto"));
}

#[test]
fn non_script_paths_are_rejected() {
    assert!(!path_is_script("/home/u/.mep/a.txt"));
    assert!(!path_is_script("/home/u/.mep/.koto"));
    assert!(!path_is_script(".koto"));
    assert!(!path_is_script("akoto"));
    assert!(!path_is_script(""));
    assert!(!path_is_script("a.KOTO"));
}

#[test]
fn display_name_is_text_after_last_separator() {
    assert_eq!(display_name("/home/u/.mep/a.koto"), "a.koto");
    assert_eq!(display_name("a.koto"), "a.koto");
    assert_eq!(display_name("/x/y/"), "");
}

#[test]
fn scripts_folder_is_under_home() {
    assert_eq!(get_scripts_folder_path("/home/u"), "/home/u/.mep");
}

#[test]
fn parse_index_reads_plain_numbers() {
    assert_eq!(parse_index("0"), Some(0));
    assert_eq!(parse_index("17"), Some(17));
    assert_eq!(parse_index(" 42\n"), Some(42));
    assert_eq!(parse_index("\t3 \r\n"), Some(3));
    assert_eq!(parse_index("18446744073709551615"), Some(u64::MAX));
}

#[test]
fn parse_index_rejects_everything_else() {
    assert_eq!(parse_index(""), None);
    assert_eq!(parse_index("   \n"), None);
    assert_eq!(parse_index("abc"), None);
    assert_eq!(parse_index("-1"), None);
    assert_eq!(parse_index("+3"), None);
    assert_eq!(parse_index("1 2"), None);
    assert_eq!(parse_index("2x"), None);
    assert_eq!(parse_index("18446744073709551616"), None);
    assert_eq!(parse_index("99999999999999999999999"), None);
}

#[test]
fn catalog_keeps_scripts_in_listing_order() {
    let listing = strings(&["/r/b.koto", "/r/readme.md", "/r/a.koto", "/r/.koto"]);
    let cat = build_catalog(&listing);
    assert_eq!(cat.len(), 2);
    assert_eq!(cat[0].path, "/r/b.koto");
    assert_eq!(cat[0].name, "b.koto");
    assert_eq!(cat[1].path, "/r/a.koto");
    assert_eq!(cat[1].name, "a.koto");
}

#[test]
fn catalog_of_no_scripts_is_empty() {
    let cat = build_catalog(&strings(&["/r/notes.txt", "/r/dir"]));
    assert!(cat.is_empty());
}

#[test]
fn find_path_gives_first_position() {
    let cat = build_catalog(&strings(&["/r/a.koto", "/r/b.koto"]));
    assert_eq!(find_path(&cat, &"/r/b.koto".to_string()), Some(1));
    assert_eq!(find_path(&cat, &"/r/a.koto".to_string()), Some(0));
    assert_eq!(find_path(&cat, &"/r/c.koto".to_string()), None);
}

#[test]
fn rename_candidate_is_the_new_script_path() {
    let cat = build_catalog(&strings(&["/r/a.koto", "/r/b.koto"]));
    let fresh = strings(&["/r/b.koto", "/r/c.koto"]);
    assert_eq!(rename_candidate(&cat, &fresh), Some("/r/c.koto".to_string()));
    let unchanged = strings(&["/r/a.koto", "/r/b.koto"]);
    assert_eq!(rename_candidate(&cat, &unchanged), None);
    let non_script = strings(&["/r/a.koto", "/r/c.txt"]);
    assert_eq!(rename_candidate(&cat, &non_script), None);
}

#[test]
fn write_notices_on_scripts_classify_as_modified() {
    let e = classify(RawNotification::NoticeWrite("/r/a.koto".to_string()));
    assert!(matches!(e, Some(WatchEvent::Modified(p)) if p == "/r/a.koto"));
    let e = classify(RawNotification::NoticeRemove("/r/a.koto".to_string()));
    assert!(matches!(e, Some(WatchEvent::Removed(p)) if p == "/r/a.koto"));
    let e = classify(RawNotification::Create("/r/new.koto".to_string()));
    assert!(matches!(e, Some(WatchEvent::Created(p)) if p == "/r/new.koto"));
}

#[test]
fn other_notifications_are_dropped() {
    assert!(classify(RawNotification::NoticeWrite("/r/a.txt".to_string())).is_none());
    assert!(classify(RawNotification::Chmod("/r/a.koto".to_string())).is_none());
    assert!(classify(RawNotification::Rescan).is_none());
    assert!(classify(RawNotification::Rename(
        "/r/a.koto".to_string(),
        "/r/b.koto".to_string()
    ))
    .is_none());
}

#[test]
fn watcher_failure_is_passed_through() {
    let e = classify(RawNotification::Failure("boom".to_string()));
    assert!(matches!(e, Some(WatchEvent::WatchError(m)) if m == "boom"));
}

#[test]
fn debouncer_coalesces_bursts_to_one_path() {
    let mut d = Debouncer::new();
    let a = "/r/a.koto".to_string();
    let b = "/r/b.koto".to_string();
    assert!(d.observe(&a, 1000));
    assert!(!d.observe(&a, 1050));
    assert!(!d.observe(&a, 1099));
    assert!(d.observe(&a, 1100));
    assert!(!d.observe(&a, 1150));
    assert!(d.observe(&b, 1160));
    assert!(d.observe(&a, 1170));
}

#[test]
fn valid_byte_lists_become_messages() {
    let arg = SendArg::List(vec![
        SendItem::Number(144),
        SendItem::Number(65),
        SendItem::Number(127),
    ]);
    assert_eq!(validate_send(&arg), Ok(vec![144, 65, 127]));
    let empty = SendArg::List(vec![]);
    assert_eq!(validate_send(&empty), Ok(vec![]));
    let edges = SendArg::List(vec![SendItem::Number(0), SendItem::Number(255)]);
    assert_eq!(validate_send(&edges), Ok(vec![0, 255]));
}

#[test]
fn byte_256_never_becomes_a_message() {
    let arg = SendArg::List(vec![SendItem::Number(144), SendItem::Number(256)]);
    let r = validate_send(&arg);
    assert!(r.is_err());
    assert!(r.unwrap_err().contains("list of bytes"));
}

#[test]
fn negative_values_and_non_numbers_are_protocol_errors() {
    assert!(validate_send(&SendArg::List(vec![SendItem::Number(-1)])).is_err());
    assert!(validate_send(&SendArg::List(vec![SendItem::NotANumber])).is_err());
    assert!(validate_send(&SendArg::NotAList).is_err());
}

#[test]
fn only_a_callable_listener_passes_the_check() {
    assert!(listener_check(&ListenerLookup::Callable).is_ok());
    let r = listener_check(&ListenerLookup::MissingModule);
    assert!(r.unwrap_err().contains("import midi"));
    let r = listener_check(&ListenerLookup::ModuleNotAMap);
    assert!(r.unwrap_err().contains("not a map"));
    let r = listener_check(&ListenerLookup::MissingListener);
    assert!(r.unwrap_err().contains("midi.listen"));
    let r = listener_check(&ListenerLookup::ListenerNotCallable);
    assert!(r.unwrap_err().contains("not a function"));
}

#[test]
fn port_names_take_the_prefix_or_the_default() {
    let (input, output) = port_names(Some("synth"));
    assert_eq!(input, "synth_in");
    assert_eq!(output, "synth_out");
    let (input, output) = port_names(None);
    assert_eq!(input, "mep_in");
    assert_eq!(output, "mep_out");
}

#[test]
fn leading_zeros_still_read_as_the_number() {
    assert_eq!(parse_index("0009"), Some(9));
    assert_eq!(parse_index("00"), Some(0));
}
