//! The engine and dispatcher: selection, the compile-run protocol, the
//! recovery loop, replay, catalog rebuilds and the fatal ends.

use mep::catalog::build_catalog;
use mep::dispatcher::SourceChoice;
use mep::engine::{
    Action, CompileOutcome, Engine, FatalError, InvokeOutcome, Phase, RunOutcome,
};
use mep::session::initial_selection;

fn strings(paths: &[&str]) -> Vec<String> {
    paths.iter().map(|p| p.to_string()).collect()
}

/// An engine over `a.koto` and `b.koto`, started on `a` with the given
/// text.
fn engine_on_a(source: &str) -> Engine {
    let cat = build_catalog(&strings(&["/r/a.koto", "/r/b.koto"]));
    Engine::new(cat, 0, source.to_string())
}

#[test]
fn selecting_a_listed_script_takes_effect() {
    let cat = build_catalog(&strings(&["/r/a.koto", "/r/b.koto", "/r/c.koto"]));
    let mut engine = Engine::new(cat, 0, "init".to_string());
    for index in [0usize, 1, 2] {
        let target = engine.session.selection_target(&format!("{}\n", index));
        assert_eq!(target, Some(index));
        let act = engine.on_selection_read(index, Some(format!("text of {}", index)));
        assert!(matches!(act, Action::Compile));
        assert_eq!(engine.session.active_index, index);
        assert_eq!(engine.session.active_source, format!("text of {}", index));
        assert_eq!(engine.session.active_path, engine.session.catalog[index].path);
    }
}

#[test]
fn out_of_range_or_garbled_input_selects_nothing() {
    let cat = build_catalog(&strings(&["/r/a.koto", "/r/b.koto"]));
    let engine = Engine::new(cat, 0, "init".to_string());
    for input in ["2", "7\n", "two", "-1", "", " ", "1.5"] {
        assert_eq!(engine.session.selection_target(input), None);
    }
    assert_eq!(engine.session.active_index, 0);
    assert_eq!(engine.session.active_source, "init");
}

#[test]
fn initial_selection_checks_the_same_bounds() {
    let cat = build_catalog(&strings(&["/r/a.koto", "/r/b.koto"]));
    assert_eq!(initial_selection(&cat, "1\n"), Some(1));
    assert_eq!(initial_selection(&cat, "2"), None);
    assert_eq!(initial_selection(&cat, "x"), None);
}

#[test]
fn failed_compile_never_reaches_the_run_phase() {
    let mut engine = engine_on_a("valid");
    let act = engine.on_compile_outcome(CompileOutcome::Compiled);
    assert!(matches!(act, Action::RunChunk));
    let act = engine.on_run_outcome(RunOutcome::Ran);
    assert!(matches!(act, Action::Render));
    assert_eq!(engine.loaded.as_deref(), Some("valid"));

    // A broken edit arrives: the compile fails, the loaded program stays.
    let act = engine.on_modified(&"/r/a.koto".to_string(), Some("broken".to_string()));
    assert!(matches!(act, Action::Compile));
    let act = engine.on_compile_outcome(CompileOutcome::Failed("syntax error".to_string()));
    assert!(matches!(act, Action::ShowErrorAndWait(m) if m == "syntax error"));
    assert!(matches!(engine.phase, Phase::Broken { .. }));
    assert_eq!(engine.loaded.as_deref(), Some("valid"));
}

#[test]
fn a_fix_succeeds_within_one_retry_cycle() {
    let mut engine = engine_on_a("broken");
    let act = engine.on_compile_outcome(CompileOutcome::Failed("syntax error".to_string()));
    assert!(matches!(act, Action::ShowErrorAndWait(_)));

    // The fix is written: one modified event, one compile, one run.
    let act = engine.on_modified(&"/r/a.koto".to_string(), Some("fixed".to_string()));
    assert!(matches!(act, Action::Compile));
    let act = engine.on_compile_outcome(CompileOutcome::Compiled);
    assert!(matches!(act, Action::RunChunk));
    let act = engine.on_run_outcome(RunOutcome::Ran);
    assert!(matches!(act, Action::Render));
    assert!(matches!(engine.phase, Phase::Running));
    assert_eq!(engine.loaded.as_deref(), Some("fixed"));
}

#[test]
fn writes_to_another_script_do_not_disturb_recovery() {
    let mut engine = engine_on_a("broken");
    engine.on_compile_outcome(CompileOutcome::Failed("syntax error".to_string()));
    let act = engine.on_modified(&"/r/b.koto".to_string(), Some("other".to_string()));
    assert!(matches!(act, Action::Idle));
    assert!(matches!(engine.phase, Phase::Broken { .. }));
    assert_eq!(engine.session.active_source, "broken");
}

#[test]
fn failed_listener_message_is_replayed_exactly_once() {
    let mut engine = engine_on_a("listener");
    engine.on_compile_outcome(CompileOutcome::Compiled);
    engine.on_run_outcome(RunOutcome::Ran);

    let message = vec![144u8, 65, 127];
    let act = engine.on_midi_in(message.clone());
    assert!(matches!(act, Action::InvokeListener(m) if m == message));
    let act = engine.on_invoke_outcome(
        message.clone(),
        InvokeOutcome::Failed("listener blew up".to_string()),
    );
    assert!(matches!(act, Action::ShowErrorAndWait(m) if m == "listener blew up"));
    assert!(matches!(engine.phase, Phase::Broken { .. }));

    // The fix succeeds on the first modified event: the message comes
    // back exactly once, then a further successful run replays nothing.
    let act = engine.on_modified(&"/r/a.koto".to_string(), Some("mended".to_string()));
    assert!(matches!(act, Action::Compile));
    engine.on_compile_outcome(CompileOutcome::Compiled);
    let act = engine.on_run_outcome(RunOutcome::Ran);
    assert!(matches!(act, Action::InvokeListener(m) if m == message));
    let act = engine.on_invoke_outcome(message, InvokeOutcome::Done);
    assert!(matches!(act, Action::Idle));

    engine.on_modified(&"/r/a.koto".to_string(), Some("again".to_string()));
    engine.on_compile_outcome(CompileOutcome::Compiled);
    let act = engine.on_run_outcome(RunOutcome::Ran);
    assert!(matches!(act, Action::Render));
}

#[test]
fn midi_is_deferred_while_broken() {
    let mut engine = engine_on_a("broken");
    engine.on_compile_outcome(CompileOutcome::Failed("syntax error".to_string()));
    let act = engine.on_midi_in(vec![128, 60, 0]);
    assert!(matches!(act, Action::Defer));
}

#[test]
fn listener_setup_errors_are_reported_once_not_retried() {
    let mut engine = engine_on_a("no listener");
    engine.on_compile_outcome(CompileOutcome::Compiled);
    engine.on_run_outcome(RunOutcome::Ran);
    let act = engine.on_invoke_outcome(
        vec![144, 60, 100],
        InvokeOutcome::Misconfigured("no callable listener".to_string()),
    );
    assert!(matches!(act, Action::ShowError(m) if m == "no callable listener"));
    assert!(matches!(engine.phase, Phase::Running));
}

#[test]
fn malformed_send_enters_the_same_recovery() {
    let mut engine = engine_on_a("sender");
    engine.on_compile_outcome(CompileOutcome::Compiled);
    engine.on_run_outcome(RunOutcome::Ran);
    let act = engine.on_send_failure("wrong argument".to_string());
    assert!(matches!(act, Action::ShowErrorAndWait(m) if m == "wrong argument"));
    assert!(matches!(engine.phase, Phase::Broken { .. }));
    assert_eq!(engine.loaded.as_deref(), Some("sender"));
}

#[test]
fn removing_the_active_script_falls_back_to_the_first() {
    let mut engine = engine_on_a("gone");
    engine.on_compile_outcome(CompileOutcome::Compiled);
    engine.on_run_outcome(RunOutcome::Ran);

    // a.koto is deleted; b.koto remains and its text reads fine.
    let act = engine.on_removed(
        strings(&["/r/b.koto"]),
        None,
        None,
        Some("text of b".to_string()),
    );
    assert!(matches!(act, Action::Compile));
    assert_eq!(engine.session.active_index, 0);
    assert_eq!(engine.session.active_path, "/r/b.koto");
    assert_eq!(engine.session.active_source, "text of b");
}

#[test]
fn removing_another_script_only_rebuilds_and_renders() {
    let cat = build_catalog(&strings(&["/r/a.koto", "/r/b.koto", "/r/c.koto"]));
    let mut engine = Engine::new(cat, 2, "text of c".to_string());
    // a.koto is deleted; the active c.koto still reads.
    let act = engine.on_removed(
        strings(&["/r/b.koto", "/r/c.koto"]),
        Some("text of c".to_string()),
        None,
        Some("text of b".to_string()),
    );
    assert!(matches!(act, Action::Render));
    assert_eq!(engine.session.active_index, 1);
    assert_eq!(engine.session.active_path, "/r/c.koto");
    assert_eq!(engine.session.active_source, "text of c");
}

#[test]
fn a_renamed_active_script_is_followed() {
    let mut engine = engine_on_a("the text");
    // a.koto no longer reads, but a fresh z.koto holds its text.
    let act = engine.on_removed(
        strings(&["/r/b.koto", "/r/z.koto"]),
        None,
        Some(("/r/z.koto".to_string(), "the text".to_string())),
        Some("text of b".to_string()),
    );
    assert!(matches!(act, Action::Compile));
    assert_eq!(engine.session.active_index, 1);
    assert_eq!(engine.session.active_path, "/r/z.koto");
    assert_eq!(engine.session.active_source, "the text");
}

#[test]
fn removing_the_last_script_is_fatal() {
    let cat = build_catalog(&strings(&["/r/a.koto"]));
    let mut engine = Engine::new(cat, 0, "last".to_string());
    let act = engine.on_removed(strings(&[]), None, None, None);
    assert!(matches!(act, Action::Fatal(FatalError::NoScriptsLeft)));
}

#[test]
fn a_created_script_rebuilds_the_catalog_and_keeps_the_choice() {
    let cat = build_catalog(&strings(&["/r/b.koto"]));
    let mut engine = Engine::new(cat, 0, "text of b".to_string());
    let act = engine.on_created(strings(&["/r/a.koto", "/r/b.koto"]));
    assert!(matches!(act, Action::Render));
    assert_eq!(engine.session.catalog.len(), 2);
    assert_eq!(engine.session.active_index, 1);
    assert_eq!(engine.session.active_path, "/r/b.koto");
}

#[test]
fn a_watcher_failure_is_fatal() {
    let engine = engine_on_a("text");
    let act = engine.on_watch_error("inotify gave up".to_string());
    assert!(matches!(act, Action::Fatal(FatalError::WatchFailed(m)) if m == "inotify gave up"));
}

#[test]
fn an_unreadable_selection_is_fatal() {
    let mut engine = engine_on_a("text");
    let act = engine.on_selection_read(1, None);
    assert!(matches!(act, Action::Fatal(FatalError::ScriptUnreadable)));
}

#[test]
fn polling_priority_is_midi_send_user_watch() {
    let engine = engine_on_a("text");
    assert_eq!(
        engine.next_source(true, true, true, true),
        SourceChoice::MidiIn
    );
    assert_eq!(
        engine.next_source(false, true, true, true),
        SourceChoice::SendFailures
    );
    assert_eq!(
        engine.next_source(false, false, true, true),
        SourceChoice::UserInput
    );
    assert_eq!(
        engine.next_source(false, false, false, true),
        SourceChoice::WatchEvents
    );
    assert_eq!(
        engine.next_source(false, false, false, false),
        SourceChoice::Sleep
    );
}

#[test]
fn recovery_consumes_watch_events_alone() {
    let mut engine = engine_on_a("broken");
    engine.on_compile_outcome(CompileOutcome::Failed("syntax error".to_string()));
    assert_eq!(
        engine.next_source(true, true, true, false),
        SourceChoice::Sleep
    );
    assert_eq!(
        engine.next_source(true, true, true, true),
        SourceChoice::WatchEvents
    );
}

#[test]
fn two_scripts_break_and_fix_end_to_end() {
    // Catalog a.koto and b.koto; the user selects 0; script a fails to
    // compile; the process lives on; the fix arrives; the engine
    // recompiles once and runs.
    let cat = build_catalog(&strings(&["/r/a.koto", "/r/b.koto"]));
    let mut engine = Engine::new(cat, 0, "".to_string());
    let target = engine.session.selection_target("0\n");
    assert_eq!(target, Some(0));
    let act = engine.on_selection_read(0, Some("syntax garbage".to_string()));
    assert!(matches!(act, Action::Compile));
    let act = engine.on_compile_outcome(CompileOutcome::Failed(
        "unexpected token".to_string(),
    ));
    assert!(matches!(act, Action::ShowErrorAndWait(m) if m == "unexpected token"));
    assert!(matches!(engine.phase, Phase::Broken { .. }));

    let act = engine.on_modified(&"/r/a.koto".to_string(), Some("sound program".to_string()));
    assert!(matches!(act, Action::Compile));
    let act = engine.on_compile_outcome(CompileOutcome::Compiled);
    assert!(matches!(act, Action::RunChunk));
    let act = engine.on_run_outcome(RunOutcome::Ran);
    assert!(matches!(act, Action::Render));
    assert!(matches!(engine.phase, Phase::Running));
    assert_eq!(engine.session.active_index, 0);
    assert_eq!(engine.loaded.as_deref(), Some("sound program"));
}

#[test]
fn a_created_listing_without_the_active_script_clamps_the_index() {
    let cat = build_catalog(&strings(&["/r/a.koto", "/r/b.koto", "/r/c.koto"]));
    let mut engine = Engine::new(cat, 2, "text of c".to_string());
    // The fresh listing no longer holds c.koto: the index is clamped
    // into range and the active path left alone.
    let act = engine.on_created(strings(&["/r/a.koto"]));
    assert!(matches!(act, Action::Render));
    assert_eq!(engine.session.catalog.len(), 1);
    assert_eq!(engine.session.active_index, 0);
    assert_eq!(engine.session.active_path, "/r/c.koto");
}
