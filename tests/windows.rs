use window_registry::counter::{generate_unique_key, KeyCounter};
use window_registry::decimal::to_decimal;
use window_registry::envelope::{error_response, ok_response, respond, CommandError};
use window_registry::label::original_label;
use window_registry::template::{TemplateTable, WindowTemplate};
use window_registry::windows::{
    create_window, get_webview_window, get_window_state, hide_window, resolve_conflict,
    show_window, system_info,
};

fn single_instance_table() -> TemplateTable {
    let mut table = TemplateTable::new();
    let added = table.add(
        "main-viewport-only".to_string(),
        WindowTemplate::new("apps/main-viewport-only/index.html", "main-viewport-only", false),
    );
    assert!(added);
    table
}

#[test]
fn keys_start_at_one_and_increase() {
    let mut counter = KeyCounter::new();
    let mut previous = 0usize;
    for expected in 1..=50usize {
        let key = counter.next_key().unwrap();
        assert_eq!(key, expected);
        assert!(key > previous);
        previous = key;
    }
}

#[test]
fn unique_keys_are_decimal_strings() {
    let mut counter = KeyCounter::new();
    let keys: Vec<String> = (0..12).map(|_| generate_unique_key(&mut counter).unwrap()).collect();
    assert_eq!(keys[0], "1");
    assert_eq!(keys[8], "9");
    assert_eq!(keys[9], "10");
    assert_eq!(keys[11], "12");
    for i in 0..keys.len() {
        for j in (i + 1)..keys.len() {
            assert_ne!(keys[i], keys[j]);
        }
    }
}

#[test]
fn decimal_rendering() {
    assert_eq!(to_decimal(0), "0");
    assert_eq!(to_decimal(7), "7");
    assert_eq!(to_decimal(1024), "1024");
    assert_eq!(to_decimal(usize::MAX), usize::MAX.to_string());
}

#[test]
fn full_viewport_twice_gives_distinct_labels() {
    let table = TemplateTable::standard();
    let mut counter = KeyCounter::new();
    let first = create_window(&table, &mut counter, "full-viewport").ok().unwrap();
    let second = create_window(&table, &mut counter, "full-viewport").ok().unwrap();
    assert_eq!(first.info.label, "full-viewport-1");
    assert_eq!(second.info.label, "full-viewport-2");
    assert_ne!(first.info.label, second.info.label);
    assert_eq!(first.info.key, "1");
    assert_eq!(second.info.key, "2");
    assert_eq!(first.info.original_label, "full-viewport");
    assert!(first.info.allow_multiple);
    assert_eq!(first.path, "apps/full-viewport/index.html");
    assert_eq!(hide_window(true).ok().unwrap(), "window hidden");
    assert_eq!(show_window(true).ok().unwrap(), "window shown");
}

#[test]
fn standard_main_viewport_is_multi_instance() {
    let table = TemplateTable::standard();
    let mut counter = KeyCounter::new();
    let plan = create_window(&table, &mut counter, "main-viewport-only").ok().unwrap();
    assert_eq!(plan.info.label, "main-viewport-only-1");
    assert_eq!(plan.path, "apps/main-viewport-only/index.html");
}

#[test]
fn single_instance_twice_falls_back_to_existing_window() {
    let table = single_instance_table();
    let mut counter = KeyCounter::new();
    let first = create_window(&table, &mut counter, "main-viewport-only").ok().unwrap();
    assert_eq!(first.info.label, "main-viewport-only");
    let second = create_window(&table, &mut counter, "main-viewport-only").ok().unwrap();
    assert_eq!(second.info.label, "main-viewport-only");
    assert_eq!(second.info.key, "2");
    assert_eq!(second.info.original_label, "main-viewport-only");
    let failure = "a webview with label `main-viewport-only` already exists".to_string();
    let outcome = resolve_conflict(failure.clone(), true);
    assert!(outcome.foreground);
    let reply = error_response(&outcome.error);
    assert_eq!(reply.status, "error");
    assert_eq!(reply.data, failure);
}

#[test]
fn conflict_without_existing_window_reports_not_found() {
    let outcome = resolve_conflict("refused".to_string(), false);
    assert!(!outcome.foreground);
    let reply = error_response(&outcome.error);
    assert_eq!(reply.status, "error");
    assert_eq!(reply.data, "window not found");
}

#[test]
fn unknown_kind_is_reported_and_takes_no_key() {
    let table = TemplateTable::standard();
    let mut counter = KeyCounter::new();
    let result = create_window(&table, &mut counter, "does-not-exist");
    assert!(matches!(result, Err(CommandError::UnknownKind)));
    assert_eq!(counter.peek(), 1);
    let reply = error_response(&CommandError::UnknownKind);
    assert_eq!(reply.status, "error");
    assert_eq!(reply.data, "unknown window kind");
}

#[test]
fn state_of_unknown_label_is_not_found() {
    let result = get_window_state("never-created-3", None);
    let reply = respond(result).err().unwrap();
    assert_eq!(reply.status, "error");
    assert_eq!(reply.data, "window not found");
}

#[test]
fn state_follows_visibility() {
    let table = TemplateTable::standard();
    let mut counter = KeyCounter::new();
    let plan = create_window(&table, &mut counter, "full-viewport").ok().unwrap();
    let shown = get_window_state(&plan.info.label, Some(true)).ok().unwrap();
    assert_eq!(shown.state, "show");
    assert_eq!(shown.label, "full-viewport-1");
    assert_eq!(shown.original_label, "full");
    assert_eq!(hide_window(true).ok().unwrap(), "window hidden");
    let hidden = get_window_state(&plan.info.label, Some(false)).ok().unwrap();
    assert_eq!(hidden.state, "hide");
}

#[test]
fn original_label_of_full_viewport_seven() {
    assert_eq!(original_label("full-viewport-7"), "full");
    let state = get_window_state("full-viewport-7", Some(true)).ok().unwrap();
    assert_eq!(state.original_label, "full");
    assert_eq!(original_label("main"), "main");
    assert_eq!(original_label(""), "");
    assert_eq!(original_label("-3"), "");
    assert_eq!(original_label("viewport-12"), "viewport");
}

#[test]
fn hide_and_show_of_missing_window() {
    assert!(matches!(hide_window(false), Err(CommandError::WindowNotFound)));
    assert!(matches!(show_window(false), Err(CommandError::WindowNotFound)));
    assert!(matches!(get_webview_window::<u32>(None), Err(CommandError::WindowNotFound)));
    assert_eq!(get_webview_window(Some(5u32)).ok(), Some(5));
}

#[test]
fn table_refuses_duplicate_kind() {
    let mut table = TemplateTable::standard();
    let added = table.add(
        "full-viewport".to_string(),
        WindowTemplate::new("other.html", "other", false),
    );
    assert!(!added);
    let template = table.resolve("full-viewport").unwrap();
    assert_eq!(template.path, "apps/full-viewport/index.html");
    assert!(table.resolve("other").is_none());
}

#[test]
fn replies_carry_status_and_data() {
    let reply = ok_response(3u8);
    assert_eq!(reply.status, "ok");
    assert_eq!(reply.data, 3);
    let info = system_info(8);
    assert_eq!(info.status, "ok");
    assert_eq!(info.data.cpu.cores, 8);
    let reply = error_response(&CommandError::KeysExhausted);
    assert_eq!(reply.data, "unique keys exhausted");
}
