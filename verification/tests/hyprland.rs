use eucalyptus_twig::hyprland::{HyprlandWorkspace, LineAction, parse_i64};

#[test]
fn parse_i64_accepts_plain_numbers() {
    assert_eq!(parse_i64("42"), Some(42));
    assert_eq!(parse_i64("0"), Some(0));
    assert_eq!(parse_i64("-7"), Some(-7));
    assert_eq!(parse_i64("+3"), Some(3));
    assert_eq!(parse_i64("-0"), Some(0));
}

#[test]
fn parse_i64_rejects_garbage() {
    assert_eq!(parse_i64(""), None);
    assert_eq!(parse_i64("+"), None);
    assert_eq!(parse_i64("-"), None);
    assert_eq!(parse_i64("x"), None);
    assert_eq!(parse_i64("12a"), None);
    assert_eq!(parse_i64(" 12"), None);
    assert_eq!(parse_i64("1 2"), None);
    assert_eq!(parse_i64("--3"), None);
}

#[test]
fn parse_i64_bounds() {
    assert_eq!(parse_i64("9223372036854775807"), Some(i64::MAX));
    assert_eq!(parse_i64("9223372036854775808"), None);
    assert_eq!(parse_i64("-9223372036854775808"), Some(i64::MIN));
    assert_eq!(parse_i64("-9223372036854775809"), None);
    assert_eq!(parse_i64("99999999999999999999999"), None);
}

#[test]
fn create_line_inserts_workspace() {
    let mut h = HyprlandWorkspace::new();
    assert_eq!(h.handle_line("createworkspacev2>>3,web"), LineAction::Applied);
    assert_eq!(h.workspace_name(3).map(String::as_str), Some("web"));
    assert_eq!(h.handle_line("createworkspacev2>>1,mail"), LineAction::Applied);
    // The table is ordered by id.
    assert_eq!(h.workspaces[0].0, 1);
    assert_eq!(h.workspaces[1].0, 3);
}

#[test]
fn create_collision_keeps_original_name() {
    let mut h = HyprlandWorkspace::new();
    assert_eq!(h.handle_line("createworkspacev2>>3,first"), LineAction::Applied);
    assert_eq!(h.handle_line("createworkspacev2>>3,second"), LineAction::Applied);
    assert_eq!(h.workspace_name(3).map(String::as_str), Some("first"));
    assert_eq!(h.workspaces.len(), 1);
    // Interleaved creates for other ids do not disturb the entry either.
    assert_eq!(h.handle_line("createworkspacev2>>5,other"), LineAction::Applied);
    assert_eq!(h.handle_line("createworkspacev2>>3,third"), LineAction::Applied);
    assert_eq!(h.workspace_name(3).map(String::as_str), Some("first"));
}

#[test]
fn destroy_line_removes_workspace() {
    let mut h = HyprlandWorkspace::new();
    h.handle_line("createworkspacev2>>2,two");
    // A name mismatch is only logged: the entry is removed regardless.
    assert_eq!(h.handle_line("destroyworkspacev2>>2,unrelated"), LineAction::Applied);
    assert!(h.workspace_name(2).is_none());
    // Destroying an absent id is a logged no-op.
    assert_eq!(h.handle_line("destroyworkspacev2>>2,two"), LineAction::Applied);
    assert!(h.error_message.is_none());
}

#[test]
fn active_lines_move_the_cursors() {
    let mut h = HyprlandWorkspace::new();
    assert_eq!(h.handle_line("workspacev2>>5,web"), LineAction::Applied);
    assert_eq!(h.active_workspace, Some(5));
    assert_eq!(h.active_special_workspace, None);
    assert_eq!(h.handle_line("activespecialv2>>-98,special"), LineAction::Applied);
    assert_eq!(h.active_special_workspace, Some(-98));
    // An empty id clears the cursor.
    assert_eq!(h.handle_line("workspacev2>>,"), LineAction::Applied);
    assert_eq!(h.active_workspace, None);
    assert!(h.is_active_id(-98));
    assert!(!h.is_active_id(5));
}

#[test]
fn malformed_create_or_destroy_asks_for_resync() {
    let mut h = HyprlandWorkspace::new();
    h.handle_line("createworkspacev2>>3,web");
    // No comma at all.
    assert_eq!(h.handle_line("createworkspacev2>>3web"), LineAction::NeedsResync);
    // Unparseable id.
    assert_eq!(h.handle_line("destroyworkspacev2>>abc,web"), LineAction::NeedsResync);
    // The map is untouched by the malformed lines themselves.
    assert_eq!(h.workspace_name(3).map(String::as_str), Some("web"));
}

#[test]
fn malformed_active_line_is_skipped() {
    let mut h = HyprlandWorkspace::new();
    h.handle_line("workspacev2>>5,web");
    assert_eq!(h.handle_line("workspacev2>>abc,web"), LineAction::Skipped);
    assert_eq!(h.active_workspace, Some(5));
    assert_eq!(h.handle_line("activespecialv2>>no-comma-here"), LineAction::Skipped);
}

#[test]
fn unknown_tag_is_skipped() {
    let mut h = HyprlandWorkspace::new();
    assert_eq!(h.handle_line("monitoradded>>HDMI-1"), LineAction::Skipped);
    assert_eq!(h.handle_line(""), LineAction::Skipped);
    assert_eq!(h.workspaces.len(), 0);
}

#[test]
fn seed_replaces_map_and_later_duplicate_wins() {
    let mut h = HyprlandWorkspace::new();
    h.handle_line("createworkspacev2>>9,stale");
    h.seed_workspaces(vec![
        (3, "three".to_owned()),
        (1, "one".to_owned()),
        (3, "three-again".to_owned()),
    ]);
    assert_eq!(h.workspaces.len(), 2);
    assert_eq!(h.workspace_name(1).map(String::as_str), Some("one"));
    assert_eq!(h.workspace_name(3).map(String::as_str), Some("three-again"));
    assert!(h.workspace_name(9).is_none());
    assert_eq!(h.workspaces[0].0, 1);
    assert_eq!(h.workspaces[1].0, 3);
}

#[test]
fn query_response_seeds_from_json() {
    let mut h = HyprlandWorkspace::new();
    let body = br#"[{"id":2,"name":"two","windows":3},{"id":1,"name":"one","windows":0}]"#;
    assert!(h.apply_query_response(body));
    assert_eq!(h.workspaces.len(), 2);
    assert_eq!(h.workspace_name(1).map(String::as_str), Some("one"));
    assert_eq!(h.workspace_name(2).map(String::as_str), Some("two"));
    assert!(h.error_message.is_none());
}

#[test]
fn malformed_query_response_keeps_map_and_reports() {
    let mut h = HyprlandWorkspace::new();
    h.handle_line("createworkspacev2>>4,kept");
    assert!(!h.apply_query_response(b"{\"not\":\"an array\"}"));
    assert!(h.error_message.is_some());
    assert_eq!(h.workspace_name(4).map(String::as_str), Some("kept"));
    let mut h2 = HyprlandWorkspace::new();
    // An element without a name is a decode failure too.
    assert!(!h2.apply_query_response(br#"[{"id":1}]"#));
    assert!(h2.error_message.is_some());
}
