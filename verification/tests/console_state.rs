use cockpit_web_console::commands::{forwarded_command, route_invoke, ForwardedCommand, InvokeRoute};
use cockpit_web_console::import::{
    adapter_task_failed_error, export_accounts, import_from_files, import_from_json,
    import_from_local, import_from_old_tools, PayloadValue,
};
use cockpit_web_console::invoke::{
    app_runtime_unavailable_error, arg, arg_or, builtin_command, invalid_json_error, opt_arg,
    serialize_failure_error, unexposed_command_error, ArgLookup, BuiltinReply,
};
use cockpit_web_console::port::{
    get_actual_port, set_actual_port, web_console_port_state, BindStep, PortSearch,
};

#[test]
fn port_state_read_after_write() {
    let mut s = web_console_port_state();
    assert_eq!(get_actual_port(&s), None);
    set_actual_port(&mut s, Some(18083));
    assert_eq!(get_actual_port(&s), Some(18083));
    set_actual_port(&mut s, None);
    assert_eq!(get_actual_port(&s), None);
}

#[test]
fn port_search_tries_successive_ports() {
    let (mut s, first) = PortSearch::new(3);
    assert_eq!(first, BindStep::TryBind(18081));
    assert_eq!(s.on_bind_result(false), BindStep::TryBind(18082));
    assert_eq!(s.on_bind_result(false), BindStep::TryBind(18083));
    assert_eq!(s.on_bind_result(false), BindStep::Exhausted);

    let (mut s, _) = PortSearch::new(5);
    assert_eq!(s.on_bind_result(true), BindStep::Listening { port: 18081, switched: false });
    let (mut s, _) = PortSearch::new(5);
    assert_eq!(s.on_bind_result(false), BindStep::TryBind(18082));
    assert_eq!(s.on_bind_result(true), BindStep::Listening { port: 18082, switched: true });

    let (_, first) = PortSearch::new(0);
    assert_eq!(first, BindStep::Exhausted);
}

#[test]
fn port_search_saturates_at_the_top() {
    let (mut s, _) = PortSearch::new(50000);
    let mut last = BindStep::Exhausted;
    for _ in 0..(65535 - 18081 + 2) {
        last = s.on_bind_result(false);
    }
    assert_eq!(last, BindStep::TryBind(65535));
}

#[test]
fn required_arguments() {
    let r: Result<u32, String> = arg("accountId", ArgLookup::Missing);
    assert_eq!(r, Err("missing argument 'accountId'".to_string()));
    let r: Result<u32, String> = arg("n", ArgLookup::Present { is_null: false, decoded: Ok(3) });
    assert_eq!(r, Ok(3));
    let r: Result<u32, String> = arg("n", ArgLookup::Present { is_null: false, decoded: Err("expected u32".to_string()) });
    assert_eq!(r, Err("invalid argument 'n': expected u32".to_string()));
    let r: Result<Option<u32>, String> = arg("n", ArgLookup::Present { is_null: true, decoded: Ok(None) });
    assert_eq!(r, Ok(None));
}

#[test]
fn defaulted_and_optional_arguments() {
    let r: Result<usize, String> = arg_or("lineLimit", ArgLookup::Missing, 500);
    assert_eq!(r, Ok(500));
    let r: Result<usize, String> = arg_or("lineLimit", ArgLookup::Present { is_null: false, decoded: Ok(20) }, 500);
    assert_eq!(r, Ok(20));
    let r: Result<usize, String> = arg_or("lineLimit", ArgLookup::Present { is_null: true, decoded: Err("null".to_string()) }, 500);
    assert_eq!(r, Err("invalid argument 'lineLimit': null".to_string()));
    let r: Result<Option<bool>, String> = opt_arg("force", ArgLookup::Missing);
    assert_eq!(r, Ok(None));
    let r: Result<Option<bool>, String> = opt_arg("force", ArgLookup::Present { is_null: true, decoded: Err("x".to_string()) });
    assert_eq!(r, Ok(None));
    let r: Result<Option<bool>, String> = opt_arg("force", ArgLookup::Present { is_null: false, decoded: Ok(true) });
    assert_eq!(r, Ok(Some(true)));
    let r: Result<Option<bool>, String> = opt_arg("force", ArgLookup::Present { is_null: false, decoded: Err("bad".to_string()) });
    assert_eq!(r, Err("invalid argument 'force': bad".to_string()));
}

#[test]
fn builtin_commands() {
    assert!(matches!(builtin_command("plugin:app|version"), Some(BuiltinReply::AppVersion)));
    assert!(matches!(builtin_command("plugin:app|name"), Some(BuiltinReply::Text("Cockpit Tools"))));
    assert!(matches!(builtin_command("plugin:app|identifier"), Some(BuiltinReply::Text("com.jlcodes.cockpit-tools"))));
    assert!(matches!(builtin_command("plugin:app|tauri_version"), Some(BuiltinReply::Text("2"))));
    assert!(matches!(builtin_command("plugin:event|listen"), Some(BuiltinReply::Integer(1))));
    for c in ["plugin:event|unlisten", "plugin:event|emit", "plugin:event|emit_to", "plugin:window|start_dragging",
        "plugin:window|set_theme", "plugin:webview|set_webview_zoom", "plugin:webview|set_zoom",
        "hide_current_floating_card_window", "set_current_floating_card_window_always_on_top"] {
        assert!(matches!(builtin_command(c), Some(BuiltinReply::Null)), "{}", c);
    }
    assert!(matches!(builtin_command("plugin:window|get_all_windows"), Some(BuiltinReply::MainWindow)));
    assert!(matches!(builtin_command("plugin:webview|get_all_webviews"), Some(BuiltinReply::MainWebview)));
    assert!(builtin_command("list_accounts").is_none());
    assert!(builtin_command("").is_none());
}

#[test]
fn invoke_error_texts() {
    assert_eq!(unexposed_command_error("nope"), "Command 'nope' is not exposed through the local web console yet");
    assert_eq!(invalid_json_error("EOF"), "invalid JSON: EOF");
    assert_eq!(serialize_failure_error("x"), "serialize response failed: x");
    assert_eq!(app_runtime_unavailable_error(), "App runtime is not available");
}

#[test]
fn import_requests() {
    let r = import_from_old_tools();
    assert_eq!((r.method, r.field.is_none(), r.refresh_tray), ("accounts.importOldTools", true, false));
    let r = import_from_local();
    assert_eq!((r.method, r.field.is_none(), r.refresh_tray), ("accounts.importLocal", true, true));
    let r = import_from_json("[1]".to_string());
    assert_eq!(r.method, "accounts.importJson");
    match r.field {
        Some(("jsonContent", PayloadValue::Text(t))) => assert_eq!(t, "[1]"),
        _ => panic!("wrong payload"),
    }
    let r = import_from_files(vec!["a.json".to_string()]);
    assert_eq!(r.method, "accounts.importFiles");
    match r.field {
        Some(("filePaths", PayloadValue::TextList(v))) => assert_eq!(v, vec!["a.json".to_string()]),
        _ => panic!("wrong payload"),
    }
    let r = export_accounts(vec!["x".to_string(), "y".to_string()]);
    assert_eq!(r.method, "accounts.export");
    match r.field {
        Some(("accountIds", PayloadValue::TextList(v))) => assert_eq!(v.len(), 2),
        _ => panic!("wrong payload"),
    }
    assert_eq!(adapter_task_failed_error("panicked"), "Antigravity adapter task failed: panicked");
}

#[test]
fn invoke_routes() {
    assert_eq!(forwarded_command("list_accounts"), Some(ForwardedCommand::WithoutAppHandle));
    assert_eq!(forwarded_command("set_current_account"), Some(ForwardedCommand::WithAppHandle));
    assert_eq!(forwarded_command("save_general_config"), Some(ForwardedCommand::WithAppHandle));
    assert_eq!(forwarded_command("logs_get_snapshot"), Some(ForwardedCommand::WithoutAppHandle));
    assert_eq!(forwarded_command("workbuddy_list_instances"), Some(ForwardedCommand::WithoutAppHandle));
    assert_eq!(forwarded_command("codex_wakeup_run_enabled_tasks"), Some(ForwardedCommand::WithAppHandle));
    assert_eq!(forwarded_command("plugin:app|name"), None);
    assert_eq!(forwarded_command("LIST_ACCOUNTS"), None);
    assert!(matches!(route_invoke("plugin:app|version"), InvokeRoute::Builtin(BuiltinReply::AppVersion)));
    assert!(matches!(route_invoke("refresh_all_quotas"), InvokeRoute::Forward(ForwardedCommand::WithAppHandle)));
    assert!(matches!(route_invoke("delete_everything"), InvokeRoute::NotExposed));
}
