use python_tauri::registry::{set_app_handle, CallbackRegistry};
use python_tauri::shell::{
    create_window, outbound_ready, run, RunOutcome, ShellError, WindowPlan,
};

fn started() -> CallbackRegistry<u32> {
    let mut registry = CallbackRegistry::new();
    set_app_handle(&mut registry, 7);
    registry
}

#[test]
fn window_before_start_is_refused() {
    let registry: CallbackRegistry<u32> = CallbackRegistry::new();
    let plan = create_window(
        &registry,
        "main".to_string(),
        "Title".to_string(),
        "https://example.org".to_string(),
        None,
        None,
        None,
        false,
        false,
        None,
        "",
    );
    assert_eq!(plan, Err(ShellError::NotInitialized));
    assert_eq!(plan.unwrap_err().message(), "App handle not initialized");
}

#[test]
fn missing_handle_counts_before_a_bad_url() {
    let registry: CallbackRegistry<u32> = CallbackRegistry::new();
    let plan = create_window(
        &registry,
        "main".to_string(),
        "Title".to_string(),
        "not a url".to_string(),
        None,
        None,
        None,
        false,
        false,
        Some("relative URL without a base".to_string()),
        "",
    );
    assert_eq!(plan, Err(ShellError::NotInitialized));
}

#[test]
fn bad_url_is_refused() {
    let plan = create_window(
        &started(),
        "main".to_string(),
        "Title".to_string(),
        "not a url".to_string(),
        None,
        None,
        None,
        false,
        false,
        Some("relative URL without a base".to_string()),
        "",
    );
    let error = plan.unwrap_err();
    assert_eq!(error, ShellError::InvalidUrl("relative URL without a base".to_string()));
    assert_eq!(error.message(), "Invalid URL: relative URL without a base");
    assert!(error.is_value_error());
}

#[test]
fn window_gets_default_size() {
    let plan = create_window(
        &started(),
        "main".to_string(),
        "Title".to_string(),
        "https://example.org".to_string(),
        None,
        None,
        None,
        false,
        true,
        None,
        "document.title = 'apptitle';",
    );
    assert_eq!(
        plan,
        Ok(WindowPlan {
            label: "main".to_string(),
            title: "Title".to_string(),
            url: "https://example.org".to_string(),
            user_agent: None,
            width: 800,
            height: 600,
            visible: true,
            maximized: false,
            center: true,
            initialization_script: "document.title = 'Title';".to_string(),
        })
    );
}

#[test]
fn window_keeps_what_was_given() {
    let plan = create_window(
        &started(),
        "side".to_string(),
        "T".to_string(),
        "http://localhost:1420/".to_string(),
        Some("agent/1.0".to_string()),
        Some(1024),
        Some(-5),
        true,
        false,
        None,
        "no mark here",
    )
    .unwrap();
    assert_eq!(plan.user_agent, Some("agent/1.0".to_string()));
    assert_eq!(plan.width, 1024);
    assert_eq!(plan.height, -5);
    assert!(plan.maximized);
    assert!(!plan.center);
    assert!(plan.visible);
    assert_eq!(plan.initialization_script, "no mark here");
}

#[test]
fn every_mark_in_the_script_becomes_the_title() {
    let plan = create_window(
        &started(),
        "main".to_string(),
        "My App".to_string(),
        "https://example.org".to_string(),
        None,
        Some(1),
        None,
        false,
        false,
        None,
        "apptitle; a = \"apptitle\"; apptitl; xapptitleapptitle",
    )
    .unwrap();
    assert_eq!(plan.initialization_script, "My App; a = \"My App\"; apptitl; xMy AppMy App");
    assert_eq!(plan.width, 1);
    assert_eq!(plan.height, 600);
}

#[test]
fn a_title_that_holds_the_mark_is_not_replaced_again() {
    let plan = create_window(
        &started(),
        "main".to_string(),
        "apptitle!".to_string(),
        "https://example.org".to_string(),
        None,
        None,
        None,
        false,
        false,
        None,
        "<apptitle>",
    )
    .unwrap();
    assert_eq!(plan.initialization_script, "<apptitle!>");
}

#[test]
fn shell_errors_in_words() {
    assert_eq!(
        ShellError::WindowBuild("no display".to_string()).message(),
        "Failed to build window: no display"
    );
    assert_eq!(ShellError::Emit("closed".to_string()).message(), "Failed to emit event: closed");
    assert_eq!(
        ShellError::SignalHandler("already set".to_string()).message(),
        "Failed to set Ctrl+C handler: already set"
    );
    assert!(!ShellError::NotInitialized.is_value_error());
    assert!(!ShellError::WindowBuild(String::new()).is_value_error());
    assert!(!ShellError::Emit(String::new()).is_value_error());
    assert!(!ShellError::SignalHandler(String::new()).is_value_error());
}

#[test]
fn clean_shutdown_exits_with_zero() {
    assert_eq!(run(Ok(())), RunOutcome { code: 0, report: None });
}

#[test]
fn failed_run_exits_with_one_and_reports() {
    assert_eq!(
        run(Err("no webview".to_string())),
        RunOutcome { code: 1, report: Some("Application error: no webview".to_string()) }
    );
}

#[test]
fn outbound_operation_before_start_is_refused() {
    let registry: CallbackRegistry<u32> = CallbackRegistry::new();
    assert_eq!(outbound_ready(&registry), Err(ShellError::NotInitialized));
}

#[test]
fn outbound_operation_after_start_goes_ahead() {
    assert_eq!(outbound_ready(&started()), Ok(()));
}
