use mihome_core::commands::SavedCommand;
use mihome_core::dispatch::{
    call_params, dispatch_after_call, dispatch_after_listing, dispatch_start, report, DispatchError,
    DispatchStep, ShortcutReport,
};

fn cmd(params: &str) -> SavedCommand {
    SavedCommand {
        name: "lamp".to_string(),
        method: "set_power".to_string(),
        params: params.to_string(),
        shortcut: Some("Ctrl+1".to_string()),
    }
}

#[test]
fn not_logged_in_fails_without_device_call() {
    let step = dispatch_start(false);
    assert_eq!(step, DispatchStep::Finished(Err(DispatchError::NotLoggedIn)));
    let r = match step {
        DispatchStep::Finished(r) => r,
        _ => panic!("a device step was asked for"),
    };
    assert_eq!(
        report(&cmd("[]"), r),
        ShortcutReport::Failed("lamp".to_string(), DispatchError::NotLoggedIn)
    );
}

#[test]
fn logged_in_lists_devices() {
    assert_eq!(dispatch_start(true), DispatchStep::ListDevices);
}

#[test]
fn first_device_is_called() {
    let devices = vec!["111".to_string(), "222".to_string()];
    let step = dispatch_after_listing(&cmd("[\"on\"]"), Ok(devices));
    let expected: serde_json::Value = serde_json::from_str("[\"on\"]").unwrap();
    assert_eq!(
        step,
        DispatchStep::CallDevice { did: "111".to_string(), method: "set_power".to_string(), params: expected }
    );
}

#[test]
fn no_devices_and_failed_listing() {
    assert_eq!(
        dispatch_after_listing(&cmd("[]"), Ok(vec![])),
        DispatchStep::Finished(Err(DispatchError::NoDevices))
    );
    assert_eq!(
        dispatch_after_listing(&cmd("[]"), Err(())),
        DispatchStep::Finished(Err(DispatchError::DevicesUnavailable))
    );
}

#[test]
fn invalid_params_are_refused() {
    let step = dispatch_after_listing(&cmd("{not json"), Ok(vec!["111".to_string()]));
    assert!(matches!(step, DispatchStep::Finished(Err(DispatchError::InvalidParams(_)))));
}

#[test]
fn call_outcome_is_reported() {
    assert_eq!(dispatch_after_call(Ok(())), DispatchStep::Finished(Ok(())));
    assert_eq!(
        dispatch_after_call(Err("timeout".to_string())),
        DispatchStep::Finished(Err(DispatchError::CallFailed("timeout".to_string())))
    );
    assert_eq!(report(&cmd("[]"), Ok(())), ShortcutReport::Executed("lamp".to_string()));
}

#[test]
fn call_params_reads_json_or_refuses() {
    assert_eq!(call_params(None), Ok(None));
    let v: serde_json::Value = serde_json::from_str("{\"a\":1}").unwrap();
    assert_eq!(call_params(Some("{\"a\":1}".to_string())), Ok(Some(v)));
    assert!(call_params(Some("[1,".to_string())).is_err());
}
