use stremio_shell_ng::constants::UPDATE_INTERVAL;
use stremio_shell_ng::updater::{
    is_update_check_request, update_endpoint, update_query_params, update_url_at, updater_endpoint,
    UPDATE_ENDPOINT_COUNT,
};

#[test]
fn update_check_request() {
    assert!(is_update_check_request("check_for_update"));
    assert!(!is_update_check_request("check_for_updates"));
    assert!(!is_update_check_request(""));
}

#[test]
fn update_interval_is_twelve_hours() {
    assert_eq!(UPDATE_INTERVAL, 12 * 60 * 60);
}

#[test]
fn endpoints() {
    assert_eq!(UPDATE_ENDPOINT_COUNT, 3);
    assert_eq!(update_endpoint(0), "https://www.strem.io/updater/check?product=stremio-shell-ng");
    assert_eq!(update_endpoint(1), "https://www.stremio.com/updater/check?product=stremio-shell-ng");
    assert_eq!(update_endpoint(2), "https://www.stremio.net/updater/check?product=stremio-shell-ng");
}

#[test]
fn query_params() {
    assert_eq!(update_query_params("x86_64", false), vec![("arch".to_string(), "x86_64".to_string())]);
    assert_eq!(
        update_query_params("x86", true),
        vec![("arch".to_string(), "x86".to_string()), ("rc".to_string(), "true".to_string())]
    );
}

#[test]
fn update_url_has_arch_and_rc() {
    assert_eq!(
        update_url_at(0, "x86_64", true).as_deref(),
        Some("https://www.strem.io/updater/check?product=stremio-shell-ng&arch=x86_64&rc=true")
    );
    assert_eq!(
        update_url_at(2, "x86", false).as_deref(),
        Some("https://www.stremio.net/updater/check?product=stremio-shell-ng&arch=x86")
    );
    assert_eq!(
        update_url_at(1, "a b&c", false).as_deref(),
        Some("https://www.stremio.com/updater/check?product=stremio-shell-ng&arch=a+b%26c")
    );
}

#[test]
fn custom_endpoint_is_kept() {
    let custom = "https://example.org/updates?x=1".to_string();
    assert_eq!(updater_endpoint(Some(custom.clone()), "x86_64", true), Some(custom));
}

#[test]
fn random_endpoint_is_one_of_the_three() {
    let expected: Vec<String> = (0..UPDATE_ENDPOINT_COUNT)
        .map(|i| update_url_at(i, "x86_64", false).unwrap())
        .collect();
    for _ in 0..30 {
        let url = updater_endpoint(None, "x86_64", false).unwrap();
        assert!(expected.contains(&url), "{}", url);
    }
}

use stremio_shell_ng::updater::{
    setup_outcome, update_setup_step, updater_step, SetupOutcome, SetupStep, UpdaterAction,
    UpdaterEvent, UpdaterState,
};

#[test]
fn no_check_before_the_start_message() {
    let waiting = UpdaterState::AwaitingStart;
    assert_eq!(
        updater_step(waiting, &UpdaterEvent::Message("hello".to_string())),
        (UpdaterState::AwaitingStart, UpdaterAction::KeepWaiting)
    );
    assert_eq!(
        updater_step(waiting, &UpdaterEvent::IntervalElapsed),
        (UpdaterState::AwaitingStart, UpdaterAction::KeepWaiting)
    );
    assert_eq!(
        updater_step(waiting, &UpdaterEvent::Checked { update_found: true }),
        (UpdaterState::AwaitingStart, UpdaterAction::KeepWaiting)
    );
    assert_eq!(
        updater_step(waiting, &UpdaterEvent::Message("check_for_update".to_string())),
        (UpdaterState::Running, UpdaterAction::Check)
    );
}

#[test]
fn checks_repeat_every_interval() {
    let running = UpdaterState::Running;
    assert_eq!(
        updater_step(running, &UpdaterEvent::Checked { update_found: false }),
        (running, UpdaterAction::Sleep { seconds: 43200, announce_update: false })
    );
    assert_eq!(
        updater_step(running, &UpdaterEvent::Checked { update_found: true }),
        (running, UpdaterAction::Sleep { seconds: 43200, announce_update: true })
    );
    assert_eq!(updater_step(running, &UpdaterEvent::IntervalElapsed), (running, UpdaterAction::Check));
    assert_eq!(
        updater_step(running, &UpdaterEvent::Message("check_for_update".to_string())),
        (running, UpdaterAction::KeepWaiting)
    );
}

#[test]
fn setup_is_launched_silently_and_quits_when_started() {
    match update_setup_step(Some("C:\\setup.exe".to_string())) {
        SetupStep::Launch { program, args } => {
            assert_eq!(program, "C:\\setup.exe");
            assert_eq!(args, vec!["/SILENT", "/NOCANCEL", "/FORCECLOSEAPPLICATIONS", "/TASKS=runapp"]);
        }
        SetupStep::Missing => panic!("setup expected"),
    }
    assert!(matches!(update_setup_step::<String>(None), SetupStep::Missing));
    assert_eq!(setup_outcome(true), SetupOutcome::Quit);
    assert_eq!(setup_outcome(false), SetupOutcome::Failed);
}
