use zygisk_loader::engine::{Action, Event, FailReason, Phase, Pipeline};
use zygisk_loader::matching::MatchPolicy;

fn pre_event(config: Option<&[u8]>, name: &[u8], dir: &[u8]) -> Event {
    Event::PreSpecialize {
        config: config.map(|c| c.to_vec()),
        runtime_name: name.to_vec(),
        data_dir: dir.to_vec(),
    }
}

#[test]
fn happy_path_loads_and_removes_artifact() {
    let mut p = Pipeline::new();
    assert_eq!(p.current_phase(), Phase::Unloaded);

    let act = p.step(pre_event(
        Some(b"com.example.app\n"),
        b"com.example.app:remote",
        b"/data/user/0/com.example.app",
    ));
    assert!(matches!(act, Action::ReadPayload));
    assert_eq!(p.current_phase(), Phase::AwaitingPayload);
    assert_eq!(p.match_result(), Some(true));

    let act = p.step(Event::PayloadRead { bytes: Some(vec![0x7f, b'E', b'L', b'F']) });
    assert!(matches!(act, Action::Idle));
    assert_eq!(p.current_phase(), Phase::Buffered);

    let act = p.step(Event::PostSpecialize { data_dir: b"/data/user/0/com.example.app".to_vec() });
    match act {
        Action::WriteArtifact { path, bytes } => {
            assert_eq!(path, b"/data/user/0/com.example.app/cache/.zl-staged.so".to_vec());
            assert_eq!(bytes, vec![0x7f, b'E', b'L', b'F']);
        }
        _ => panic!("expected a staging write"),
    }
    assert_eq!(p.current_phase(), Phase::Staging);
    assert!(!p.artifact_present());

    let act = p.step(Event::StageWritten { ok: true });
    match act {
        Action::LoadArtifact { path } => {
            assert_eq!(path, b"/data/user/0/com.example.app/cache/.zl-staged.so".to_vec());
        }
        _ => panic!("expected a load"),
    }
    assert_eq!(p.current_phase(), Phase::Staged);
    assert!(p.artifact_present());

    let act = p.step(Event::LoadFinished { ok: true });
    match act {
        Action::RemoveArtifact { path } => {
            assert_eq!(path, b"/data/user/0/com.example.app/cache/.zl-staged.so".to_vec());
        }
        _ => panic!("expected the cleanup unlink"),
    }

    let act = p.step(Event::Unlinked { ok: true });
    assert!(matches!(act, Action::Idle));
    assert_eq!(p.current_phase(), Phase::Loaded);
    assert!(!p.artifact_present());
    assert!(!p.had_cleanup_failure());
}

#[test]
fn no_config_reaches_no_match_without_error() {
    let mut p = Pipeline::new();
    let act = p.step(pre_event(None, b"com.example.app", b"/data/user/0/com.example.app"));
    assert!(matches!(act, Action::Idle));
    assert_eq!(p.current_phase(), Phase::NoMatch);
    assert_eq!(p.match_result(), Some(false));
    // later hooks stay no-ops
    let act = p.step(Event::PostSpecialize { data_dir: b"/data/user/0/com.example.app".to_vec() });
    assert!(matches!(act, Action::Idle));
    assert_eq!(p.current_phase(), Phase::NoMatch);
}

#[test]
fn empty_config_never_matches() {
    // config "" (empty file): match = false regardless of process name
    let mut p = Pipeline::new();
    let act = p.step(pre_event(Some(b""), b"com.example.app", b"/data/user/0/com.example.app"));
    assert!(matches!(act, Action::Idle));
    assert_eq!(p.current_phase(), Phase::NoMatch);
    assert_eq!(p.match_result(), Some(false));
}

#[test]
fn variant_process_name_matches_by_substring() {
    // config "com.example.app", resolved name "com.example.app:remote"
    let mut p = Pipeline::new();
    let act = p.step(pre_event(Some(b"com.example.app"), b"com.example.app:remote", b""));
    assert!(matches!(act, Action::ReadPayload));
    assert_eq!(p.match_result(), Some(true));
}

#[test]
fn other_package_does_not_match() {
    let mut p = Pipeline::new();
    let act = p.step(pre_event(Some(b"com.example.app"), b"org.other.pkg", b""));
    assert!(matches!(act, Action::Idle));
    assert_eq!(p.current_phase(), Phase::NoMatch);
}

#[test]
fn exact_policy_rejects_variant_process() {
    let mut p = Pipeline::with_policy(MatchPolicy::Exact);
    let act = p.step(pre_event(Some(b"com.example.app"), b"com.example.app:remote", b""));
    assert!(matches!(act, Action::Idle));
    assert_eq!(p.current_phase(), Phase::NoMatch);

    let mut q = Pipeline::with_policy(MatchPolicy::Exact);
    let act = q.step(pre_event(Some(b"com.example.app"), b"com.example.app", b""));
    assert!(matches!(act, Action::ReadPayload));
}

#[test]
fn fallback_identity_from_data_dir() {
    // no runtime name: the package inferred from the data dir decides
    let mut p = Pipeline::new();
    let act = p.step(pre_event(
        Some(b"com.example.app"),
        b"",
        b"/data/user/0/com.example.app/cache",
    ));
    assert!(matches!(act, Action::ReadPayload));
}

#[test]
fn missing_payload_aborts_before_buffered() {
    let mut p = Pipeline::new();
    p.step(pre_event(Some(b"com.example.app"), b"com.example.app", b""));
    let act = p.step(Event::PayloadRead { bytes: None });
    assert!(matches!(act, Action::Idle));
    assert_eq!(p.current_phase(), Phase::Failed(FailReason::PayloadUnavailable));
    // staging is never attempted afterwards
    let act = p.step(Event::PostSpecialize { data_dir: b"/data/user/0/com.example.app".to_vec() });
    assert!(matches!(act, Action::Idle));
    assert_eq!(p.current_phase(), Phase::Failed(FailReason::PayloadUnavailable));
    assert!(!p.artifact_present());
}

#[test]
fn empty_payload_counts_as_unavailable() {
    let mut p = Pipeline::new();
    p.step(pre_event(Some(b"com.example.app"), b"com.example.app", b""));
    let act = p.step(Event::PayloadRead { bytes: Some(Vec::new()) });
    assert!(matches!(act, Action::Idle));
    assert_eq!(p.current_phase(), Phase::Failed(FailReason::PayloadUnavailable));
}

#[test]
fn empty_data_dir_fails_staging() {
    let mut p = Pipeline::new();
    p.step(pre_event(Some(b"com.example.app"), b"com.example.app", b""));
    p.step(Event::PayloadRead { bytes: Some(vec![1]) });
    let act = p.step(Event::PostSpecialize { data_dir: Vec::new() });
    assert!(matches!(act, Action::Idle));
    assert_eq!(p.current_phase(), Phase::Failed(FailReason::EmptyDataDir));
}

#[test]
fn write_failure_aborts_without_load() {
    let mut p = Pipeline::new();
    p.step(pre_event(Some(b"com.example.app"), b"com.example.app", b""));
    p.step(Event::PayloadRead { bytes: Some(vec![1, 2]) });
    p.step(Event::PostSpecialize { data_dir: b"/data/user/0/com.example.app".to_vec() });
    let act = p.step(Event::StageWritten { ok: false });
    assert!(matches!(act, Action::Idle));
    assert_eq!(p.current_phase(), Phase::Failed(FailReason::WriteError));
    assert!(!p.artifact_present());
}

#[test]
fn failed_load_still_removes_artifact() {
    // staging write succeeds, load fails: the artifact is still deleted and
    // the run ends in Failed(LoadError) without disturbing the host
    let mut p = Pipeline::new();
    p.step(pre_event(Some(b"com.example.app"), b"com.example.app", b""));
    p.step(Event::PayloadRead { bytes: Some(vec![1, 2]) });
    p.step(Event::PostSpecialize { data_dir: b"/data/user/0/com.example.app".to_vec() });
    p.step(Event::StageWritten { ok: true });
    let act = p.step(Event::LoadFinished { ok: false });
    assert!(matches!(act, Action::RemoveArtifact { .. }));
    let act = p.step(Event::Unlinked { ok: true });
    assert!(matches!(act, Action::Idle));
    assert_eq!(p.current_phase(), Phase::Failed(FailReason::LoadError));
    assert!(!p.artifact_present());
}

#[test]
fn cleanup_failure_is_non_fatal() {
    let mut p = Pipeline::new();
    p.step(pre_event(Some(b"com.example.app"), b"com.example.app", b""));
    p.step(Event::PayloadRead { bytes: Some(vec![1, 2]) });
    p.step(Event::PostSpecialize { data_dir: b"/data/user/0/com.example.app".to_vec() });
    p.step(Event::StageWritten { ok: true });
    p.step(Event::LoadFinished { ok: true });
    let act = p.step(Event::Unlinked { ok: false });
    assert!(matches!(act, Action::Idle));
    assert_eq!(p.current_phase(), Phase::Loaded);
    assert!(p.had_cleanup_failure());
    assert!(p.artifact_present());
}

#[test]
fn reentered_privileged_hook_is_write_once() {
    // buffering happens at most once per process even if the privileged
    // hook is reentered with a configuration that would match
    let mut p = Pipeline::new();
    p.step(pre_event(Some(b"org.other.pkg"), b"com.example.app", b""));
    assert_eq!(p.current_phase(), Phase::NoMatch);
    assert_eq!(p.match_result(), Some(false));

    let act = p.step(pre_event(Some(b"com.example.app"), b"com.example.app", b""));
    assert!(matches!(act, Action::Idle));
    assert_eq!(p.current_phase(), Phase::NoMatch);
    assert_eq!(p.match_result(), Some(false));
}

#[test]
fn payload_read_before_match_is_ignored() {
    let mut p = Pipeline::new();
    let act = p.step(Event::PayloadRead { bytes: Some(vec![1]) });
    assert!(matches!(act, Action::Idle));
    assert_eq!(p.current_phase(), Phase::Unloaded);
}

#[test]
fn config_is_taken_from_first_line_only() {
    let mut p = Pipeline::new();
    let act = p.step(pre_event(
        Some(b"  com.example.app  \ncom.other.pkg\n"),
        b"com.example.app",
        b"",
    ));
    assert!(matches!(act, Action::ReadPayload));
}
