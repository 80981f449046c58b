use miax::unix::parse_i32;
use miax::update::launch_plan;
use miax::unix::{is_file_ready_event, WatchEventKind};
use std::cell::RefCell;

use miax::resource::{BackupEntry, UnixResourceManager};
use miax::runtime::{FeatType, MiaxSignal, ProcessError, ProcessInfo, ProcessManager, RuntimeError, RuntimeInfo, State};
use miax::storage::{MmapHandler, RUNTIME_INFO_SIZE};
use miax::unix::{convention_meta_uds_path, fd_marker, get_fd_from_systemd, GetFdError, PathError};
use miax::update::{
    extract_pending_update_actions, get_target_state, monitor_agent_version_step, state_after_update, update_preflight,
    PollAction, ResourceError, UpdateError,
};
use miax::version::Version;

struct Recorder {
    killed: RefCell<Vec<u32>>,
    failing: Vec<u32>,
}

impl ProcessManager for Recorder {
    fn is_running(&self, _process_id: u32) -> bool {
        true
    }
    fn spawn_process(&self, _cmd: &str, _args: &[&str]) -> Result<u32, ProcessError> {
        Ok(42)
    }
    fn kill_process(&self, process_id: u32, _signal: MiaxSignal) -> Result<(), ProcessError> {
        if self.failing.contains(&process_id) {
            return Err(ProcessError { message: "denied".to_string() });
        }
        self.killed.borrow_mut().push(process_id);
        Ok(())
    }
}

fn recorder() -> Recorder {
    Recorder { killed: RefCell::new(vec![]), failing: vec![] }
}

fn v(major: u64, minor: u64, patch: u64) -> Version {
    Version::release(major, minor, patch)
}

fn info(pid: u32, feat_type: FeatType) -> ProcessInfo {
    ProcessInfo::new(pid, feat_type, "2024-01-01T00:00:00+09:00".to_string(), v(1, 0, 0))
}

fn pids(r: &RuntimeInfo) -> Vec<u32> {
    r.process_infos.iter().map(|p| p.process_id).collect()
}

#[test]
fn add_then_remove_restores_table() {
    let mut r = RuntimeInfo::initial("/usr/bin/miax-agent".to_string());
    r.add_process_info(info(1, FeatType::Controller)).unwrap();
    r.add_process_info(info(2, FeatType::Agent)).unwrap();
    let before = r.process_infos.clone();
    r.add_process_info(info(3, FeatType::Agent)).unwrap();
    r.remove_process_info(3).unwrap();
    assert_eq!(r.process_infos, before);
}

#[test]
fn remove_shifts_later_slots_left() {
    let mut r = RuntimeInfo::initial("x".to_string());
    for pid in [10, 11, 12] {
        r.add_process_info(info(pid, FeatType::Agent)).unwrap();
    }
    r.remove_process_info(10).unwrap();
    assert_eq!(pids(&r), vec![11, 12]);
    assert_eq!(r.remove_process_info(99), Err(RuntimeError::ProcessNotFound));
}

#[test]
fn full_table_reports_storage_full() {
    let mut r = RuntimeInfo::initial("x".to_string());
    for pid in 1..=4 {
        r.add_process_info(info(pid, FeatType::Agent)).unwrap();
    }
    assert_eq!(r.add_process_info(info(5, FeatType::Agent)), Err(RuntimeError::StorageFull));
    assert_eq!(pids(&r), vec![1, 2, 3, 4]);
}

#[test]
fn kill_other_agents_with_only_kept_agent_changes_nothing() {
    let mut r = RuntimeInfo::initial("x".to_string());
    r.add_process_info(info(7, FeatType::Agent)).unwrap();
    let pm = recorder();
    r.kill_other_agents(&pm, 7).unwrap();
    assert_eq!(pids(&r), vec![7]);
    assert!(pm.killed.borrow().is_empty());
}

#[test]
fn kill_other_agents_keeps_controller_and_target() {
    let mut r = RuntimeInfo::initial("x".to_string());
    r.add_process_info(info(1, FeatType::Controller)).unwrap();
    r.add_process_info(info(2, FeatType::Agent)).unwrap();
    r.add_process_info(info(3, FeatType::Agent)).unwrap();
    let pm = recorder();
    r.kill_other_agents(&pm, 3).unwrap();
    assert_eq!(pids(&r), vec![1, 3]);
    assert_eq!(*pm.killed.borrow(), vec![2]);
}

#[test]
fn cleanup_all_empties_table_and_reports_failures() {
    let mut r = RuntimeInfo::initial("x".to_string());
    r.state = State::Update;
    r.add_process_info(info(1, FeatType::Agent)).unwrap();
    r.add_process_info(info(2, FeatType::Agent)).unwrap();
    let pm = recorder();
    assert_eq!(r.cleanup_all(&pm), Ok(()));
    assert!(r.process_infos.is_empty());
    assert_eq!(r.state, State::Idle);
    let mut r2 = RuntimeInfo::initial("x".to_string());
    r2.add_process_info(info(5, FeatType::Agent)).unwrap();
    let failing = Recorder { killed: RefCell::new(vec![]), failing: vec![5] };
    assert!(matches!(r2.cleanup_all(&failing), Err(RuntimeError::Kills(e)) if e.len() == 1));
    assert!(r2.process_infos.is_empty());
}

#[test]
fn blank_memory_reads_as_idle() {
    let mem = vec![0u8; RUNTIME_INFO_SIZE];
    let r = MmapHandler::initial_if_blank(&mem, "/bin/agent".to_string()).unwrap();
    assert_eq!(r.state, State::Idle);
    assert!(r.process_infos.is_empty());
    assert_eq!(r.exec_path, "/bin/agent");
    let mut used = mem.clone();
    used[0] = b'{';
    assert!(MmapHandler::initial_if_blank(&used, "/bin/agent".to_string()).is_none());
}

#[test]
fn frame_terminates_and_pads() {
    let h = MmapHandler::new("miax_runtime_info".to_string());
    let framed = h.frame(b"{\"a\":1}").unwrap();
    assert_eq!(framed.len(), 10000);
    assert_eq!(&framed[..7], b"{\"a\":1}");
    assert!(framed[7..].iter().all(|b| *b == 0));
    assert_eq!(MmapHandler::stored_len(&framed), 7);
    assert!(h.frame(b"a\0b").is_none());
    assert!(h.frame(&vec![b'x'; 10000]).is_none());
}

#[test]
fn pending_actions_are_between_agent_and_controller() {
    let versions = vec!["1.0.0", "1.1.0", "1.2.0", "2.0.0", "bad", "1.1.5"].into_iter().map(String::from).collect();
    let r = extract_pending_update_actions(&versions, &v(1, 2, 0), &v(1, 0, 0));
    assert_eq!(r, vec![1, 2, 5]);
}

#[test]
fn version_polling_stops_at_180_seconds() {
    let expected = v(2, 0, 0);
    assert_eq!(monitor_agent_version_step(0, &None, &expected), PollAction::Poll);
    assert_eq!(monitor_agent_version_step(177, &Some(v(1, 0, 0)), &expected), PollAction::Poll);
    assert_eq!(monitor_agent_version_step(179, &Some(v(1, 0, 0)), &expected), PollAction::Poll);
    assert_eq!(monitor_agent_version_step(180, &Some(v(1, 0, 0)), &expected), PollAction::TimedOut);
    assert_eq!(monitor_agent_version_step(181, &None, &expected), PollAction::TimedOut);
    assert_eq!(monitor_agent_version_step(200, &Some(v(2, 0, 0)), &expected), PollAction::Finish);
}

#[test]
fn failures_choose_next_state() {
    assert_eq!(get_target_state(&UpdateError::AgentNotRunning), None);
    assert_eq!(get_target_state(&UpdateError::ResourceError(ResourceError::RemoveFailed("x".into()))), Some(State::Idle));
    assert_eq!(get_target_state(&UpdateError::BundleNotFound), Some(State::Rollback));
    assert!(!UpdateError::AgentNotRunning.required_restore_state());
    assert!(!UpdateError::ResourceError(ResourceError::RemoveFailed("x".into())).requires_rollback());
    assert_eq!(state_after_update(&Ok(())), Some(State::Idle));
}

#[test]
fn preflight_needs_version_and_agent() {
    let mut r = RuntimeInfo::initial("x".to_string());
    assert_eq!(update_preflight("nope", &r), Err(UpdateError::InvalidVersionFormat));
    assert_eq!(update_preflight("1.2.3", &r), Err(UpdateError::AgentNotRunning));
    r.add_process_info(info(1, FeatType::Controller)).unwrap();
    r.add_process_info(ProcessInfo::new(2, FeatType::Agent, "t".into(), v(1, 1, 0))).unwrap();
    assert_eq!(update_preflight("1.2.3", &r), Ok((v(1, 2, 3), v(1, 1, 0))));
}

#[test]
fn version_order_and_parse() {
    assert_eq!(Version::parse("10.2.33"), Some(v(10, 2, 33)));
    assert_eq!(Version::parse("1.2"), None);
    assert!(v(1, 9, 9).lt(&v(2, 0, 0)));
    assert!(v(1, 2, 3).le(&v(1, 2, 3)));
    assert!(!v(1, 2, 4).le(&v(1, 2, 3)));
}

#[test]
fn meta_socket_path_sits_beside_socket() {
    assert_eq!(convention_meta_uds_path("/run/miax/agent.sock").unwrap(), "/run/miax/meta_agent.sock");
    assert_eq!(convention_meta_uds_path("/agent.sock").unwrap(), "/meta_agent.sock");
    assert_eq!(convention_meta_uds_path("agent.sock").unwrap(), "meta_agent.sock");
    assert_eq!(convention_meta_uds_path("/run/").unwrap(), "/meta_run");
    assert_eq!(convention_meta_uds_path("/run/.."), Err(PathError::NotFound));
}

#[test]
fn systemd_fd_checks_environment() {
    assert_eq!(get_fd_from_systemd(Some("1"), Some("100"), 100), Ok(3));
    assert_eq!(get_fd_from_systemd(None, Some("100"), 100), Err(GetFdError::ListenFdsError));
    assert_eq!(get_fd_from_systemd(Some("x"), Some("100"), 100), Err(GetFdError::ListenFdsError));
    assert_eq!(get_fd_from_systemd(Some("1"), None, 100), Err(GetFdError::ListenPidError));
    assert_eq!(
        get_fd_from_systemd(Some("1"), Some("101"), 100),
        Err(GetFdError::ListenPidMismatch { listen_pid: 101, current_pid: 100 })
    );
    assert_eq!(get_fd_from_systemd(Some("0"), Some("100"), 100), Err(GetFdError::NoFileDescriptors));
    assert_eq!(fd_marker(Some(3)), 0);
    assert_eq!(fd_marker(None), 1);
}

#[test]
fn latest_backup_is_newest_gz_file() {
    let e = |n: &str, f: bool, m: u64| BackupEntry { file_name: n.to_string(), is_file: f, modified: m };
    let entries = vec![
        e("nodex_backup_1.tar.gz", true, 10),
        e("notes.txt", true, 99),
        e("dir.gz", false, 50),
        e("nodex_backup_2.tar.gz", true, 20),
        e(".gz", true, 70),
        e("nodex_backup_3.tar.gz", true, 20),
    ];
    assert_eq!(UnixResourceManager::get_latest_backup(&entries), Some(5));
    assert_eq!(UnixResourceManager::get_latest_backup(&vec![e("a.txt", true, 1)]), None);
}

#[test]
fn downloads_are_allow_listed() {
    assert!(UnixResourceManager::is_allowed_download_url(
        "https://github.com/nodecross/nodex/releases/download/v1.0.0/miax.zip"
    ));
    assert!(!UnixResourceManager::is_allowed_download_url("https://example.com/releases/download/x.zip"));
    assert!(UnixResourceManager::is_agent_binary("miax-agent"));
    assert!(!UnixResourceManager::is_agent_binary("miax-agent.old"));
}

#[test]
fn first_launch_clears_sockets_and_hands_over() {
    let p = launch_plan(true, false, false, true, true);
    assert!(p.remove_socket && p.remove_meta_socket && p.hand_over_listener && !p.take_systemd_fd);
    let activated = launch_plan(true, true, true, true, false);
    assert!(!activated.remove_socket && !activated.remove_meta_socket && activated.take_systemd_fd);
    let later = launch_plan(false, true, true, true, true);
    assert!(!later.remove_socket && !later.remove_meta_socket && !later.take_systemd_fd && !later.hand_over_listener);
}

#[test]
fn watcher_events_that_mark_readiness() {
    assert!(is_file_ready_event(WatchEventKind::CreateFile, true));
    assert!(is_file_ready_event(WatchEventKind::ModifyOwnership, true));
    assert!(is_file_ready_event(WatchEventKind::CloseWrite, true));
    assert!(!is_file_ready_event(WatchEventKind::Other, true));
    assert!(!is_file_ready_event(WatchEventKind::CreateFile, false));
}

#[test]
fn backup_names_and_archive_paths() {
    assert_eq!(UnixResourceManager::backup_file_name(1700000000), "nodex_backup_1700000000.tar.gz");
    assert_eq!(UnixResourceManager::backup_file_name(0), "nodex_backup_0.tar.gz");
    assert_eq!(UnixResourceManager::backup_file_name(u64::MAX), format!("nodex_backup_{}.tar.gz", u64::MAX));
    assert_eq!(UnixResourceManager::archive_path("/home/u/.miax"), "home/u/.miax");
    assert_eq!(UnixResourceManager::archive_path("//x"), "x");
    assert_eq!(UnixResourceManager::archive_path("rel/p"), "rel/p");
    assert_eq!(miax::resource::decimal_text(907), "907");
}

#[test]
fn only_one_controller_is_tracked() {
    let mut r = RuntimeInfo::initial("x".to_string());
    r.add_process_info(info(1, FeatType::Agent)).unwrap();
    assert_eq!(r.check_controller_slot(), Ok(()));
    r.add_process_info(info(2, FeatType::Controller)).unwrap();
    assert_eq!(r.check_controller_slot(), Err(RuntimeError::AlreadyExistController));
}

#[test]
fn meta_socket_path_ignores_trailing_slashes() {
    assert_eq!(convention_meta_uds_path("a/").unwrap(), "meta_a");
    assert_eq!(convention_meta_uds_path("/run/miax//").unwrap(), "/run/meta_miax");
    assert_eq!(convention_meta_uds_path("/"), Err(PathError::NotFound));
    assert_eq!(convention_meta_uds_path(""), Err(PathError::NotFound));
}

#[test]
fn failed_signal_leaves_table_unchanged() {
    let mut r = RuntimeInfo::initial("x".to_string());
    r.add_process_info(info(1, FeatType::Agent)).unwrap();
    r.add_process_info(info(2, FeatType::Agent)).unwrap();
    r.add_process_info(info(3, FeatType::Agent)).unwrap();
    assert_eq!(r.other_agent_pids(3), vec![1, 2]);
    assert_eq!(r.tracked_pids(), vec![1, 2, 3]);
    let failing = Recorder { killed: RefCell::new(vec![]), failing: vec![2] };
    assert!(matches!(r.kill_other_agents(&failing, 3), Err(RuntimeError::Kill(_))));
    assert_eq!(pids(&r), vec![1, 2, 3]);
}

#[test]
fn second_controller_is_refused() {
    let mut r = RuntimeInfo::initial("x".to_string());
    r.add_process_info(info(1, FeatType::Controller)).unwrap();
    assert_eq!(r.add_process_info(info(2, FeatType::Controller)), Err(RuntimeError::AlreadyExistController));
    r.add_process_info(info(3, FeatType::Agent)).unwrap();
    assert_eq!(pids(&r), vec![1, 3]);
}

#[test]
fn i32_parsing_matches_rust() {
    for t in ["0", "42", "+7", "-7", "2147483647", "-2147483648", "2147483648", "-2147483649", "", "-", "+", "1a", " 1", "007", "99999999999"] {
        assert_eq!(parse_i32(t), t.parse::<i32>().ok(), "{}", t);
    }
}

#[test]
fn meta_socket_path_skips_trailing_dot_parts() {
    assert_eq!(convention_meta_uds_path("a/.").unwrap(), "meta_a");
    assert_eq!(convention_meta_uds_path("/run/miax/./").unwrap(), "/run/meta_miax");
    assert_eq!(convention_meta_uds_path("./a").unwrap(), "./meta_a");
    assert_eq!(convention_meta_uds_path("."), Err(PathError::NotFound));
    assert_eq!(convention_meta_uds_path("/."), Err(PathError::NotFound));
    assert_eq!(convention_meta_uds_path("a/.."), Err(PathError::NotFound));
}

#[test]
fn pre_releases_rank_below_their_release() {
    let rc = Version::parse("1.2.0-rc.1").unwrap();
    assert_eq!(rc.pre, "rc.1");
    assert!(rc.lt(&v(1, 2, 0)));
    assert!(!v(1, 2, 0).le(&rc));
    assert!(Version::parse("1.2.0-alpha").unwrap().lt(&Version::parse("1.2.0-alpha.1").unwrap()));
    assert!(Version::parse("1.2.0-beta.2").unwrap().lt(&Version::parse("1.2.0-beta.11").unwrap()));
    assert!(!rc.same(&v(1, 2, 0)));
    let versions = vec!["1.2.0-rc.1", "1.2.0", "1.3.0-alpha"].into_iter().map(String::from).collect();
    assert_eq!(extract_pending_update_actions(&versions, &v(1, 2, 0), &v(1, 1, 0)), vec![0, 1]);
    let expected = v(1, 2, 0);
    assert_eq!(monitor_agent_version_step(10, &Some(rc.clone()), &expected), PollAction::Poll);
}
