use std::io::{Cursor, Read, Write};

use torchbear::child::{Lifecycle, LuaChild, SpawnedProcess};
use torchbear::command::{EnvChange, LuaCommand};
use torchbear::error::ProcessError;
use torchbear::policy::{StdioPolicy, StdioSelection};
use torchbear::status::{LuaExitStatus, LuaOutput};

type TestChild = LuaChild<Vec<u8>, Cursor<Vec<u8>>, Cursor<Vec<u8>>>;

fn spawned(
    pid: u32,
    stdin: Option<Vec<u8>>,
    stdout: &[u8],
    stderr: &[u8],
) -> SpawnedProcess<Vec<u8>, Cursor<Vec<u8>>, Cursor<Vec<u8>>> {
    SpawnedProcess {
        pid,
        stdin,
        stdout: Some(Cursor::new(stdout.to_vec())),
        stderr: Some(Cursor::new(stderr.to_vec())),
    }
}

fn running(pid: u32) -> TestChild {
    let stdio = StdioSelection::all_piped();
    LuaChild::from_spawn(stdio, Ok(spawned(pid, Some(Vec::new()), b"", b""))).unwrap()
}

fn request(pairs: &[(&str, &str)]) -> Vec<(String, String)> {
    pairs.iter().map(|(k, v)| (k.to_string(), v.to_string())).collect()
}

#[test]
fn piped_stdout_reads_back_hello() {
    let stdio = StdioSelection::all_piped();
    let child: TestChild =
        LuaChild::from_spawn(stdio, Ok(spawned(11, Some(Vec::new()), b"hello\n", b""))).unwrap();
    let out = child.stdio().stdout().unwrap();
    let mut text = String::new();
    out.lock().unwrap().read_to_string(&mut text).unwrap();
    assert_eq!(text, "hello\n");
}

#[test]
fn failed_spawn_gives_no_handle() {
    let r: Result<TestChild, ProcessError> = LuaChild::from_spawn(
        StdioSelection::all_piped(),
        Err("No such file or directory (os error 2)".to_string()),
    );
    match r {
        Err(ProcessError::SpawnFailed { detail }) => {
            assert_eq!(detail, "No such file or directory (os error 2)")
        }
        _ => panic!("expected SpawnFailed"),
    }
}

#[test]
fn exit_code_zero_is_success() {
    let mut child = running(12);
    assert_eq!(child.known_status(), None);
    let status = child.record_exit(LuaExitStatus::from_code(Some(0)));
    assert!(status.success());
    assert_eq!(status.code(), Some(0));
}

#[test]
fn exit_code_two_is_failure() {
    let mut child = running(13);
    let status = child.record_exit(LuaExitStatus::from_code(Some(2)));
    assert!(!status.success());
    assert_eq!(status.code(), Some(2));
}

#[test]
fn signalled_exit_has_no_code() {
    let status = LuaExitStatus::from_code(None);
    assert!(!status.success());
    assert_eq!(status.code(), None);
}

#[test]
fn second_kill_fails() {
    let mut child = running(14);
    assert!(child.check_kill().is_ok());
    assert_eq!(child.record_kill(Ok(())), Ok(()));
    assert_eq!(child.state(), Lifecycle::Killed);
    assert!(matches!(child.check_kill(), Err(ProcessError::KillFailed { .. })));
    assert!(matches!(child.record_kill(Ok(())), Err(ProcessError::KillFailed { .. })));
}

#[test]
fn refused_kill_keeps_running() {
    let mut child = running(15);
    let r = child.record_kill(Err("Operation not permitted".to_string()));
    assert_eq!(
        r,
        Err(ProcessError::KillFailed { detail: "Operation not permitted".to_string() })
    );
    assert_eq!(child.state(), Lifecycle::Running);
}

#[test]
fn kill_after_wait_fails() {
    let mut child = running(16);
    child.record_exit(LuaExitStatus::from_code(Some(0)));
    assert!(matches!(child.check_kill(), Err(ProcessError::KillFailed { .. })));
}

#[test]
fn wait_twice_returns_first_status() {
    let mut child = running(17);
    let first = child.record_exit(LuaExitStatus::from_code(Some(3)));
    assert_eq!(child.known_status(), Some(first));
    let second = child.record_exit(LuaExitStatus::from_code(Some(0)));
    assert_eq!(second, first);
    assert_eq!(second.code(), Some(3));
}

#[test]
fn null_stdin_is_unavailable() {
    let req = request(&[("stdin", "null")]);
    let stdio = StdioSelection::requested(Some(&req));
    assert_eq!(stdio.stdin, StdioPolicy::Null);
    let child: TestChild = LuaChild::from_spawn(stdio, Ok(spawned(18, None, b"", b""))).unwrap();
    assert!(matches!(child.stdio().stdin(), Err(ProcessError::StreamUnavailable)));
    assert!(child.stdio().stdout().is_ok());
}

#[test]
fn missing_pipe_is_internal_error() {
    let stdio = StdioSelection::all_piped();
    let r: Result<TestChild, ProcessError> =
        LuaChild::from_spawn(stdio, Ok(spawned(19, None, b"", b"")));
    assert!(matches!(r, Err(ProcessError::InternalError)));
}

#[test]
fn unpiped_stream_is_dropped_when_handed_back() {
    let stdio = StdioSelection {
        stdin: StdioPolicy::Piped,
        stdout: StdioPolicy::Inherit,
        stderr: StdioPolicy::Null,
    };
    let child: TestChild =
        LuaChild::from_spawn(stdio, Ok(spawned(20, Some(Vec::new()), b"x", b"y"))).unwrap();
    assert!(matches!(child.stdio().stdout(), Err(ProcessError::StreamUnavailable)));
    assert!(matches!(child.stdio().stderr(), Err(ProcessError::StreamUnavailable)));
    assert_eq!(child.id(), 20);
}

#[test]
fn shared_bundle_reaches_same_pipe() {
    let child = running(21);
    let a = child.stdio();
    let b = a.share();
    a.stdin().unwrap().lock().unwrap().write_all(b"ab").unwrap();
    b.stdin().unwrap().lock().unwrap().write_all(b"cd").unwrap();
    let all = child.stdio().stdin().unwrap().lock().unwrap().clone();
    assert_eq!(all, b"abcd".to_vec());
}

#[test]
fn sequential_readers_split_without_loss() {
    let stdio = StdioSelection::all_piped();
    let child: TestChild =
        LuaChild::from_spawn(stdio, Ok(spawned(22, Some(Vec::new()), b"0123456789", b""))).unwrap();
    let first = child.stdio();
    let second = child.stdio();
    let mut x = [0u8; 4];
    first.stdout().unwrap().lock().unwrap().read_exact(&mut x).unwrap();
    let mut rest = Vec::new();
    second.stdout().unwrap().lock().unwrap().read_to_end(&mut rest).unwrap();
    assert_eq!(&x, b"0123");
    assert_eq!(rest, b"456789".to_vec());
}

#[test]
fn non_utf8_stdout_is_invalid_encoding() {
    let out = LuaOutput::new(vec![0xff, 0xfe, 0x80], b"warn".to_vec(), LuaExitStatus::from_code(Some(0)));
    assert_eq!(out.stdout(), Err(ProcessError::InvalidEncoding));
    assert!(out.status().success());
    assert_eq!(out.status().code(), Some(0));
    assert_eq!(out.stderr(), Ok("warn".to_string()));
}

#[test]
fn utf8_output_decodes() {
    let out = LuaOutput::new("héllo\n".as_bytes().to_vec(), Vec::new(), LuaExitStatus::from_code(Some(1)));
    assert_eq!(out.stdout(), Ok("héllo\n".to_string()));
    assert_eq!(out.stderr(), Ok(String::new()));
    assert!(!out.status().success());
}

#[test]
fn policy_names() {
    let inherit = "inherit".to_string();
    let null = "null".to_string();
    let piped = "piped".to_string();
    let typo = "nul".to_string();
    assert_eq!(StdioPolicy::from_name(Some(&inherit)), StdioPolicy::Inherit);
    assert_eq!(StdioPolicy::from_name(Some(&null)), StdioPolicy::Null);
    assert_eq!(StdioPolicy::from_name(Some(&piped)), StdioPolicy::Piped);
    assert_eq!(StdioPolicy::from_name(Some(&typo)), StdioPolicy::Piped);
    assert_eq!(StdioPolicy::from_name(None), StdioPolicy::Piped);
}

#[test]
fn request_selects_each_stream() {
    let req = request(&[("stdout", "inherit"), ("stderr", "null"), ("stdin", "piped")]);
    let s = StdioSelection::requested(Some(&req));
    assert_eq!(s.stdin, StdioPolicy::Piped);
    assert_eq!(s.stdout, StdioPolicy::Inherit);
    assert_eq!(s.stderr, StdioPolicy::Null);
    let empty = request(&[]);
    assert_eq!(StdioSelection::requested(Some(&empty)), StdioSelection::all_piped());
    assert_eq!(StdioSelection::requested(None), StdioSelection::all_piped());
}

#[test]
fn later_request_entry_wins() {
    let req = request(&[("stdin", "null"), ("stdin", "inherit")]);
    assert_eq!(StdioSelection::requested(Some(&req)).stdin, StdioPolicy::Inherit);
}

#[test]
fn builder_records_in_order() {
    let mut c = LuaCommand::new("ls".to_string(), Some(vec!["-l".to_string()]));
    c.arg("-a".to_string());
    c.args(vec!["x".to_string(), "y".to_string()]);
    c.env("A".to_string(), "1".to_string());
    c.envs(vec![("B".to_string(), "2".to_string())]);
    c.env_clear(Some("A".to_string()));
    c.env_clear(None);
    c.directory("/tmp".to_string());
    assert_eq!(c.program, "ls");
    assert_eq!(c.args, vec!["-l", "-a", "x", "y"]);
    assert_eq!(
        c.env_changes,
        vec![
            EnvChange::SetVar("A".to_string(), "1".to_string()),
            EnvChange::SetVar("B".to_string(), "2".to_string()),
            EnvChange::RemoveVar("A".to_string()),
            EnvChange::ClearAll,
        ]
    );
    assert_eq!(c.directory, Some("/tmp".to_string()));
}

#[test]
fn new_without_args_is_empty() {
    let c = LuaCommand::new("true".to_string(), None);
    assert!(c.args.is_empty());
    assert!(c.env_changes.is_empty());
    assert_eq!(c.directory, None);
}

#[test]
fn spawn_and_exec_plans() {
    let c = LuaCommand::new("cat".to_string(), None);
    let req = request(&[("stdin", "null")]);
    let plan = c.clone().into_spawn(Some(&req));
    assert_eq!(plan.command, c);
    assert_eq!(plan.stdio.stdin, StdioPolicy::Null);
    assert_eq!(plan.stdio.stdout, StdioPolicy::Piped);
    let exec = c.clone().into_exec();
    assert_eq!(exec.stdio, StdioSelection::all_piped());
    assert_eq!(c.into_spawn(None).stdio, StdioSelection::all_piped());
}

#[test]
fn run_with_non_utf8_output_still_succeeds() {
    let out = LuaOutput::from_run(Ok((vec![0xc3, 0x28], Vec::new(), Some(2)))).unwrap();
    assert_eq!(out.stdout(), Err(ProcessError::InvalidEncoding));
    assert!(!out.status().success());
    assert_eq!(out.status().code(), Some(2));
    assert_eq!(out.stdout, vec![0xc3, 0x28]);
}

#[test]
fn refused_run_is_spawn_failed() {
    let r = LuaOutput::from_run(Err("Permission denied (os error 13)".to_string()));
    assert_eq!(
        r,
        Err(ProcessError::SpawnFailed { detail: "Permission denied (os error 13)".to_string() })
    );
}

