use nsbox::action::{Action, MountAction};
use nsbox::args::parse_args;
use nsbox::executor::Executor;
use nsbox::filesystem::Filesystem;
use nsbox::request::{Outcome, Request};

fn b(text: &str) -> Vec<u8> {
    text.as_bytes().to_vec()
}

fn mkdir(path: &str) -> Request {
    Request::Mkdir {
        path: b(path),
        mode: 0o755,
    }
}

fn chdir(path: &str) -> Request {
    Request::Chdir { path: b(path) }
}

/// Runs `plan`, answering the n-th request with the n-th of `outcomes`, and
/// returns the requests that were handed out.
fn drive(plan: Vec<Request>, outcomes: &[Outcome]) -> (Vec<Request>, Executor) {
    let mut executor = Executor::new(plan);
    let mut seen = Vec::new();
    for outcome in outcomes {
        let copy = match executor.pending() {
            None => break,
            Some(Request::Mkdir { path, mode }) => Request::Mkdir {
                path: path.clone(),
                mode: *mode,
            },
            Some(Request::Chdir { path }) => Request::Chdir { path: path.clone() },
            Some(Request::Announce { action }) => Request::Announce { action: *action },
            Some(_) => Request::Announce { action: usize::MAX },
        };
        seen.push(copy);
        executor.report(*outcome);
    }
    (seen, executor)
}

#[test]
fn requests_come_in_the_order_of_the_plan() {
    let plan = vec![mkdir("/a"), chdir("/a"), mkdir("/b")];
    let (seen, executor) = drive(
        plan,
        &[Outcome::Done, Outcome::Done, Outcome::Done, Outcome::Done],
    );
    assert_eq!(seen, vec![mkdir("/a"), chdir("/a"), mkdir("/b")]);
    assert!(executor.is_finished());
    assert!(!executor.is_aborted());
    assert_eq!(executor.pending(), None);
}

#[test]
fn nothing_is_attempted_after_the_first_failure() {
    let plan = vec![mkdir("/a"), chdir("/missing"), mkdir("/sentinel")];
    let (seen, executor) = drive(
        plan,
        &[Outcome::Done, Outcome::Failed, Outcome::Done, Outcome::Done],
    );
    assert_eq!(seen, vec![mkdir("/a"), chdir("/missing")]);
    assert!(executor.is_aborted());
    assert!(!executor.is_finished());
    assert_eq!(executor.pending(), None);
}

#[test]
fn an_existing_directory_is_no_failure() {
    let plan = vec![mkdir("/a"), mkdir("/b")];
    let (seen, executor) = drive(plan, &[Outcome::AlreadyExists, Outcome::Done]);
    assert_eq!(seen, vec![mkdir("/a"), mkdir("/b")]);
    assert!(executor.is_finished());
}

#[test]
fn any_other_failure_of_mkdir_ends_the_run() {
    let plan = vec![mkdir("/no/parent"), mkdir("/b")];
    let (seen, executor) = drive(plan, &[Outcome::Failed, Outcome::Done]);
    assert_eq!(seen, vec![mkdir("/no/parent")]);
    assert!(executor.is_aborted());
}

#[test]
fn already_exists_is_a_failure_of_anything_but_mkdir() {
    let plan = vec![chdir("/a"), mkdir("/b")];
    let (seen, executor) = drive(plan, &[Outcome::AlreadyExists, Outcome::Done]);
    assert_eq!(seen, vec![chdir("/a")]);
    assert!(executor.is_aborted());
}

#[test]
fn tolerance_is_decided_request_by_request() {
    assert!(mkdir("/a").tolerates(Outcome::Done));
    assert!(mkdir("/a").tolerates(Outcome::AlreadyExists));
    assert!(!mkdir("/a").tolerates(Outcome::Failed));
    assert!(chdir("/a").tolerates(Outcome::Done));
    assert!(!chdir("/a").tolerates(Outcome::AlreadyExists));
    assert!(!chdir("/a").tolerates(Outcome::Failed));
    let write = Request::WriteFile {
        path: b("/proc/self/setgroups"),
        contents: b("deny"),
    };
    assert!(!write.tolerates(Outcome::AlreadyExists));
}

#[test]
fn an_empty_plan_is_finished_at_once() {
    let mut executor = Executor::new(vec![]);
    assert!(executor.is_finished());
    assert_eq!(executor.pending(), None);
    executor.report(Outcome::Failed);
    assert!(executor.is_finished());
    assert!(!executor.is_aborted());
}

#[test]
fn reports_after_the_end_change_nothing() {
    let mut executor = Executor::new(vec![mkdir("/a")]);
    executor.report(Outcome::Failed);
    assert!(executor.is_aborted());
    executor.report(Outcome::Done);
    executor.report(Outcome::AlreadyExists);
    assert!(executor.is_aborted());
    assert_eq!(executor.pending(), None);
}

#[test]
fn pending_does_not_move_the_run() {
    let executor = Executor::new(vec![mkdir("/a"), mkdir("/b")]);
    assert_eq!(executor.pending(), Some(&mkdir("/a")));
    assert_eq!(executor.pending(), Some(&mkdir("/a")));
}

#[test]
fn end_to_end_run() {
    let args: Vec<Vec<u8>> = [
        "prog",
        "--mkdir",
        "/new",
        "--bind",
        "/host/data",
        "/new/data",
        "--pivot-root",
        "/new",
        "/bin/true",
    ]
    .iter()
    .map(|token| b(token))
    .collect();
    let config = parse_args(&args).unwrap();
    assert_eq!(
        config,
        Action {
            actions: vec![
                MountAction::Mkdir { dest: b("/new") },
                MountAction::Mount {
                    fs: Filesystem::Bind {
                        src: b("/host/data"),
                    },
                    dest: b("/new/data"),
                },
                MountAction::PivotRoot { dest: b("/new") },
            ],
            exec_path: b("/bin/true"),
            exec_args: vec![],
        }
    );
    let mut executor = Executor::new(config.plan(1000, 1000));
    let mut kinds = Vec::new();
    while let Some(request) = executor.pending() {
        kinds.push(match request {
            Request::Unshare { .. } => "unshare",
            Request::WriteFile { .. } => "write",
            Request::Announce { .. } => "announce",
            Request::Mount { .. } => "mount",
            Request::Mkdir { .. } => "mkdir",
            Request::Chdir { .. } => "chdir",
            Request::PivotRoot { .. } => "pivot_root",
            Request::Unmount { .. } => "umount",
            Request::Exec { .. } => "exec",
        });
        executor.report(Outcome::Done);
    }
    assert_eq!(
        kinds,
        vec![
            "unshare",
            "write",
            "write",
            "write",
            "announce",
            "mkdir",
            "announce",
            "mount",
            "announce",
            "chdir",
            "pivot_root",
            "umount",
            "exec",
        ]
    );
    assert!(executor.is_finished());
}

#[test]
fn a_failed_mount_keeps_the_root_where_it_is() {
    let config = Action {
        actions: vec![
            MountAction::Mount {
                fs: Filesystem::Tmpfs,
                dest: b("/missing"),
            },
            MountAction::PivotRoot { dest: b("/new") },
        ],
        exec_path: b("/bin/true"),
        exec_args: vec![],
    };
    let mut executor = Executor::new(config.plan(0, 0));
    let mut attempted = 0;
    while let Some(request) = executor.pending() {
        attempted += 1;
        let outcome = match request {
            Request::Mount { .. } => Outcome::Failed,
            Request::Chdir { .. } | Request::PivotRoot { .. } | Request::Exec { .. } => {
                panic!("attempted after the failure")
            }
            _ => Outcome::Done,
        };
        executor.report(outcome);
    }
    assert_eq!(attempted, 6);
    assert!(executor.is_aborted());
}
