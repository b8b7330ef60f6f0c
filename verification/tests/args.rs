use nsbox::action::{Action, MountAction};
use nsbox::args::{flag_of, parse_args, ArgsError, Flag};
use nsbox::filesystem::Filesystem;

fn b(text: &str) -> Vec<u8> {
    text.as_bytes().to_vec()
}

fn line(tokens: &[&str]) -> Vec<Vec<u8>> {
    tokens.iter().map(|token| b(token)).collect()
}

#[test]
fn bind_takes_source_and_destination() {
    let parsed = parse_args(&line(&["prog", "--bind", "A", "B", "/bin/true"]));
    assert_eq!(
        parsed,
        Ok(Action {
            actions: vec![MountAction::Mount {
                fs: Filesystem::Bind { src: b("A") },
                dest: b("B"),
            }],
            exec_path: b("/bin/true"),
            exec_args: vec![],
        })
    );
}

#[test]
fn tmpfs_takes_a_destination() {
    let parsed = parse_args(&line(&["prog", "--tmpfs", "B", "/bin/true"])).unwrap();
    assert_eq!(
        parsed.actions,
        vec![MountAction::Mount {
            fs: Filesystem::Tmpfs,
            dest: b("B"),
        }]
    );
}

#[test]
fn overlayfs_takes_three_directories_and_a_destination() {
    let parsed =
        parse_args(&line(&["prog", "--overlayfs", "L", "U", "W", "B", "/bin/true"])).unwrap();
    assert_eq!(
        parsed.actions,
        vec![MountAction::Mount {
            fs: Filesystem::Overlay {
                lower: b("L"),
                upper: b("U"),
                work: b("W"),
            },
            dest: b("B"),
        }]
    );
}

#[test]
fn fs_takes_type_source_options_and_destination() {
    let parsed = parse_args(&line(&[
        "prog", "--fs", "proc", "none", "hidepid=2", "/proc", "/bin/true",
    ]))
    .unwrap();
    assert_eq!(
        parsed.actions,
        vec![MountAction::Mount {
            fs: Filesystem::Generic {
                fstype: b("proc"),
                src: b("none"),
                data: b("hidepid=2"),
            },
            dest: b("/proc"),
        }]
    );
}

#[test]
fn mkdir_takes_a_destination() {
    let parsed = parse_args(&line(&["prog", "--mkdir", "D", "/bin/true"])).unwrap();
    assert_eq!(parsed.actions, vec![MountAction::Mkdir { dest: b("D") }]);
}

#[test]
fn pivot_root_takes_a_destination() {
    let parsed = parse_args(&line(&["prog", "--pivot-root", "D", "/bin/true"])).unwrap();
    assert_eq!(parsed.actions, vec![MountAction::PivotRoot { dest: b("D") }]);
}

#[test]
fn actions_keep_the_order_of_their_flags() {
    let parsed = parse_args(&line(&[
        "prog",
        "--mkdir",
        "/new",
        "--bind",
        "/host/data",
        "/new/data",
        "--tmpfs",
        "/new/tmp",
        "--mkdir",
        "/new/tmp/x",
        "--pivot-root",
        "/new",
        "/bin/sh",
        "sh",
        "-l",
    ]))
    .unwrap();
    assert_eq!(
        parsed.actions,
        vec![
            MountAction::Mkdir { dest: b("/new") },
            MountAction::Mount {
                fs: Filesystem::Bind {
                    src: b("/host/data")
                },
                dest: b("/new/data"),
            },
            MountAction::Mount {
                fs: Filesystem::Tmpfs,
                dest: b("/new/tmp"),
            },
            MountAction::Mkdir {
                dest: b("/new/tmp/x")
            },
            MountAction::PivotRoot { dest: b("/new") },
        ]
    );
    assert_eq!(parsed.exec_path, b("/bin/sh"));
    assert_eq!(parsed.exec_args, line(&["sh", "-l"]));
}

#[test]
fn a_flag_takes_its_parameters_whatever_they_begin_with() {
    let parsed = parse_args(&line(&["prog", "--bind", "--mkdir", "--", "prog2"])).unwrap();
    assert_eq!(
        parsed.actions,
        vec![MountAction::Mount {
            fs: Filesystem::Bind { src: b("--mkdir") },
            dest: b("--"),
        }]
    );
    assert_eq!(parsed.exec_path, b("prog2"));
}

#[test]
fn bind_without_destination_is_refused() {
    assert_eq!(
        parse_args(&line(&["prog", "--bind", "A"])),
        Err(ArgsError::MissingParameters { flag: b("--bind") })
    );
}

#[test]
fn pivot_root_without_destination_is_refused() {
    assert_eq!(
        parse_args(&line(&["cmd", "--pivot-root"])),
        Err(ArgsError::MissingParameters {
            flag: b("--pivot-root")
        })
    );
}

#[test]
fn a_later_flag_without_its_parameters_is_refused() {
    assert_eq!(
        parse_args(&line(&["prog", "--mkdir", "/x", "--overlayfs", "L", "U", "W"])),
        Err(ArgsError::MissingParameters {
            flag: b("--overlayfs")
        })
    );
}

#[test]
fn an_unknown_flag_is_refused_by_name() {
    assert_eq!(
        parse_args(&line(&["prog", "--frobnicate", "/bin/true"])),
        Err(ArgsError::UnknownParameter {
            token: b("--frobnicate")
        })
    );
}

#[test]
fn a_single_dash_is_an_unknown_flag() {
    assert_eq!(
        parse_args(&line(&["prog", "-", "/bin/true"])),
        Err(ArgsError::UnknownParameter { token: b("-") })
    );
}

#[test]
fn an_unknown_flag_behind_a_flag_is_refused() {
    assert_eq!(
        parse_args(&line(&["prog", "--mkdir", "/x", "--bindx", "a", "b", "c"])),
        Err(ArgsError::UnknownParameter { token: b("--bindx") })
    );
}

#[test]
fn no_flags_at_all() {
    assert_eq!(
        parse_args(&line(&["prog", "/bin/sh", "-c", "true"])),
        Ok(Action {
            actions: vec![],
            exec_path: b("/bin/sh"),
            exec_args: line(&["-c", "true"]),
        })
    );
}

#[test]
fn separator_ends_the_flags() {
    assert_eq!(
        parse_args(&line(&[
            "prog",
            "--mkdir",
            "/x",
            "--",
            "-strange-exec-name",
            "a",
            "b"
        ])),
        Ok(Action {
            actions: vec![MountAction::Mkdir { dest: b("/x") }],
            exec_path: b("-strange-exec-name"),
            exec_args: line(&["a", "b"]),
        })
    );
}

#[test]
fn separator_is_read_once() {
    let parsed = parse_args(&line(&["prog", "--", "--", "--mkdir"])).unwrap();
    assert_eq!(parsed.actions, vec![]);
    assert_eq!(parsed.exec_path, b("--"));
    assert_eq!(parsed.exec_args, line(&["--mkdir"]));
}

#[test]
fn an_empty_line_has_no_invocation_name() {
    assert_eq!(parse_args(&[]), Err(ArgsError::NoArgv0));
}

#[test]
fn a_line_without_program_is_refused() {
    assert_eq!(parse_args(&line(&["prog"])), Err(ArgsError::MissingProgram));
    assert_eq!(
        parse_args(&line(&["prog", "--mkdir", "/x"])),
        Err(ArgsError::MissingProgram)
    );
    assert_eq!(
        parse_args(&line(&["prog", "--"])),
        Err(ArgsError::MissingProgram)
    );
}

#[test]
fn the_invocation_name_is_passed_over() {
    let parsed = parse_args(&line(&["--mkdir", "/bin/true"])).unwrap();
    assert_eq!(parsed.actions, vec![]);
    assert_eq!(parsed.exec_path, b("/bin/true"));
}

#[test]
fn an_empty_token_names_the_program() {
    let parsed = parse_args(&line(&["prog", "", "x"])).unwrap();
    assert_eq!(parsed.exec_path, b(""));
    assert_eq!(parsed.exec_args, line(&["x"]));
}

#[test]
fn tokens_need_not_be_text() {
    let args = vec![b("prog"), b("--mkdir"), vec![0xff, 0xfe], vec![0x80]];
    let parsed = parse_args(&args).unwrap();
    assert_eq!(
        parsed.actions,
        vec![MountAction::Mkdir {
            dest: vec![0xff, 0xfe]
        }]
    );
    assert_eq!(parsed.exec_path, vec![0x80]);
}

#[test]
fn flags_are_told_apart_by_their_names() {
    assert_eq!(flag_of(&b("--bind")), Some(Flag::Bind));
    assert_eq!(flag_of(&b("--tmpfs")), Some(Flag::Tmpfs));
    assert_eq!(flag_of(&b("--overlayfs")), Some(Flag::Overlayfs));
    assert_eq!(flag_of(&b("--fs")), Some(Flag::Fs));
    assert_eq!(flag_of(&b("--mkdir")), Some(Flag::Mkdir));
    assert_eq!(flag_of(&b("--pivot-root")), Some(Flag::PivotRoot));
    assert_eq!(flag_of(&b("--")), None);
    assert_eq!(flag_of(&b("--Bind")), None);
    assert_eq!(flag_of(&b("--bin")), None);
    assert_eq!(flag_of(&b("bind")), None);
}

#[test]
fn each_flag_takes_its_number_of_parameters() {
    assert_eq!(Flag::Bind.parameters(), 2);
    assert_eq!(Flag::Tmpfs.parameters(), 1);
    assert_eq!(Flag::Overlayfs.parameters(), 4);
    assert_eq!(Flag::Fs.parameters(), 4);
    assert_eq!(Flag::Mkdir.parameters(), 1);
    assert_eq!(Flag::PivotRoot.parameters(), 1);
}
