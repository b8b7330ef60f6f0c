//! What the grammar guarantees: the actions stand in the order of their
//! flags, and what a command line yields is decided by the token that follows
//! its last complete flag.

use crate::action::{ActionView, MountActionView};
use crate::args::{flag_named, params_at, parse, scan, separator, ArgsErrorView, Flag, Scan};
use crate::bytes::{ascii, starts_with_dash};
use crate::filesystem::FilesystemView;
use vstd::prelude::*;

verus! {

/// Whether a flag stands at `pos` with all the parameters that it takes.
pub open spec fn flag_at(tokens: Seq<Seq<u8>>, pos: int) -> bool {
    &&& 0 <= pos < tokens.len()
    &&& flag_named(tokens[pos]) matches Some(flag)
    &&& pos + flag.arity() < tokens.len()
}

/// The index behind the flag at `pos` and its parameters.
pub open spec fn behind(tokens: Seq<Seq<u8>>, pos: int) -> int {
    match flag_named(tokens[pos]) {
        Some(flag) => pos + 1 + flag.arity(),
        None => pos + 1,
    }
}

/// The action that the flag at `pos` stands for.
pub open spec fn action_at(tokens: Seq<Seq<u8>>, pos: int) -> MountActionView {
    let flag = flag_named(tokens[pos]).unwrap();
    flag.action(params_at(tokens, pos, flag))
}

/// The index at which the `n`-th flag stands, counted from 0, when the first
/// one stands at `pos` and each is followed by its parameters.
pub open spec fn flag_index(tokens: Seq<Seq<u8>>, pos: int, n: nat) -> int
    decreases n,
{
    if n == 0 {
        pos
    } else {
        flag_index(tokens, behind(tokens, pos), (n - 1) as nat)
    }
}

/// Whether `n` flags, each with its parameters, stand in a row from `pos` on.
pub open spec fn flags_stand(tokens: Seq<Seq<u8>>, pos: int, n: nat) -> bool {
    forall|k: nat| k < n ==> #[trigger] flag_at(tokens, flag_index(tokens, pos, k))
}

/// The actions of the `n` flags that stand in a row from `pos` on.
pub open spec fn leading(tokens: Seq<Seq<u8>>, pos: int, n: nat) -> Seq<MountActionView> {
    Seq::new(n, |k: int| action_at(tokens, flag_index(tokens, pos, k as nat)))
}

/// The name of a flag begins with `-`, is not the separator, and names that
/// flag and no other.
pub proof fn lemma_flag_names(flag: Flag)
    ensures
        starts_with_dash(flag.name()),
        flag.name() != separator(),
        flag_named(flag.name()) == Some(flag),
{
    reveal_strlit("--");
    reveal_strlit("--bind");
    reveal_strlit("--tmpfs");
    reveal_strlit("--overlayfs");
    reveal_strlit("--fs");
    reveal_strlit("--mkdir");
    reveal_strlit("--pivot-root");
    let overlayfs = Flag::Overlayfs.name();
    let fs = Flag::Fs.name();
    let mkdir = Flag::Mkdir.name();
    assert(overlayfs.len() == 11 && overlayfs[0] == 0x2d);
    assert(fs.len() == 4 && fs[0] == 0x2d);
    assert(mkdir.len() == 7 && mkdir[0] == 0x2d && mkdir[2] == 0x6d);
}

/// A token that names a flag begins with `-` and is not the separator.
pub proof fn lemma_named_flag(token: Seq<u8>)
    requires
        flag_named(token) is Some,
    ensures
        starts_with_dash(token),
        token != separator(),
        token == flag_named(token).unwrap().name(),
{
    lemma_flag_names(flag_named(token).unwrap());
}

/// The flags stand at growing indices.
pub proof fn lemma_flag_index_grows(tokens: Seq<Seq<u8>>, pos: int, m: nat, n: nat)
    requires
        m < n,
    ensures
        flag_index(tokens, pos, m) < flag_index(tokens, pos, n),
    decreases n,
{
    if m == 0 {
        if n > 1 {
            lemma_flag_index_grows(tokens, behind(tokens, pos), 0, (n - 1) as nat);
        }
    } else {
        lemma_flag_index_grows(tokens, behind(tokens, pos), (m - 1) as nat, (n - 1) as nat);
    }
}

/// Reading from `pos` over `n` complete flags yields their actions, in
/// order, before whatever reading yields behind them.
pub proof fn lemma_scan_over_flags(tokens: Seq<Seq<u8>>, pos: int, n: nat)
    requires
        flags_stand(tokens, pos, n),
    ensures
        scan(tokens, pos) == match scan(tokens, flag_index(tokens, pos, n)) {
            Err(error) => Err::<Scan, ArgsErrorView>(error),
            Ok(rest) => Ok(
                Scan { actions: leading(tokens, pos, n) + rest.actions, end: rest.end },
            ),
        },
    decreases n,
{
    if n > 0 {
        let next = behind(tokens, pos);
        let fewer = (n - 1) as nat;
        assert(flag_at(tokens, flag_index(tokens, pos, 0)));
        lemma_named_flag(tokens[pos]);
        assert forall|k: nat| k < fewer implies #[trigger] flag_at(
            tokens,
            flag_index(tokens, next, k),
        ) by {
            assert(flag_at(tokens, flag_index(tokens, pos, k + 1)));
        }
        lemma_scan_over_flags(tokens, next, fewer);
        if let Ok(rest) = scan(tokens, flag_index(tokens, pos, n)) {
            assert(leading(tokens, pos, n) + rest.actions =~= seq![action_at(tokens, pos)] + (
            leading(tokens, next, fewer) + rest.actions));
        }
    }
}

/// Where reading from `pos` succeeds, a complete flag stands behind each of
/// the actions that it yields, and the action is that of the flag.
pub proof fn lemma_scan_yields_flags(tokens: Seq<Seq<u8>>, pos: int, n: nat)
    requires
        scan(tokens, pos) is Ok,
        n < scan(tokens, pos)->Ok_0.actions.len(),
    ensures
        flag_at(tokens, flag_index(tokens, pos, n)),
        scan(tokens, pos)->Ok_0.actions[n as int] == action_at(
            tokens,
            flag_index(tokens, pos, n),
        ),
    decreases n,
{
    if n > 0 {
        lemma_scan_yields_flags(tokens, behind(tokens, pos), (n - 1) as nat);
    }
}

/// The order of the flags is the order of the actions: where a command line
/// is accepted, its `n`-th action is the one of the `n`-th flag from the
/// left, and that flag stands behind all the flags before it.
pub proof fn lemma_actions_follow_flags(tokens: Seq<Seq<u8>>, n: nat)
    requires
        parse(tokens) is Ok,
        n < parse(tokens)->Ok_0.actions.len(),
    ensures
        flag_at(tokens, flag_index(tokens, 1, n)),
        parse(tokens)->Ok_0.actions[n as int] == action_at(tokens, flag_index(tokens, 1, n)),
        forall|m: nat| m < n ==> flag_index(tokens, 1, m) < flag_index(tokens, 1, n),
{
    lemma_scan_yields_flags(tokens, 1, n);
    assert forall|m: nat| m < n implies flag_index(tokens, 1, m) < flag_index(tokens, 1, n) by {
        lemma_flag_index_grows(tokens, 1, m, n);
    }
}

/// Where a command line is accepted, every action comes from a flag: the
/// flags behind the invocation name stand in a row, as many as there are
/// actions.
pub proof fn lemma_every_action_has_its_flag(tokens: Seq<Seq<u8>>)
    requires
        parse(tokens) is Ok,
    ensures
        flags_stand(tokens, 1, parse(tokens)->Ok_0.actions.len()),
        parse(tokens)->Ok_0.actions == leading(
            tokens,
            1,
            parse(tokens)->Ok_0.actions.len(),
        ),
{
    let actions = parse(tokens)->Ok_0.actions;
    assert forall|k: nat| k < actions.len() implies #[trigger] flag_at(
        tokens,
        flag_index(tokens, 1, k),
    ) by {
        lemma_scan_yields_flags(tokens, 1, k);
    }
    assert forall|k: int| 0 <= k < actions.len() implies actions[k] == leading(
        tokens,
        1,
        actions.len(),
    )[k] by {
        lemma_scan_yields_flags(tokens, 1, k as nat);
    }
}

/// A token that does not begin with `-` ends the flags and names the
/// program; the tokens behind it are the program's arguments.
pub proof fn lemma_program_ends_flags(tokens: Seq<Seq<u8>>, n: nat)
    requires
        flags_stand(tokens, 1, n),
        flag_index(tokens, 1, n) < tokens.len(),
        !starts_with_dash(tokens[flag_index(tokens, 1, n)]),
    ensures
        parse(tokens) == Ok::<ActionView, ArgsErrorView>(
            ActionView {
                actions: leading(tokens, 1, n),
                exec_path: tokens[flag_index(tokens, 1, n)],
                exec_args: tokens.subrange(flag_index(tokens, 1, n) + 1, tokens.len() as int),
            },
        ),
{
    lemma_scan_over_flags(tokens, 1, n);
    if n > 0 {
        lemma_flag_index_grows(tokens, 1, 0, n);
    }
}

/// A command line without flags: the token behind the invocation name does
/// not begin with `-`, so there is no action, that token names the program,
/// and the rest are its arguments.
pub proof fn lemma_no_flags(tokens: Seq<Seq<u8>>)
    requires
        tokens.len() >= 2,
        !starts_with_dash(tokens[1]),
    ensures
        parse(tokens) == Ok::<ActionView, ArgsErrorView>(
            ActionView {
                actions: Seq::empty(),
                exec_path: tokens[1],
                exec_args: tokens.subrange(2, tokens.len() as int),
            },
        ),
{
}

/// The separator ends the flags: the token behind it names the program even
/// if it begins with `-`, and the tokens behind that are the arguments.
pub proof fn lemma_separator_ends_flags(tokens: Seq<Seq<u8>>, n: nat)
    requires
        flags_stand(tokens, 1, n),
        flag_index(tokens, 1, n) + 1 < tokens.len(),
        tokens[flag_index(tokens, 1, n)] == separator(),
    ensures
        parse(tokens) == Ok::<ActionView, ArgsErrorView>(
            ActionView {
                actions: leading(tokens, 1, n),
                exec_path: tokens[flag_index(tokens, 1, n) + 1],
                exec_args: tokens.subrange(flag_index(tokens, 1, n) + 2, tokens.len() as int),
            },
        ),
{
    lemma_scan_over_flags(tokens, 1, n);
    if n > 0 {
        lemma_flag_index_grows(tokens, 1, 0, n);
    }
    assert(starts_with_dash(separator())) by {
        reveal_strlit("--");
    }
}

/// A command line that ends behind its flags, or behind the separator, names
/// no program and is refused.
pub proof fn lemma_missing_program(tokens: Seq<Seq<u8>>, n: nat)
    requires
        tokens.len() > 0,
        flags_stand(tokens, 1, n),
        flag_index(tokens, 1, n) == tokens.len() || (flag_index(tokens, 1, n) == tokens.len() - 1
            && tokens[flag_index(tokens, 1, n)] == separator()),
    ensures
        parse(tokens) == Err::<ActionView, ArgsErrorView>(ArgsErrorView::MissingProgram),
{
    lemma_scan_over_flags(tokens, 1, n);
    if n > 0 {
        lemma_flag_index_grows(tokens, 1, 0, n);
    }
    reveal_strlit("--");
}

/// A flag that is followed by fewer tokens than it takes is refused, and the
/// refusal names the flag.
pub proof fn lemma_missing_parameters(tokens: Seq<Seq<u8>>, n: nat)
    requires
        flags_stand(tokens, 1, n),
        1 <= flag_index(tokens, 1, n) < tokens.len(),
        flag_named(tokens[flag_index(tokens, 1, n)]) is Some,
        flag_index(tokens, 1, n) + flag_named(tokens[flag_index(tokens, 1, n)]).unwrap().arity()
            >= tokens.len(),
    ensures
        parse(tokens) == Err::<ActionView, ArgsErrorView>(
            ArgsErrorView::MissingParameters { flag: tokens[flag_index(tokens, 1, n)] },
        ),
{
    lemma_scan_over_flags(tokens, 1, n);
    lemma_named_flag(tokens[flag_index(tokens, 1, n)]);
}

/// A token that begins with `-` and is neither the separator nor a flag is
/// refused, and the refusal names the token.
pub proof fn lemma_unknown_flag(tokens: Seq<Seq<u8>>, n: nat)
    requires
        flags_stand(tokens, 1, n),
        1 <= flag_index(tokens, 1, n) < tokens.len(),
        starts_with_dash(tokens[flag_index(tokens, 1, n)]),
        tokens[flag_index(tokens, 1, n)] != separator(),
        flag_named(tokens[flag_index(tokens, 1, n)]) is None,
    ensures
        parse(tokens) == Err::<ActionView, ArgsErrorView>(
            ArgsErrorView::UnknownParameter { token: tokens[flag_index(tokens, 1, n)] },
        ),
{
    lemma_scan_over_flags(tokens, 1, n);
}

/// Reading ends at or behind its starting point and within the list.
pub proof fn lemma_scan_ends_within(tokens: Seq<Seq<u8>>, pos: int)
    requires
        0 <= pos <= tokens.len(),
        scan(tokens, pos) is Ok,
    ensures
        pos <= scan(tokens, pos)->Ok_0.end <= tokens.len(),
    decreases tokens.len() - pos,
{
    if pos < tokens.len() && starts_with_dash(tokens[pos]) && tokens[pos] != separator() {
        let flag = flag_named(tokens[pos]).unwrap();
        lemma_scan_ends_within(tokens, pos + 1 + flag.arity());
    }
}

/// What reading yields when the same tokens stand `shift` places further to
/// the right: the same actions, and an end as much further to the right.
pub open spec fn shifted(found: Result<Scan, ArgsErrorView>, shift: int) -> Result<
    Scan,
    ArgsErrorView,
> {
    match found {
        Err(error) => Err(error),
        Ok(rest) => Ok(Scan { actions: rest.actions, end: rest.end + shift }),
    }
}

/// Reading depends only on the tokens from the starting point on: two lists
/// that agree from there on, up to a shift, are read alike.
pub proof fn lemma_scan_shift(left: Seq<Seq<u8>>, right: Seq<Seq<u8>>, shift: int, pos: int)
    requires
        0 <= pos,
        0 <= shift,
        left.len() == right.len() + shift,
        forall|i: int| pos <= i < right.len() ==> left[i + shift] == right[i],
    ensures
        scan(left, pos + shift) == shifted(scan(right, pos), shift),
    decreases right.len() - pos,
{
    if pos < right.len() && starts_with_dash(right[pos]) && right[pos] != separator() {
        if let Some(flag) = flag_named(right[pos]) {
            if pos + flag.arity() < right.len() {
                lemma_scan_shift(left, right, shift, pos + 1 + flag.arity());
            }
        }
    }
}

/// A flag with its parameters, put before the rest of a command line, puts
/// its action before the actions of the rest and changes nothing else.
pub proof fn lemma_flag_prepends(
    argv0: Seq<u8>,
    flag: Flag,
    params: Seq<Seq<u8>>,
    rest: Seq<Seq<u8>>,
)
    requires
        params.len() == flag.arity(),
    ensures
        parse(seq![argv0, flag.name()] + params + rest) == match parse(seq![argv0] + rest) {
            Err(error) => Err::<ActionView, ArgsErrorView>(error),
            Ok(config) => Ok(
                ActionView {
                    actions: seq![flag.action(params)] + config.actions,
                    exec_path: config.exec_path,
                    exec_args: config.exec_args,
                },
            ),
        },
{
    let long = seq![argv0, flag.name()] + params + rest;
    let short = seq![argv0] + rest;
    let shift = (1 + flag.arity()) as int;
    lemma_flag_names(flag);
    lemma_scan_shift(long, short, shift, 1);
    if let Ok(found) = scan(short, 1) {
        lemma_scan_ends_within(short, 1);
        if found.end < short.len() {
            assert(long.subrange(found.end + shift + 1, long.len() as int) =~= short.subrange(
                found.end + 1,
                short.len() as int,
            ));
        }
    }
}

/// A single flag before a program: exactly one action, that of the flag,
/// then the program and its arguments.
pub proof fn lemma_single_flag(
    argv0: Seq<u8>,
    flag: Flag,
    params: Seq<Seq<u8>>,
    program: Seq<u8>,
    args: Seq<Seq<u8>>,
)
    requires
        params.len() == flag.arity(),
        !starts_with_dash(program),
    ensures
        parse(seq![argv0, flag.name()] + params + seq![program] + args) == Ok::<
            ActionView,
            ArgsErrorView,
        >(ActionView { actions: seq![flag.action(params)], exec_path: program, exec_args: args }),
{
    let rest = seq![program] + args;
    let short = seq![argv0] + rest;
    lemma_flag_prepends(argv0, flag, params, rest);
    lemma_no_flags(short);
    assert(short.subrange(2, short.len() as int) =~= args);
    assert(seq![argv0, flag.name()] + params + seq![program] + args =~= seq![argv0, flag.name()]
        + params + rest);
}

/// `--bind SRC DEST` stands for a bind mount of `SRC` at `DEST`.
pub proof fn lemma_bind(
    argv0: Seq<u8>,
    src: Seq<u8>,
    dest: Seq<u8>,
    program: Seq<u8>,
    args: Seq<Seq<u8>>,
)
    requires
        !starts_with_dash(program),
    ensures
        parse(seq![argv0, ascii("--bind"@), src, dest, program] + args) == Ok::<
            ActionView,
            ArgsErrorView,
        >(
            ActionView {
                actions: seq![
                    MountActionView::Mount { fs: FilesystemView::Bind { src }, dest },
                ],
                exec_path: program,
                exec_args: args,
            },
        ),
{
    lemma_single_flag(argv0, Flag::Bind, seq![src, dest], program, args);
    assert(seq![argv0, ascii("--bind"@), src, dest, program] + args =~= seq![
        argv0,
        Flag::Bind.name(),
    ] + seq![src, dest] + seq![program] + args);
}

/// `--tmpfs DEST` stands for a mount of a fresh in-memory filesystem at `DEST`.
pub proof fn lemma_tmpfs(argv0: Seq<u8>, dest: Seq<u8>, program: Seq<u8>, args: Seq<Seq<u8>>)
    requires
        !starts_with_dash(program),
    ensures
        parse(seq![argv0, ascii("--tmpfs"@), dest, program] + args) == Ok::<
            ActionView,
            ArgsErrorView,
        >(
            ActionView {
                actions: seq![MountActionView::Mount { fs: FilesystemView::Tmpfs, dest }],
                exec_path: program,
                exec_args: args,
            },
        ),
{
    lemma_single_flag(argv0, Flag::Tmpfs, seq![dest], program, args);
    assert(seq![argv0, ascii("--tmpfs"@), dest, program] + args =~= seq![
        argv0,
        Flag::Tmpfs.name(),
    ] + seq![dest] + seq![program] + args);
}

/// `--overlayfs LOWER UPPER WORK DEST` stands for an overlay mount of the
/// three directories at `DEST`.
pub proof fn lemma_overlayfs(
    argv0: Seq<u8>,
    lower: Seq<u8>,
    upper: Seq<u8>,
    work: Seq<u8>,
    dest: Seq<u8>,
    program: Seq<u8>,
    args: Seq<Seq<u8>>,
)
    requires
        !starts_with_dash(program),
    ensures
        parse(seq![argv0, ascii("--overlayfs"@), lower, upper, work, dest, program] + args) == Ok::<
            ActionView,
            ArgsErrorView,
        >(
            ActionView {
                actions: seq![
                    MountActionView::Mount {
                        fs: FilesystemView::Overlay { lower, upper, work },
                        dest,
                    },
                ],
                exec_path: program,
                exec_args: args,
            },
        ),
{
    lemma_single_flag(argv0, Flag::Overlayfs, seq![lower, upper, work, dest], program, args);
    assert(seq![argv0, ascii("--overlayfs"@), lower, upper, work, dest, program] + args =~= seq![
        argv0,
        Flag::Overlayfs.name(),
    ] + seq![lower, upper, work, dest] + seq![program] + args);
}

/// `--fs TYPE SRC DATA DEST` stands for a mount of any filesystem at `DEST`,
/// with the type, source and options as given.
pub proof fn lemma_fs(
    argv0: Seq<u8>,
    fstype: Seq<u8>,
    src: Seq<u8>,
    data: Seq<u8>,
    dest: Seq<u8>,
    program: Seq<u8>,
    args: Seq<Seq<u8>>,
)
    requires
        !starts_with_dash(program),
    ensures
        parse(seq![argv0, ascii("--fs"@), fstype, src, data, dest, program] + args) == Ok::<
            ActionView,
            ArgsErrorView,
        >(
            ActionView {
                actions: seq![
                    MountActionView::Mount {
                        fs: FilesystemView::Generic { fstype, src, data },
                        dest,
                    },
                ],
                exec_path: program,
                exec_args: args,
            },
        ),
{
    lemma_single_flag(argv0, Flag::Fs, seq![fstype, src, data, dest], program, args);
    assert(seq![argv0, ascii("--fs"@), fstype, src, data, dest, program] + args =~= seq![
        argv0,
        Flag::Fs.name(),
    ] + seq![fstype, src, data, dest] + seq![program] + args);
}

/// `--mkdir DEST` stands for the creation of the directory `DEST`.
pub proof fn lemma_mkdir(argv0: Seq<u8>, dest: Seq<u8>, program: Seq<u8>, args: Seq<Seq<u8>>)
    requires
        !starts_with_dash(program),
    ensures
        parse(seq![argv0, ascii("--mkdir"@), dest, program] + args) == Ok::<
            ActionView,
            ArgsErrorView,
        >(
            ActionView {
                actions: seq![MountActionView::Mkdir { dest }],
                exec_path: program,
                exec_args: args,
            },
        ),
{
    lemma_single_flag(argv0, Flag::Mkdir, seq![dest], program, args);
    assert(seq![argv0, ascii("--mkdir"@), dest, program] + args =~= seq![
        argv0,
        Flag::Mkdir.name(),
    ] + seq![dest] + seq![program] + args);
}

/// `--pivot-root DEST` stands for making `DEST` the root.
pub proof fn lemma_pivot_root(
    argv0: Seq<u8>,
    dest: Seq<u8>,
    program: Seq<u8>,
    args: Seq<Seq<u8>>,
)
    requires
        !starts_with_dash(program),
    ensures
        parse(seq![argv0, ascii("--pivot-root"@), dest, program] + args) == Ok::<
            ActionView,
            ArgsErrorView,
        >(
            ActionView {
                actions: seq![MountActionView::PivotRoot { dest }],
                exec_path: program,
                exec_args: args,
            },
        ),
{
    lemma_single_flag(argv0, Flag::PivotRoot, seq![dest], program, args);
    assert(seq![argv0, ascii("--pivot-root"@), dest, program] + args =~= seq![
        argv0,
        Flag::PivotRoot.name(),
    ] + seq![dest] + seq![program] + args);
}

} // verus!
