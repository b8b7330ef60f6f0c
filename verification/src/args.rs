//! The command-line grammar: a flat list of tokens becomes the setup actions,
//! in the order in which their flags stand, and the program to run.

use crate::action::{action_views, Action, ActionView, MountAction, MountActionView};
use crate::bytes::{ascii, copy, copy_from, has_dash, is_literal, starts_with_dash, views};
use crate::filesystem::{Filesystem, FilesystemView};
use vstd::prelude::*;

verus! {

/// Why a command line was refused.
#[derive(Debug, PartialEq, Eq)]
pub enum ArgsError {
    /// The list of tokens is empty: not even the invocation name is there.
    NoArgv0,
    /// Fewer tokens follow `flag` than it takes.
    MissingParameters { flag: Vec<u8> },
    /// `token` begins with `-` and is no flag of the grammar.
    UnknownParameter { token: Vec<u8> },
    /// No token is left to name the program to run.
    MissingProgram,
}

/// A refusal as a mathematical value.
pub enum ArgsErrorView {
    NoArgv0,
    MissingParameters { flag: Seq<u8> },
    UnknownParameter { token: Seq<u8> },
    MissingProgram,
}

impl View for ArgsError {
    type V = ArgsErrorView;

    open spec fn view(&self) -> ArgsErrorView {
        match self {
            ArgsError::NoArgv0 => ArgsErrorView::NoArgv0,
            ArgsError::MissingParameters { flag } => ArgsErrorView::MissingParameters {
                flag: flag@,
            },
            ArgsError::UnknownParameter { token } => ArgsErrorView::UnknownParameter {
                token: token@,
            },
            ArgsError::MissingProgram => ArgsErrorView::MissingProgram,
        }
    }
}

/// The flags of the grammar.
#[derive(Clone, Copy, Debug, PartialEq, Eq)]
pub enum Flag {
    Bind,
    Tmpfs,
    Overlayfs,
    Fs,
    Mkdir,
    PivotRoot,
}

/// The token that ends the flags, whatever follows it.
pub open spec fn separator() -> Seq<u8> {
    ascii("--"@)
}

impl Flag {
    /// The token that stands for the flag.
    pub open spec fn name(self) -> Seq<u8> {
        match self {
            Flag::Bind => ascii("--bind"@),
            Flag::Tmpfs => ascii("--tmpfs"@),
            Flag::Overlayfs => ascii("--overlayfs"@),
            Flag::Fs => ascii("--fs"@),
            Flag::Mkdir => ascii("--mkdir"@),
            Flag::PivotRoot => ascii("--pivot-root"@),
        }
    }

    /// How many tokens the flag takes after its name.
    pub open spec fn arity(self) -> nat {
        match self {
            Flag::Bind => 2,
            Flag::Tmpfs => 1,
            Flag::Overlayfs => 4,
            Flag::Fs => 4,
            Flag::Mkdir => 1,
            Flag::PivotRoot => 1,
        }
    }

    /// The action that the flag stands for when `params` follow its name.
    /// The last parameter is always the destination.
    pub open spec fn action(self, params: Seq<Seq<u8>>) -> MountActionView {
        match self {
            Flag::Bind => MountActionView::Mount {
                fs: FilesystemView::Bind { src: params[0] },
                dest: params[1],
            },
            Flag::Tmpfs => MountActionView::Mount { fs: FilesystemView::Tmpfs, dest: params[0] },
            Flag::Overlayfs => MountActionView::Mount {
                fs: FilesystemView::Overlay { lower: params[0], upper: params[1], work: params[2] },
                dest: params[3],
            },
            Flag::Fs => MountActionView::Mount {
                fs: FilesystemView::Generic { fstype: params[0], src: params[1], data: params[2] },
                dest: params[3],
            },
            Flag::Mkdir => MountActionView::Mkdir { dest: params[0] },
            Flag::PivotRoot => MountActionView::PivotRoot { dest: params[0] },
        }
    }
}

/// The flag that a token names, if it names one.
pub open spec fn flag_named(token: Seq<u8>) -> Option<Flag> {
    if token == Flag::Bind.name() {
        Some(Flag::Bind)
    } else if token == Flag::Tmpfs.name() {
        Some(Flag::Tmpfs)
    } else if token == Flag::Overlayfs.name() {
        Some(Flag::Overlayfs)
    } else if token == Flag::Fs.name() {
        Some(Flag::Fs)
    } else if token == Flag::Mkdir.name() {
        Some(Flag::Mkdir)
    } else if token == Flag::PivotRoot.name() {
        Some(Flag::PivotRoot)
    } else {
        None
    }
}

/// The parameters of the flag that stands at `pos`.
pub open spec fn params_at(tokens: Seq<Seq<u8>>, pos: int, flag: Flag) -> Seq<Seq<u8>> {
    tokens.subrange(pos + 1, pos + 1 + flag.arity())
}

/// What reading flags yields: the actions, and the index of the token that
/// names the program.
pub struct Scan {
    pub actions: Seq<MountActionView>,
    pub end: int,
}

/// Reads flags from `pos` on. Reading stops before a token that does not
/// begin with `-` and behind the separator. A flag takes its parameters as
/// they come, whatever they begin with.
pub open spec fn scan(tokens: Seq<Seq<u8>>, pos: int) -> Result<Scan, ArgsErrorView>
    decreases tokens.len() - pos,
{
    if pos < 0 || pos >= tokens.len() || !starts_with_dash(tokens[pos]) {
        Ok(Scan { actions: Seq::empty(), end: pos })
    } else if tokens[pos] == separator() {
        Ok(Scan { actions: Seq::empty(), end: pos + 1 })
    } else {
        match flag_named(tokens[pos]) {
            None => Err(ArgsErrorView::UnknownParameter { token: tokens[pos] }),
            Some(flag) => if pos + flag.arity() >= tokens.len() {
                Err(ArgsErrorView::MissingParameters { flag: tokens[pos] })
            } else {
                match scan(tokens, pos + 1 + flag.arity()) {
                    Err(error) => Err(error),
                    Ok(rest) => Ok(
                        Scan {
                            actions: seq![flag.action(params_at(tokens, pos, flag))]
                                + rest.actions,
                            end: rest.end,
                        },
                    ),
                }
            },
        }
    }
}

/// What a command line stands for. The first token is the invocation name
/// and is passed over; then come the flags; the token behind them names the
/// program, and all that follow are its arguments.
pub open spec fn parse(tokens: Seq<Seq<u8>>) -> Result<ActionView, ArgsErrorView> {
    if tokens.len() == 0 {
        Err(ArgsErrorView::NoArgv0)
    } else {
        match scan(tokens, 1) {
            Err(error) => Err(error),
            Ok(found) => if found.end >= tokens.len() {
                Err(ArgsErrorView::MissingProgram)
            } else {
                Ok(
                    ActionView {
                        actions: found.actions,
                        exec_path: tokens[found.end],
                        exec_args: tokens.subrange(found.end + 1, tokens.len() as int),
                    },
                )
            },
        }
    }
}

/// The outcome of parsing as a mathematical value.
pub open spec fn outcome_view(outcome: Result<Action, ArgsError>) -> Result<
    ActionView,
    ArgsErrorView,
> {
    match outcome {
        Ok(config) => Ok(config@),
        Err(error) => Err(error@),
    }
}

/// The flag that `token` names, if it names one.
pub fn flag_of(token: &Vec<u8>) -> (flag: Option<Flag>)
    ensures
        flag == flag_named(token@),
{
    proof {
        reveal_strlit("--bind");
        reveal_strlit("--tmpfs");
        reveal_strlit("--overlayfs");
        reveal_strlit("--fs");
        reveal_strlit("--mkdir");
        reveal_strlit("--pivot-root");
    }
    if is_literal(token, "--bind") {
        Some(Flag::Bind)
    } else if is_literal(token, "--tmpfs") {
        Some(Flag::Tmpfs)
    } else if is_literal(token, "--overlayfs") {
        Some(Flag::Overlayfs)
    } else if is_literal(token, "--fs") {
        Some(Flag::Fs)
    } else if is_literal(token, "--mkdir") {
        Some(Flag::Mkdir)
    } else if is_literal(token, "--pivot-root") {
        Some(Flag::PivotRoot)
    } else {
        None
    }
}

impl Flag {
    /// How many tokens the flag takes after its name.
    pub fn parameters(self) -> (count: usize)
        ensures
            count == self.arity(),
    {
        match self {
            Flag::Bind => 2,
            Flag::Tmpfs => 1,
            Flag::Overlayfs => 4,
            Flag::Fs => 4,
            Flag::Mkdir => 1,
            Flag::PivotRoot => 1,
        }
    }

    /// The action that the flag at `tokens[pos]` stands for, with the tokens
    /// behind it as its parameters.
    fn build(self, tokens: &[Vec<u8>], pos: usize) -> (action: MountAction)
        requires
            pos + self.arity() < tokens@.len() <= usize::MAX,
        ensures
            action@ == self.action(params_at(views(tokens@), pos as int, self)),
    {
        match self {
            Flag::Bind => MountAction::Mount {
                fs: Filesystem::Bind { src: copy(&tokens[pos + 1]) },
                dest: copy(&tokens[pos + 2]),
            },
            Flag::Tmpfs => MountAction::Mount {
                fs: Filesystem::Tmpfs,
                dest: copy(&tokens[pos + 1]),
            },
            Flag::Overlayfs => MountAction::Mount {
                fs: Filesystem::Overlay {
                    lower: copy(&tokens[pos + 1]),
                    upper: copy(&tokens[pos + 2]),
                    work: copy(&tokens[pos + 3]),
                },
                dest: copy(&tokens[pos + 4]),
            },
            Flag::Fs => MountAction::Mount {
                fs: Filesystem::Generic {
                    fstype: copy(&tokens[pos + 1]),
                    src: copy(&tokens[pos + 2]),
                    data: copy(&tokens[pos + 3]),
                },
                dest: copy(&tokens[pos + 4]),
            },
            Flag::Mkdir => MountAction::Mkdir { dest: copy(&tokens[pos + 1]) },
            Flag::PivotRoot => MountAction::PivotRoot { dest: copy(&tokens[pos + 1]) },
        }
    }
}

/// Parses a command line: the invocation name, the flags, the program and
/// its arguments. The actions come out in the order of their flags.
pub fn parse_args(args: &[Vec<u8>]) -> (outcome: Result<Action, ArgsError>)
    ensures
        outcome_view(outcome) == parse(views(args@)),
{
    let ghost tokens = views(args@);
    if args.len() == 0 {
        return Err(ArgsError::NoArgv0);
    }
    let mut actions: Vec<MountAction> = Vec::new();
    let mut pos: usize = 1;
    loop
        invariant_except_break
            1 <= pos <= args@.len(),
            match scan(tokens, pos as int) {
                Err(error) => scan(tokens, 1) == Err::<Scan, ArgsErrorView>(error),
                Ok(rest) => scan(tokens, 1) == Ok::<Scan, ArgsErrorView>(
                    Scan { actions: action_views(actions@) + rest.actions, end: rest.end },
                ),
            },
        invariant
            tokens == views(args@),
        ensures
            pos <= args@.len(),
            scan(tokens, 1) == Ok::<Scan, ArgsErrorView>(
                Scan { actions: action_views(actions@), end: pos as int },
            ),
        decreases args@.len() - pos,
    {
        if pos >= args.len() || !has_dash(&args[pos]) {
            break;
        }
        proof {
            reveal_strlit("--");
        }
        if is_literal(&args[pos], "--") {
            pos += 1;
            break;
        }
        match flag_of(&args[pos]) {
            None => {
                return Err(ArgsError::UnknownParameter { token: copy(&args[pos]) });
            },
            Some(flag) => {
                if flag.parameters() >= args.len() - pos {
                    return Err(ArgsError::MissingParameters { flag: copy(&args[pos]) });
                }
                let ghost before = action_views(actions@);
                let ghost next = scan(tokens, pos + 1 + flag.arity());
                let action = flag.build(args, pos);
                actions.push(action);
                proof {
                    if let Ok(rest) = next {
                        assert(before + (seq![action@] + rest.actions) =~= action_views(actions@)
                            + rest.actions);
                    }
                }
                pos = pos + 1 + flag.parameters();
            },
        }
    }
    if pos >= args.len() {
        return Err(ArgsError::MissingProgram);
    }
    let exec_path = copy(&args[pos]);
    let exec_args = copy_from(args, pos + 1);
    Ok(Action { actions, exec_path, exec_args })
}

} // verus!
