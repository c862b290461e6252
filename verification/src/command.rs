//! The command a session launches, and how it is prepared for the provider.
//!
//! The provider takes a command as a `CommandBuilder`. A builder starts from the
//! program's name and the environment of the running process; this module adds
//! the search path, the arguments, the working directory and the caller's own
//! variables, in that order, so that a variable of the caller overrides the
//! search path of the same name.

use portable_pty::CommandBuilder;
use vstd::prelude::*;

verus! {

#[verifier::external_type_specification]
#[verifier::external_body]
pub struct ExCommandBuilder(CommandBuilder);

/// The argument vector that a builder holds, program first.
pub uninterp spec fn builder_argv(cb: CommandBuilder) -> Seq<Seq<char>>;

/// The working directory that a builder holds, if one was set.
pub uninterp spec fn builder_cwd(cb: CommandBuilder) -> Option<Seq<char>>;

/// The environment that a builder holds: for each variable, filed under its
/// slot, its value.
pub uninterp spec fn builder_env(cb: CommandBuilder) -> Map<Seq<char>, Seq<char>>;

/// The slot under which a builder files the variable of a given name: the name
/// itself where the platform tells names apart by case, its lower-case form where
/// it does not.
pub uninterp spec fn env_slot(key: Seq<char>) -> Seq<char>;

/// `CommandBuilder::new`: a builder whose argument vector holds the program
/// alone and whose working directory is not set. Its environment is taken from
/// the running process, and nothing is claimed of it.
#[verifier::external_body]
fn new_builder(program: &str) -> (cb: CommandBuilder)
    ensures
        builder_argv(cb) == seq![program@],
        builder_cwd(cb) is None,
{
    CommandBuilder::new(program)
}

/// `CommandBuilder::args`: appends the arguments in order and touches nothing
/// else. The crate refuses arguments on a builder without a program.
#[verifier::external_body]
fn add_args(cb: &mut CommandBuilder, args: &Vec<String>)
    requires
        builder_argv(*old(cb)).len() > 0,
    ensures
        builder_argv(*final(cb)) == builder_argv(*old(cb)) + texts(args@),
        builder_cwd(*final(cb)) == builder_cwd(*old(cb)),
        builder_env(*final(cb)) == builder_env(*old(cb)),
{
    cb.args(args)
}

/// `CommandBuilder::env`: files the value under the slot of the key, in place of
/// what was there, and touches nothing else.
#[verifier::external_body]
fn set_env(cb: &mut CommandBuilder, key: &str, value: &str)
    ensures
        builder_env(*final(cb)) == builder_env(*old(cb)).insert(env_slot(key@), value@),
        builder_argv(*final(cb)) == builder_argv(*old(cb)),
        builder_cwd(*final(cb)) == builder_cwd(*old(cb)),
{
    cb.env(key, value)
}

/// `CommandBuilder::cwd`: sets the working directory and touches nothing else.
#[verifier::external_body]
fn set_cwd(cb: &mut CommandBuilder, dir: &str)
    ensures
        builder_cwd(*final(cb)) == Some(dir@),
        builder_argv(*final(cb)) == builder_argv(*old(cb)),
        builder_env(*final(cb)) == builder_env(*old(cb)),
{
    cb.cwd(dir)
}

/// What to launch: the program, its arguments, variables for its environment,
/// and the directory to start it in.
#[derive(Debug)]
pub struct Command {
    /// The program.
    pub cmd: String,
    /// Its arguments, in order.
    pub args: Option<Vec<String>>,
    /// Variables for its environment, in the order in which they are assigned.
    pub env: Option<Vec<(String, String)>>,
    /// The directory to start it in.
    pub cwd: Option<String>,
}

/// The texts of a list of strings.
pub open spec fn texts(list: Seq<String>) -> Seq<Seq<char>> {
    Seq::new(list.len(), |i: int| list[i]@)
}

/// The texts of a list of variables: name and value of each.
pub open spec fn pair_texts(list: Seq<(String, String)>) -> Seq<(Seq<char>, Seq<char>)> {
    Seq::new(list.len(), |i: int| (list[i].0@, list[i].1@))
}

/// An environment after a series of assignments, made in order: each files its
/// value under the slot of its name, so that of two assignments to one slot the
/// later stands.
pub open spec fn overlay(
    base: Map<Seq<char>, Seq<char>>,
    assigned: Seq<(Seq<char>, Seq<char>)>,
) -> Map<Seq<char>, Seq<char>>
    decreases assigned.len(),
{
    if assigned.len() == 0 {
        base
    } else {
        overlay(base, assigned.drop_last()).insert(
            env_slot(assigned.last().0),
            assigned.last().1,
        )
    }
}

impl Command {
    /// The argument vector of the launch: the program, then the arguments.
    pub open spec fn argv(&self) -> Seq<Seq<char>> {
        seq![self.cmd@] + match self.args {
            Some(args) => texts(args@),
            None => Seq::empty(),
        }
    }

    /// The directory of the launch: the one asked for, or else the current one.
    pub open spec fn dir(&self, current_dir: Seq<char>) -> Seq<char> {
        match self.cwd {
            Some(dir) => dir@,
            None => current_dir,
        }
    }

    /// The assignments of the launch, in order: the search path, then the
    /// command's own variables.
    pub open spec fn assignments(&self, path: Seq<char>) -> Seq<(Seq<char>, Seq<char>)> {
        seq![("PATH"@, path)] + match self.env {
            Some(pairs) => pair_texts(pairs@),
            None => Seq::empty(),
        }
    }
}

/// Prepares a command for the provider. `path` is the search path of the running
/// process and `current_dir` its current directory; the second is used only if
/// the command names no directory of its own. The environment is that of a new
/// builder with the command's assignments laid over it.
pub fn build_command(command: &Command, path: &str, current_dir: &str) -> (cb: CommandBuilder)
    ensures
        builder_argv(cb) == command.argv(),
        builder_cwd(cb) == Some(command.dir(current_dir@)),
        exists|base: Map<Seq<char>, Seq<char>>|
            builder_env(cb) == #[trigger] overlay(base, command.assignments(path@)),
{
    let mut cb = new_builder(command.cmd.as_str());
    let ghost base = builder_env(cb);
    let ghost first = seq![("PATH"@, path@)];
    set_env(&mut cb, "PATH", path);
    proof {
        assert(first.drop_last() =~= Seq::<(Seq<char>, Seq<char>)>::empty());
        assert(first.last() == ("PATH"@, path@));
        assert(overlay(base, first.drop_last()) == base);
        assert(builder_env(cb) == overlay(base, first));
    }
    match &command.args {
        Some(args) => {
            add_args(&mut cb, args);
        },
        None => {
            assert(builder_argv(cb) + Seq::<Seq<char>>::empty() =~= builder_argv(cb));
        },
    }
    match &command.cwd {
        Some(dir) => {
            set_cwd(&mut cb, dir.as_str());
        },
        None => {
            set_cwd(&mut cb, current_dir);
        },
    }
    match &command.env {
        Some(pairs) => {
            let mut i: usize = 0;
            while i < pairs.len()
                invariant
                    i <= pairs.len(),
                    first == seq![("PATH"@, path@)],
                    builder_argv(cb) == command.argv(),
                    builder_cwd(cb) == Some(command.dir(current_dir@)),
                    builder_env(cb) == overlay(base, first + pair_texts(pairs@).take(i as int)),
                decreases pairs.len() - i,
            {
                let pair = &pairs[i];
                set_env(&mut cb, pair.0.as_str(), pair.1.as_str());
                proof {
                    let before = first + pair_texts(pairs@).take(i as int);
                    let after = first + pair_texts(pairs@).take(i + 1);
                    assert(after.drop_last() =~= before);
                    assert(after.last() == (pair.0@, pair.1@));
                }
                i += 1;
            }
            assert(pair_texts(pairs@).take(pairs.len() as int) =~= pair_texts(pairs@));
            assert(command.assignments(path@) == first + pair_texts(pairs@));
        },
        None => {
            assert(first + Seq::<(Seq<char>, Seq<char>)>::empty() =~= first);
            assert(command.assignments(path@) == first);
        },
    }
    assert(builder_env(cb) == overlay(base, command.assignments(path@)));
    cb
}

/// Of the assignments to one slot the last stands: a variable has the value of
/// the last assignment whose name shares its slot.
pub proof fn law_last_assignment_stands(
    base: Map<Seq<char>, Seq<char>>,
    assigned: Seq<(Seq<char>, Seq<char>)>,
    i: int,
)
    requires
        0 <= i < assigned.len(),
        forall|j: int|
            i < j < assigned.len() ==> env_slot(#[trigger] assigned[j].0) != env_slot(
                assigned[i].0,
            ),
    ensures
        overlay(base, assigned).contains_key(env_slot(assigned[i].0)),
        overlay(base, assigned)[env_slot(assigned[i].0)] == assigned[i].1,
    decreases assigned.len(),
{
    if i < assigned.len() - 1 {
        let front = assigned.drop_last();
        assert(front[i] == assigned[i]);
        assert forall|j: int| i < j < front.len() implies env_slot(#[trigger] front[j].0)
            != env_slot(front[i].0) by {
            assert(front[j] == assigned[j]);
        }
        law_last_assignment_stands(base, front, i);
        assert(env_slot(assigned[assigned.len() - 1].0) != env_slot(assigned[i].0));
    }
}

/// A slot that no assignment names keeps what the builder started with.
pub proof fn law_unassigned_is_kept(
    base: Map<Seq<char>, Seq<char>>,
    assigned: Seq<(Seq<char>, Seq<char>)>,
    slot: Seq<char>,
)
    requires
        forall|j: int| 0 <= j < assigned.len() ==> env_slot(#[trigger] assigned[j].0) != slot,
    ensures
        overlay(base, assigned).contains_key(slot) == base.contains_key(slot),
        base.contains_key(slot) ==> overlay(base, assigned)[slot] == base[slot],
    decreases assigned.len(),
{
    if assigned.len() > 0 {
        let front = assigned.drop_last();
        assert forall|j: int| 0 <= j < front.len() implies env_slot(#[trigger] front[j].0)
            != slot by {
            assert(front[j] == assigned[j]);
        }
        law_unassigned_is_kept(base, front, slot);
        assert(env_slot(assigned[assigned.len() - 1].0) != slot);
    }
}

} // verus!
