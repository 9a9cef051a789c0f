//! The command that starts a service.
use crate::liveness::{liveness_change, set_liveness_environment};
use crate::path::optional;
use vstd::prelude::*;
use vstd::slice::slice_to_vec;

verus! {

/// A change to the environment of a process. `N` is the name of a variable and `V` its value.
#[derive(Debug, PartialEq, Eq)]
pub enum EnvChange<N, V> {
    /// Give the variable this value, whether or not it exists.
    Assign { name: N, value: V },
    /// Remove the variable, if it exists.
    Remove { name: N },
}

impl View for EnvChange<String, Vec<u8>> {
    type V = EnvChange<Seq<char>, Seq<u8>>;

    open spec fn view(&self) -> EnvChange<Seq<char>, Seq<u8>> {
        match *self {
            EnvChange::Assign { name, value } => EnvChange::Assign { name: name@, value: value@ },
            EnvChange::Remove { name } => EnvChange::Remove { name: name@ },
        }
    }
}

/// The environment of a process: the variables that exist, with their values.
pub type Environment = Map<Seq<char>, Seq<u8>>;

/// The value that the variable `name` has, if it exists.
pub open spec fn env_value(environment: Environment, name: Seq<char>) -> Option<Seq<u8>> {
    if environment.contains_key(name) {
        Some(environment[name])
    } else {
        None
    }
}

/// `environment` after one change.
pub open spec fn env_changed(
    environment: Environment,
    change: EnvChange<Seq<char>, Seq<u8>>,
) -> Environment {
    match change {
        EnvChange::Assign { name, value } => environment.insert(name, value),
        EnvChange::Remove { name } => environment.remove(name),
    }
}

/// The environment of a process whose parent has `environment`, and which is started with
/// `changes`, one after the other.
pub open spec fn child_env(
    environment: Environment,
    changes: Seq<EnvChange<Seq<char>, Seq<u8>>>,
) -> Environment {
    changes.fold_left(environment, |env: Environment, change| env_changed(env, change))
}

/// A command to be run: the program, its arguments, and the changes to make to the environment it
/// runs in.
#[derive(Debug, PartialEq, Eq)]
pub struct ServiceCommand {
    pub program: Vec<u8>,
    pub args: Vec<Vec<u8>>,
    pub env: Vec<EnvChange<String, Vec<u8>>>,
}

/// A [`ServiceCommand`] as a mathematical value.
pub struct ServiceCommandView {
    pub program: Seq<u8>,
    pub args: Seq<Seq<u8>>,
    pub env: Seq<EnvChange<Seq<char>, Seq<u8>>>,
}

/// Components of a command line as byte sequences.
pub open spec fn components(line: Seq<Vec<u8>>) -> Seq<Seq<u8>> {
    line.map_values(|component: Vec<u8>| component@)
}

impl View for ServiceCommand {
    type V = ServiceCommandView;

    open spec fn view(&self) -> ServiceCommandView {
        ServiceCommandView {
            program: self.program@,
            args: components(self.args@),
            env: self.env@.map_values(|change: EnvChange<String, Vec<u8>>| change@),
        }
    }
}

impl ServiceCommandView {
    /// The whole command line: the program with its arguments behind it.
    pub open spec fn line(self) -> Seq<Seq<u8>> {
        seq![self.program] + self.args
    }
}

impl ServiceCommand {
    /// Add a change to those that are made to the environment.
    pub fn change_env(&mut self, change: EnvChange<String, Vec<u8>>)
        ensures
            final(self)@ == (ServiceCommandView {
                env: old(self)@.env.push(change@),
                ..old(self)@
            }),
            final(self).program == old(self).program,
            final(self).args == old(self).args,
            final(self).env@ == old(self).env@.push(change),
    {
        self.env.push(change);
        assert(self@.env =~= old(self)@.env.push(change@));
    }
}

/// The command line that a service is started with: the executor prefix, if there is one, then the
/// service's own command and arguments.
pub open spec fn full_line(
    executor_prefix: Option<Seq<Seq<u8>>>,
    command: Seq<u8>,
    args: Seq<Seq<u8>>,
) -> Seq<Seq<u8>> {
    match executor_prefix {
        Some(prefix) => prefix + seq![command] + args,
        None => seq![command] + args,
    }
}

/// An executor prefix that may be missing, as byte sequences.
pub open spec fn prefix_components(executor_prefix: Option<&[Vec<u8>]>) -> Option<Seq<Seq<u8>>> {
    match executor_prefix {
        Some(prefix) => Some(components(prefix@)),
        None => None,
    }
}

/// Copy the components of `line` behind those of `onto`.
pub(crate) fn append_components(onto: &mut Vec<Vec<u8>>, line: &[Vec<u8>])
    ensures
        components(final(onto)@) == components(old(onto)@) + components(line@),
{
    let ghost before = onto@;
    let mut i: usize = 0;
    while i < line.len()
        invariant
            i <= line.len(),
            components(onto@) == components(before) + components(line@.take(i as int)),
        decreases line.len() - i,
    {
        let ghost so_far = onto@;
        onto.push(slice_to_vec(line[i].as_slice()));
        assert(components(onto@) =~= components(so_far).push(line@[i as int]@));
        assert(components(line@.take(i + 1)) =~= components(line@.take(i as int)).push(
            line@[i as int]@,
        ));
        i = i + 1;
    }
    assert(line@.take(line@.len() as int) =~= line@);
}

/// How a service that was declared with a command is started.
#[derive(Debug, PartialEq, Eq)]
pub struct DeclaredCommand {
    pub command: Vec<u8>,
    pub args: Vec<Vec<u8>>,
}

impl DeclaredCommand {
    /// The command to run to start the service: the executor prefix goes before the service's own
    /// command line, so its first component is the program if it has one, and the path of the
    /// liveness socket is passed through in the environment.
    pub fn run_service_command_raw(
        &self,
        executor_commandline_prefix: Option<&[Vec<u8>]>,
        liveness_path: Option<&[u8]>,
    ) -> (command: ServiceCommand)
        ensures
            command@.line() == full_line(
                prefix_components(executor_commandline_prefix),
                self.command@,
                components(self.args@),
            ),
            command@.env == seq![
                liveness_change(optional(liveness_path)),
            ],
            match executor_commandline_prefix {
                Some(prefix) => {
                    &&& command.args@.len() == prefix@.len() + self.args@.len()
                    &&& prefix@.len() == 0 ==> command.program@ == self.command@
                    &&& prefix@.len() > 0 ==> command.program@ == prefix@[0]@
                        && command.args@[prefix@.len() - 1]@ == self.command@
                    &&& forall|i: int|
                        0 < i < prefix@.len() ==> (#[trigger] prefix@[i])@ == command.args@[i
                            - 1]@
                    &&& forall|i: int|
                        0 <= i < self.args@.len() ==> (#[trigger] self.args@[i])@
                            == command.args@[prefix@.len() + i]@
                },
                None => {
                    &&& command.args@.len() == self.args@.len()
                    &&& command.program@ == self.command@
                    &&& forall|i: int|
                        0 <= i < self.args@.len() ==> (#[trigger] self.args@[i])@
                            == command.args@[i]@
                },
            },
            command.env@.len() == 1,
            match liveness_path {
                Some(path) => command.env@[0] matches EnvChange::Assign { name, value } && name@
                    == "SUSS_LIVENESS_SOCKET_PATH"@ && value@ == path@,
                None => command.env@[0] matches EnvChange::Remove { name } && name@
                    == "SUSS_LIVENESS_SOCKET_PATH"@,
            },
    {
        let mut line: Vec<Vec<u8>> = Vec::new();
        assert(components(line@) =~= Seq::empty());
        if let Some(prefix) = executor_commandline_prefix {
            append_components(&mut line, prefix);
        }
        let ghost prefixed = line@;
        line.push(slice_to_vec(self.command.as_slice()));
        assert(components(line@) =~= components(prefixed).push(self.command@));
        append_components(&mut line, self.args.as_slice());
        let ghost whole = line@;
        assert(components(whole).len() == whole.len());
        let program = line.remove(0);
        let mut command = ServiceCommand { program, args: line, env: Vec::new() };
        assert(command@.line() =~= components(whole));
        assert(components(whole) =~= full_line(
            prefix_components(executor_commandline_prefix),
            self.command@,
            components(self.args@),
        ));
        proof {
            law_full_line(executor_commandline_prefix, self.command@, self.args@);
            law_command_is_seen_whole(command);
            let placed = command@.line();
            if let Some(prefix) = executor_commandline_prefix {
                assert forall|i: int| 0 < i < prefix@.len() implies (#[trigger] prefix@[i])@
                    == command.args@[i - 1]@ by {
                    assert(placed[i] == prefix@[i]@);
                }
                assert forall|i: int| 0 <= i < self.args@.len() implies (#[trigger] self.args@[i])@
                    == command.args@[prefix@.len() + i]@ by {
                    assert(placed[prefix@.len() + 1 + i] == self.args@[i]@);
                }
                assert(placed[prefix@.len() as int] == self.command@);
                assert(prefix@.len() > 0 ==> placed[0] == prefix@[0]@);
            } else {
                assert forall|i: int| 0 <= i < self.args@.len() implies (#[trigger] self.args@[i])@
                    == command.args@[i]@ by {
                    assert(placed[1 + i] == self.args@[i]@);
                }
            }
        }
        set_liveness_environment(&mut command, liveness_path);
        command
    }
}

/// With an executor prefix, its first component is the program that is run, and the service's own
/// command line ends up behind the rest of the prefix as the program's arguments. Without one, or
/// with an empty one, the service's own command is the program.
pub proof fn law_executor_prefix_comes_first(
    command: ServiceCommandView,
    executor_prefix: Option<Seq<Seq<u8>>>,
    own_command: Seq<u8>,
    own_args: Seq<Seq<u8>>,
)
    requires
        command.line() == full_line(executor_prefix, own_command, own_args),
    ensures
        executor_prefix matches Some(prefix) ==> prefix.len() > 0 ==> {
            &&& command.program == prefix[0]
            &&& command.args == prefix.skip(1) + seq![own_command] + own_args
        },
        executor_prefix is None || executor_prefix == Some(Seq::<Seq<u8>>::empty()) ==> {
            &&& command.program == own_command
            &&& command.args == own_args
        },
{
    let line = command.line();
    assert(command.program == line[0]);
    assert(command.args =~= line.skip(1));
    match executor_prefix {
        Some(prefix) => {
            if prefix.len() > 0 {
                assert(line.skip(1) =~= prefix.skip(1) + seq![own_command] + own_args);
            } else {
                assert(line =~= seq![own_command] + own_args);
                assert(line.skip(1) =~= own_args);
            }
        },
        None => {
            assert(line.skip(1) =~= own_args);
        },
    }
}

/// The components of a command line are seen byte for byte, all of them, in their order.
pub proof fn law_components_are_seen_in_order(line: Seq<Vec<u8>>)
    ensures
        components(line).len() == line.len(),
        forall|i: int| 0 <= i < line.len() ==> (#[trigger] components(line)[i]) == line[i]@,
{
}

/// The command line that a service is started with, component by component: those of the executor
/// prefix as they are given, if there is one, then the command, then its arguments.
pub proof fn law_full_line(
    executor_prefix: Option<&[Vec<u8>]>,
    command: Seq<u8>,
    args: Seq<Vec<u8>>,
)
    ensures
        ({
            let line = full_line(prefix_components(executor_prefix), command, components(args));
            match executor_prefix {
                Some(prefix) => {
                    &&& line.len() == prefix@.len() + 1 + args.len()
                    &&& forall|i: int|
                        0 <= i < prefix@.len() ==> (#[trigger] line[i]) == prefix@[i]@
                    &&& line[prefix@.len() as int] == command
                    &&& forall|i: int|
                        prefix@.len() < i < line.len() ==> (#[trigger] line[i]) == args[i
                            - prefix@.len() - 1]@
                },
                None => {
                    &&& line.len() == 1 + args.len()
                    &&& line[0] == command
                    &&& forall|i: int|
                        0 < i < line.len() ==> (#[trigger] line[i]) == args[i - 1]@
                },
            }
        }),
{
}

/// A command is seen as it is: its program and its arguments byte for byte, and the changes to its
/// environment in their order. Its line is the program with the arguments behind it.
pub proof fn law_command_is_seen_whole(command: ServiceCommand)
    ensures
        command@.program == command.program@,
        command@.args.len() == command.args@.len(),
        forall|i: int|
            0 <= i < command.args@.len() ==> (#[trigger] command@.args[i]) == command.args@[i]@,
        command@.env.len() == command.env@.len(),
        forall|i: int|
            0 <= i < command.env@.len() ==> (#[trigger] command@.env[i]) == command.env@[i]@,
        command@.line().len() == 1 + command.args@.len(),
        command@.line()[0] == command.program@,
        forall|i: int|
            0 < i <= command.args@.len() ==> (#[trigger] command@.line()[i]) == command.args@[i
                - 1]@,
{
}

/// A change to an environment is seen as it is.
pub proof fn law_env_change_is_seen_whole(change: EnvChange<String, Vec<u8>>)
    ensures
        match change {
            EnvChange::Assign { name, value } => change@ matches EnvChange::Assign {
                name: seen_name,
                value: seen,
            } && seen_name == name@ && seen == value@,
            EnvChange::Remove { name } => change@ matches EnvChange::Remove { name: seen_name }
                && seen_name == name@,
        },
{
}

/// What an environment holds, and what changes do to it: one that assigns gives its variable its
/// value, one that removes takes its variable away, neither touches another variable, and changes
/// are made one after the other.
pub proof fn law_environment_changes(
    environment: Environment,
    changes: Seq<EnvChange<Seq<char>, Seq<u8>>>,
    change: EnvChange<Seq<char>, Seq<u8>>,
    name: Seq<char>,
)
    ensures
        env_value(environment, name) == if environment.dom().contains(name) {
            Some(environment[name])
        } else {
            None
        },
        env_value(env_changed(environment, change), name) == match change {
            EnvChange::Assign { name: assigned, value } => if assigned == name {
                Some(value)
            } else {
                env_value(environment, name)
            },
            EnvChange::Remove { name: removed } => if removed == name {
                None
            } else {
                env_value(environment, name)
            },
        },
        child_env(environment, Seq::empty()) == environment,
        child_env(environment, changes.push(change)) == env_changed(
            child_env(environment, changes),
            change,
        ),
{
    let all = changes.push(change);
    assert(all.drop_last() =~= changes);
}

/// An executor prefix that is given is seen component by component, in order, and one that is
/// missing is missing.
pub proof fn law_prefix_is_seen_in_order(prefix: &[Vec<u8>])
    ensures
        prefix_components(None) is None,
        prefix_components(Some(prefix)) matches Some(seen) && {
            &&& seen.len() == prefix@.len()
            &&& forall|i: int| 0 <= i < prefix@.len() ==> (#[trigger] seen[i]) == prefix@[i]@
        },
{
}

} // verus!
