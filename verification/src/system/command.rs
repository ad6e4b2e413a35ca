//! Running system commands: what a command gives back, the executors that
//! run commands (a simulated one lives here; the real one runs processes
//! and lives with the program), and a builder for one command line.

use vstd::prelude::*;
use vstd::string::*;
use crate::error::{CommandError, InstallerError};
use crate::text::{cat, cat3, same_text, spaced, str_views};

verus! {

/// Something that runs system commands.
pub trait CommandExecutor {
    /// Runs `command` with `args` and gives back what it printed.
    fn execute(&self, command: &str, args: &[&str]) -> Result<CommandOutput, InstallerError>;

    /// Whether `command` is available.
    fn command_exists(&self, command: &str) -> bool;
}

/// What a command gave back.
#[derive(Debug)]
pub struct CommandOutput {
    /// Standard output
    pub stdout: String,
    /// Standard error
    pub stderr: String,
    /// Exit code
    pub exit_code: i32,
    /// Whether the command succeeded
    pub success: bool,
}

/// What a command gave back, as plain values.
pub struct OutputView {
    pub stdout: Seq<char>,
    pub stderr: Seq<char>,
    pub exit_code: i32,
    pub success: bool,
}

impl View for CommandOutput {
    type V = OutputView;

    open spec fn view(&self) -> OutputView {
        OutputView { stdout: self.stdout@, stderr: self.stderr@, exit_code: self.exit_code, success: self.success }
    }
}

impl Clone for CommandOutput {
    fn clone(&self) -> (r: Self)
        ensures
            r@ == self@,
    {
        CommandOutput {
            stdout: self.stdout.clone(),
            stderr: self.stderr.clone(),
            exit_code: self.exit_code,
            success: self.success,
        }
    }
}

/// The output of a successful command that printed `stdout`.
pub open spec fn succeeded_with(stdout: Seq<char>) -> OutputView {
    OutputView { stdout, stderr: Seq::empty(), exit_code: 0, success: true }
}

impl CommandOutput {
    /// An output; the command succeeded when its exit code is 0.
    pub fn new(stdout: String, stderr: String, exit_code: i32) -> (r: Self)
        ensures
            r@ == (OutputView { stdout: stdout@, stderr: stderr@, exit_code, success: exit_code == 0 }),
    {
        CommandOutput { stdout, stderr, exit_code, success: exit_code == 0 }
    }

    /// The output of a successful command.
    pub fn success(stdout: &str) -> (r: Self)
        ensures
            r@ == succeeded_with(stdout@),
    {
        CommandOutput::new(String::from_str(stdout), String::new(), 0)
    }

    /// The output of a failed command.
    pub fn failure(exit_code: i32, stderr: &str) -> (r: Self)
        ensures
            r@ == (OutputView { stdout: Seq::empty(), stderr: stderr@, exit_code, success: exit_code == 0 }),
    {
        CommandOutput::new(String::new(), String::from_str(stderr), exit_code)
    }
}

/// The response recorded last for `key` in `table`, if any.
pub open spec fn response(table: Seq<(Seq<char>, OutputView)>, key: Seq<char>) -> Option<OutputView>
    decreases table.len(),
{
    if table.len() == 0 {
        None
    } else if table.last().0 == key {
        Some(table.last().1)
    } else {
        response(table.drop_last(), key)
    }
}

/// How a command line is looked up: the command alone without arguments,
/// else the command and its arguments separated by spaces.
pub open spec fn command_line(command: Seq<char>, args: Seq<Seq<char>>) -> Seq<char> {
    if args.len() == 0 {
        command
    } else {
        command + " "@ + spaced(args)
    }
}

/// The commands a simulated system has.
pub open spec fn simulated_command(command: Seq<char>) -> bool {
    ||| command == "lsblk"@
    ||| command == "parted"@
    ||| command == "mkfs.ext4"@
    ||| command == "mkfs.fat"@
    ||| command == "mkswap"@
    ||| command == "mount"@
    ||| command == "umount"@
    ||| command == "nixos-generate-config"@
    ||| command == "nixos-install"@
}

/// The block-device listing the simulated `lsblk` prints.
pub open spec fn mock_lsblk_listing() -> Seq<char> {
    "{\n   \"blockdevices\": [\n      {\"name\": \"sda\", \"size\": \"256G\", \"type\": \"disk\", \"mountpoint\": null,\n       \"children\": [\n          {\"name\": \"sda1\", \"size\": \"512M\", \"type\": \"part\", \"mountpoint\": null},\n          {\"name\": \"sda2\", \"size\": \"247.5G\", \"type\": \"part\", \"mountpoint\": null},\n          {\"name\": \"sda3\", \"size\": \"8G\", \"type\": \"part\", \"mountpoint\": null}\n       ]\n      }\n   ]\n}"@
}

/// The memory summary the simulated `free -h` prints.
pub open spec fn mock_free_listing() -> Seq<char> {
    "              total        used        free      shared  buff/cache   available\nMem:           15Gi       2.0Gi       10Gi       100Mi       3.0Gi       13Gi\nSwap:            0B          0B          0B"@
}

/// The responses a new simulated executor starts with.
pub open spec fn default_responses() -> Seq<(Seq<char>, OutputView)> {
    seq![
        ("lsblk"@, succeeded_with(mock_lsblk_listing())),
        ("test -d /sys/firmware/efi"@, succeeded_with(Seq::empty())),
        ("ip link show"@, succeeded_with("1: lo: <LOOPBACK,UP,LOWER_UP>\n2: eth0: <BROADCAST,MULTICAST,UP,LOWER_UP>"@)),
        ("curl -I https://cache.nixos.org"@, succeeded_with("HTTP/2 200"@)),
        ("uname -m"@, succeeded_with("x86_64\n"@)),
        ("grep -c processor /proc/cpuinfo"@, succeeded_with("8\n"@)),
        ("free -h"@, succeeded_with(mock_free_listing())),
    ]
}

/// What the simulated executor answers to `command` with `args`: the
/// response recorded for the whole command line, else the one recorded for
/// the command alone, else a note that the command ran.
pub open spec fn simulated_output(table: Seq<(Seq<char>, OutputView)>, command: Seq<char>, args: Seq<Seq<char>>) -> OutputView {
    let key = command_line(command, args);
    match response(table, key) {
        Some(o) => o,
        None => match response(table, command) {
            Some(o) => o,
            None => succeeded_with("[MOCK] Command executed: "@ + key),
        },
    }
}

/// An executor that runs nothing and answers from a table of responses.
#[derive(Debug)]
pub struct MockExecutor {
    responses: Vec<(String, CommandOutput)>,
}

impl View for MockExecutor {
    type V = Seq<(Seq<char>, OutputView)>;

    closed spec fn view(&self) -> Seq<(Seq<char>, OutputView)> {
        self.responses@.map_values(|e: (String, CommandOutput)| (e.0@, e.1@))
    }
}

impl Default for MockExecutor {
    fn default() -> (r: Self)
        ensures
            r@ == default_responses(),
    {
        let mut executor = MockExecutor { responses: Vec::new() };
        assert(executor@ =~= Seq::<(Seq<char>, OutputView)>::empty());
        executor.add_response("lsblk", CommandOutput::success(
            "{\n   \"blockdevices\": [\n      {\"name\": \"sda\", \"size\": \"256G\", \"type\": \"disk\", \"mountpoint\": null,\n       \"children\": [\n          {\"name\": \"sda1\", \"size\": \"512M\", \"type\": \"part\", \"mountpoint\": null},\n          {\"name\": \"sda2\", \"size\": \"247.5G\", \"type\": \"part\", \"mountpoint\": null},\n          {\"name\": \"sda3\", \"size\": \"8G\", \"type\": \"part\", \"mountpoint\": null}\n       ]\n      }\n   ]\n}",
        ));
        executor.add_response("test -d /sys/firmware/efi", CommandOutput::success(""));
        executor.add_response("ip link show", CommandOutput::success(
            "1: lo: <LOOPBACK,UP,LOWER_UP>\n2: eth0: <BROADCAST,MULTICAST,UP,LOWER_UP>",
        ));
        executor.add_response("curl -I https://cache.nixos.org", CommandOutput::success("HTTP/2 200"));
        executor.add_response("uname -m", CommandOutput::success("x86_64\n"));
        executor.add_response("grep -c processor /proc/cpuinfo", CommandOutput::success("8\n"));
        executor.add_response("free -h", CommandOutput::success(
            "              total        used        free      shared  buff/cache   available\nMem:           15Gi       2.0Gi       10Gi       100Mi       3.0Gi       13Gi\nSwap:            0B          0B          0B",
        ));
        proof {
            reveal_strlit("");
            assert(""@ =~= Seq::<char>::empty());
        }
        assert(executor@ =~= default_responses());
        executor
    }
}

impl MockExecutor {
    /// An executor with the default responses.
    pub fn new() -> (r: Self)
        ensures
            r@ == default_responses(),
    {
        MockExecutor::default()
    }

    /// Records `output` as the response to `command`, in place of any
    /// earlier one.
    pub fn add_response(&mut self, command: &str, output: CommandOutput)
        ensures
            final(self)@ == old(self)@.push((command@, output@)),
    {
        self.responses.push((String::from_str(command), output));
        proof {
            assert(final(self)@ =~= old(self)@.push((command@, output@)));
        }
    }

    /// The key under which a command line is looked up.
    pub fn command_key(command: &str, args: &[&str]) -> (r: String)
        ensures
            r@ == command_line(command@, str_views(args@)),
    {
        if args.len() == 0 {
            return String::from_str(command);
        }
        let mut r = cat3(command, " ", args[0]);
        let mut i: usize = 1;
        while i < args.len()
            invariant
                1 <= i <= args@.len(),
                r@ == command@ + " "@ + spaced(str_views(args@).subrange(0, i as int)),
            decreases args@.len() - i,
        {
            proof {
                let w = str_views(args@);
                assert(w.subrange(0, i as int + 1).drop_last() =~= w.subrange(0, i as int));
            }
            r = r.concat(" ").concat(args[i]);
            i = i + 1;
        }
        proof {
            let w = str_views(args@);
            assert(w.subrange(0, args@.len() as int) =~= w);
            assert(w.subrange(0, 1) =~= seq![w[0]]);
        }
        r
    }

    /// The response recorded last for `key`.
    fn lookup(&self, key: &str) -> (r: Option<CommandOutput>)
        ensures
            match r {
                Some(o) => response(self@, key@) == Some(o@),
                None => response(self@, key@) is None,
            },
    {
        let mut i: usize = self.responses.len();
        assert(self@.subrange(0, i as int) =~= self@);
        while i > 0
            invariant
                i <= self.responses@.len(),
                self@.len() == self.responses@.len(),
                response(self@, key@) == response(self@.subrange(0, i as int), key@),
            decreases i,
        {
            proof {
                assert(self@.subrange(0, i as int).drop_last() =~= self@.subrange(0, i as int - 1));
            }
            if same_text(self.responses[i - 1].0.as_str(), key) {
                return Some(self.responses[i - 1].1.clone());
            }
            i = i - 1;
        }
        None
    }
}

/// Whether `command` is one of the commands a simulated system has.
fn is_simulated_command(command: &str) -> (r: bool)
    ensures
        r == simulated_command(command@),
{
    same_text(command, "lsblk") || same_text(command, "parted") || same_text(command, "mkfs.ext4")
        || same_text(command, "mkfs.fat") || same_text(command, "mkswap") || same_text(command, "mount")
        || same_text(command, "umount") || same_text(command, "nixos-generate-config")
        || same_text(command, "nixos-install")
}

impl CommandExecutor for MockExecutor {
    fn execute(&self, command: &str, args: &[&str]) -> (r: Result<CommandOutput, InstallerError>)
        ensures
            r matches Ok(o) && o@ == simulated_output(self@, command@, str_views(args@)),
    {
        let key = MockExecutor::command_key(command, args);
        match self.lookup(key.as_str()) {
            Some(o) => Ok(o),
            None => match self.lookup(command) {
                Some(o) => Ok(o),
                None => Ok(CommandOutput::success(cat("[MOCK] Command executed: ", key.as_str()).as_str())),
            },
        }
    }

    fn command_exists(&self, command: &str) -> (r: bool)
        ensures
            r == simulated_command(command@),
    {
        is_simulated_command(command)
    }
}

/// A command line to run: the command, its arguments and what it is for.
pub struct SafeCommand<'a, E: CommandExecutor> {
    command: String,
    args: Vec<String>,
    executor: &'a E,
    description: String,
}

/// A command line, seen from outside.
pub struct CommandLine {
    pub command: Seq<char>,
    pub args: Seq<Seq<char>>,
    pub description: Seq<char>,
}

impl<'a, E: CommandExecutor> View for SafeCommand<'a, E> {
    type V = CommandLine;

    closed spec fn view(&self) -> CommandLine {
        CommandLine {
            command: self.command@,
            args: self.args@.map_values(|a: String| a@),
            description: self.description@,
        }
    }
}

impl<'a, E: CommandExecutor> SafeCommand<'a, E> {
    /// A command without arguments, to be run by `executor`.
    pub fn new(command: &str, executor: &'a E, description: &str) -> (r: Self)
        ensures
            r@ == (CommandLine { command: command@, args: Seq::empty(), description: description@ }),
            r.runner() == executor,
    {
        let r = SafeCommand {
            command: String::from_str(command),
            args: Vec::new(),
            executor,
            description: String::from_str(description),
        };
        proof {
            assert(r@.args =~= Seq::<Seq<char>>::empty());
        }
        r
    }

    /// The same command with `arg` added after its arguments.
    pub fn arg(self, arg: &str) -> (r: Self)
        ensures
            r@ == (CommandLine { args: self@.args.push(arg@), ..self@ }),
            r.runner() == self.runner(),
    {
        let mut s = self;
        s.args.push(String::from_str(arg));
        proof {
            assert(s@.args =~= self@.args.push(arg@));
        }
        s
    }

    /// The same command with `args` added after its arguments, in order.
    pub fn args(self, args: &[&str]) -> (r: Self)
        ensures
            r@ == (CommandLine { args: self@.args + str_views(args@), ..self@ }),
            r.runner() == self.runner(),
    {
        let mut s = self;
        let mut i: usize = 0;
        while i < args.len()
            invariant
                i <= args@.len(),
                s@ == (CommandLine { args: self@.args + str_views(args@).subrange(0, i as int), ..self@ }),
                s.runner() == self.runner(),
            decreases args@.len() - i,
        {
            s = s.arg(args[i]);
            i = i + 1;
            proof {
                assert(self@.args + str_views(args@).subrange(0, i as int)
                    =~= (self@.args + str_views(args@).subrange(0, i as int - 1)).push(args@[i as int - 1]@));
            }
        }
        proof {
            assert(str_views(args@).subrange(0, args@.len() as int) =~= str_views(args@));
        }
        s
    }

    /// The executor that runs the command.
    pub closed spec fn runner(&self) -> &'a E {
        self.executor
    }

    /// Runs the command through its executor: the executor is handed the
    /// command and the arguments, in order, and its answer is given back.
    pub fn execute(&self) -> (r: Result<CommandOutput, InstallerError>)
        ensures
            exists|c: &str, a: &[&str]|
                c@ == self@.command && str_views(a@) == self@.args
                    && #[trigger] call_ensures(E::execute, (self.runner(), c, a), r),
    {
        let mut args: Vec<&str> = Vec::new();
        let mut i: usize = 0;
        while i < self.args.len()
            invariant
                i <= self.args@.len(),
                args@.len() == i,
                forall|k: int| 0 <= k < i ==> args@[k]@ == self.args@[k]@,
            decreases self.args@.len() - i,
        {
            args.push(self.args[i].as_str());
            i = i + 1;
        }
        let c = self.command.as_str();
        let a = args.as_slice();
        let r = self.executor.execute(c, a);
        assert(str_views(a@) =~= self@.args);
        assert(call_ensures(E::execute, (self.runner(), c, a), r));
        r
    }

    /// What the command is for.
    pub fn description(&self) -> (r: &str)
        ensures
            r@ == self@.description,
    {
        self.description.as_str()
    }

    /// The command line as shown to the user: the command, a space, and
    /// the arguments separated by spaces.
    pub fn to_string(&self) -> (r: String)
        ensures
            r@ == self@.command + " "@ + spaced(self@.args),
    {
        let mut r = cat(self.command.as_str(), " ");
        let mut i: usize = 0;
        while i < self.args.len()
            invariant
                i <= self.args@.len(),
                r@ == self@.command + " "@ + spaced(self@.args.subrange(0, i as int)),
            decreases self.args@.len() - i,
        {
            proof {
                let w = self@.args;
                assert(w.subrange(0, i as int + 1).drop_last() =~= w.subrange(0, i as int));
                if i == 0 {
                    assert(w.subrange(0, 1) =~= seq![w[0]]);
                }
            }
            if i > 0 {
                r = r.concat(" ");
            }
            r = r.concat(self.args[i].as_str());
            i = i + 1;
        }
        proof {
            assert(self@.args.subrange(0, self@.args.len() as int) =~= self@.args);
        }
        r
    }
}

/// What was recorded last for a command line is what the simulated
/// executor answers to it.
pub proof fn lemma_recorded_response_is_answered(
    table: Seq<(Seq<char>, OutputView)>,
    command: Seq<char>,
    args: Seq<Seq<char>>,
    output: OutputView,
)
    ensures
        simulated_output(table.push((command_line(command, args), output)), command, args) == output,
{
    assert(table.push((command_line(command, args), output)).drop_last() =~= table);
}

/// Recording a response for one line leaves the responses to every other
/// line as they were.
pub proof fn lemma_recording_leaves_other_lines(
    table: Seq<(Seq<char>, OutputView)>,
    line: Seq<char>,
    output: OutputView,
    other: Seq<char>,
)
    requires
        other != line,
    ensures
        response(table.push((line, output)), other) == response(table, other),
{
    assert(table.push((line, output)).drop_last() =~= table);
}

/// What running `command` came to, given what it gave back: the output
/// when it succeeded, else a failure with its exit code and error output.
pub fn command_result(command: &str, output: CommandOutput) -> (r: Result<CommandOutput, InstallerError>)
    ensures
        output.success ==> (r matches Ok(o) && o@ == output@),
        !output.success ==> (r matches Err(InstallerError::Command(CommandError::ExecutionFailed { command: c, code, stderr }))
            && c@ == command@ && code == output.exit_code && stderr@ == output.stderr@),
{
    if !output.success {
        return Err(InstallerError::Command(CommandError::ExecutionFailed {
            command: String::from_str(command),
            code: output.exit_code,
            stderr: output.stderr,
        }));
    }
    Ok(output)
}

/// The error when `command` could not be started: it does not exist, or
/// the system refused it for the reason `description`.
pub fn launch_error(command: &str, not_found: bool, description: &str) -> (e: InstallerError)
    ensures
        not_found ==> (e matches InstallerError::Command(CommandError::NotFound(c)) && c@ == command@),
        !not_found ==> (e matches InstallerError::Command(CommandError::InvalidArguments(m)) && m@ == description@),
{
    if not_found {
        InstallerError::Command(CommandError::NotFound(String::from_str(command)))
    } else {
        InstallerError::Command(CommandError::InvalidArguments(String::from_str(description)))
    }
}

} // verus!
