//! The command line that starts a tty's child.

use std::collections::HashMap;

use vstd::prelude::*;

verus! {

/// The program to run in a tty, and its arguments.
#[derive(Debug)]
pub struct Shell {
    /// Path of the program.
    pub program: String,
    /// Arguments that the program is given.
    pub args: Vec<String>,
}

/// How to set up a tty.
#[derive(Debug)]
pub struct Options {
    /// What to run, if not the default shell.
    pub shell: Option<Shell>,
    /// Where the child starts, if not where the terminal does.
    pub working_directory: Option<String>,
    /// Is the output that is left read after the child has exited?
    pub drain_on_exit: bool,
    /// Additional environment variables for the child.
    pub env: HashMap<String, String>,
    /// Are the arguments quoted so that the child gets each of them as it stands?
    pub escape_args: bool,
}

/// Does `text` hold a space or a tab, at which a command line is taken apart?
pub open spec fn has_blank(text: Seq<char>) -> bool {
    text.contains(' ') || text.contains('\t')
}

/// A run of `count` backslashes.
pub open spec fn backslashes(count: nat) -> Seq<char> {
    Seq::new(count, |i: int| '\\')
}

/// How many backslashes `text` ends in.
pub open spec fn trailing_backslashes(text: Seq<char>) -> nat
    decreases text.len(),
{
    if text.len() == 0 || text.last() != '\\' {
        0
    } else {
        1 + trailing_backslashes(text.drop_last())
    }
}

/// `arg` with its quote marks escaped: the backslashes in front of each are doubled, and one
/// more is added.
pub open spec fn escaped_quotes(arg: Seq<char>) -> Seq<char>
    decreases arg.len(),
{
    if arg.len() == 0 {
        Seq::empty()
    } else {
        let before = arg.drop_last();
        if arg.last() == '"' {
            escaped_quotes(before) + backslashes(trailing_backslashes(before) + 1) + seq!['"']
        } else {
            escaped_quotes(before).push(arg.last())
        }
    }
}

/// Must `arg` be wrapped in quote marks to stay in one piece?
pub open spec fn needs_quotes(arg: Seq<char>) -> bool {
    arg.len() == 0 || has_blank(arg)
}

/// `arg` as it stands on a command line. Inside quote marks the backslashes at its end are
/// doubled, so that they do not escape the closing mark.
pub open spec fn escaped_arg(arg: Seq<char>) -> Seq<char> {
    if needs_quotes(arg) {
        seq!['"'] + escaped_quotes(arg) + backslashes(trailing_backslashes(arg)) + seq!['"']
    } else {
        escaped_quotes(arg)
    }
}

/// `program` as it stands on a command line.
pub open spec fn program_part(program: Seq<char>, escape: bool) -> Seq<char> {
    if escape && has_blank(program) {
        seq!['"'] + program + seq!['"']
    } else {
        program
    }
}

/// The arguments as they stand on a command line, each after a space.
pub open spec fn args_part(args: Seq<Seq<char>>, escape: bool) -> Seq<char>
    decreases args.len(),
{
    if args.len() == 0 {
        Seq::empty()
    } else {
        let arg = if escape {
            escaped_arg(args.last())
        } else {
            args.last()
        };
        args_part(args.drop_last(), escape).push(' ') + arg
    }
}

/// The whole command line.
pub open spec fn command_line(program: Seq<char>, args: Seq<Seq<char>>, escape: bool) -> Seq<
    char,
> {
    program_part(program, escape) + args_part(args, escape)
}

/// The text of each string.
pub open spec fn texts(strings: Seq<String>) -> Seq<Seq<char>> {
    strings.map_values(|s: String| s@)
}

/// `String::push` puts the character at the end of the string.
pub assume_specification[ String::push ](s: &mut String, c: char)
    ensures
        final(s)@ == old(s)@.push(c),
;

impl Shell {
    /// A program with its arguments.
    pub fn new(program: String, args: Vec<String>) -> (shell: Self)
        ensures
            shell == (Shell { program, args }),
    {
        Shell { program, args }
    }
}

impl Options {
    /// The program that is to run.
    pub open spec fn program_text(&self) -> Seq<char> {
        match self.shell {
            Some(shell) => shell.program@,
            None => "powershell"@,
        }
    }

    /// The arguments that it is to get.
    pub open spec fn arg_texts(&self) -> Seq<Seq<char>> {
        match self.shell {
            Some(shell) => texts(shell.args@),
            None => Seq::empty(),
        }
    }
}

impl Default for Options {
    /// The default shell, in the terminal's own surroundings, with nothing escaped.
    fn default() -> (options: Self)
        ensures
            options.shell is None,
            options.working_directory is None,
            !options.drain_on_exit,
            options.env@ == Map::<String, String>::empty(),
            !options.escape_args,
    {
        Options {
            shell: None,
            working_directory: None,
            drain_on_exit: false,
            env: HashMap::new(),
            escape_args: false,
        }
    }
}

/// Looks for a space or a tab.
fn contains_blank(text: &str) -> (res: bool)
    ensures
        res == has_blank(text@),
{
    for c in it: text.chars()
        invariant
            it.seq() == text@,
            forall|i: int| 0 <= i < it.index() ==> text@[i] != ' ' && text@[i] != '\t',
    {
        if c == ' ' || c == '\t' {
            assert(text@[it.index() as int] == c);
            return true;
        }
    }
    false
}

/// Appends `arg` to the command line `cmd`, in the form in which the child reads `arg` back.
pub fn push_escaped_arg(cmd: &mut String, arg: &str)
    ensures
        final(cmd)@ == old(cmd)@ + escaped_arg(arg@),
{
    let quote = arg.is_empty() || contains_blank(arg);
    if quote {
        cmd.push('"');
    }
    let ghost start = cmd@;
    let len: usize = arg.unicode_len();
    let mut slashes: usize = 0;
    for x in it: arg.chars()
        invariant
            it.seq() == arg@,
            len == arg@.len(),
            slashes == trailing_backslashes(arg@.take(it.index() as int)),
            slashes <= it.index(),
            cmd@ == start + escaped_quotes(arg@.take(it.index() as int)),
    {
        proof {
            let i = it.index() as int;
            assert(arg@.take(i + 1).drop_last() =~= arg@.take(i));
            assert(arg@.take(i + 1).last() == x);
        }
        let ghost before = cmd@;
        if x == '\\' {
            slashes = slashes + 1;
        } else {
            if x == '"' {
                // One more than the run in front, to total an odd number before the mark.
                push_backslashes(cmd, slashes);
                cmd.push('\\');
                assert(cmd@ =~= before + backslashes(slashes as nat + 1));
            }
            slashes = 0;
        }
        cmd.push(x);
    }
    assert(arg@.take(len as int) =~= arg@);
    if quote {
        // As many again, to total an even number before the closing mark.
        push_backslashes(cmd, slashes);
        cmd.push('"');
    }
}

/// The command line for the child that `config` asks for.
///
/// With no application name of its own, the system takes an unquoted program path up to each
/// space in turn and runs the first file that it finds. So a path with blanks in it is
/// wrapped in quote marks, which is all it needs, for a path holds no quote marks itself.
/// Without escaping, the program and its arguments stand as they were given, one space apart.
pub fn cmdline(config: &Options) -> (cmd: String)
    ensures
        cmd@ == command_line(config.program_text(), config.arg_texts(), config.escape_args),
{
    let default_shell = Shell::new("powershell".to_owned(), Vec::new());
    let shell = match &config.shell {
        Some(shell) => shell,
        None => &default_shell,
    };
    proof {
        assert(texts(default_shell.args@) =~= Seq::<Seq<char>>::empty());
    }
    let ghost args = texts(shell.args@);

    let mut cmd = String::new();
    if config.escape_args && contains_blank(shell.program.as_str()) {
        cmd.push('"');
        cmd.append(shell.program.as_str());
        cmd.push('"');
    } else {
        cmd.append(shell.program.as_str());
    }
    let ghost program = cmd@;
    assert(program =~= program_part(shell.program@, config.escape_args));

    for i in 0..shell.args.len()
        invariant
            args == texts(shell.args@),
            cmd@ == program + args_part(args.take(i as int), config.escape_args),
    {
        let arg = shell.args[i].as_str();
        proof {
            assert(args.take(i + 1).drop_last() =~= args.take(i as int));
            assert(args.take(i + 1).last() == arg@);
        }
        cmd.push(' ');
        if config.escape_args {
            push_escaped_arg(&mut cmd, arg);
        } else {
            cmd.append(arg);
        }
        assert(cmd@ =~= program + args_part(args.take(i + 1), config.escape_args));
    }
    assert(args.take(args.len() as int) =~= args);
    cmd
}

/// Appends `count` backslashes.
fn push_backslashes(cmd: &mut String, count: usize)
    ensures
        final(cmd)@ == old(cmd)@ + backslashes(count as nat),
{
    for i in 0..count
        invariant
            cmd@ == old(cmd)@ + backslashes(i as nat),
    {
        cmd.push('\\');
    }
}

} // verus!
