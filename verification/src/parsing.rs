//! How a child on Windows takes its command line apart, and the laws that tie this to the
//! command line that it is given.
//!
//! Arguments stand between blanks. A quote mark begins or ends a stretch in which blanks are
//! ordinary characters. Backslashes are ordinary too, except in front of a quote mark: there
//! two of them stand for one, and an odd one makes the mark an ordinary character. These are
//! the rules that `CommandLineToArgvW` is documented to follow.

use vstd::prelude::*;

use crate::command_line::{
    args_part, backslashes, command_line, escaped_arg, escaped_quotes, has_blank, needs_quotes,
    program_part, trailing_backslashes,
};

verus! {

/// Where the reading of arguments has got to.
#[verifier::ext_equal]
pub struct Reading {
    /// The arguments that are complete.
    pub args: Seq<Seq<char>>,
    /// The argument that is being read, but for `slashes`.
    pub current: Seq<char>,
    /// Is there an argument being read?
    pub started: bool,
    /// Are blanks ordinary characters?
    pub quoted: bool,
    /// Backslashes that were read last, and whose meaning hangs on what follows.
    pub slashes: nat,
}

/// Is `c` a character that separates arguments?
pub open spec fn is_blank(c: char) -> bool {
    c == ' ' || c == '\t'
}

impl Reading {
    /// Nothing has been read.
    pub open spec fn start() -> Self {
        Reading {
            args: Seq::empty(),
            current: Seq::empty(),
            started: false,
            quoted: false,
            slashes: 0,
        }
    }

    /// The arguments, if the text ends here.
    pub open spec fn all_args(self) -> Seq<Seq<char>> {
        if self.started {
            self.args.push(self.current + backslashes(self.slashes))
        } else {
            self.args
        }
    }

    /// Reads one character.
    pub open spec fn step(self, c: char) -> Self {
        if c == '\\' {
            Reading { started: true, slashes: self.slashes + 1, ..self }
        } else if c == '"' && self.slashes % 2 == 0 {
            Reading {
                current: self.current + backslashes(self.slashes / 2),
                started: true,
                quoted: !self.quoted,
                slashes: 0,
                ..self
            }
        } else if c == '"' {
            Reading {
                current: (self.current + backslashes(self.slashes / 2)).push('"'),
                started: true,
                slashes: 0,
                ..self
            }
        } else if is_blank(c) && !self.quoted {
            Reading { args: self.all_args(), ..Reading::start() }
        } else {
            Reading {
                current: (self.current + backslashes(self.slashes)).push(c),
                started: true,
                slashes: 0,
                ..self
            }
        }
    }

    /// Reads a text.
    pub open spec fn read(self, text: Seq<char>) -> Self
        decreases text.len(),
    {
        if text.len() == 0 {
            self
        } else {
            self.read(text.drop_last()).step(text.last())
        }
    }
}

/// The arguments in what follows the program on a command line.
pub open spec fn read_args(text: Seq<char>) -> Seq<Seq<char>> {
    Reading::start().read(text).all_args()
}

/// How many characters of `text` come before the first one that is a `stop`.
pub open spec fn length_before(text: Seq<char>, stop: spec_fn(char) -> bool) -> nat
    decreases text.len(),
{
    if text.len() == 0 || stop(text[0]) {
        0
    } else {
        1 + length_before(text.drop_first(), stop)
    }
}

/// Does the command line begin with a quote mark?
pub open spec fn starts_quoted(line: Seq<char>) -> bool {
    line.len() > 0 && line[0] == '"'
}

/// The program on a command line: what stands between quote marks, if the line begins with
/// one, and otherwise what comes before the first blank.
pub open spec fn read_program(line: Seq<char>) -> Seq<char> {
    if starts_quoted(line) {
        let inner = line.skip(1);
        inner.take(length_before(inner, |c: char| c == '"') as int)
    } else {
        line.take(length_before(line, |c: char| is_blank(c)) as int)
    }
}

/// What follows the program on a command line.
pub open spec fn after_program(line: Seq<char>) -> Seq<char> {
    if starts_quoted(line) {
        let inner = line.skip(1);
        inner.skip(length_before(inner, |c: char| c == '"') as int + 1)
    } else {
        line.skip(length_before(line, |c: char| is_blank(c)) as int)
    }
}

proof fn lemma_read_concat(from: Reading, a: Seq<char>, b: Seq<char>)
    ensures
        from.read(a + b) == from.read(a).read(b),
    decreases b.len(),
{
    if b.len() == 0 {
        assert(a + b =~= a);
    } else {
        assert((a + b).drop_last() =~= a + b.drop_last());
        lemma_read_concat(from, a, b.drop_last());
    }
}

proof fn lemma_read_push(from: Reading, a: Seq<char>, c: char)
    ensures
        from.read(a.push(c)) == from.read(a).step(c),
{
    assert(a.push(c).drop_last() =~= a);
}

proof fn lemma_read_backslashes(from: Reading, count: nat)
    ensures
        from.read(backslashes(count)) == (Reading {
            started: from.started || count > 0,
            slashes: from.slashes + count,
            ..from
        }),
    decreases count,
{
    if count > 0 {
        assert(backslashes(count).drop_last() =~= backslashes((count - 1) as nat));
        lemma_read_backslashes(from, (count - 1) as nat);
    }
}

/// A text is what comes before the backslashes at its end, and those.
proof fn lemma_trailing_backslashes(text: Seq<char>)
    ensures
        trailing_backslashes(text) <= text.len(),
        text == text.take(text.len() - trailing_backslashes(text)) + backslashes(
            trailing_backslashes(text),
        ),
    decreases text.len(),
{
    if text.len() > 0 && text.last() == '\\' {
        let before = text.drop_last();
        lemma_trailing_backslashes(before);
        let t = trailing_backslashes(before);
        assert(before.take(before.len() - t) =~= text.take(text.len() - (t + 1)));
        assert(backslashes(t + 1) =~= backslashes(t).push('\\'));
        assert(text =~= before.push('\\'));
    } else {
        assert(text =~= text.take(text.len() as int) + backslashes(0));
    }
}

/// Reading an argument with its quote marks escaped reads the argument.
proof fn lemma_read_escaped_quotes(from: Reading, arg: Seq<char>)
    requires
        from.slashes == 0,
        from.quoted || !has_blank(arg),
    ensures
        from.read(escaped_quotes(arg)) == (Reading {
            current: from.current + arg.take(arg.len() - trailing_backslashes(arg)),
            started: from.started || arg.len() > 0,
            slashes: trailing_backslashes(arg),
            ..from
        }),
    decreases arg.len(),
{
    lemma_trailing_backslashes(arg);
    if arg.len() == 0 {
        assert(from.current + arg.take(0) =~= from.current);
    } else {
        let before = arg.drop_last();
        let c = arg.last();
        let t = trailing_backslashes(before);
        assert forall|x: char| before.contains(x) implies arg.contains(x) by {
            let i = before.index_of(x);
            assert(arg[i] == x);
        }
        assert(arg.contains(c)) by {
            assert(arg[arg.len() - 1] == c);
        }
        lemma_read_escaped_quotes(from, before);
        lemma_trailing_backslashes(before);
        let mid = from.read(escaped_quotes(before));
        assert(arg =~= before.push(c));
        if c == '"' {
            let body = escaped_quotes(before);
            let slashes = backslashes(t + 1);
            assert(body + slashes + seq!['"'] =~= (body + slashes).push('"'));
            lemma_read_push(from, body + slashes, '"');
            lemma_read_concat(from, body, slashes);
            lemma_read_backslashes(mid, t + 1);
            assert((t + t + 1) % 2 == 1 && (t + t + 1) / 2 == t);
            assert((mid.current + backslashes(t)).push('"') =~= from.current + arg.take(
                arg.len() as int,
            ));
        } else {
            lemma_read_push(from, escaped_quotes(before), c);
            if c == '\\' {
                assert(arg.take(arg.len() - (t + 1)) =~= before.take(before.len() - t));
            } else {
                assert((mid.current + backslashes(t)).push(c) =~= from.current + arg.take(
                    arg.len() as int,
                ));
            }
        }
    }
}

/// Between two arguments, reading an escaped one reads that argument and nothing else.
proof fn lemma_read_escaped_arg(args: Seq<Seq<char>>, arg: Seq<char>)
    ensures
        ({
            let from = Reading { args, ..Reading::start() };
            let to = from.read(escaped_arg(arg));
            to.all_args() == args.push(arg) && !to.quoted
        }),
{
    let from = Reading { args, ..Reading::start() };
    let t = trailing_backslashes(arg);
    lemma_trailing_backslashes(arg);
    if needs_quotes(arg) {
        let opened = from.step('"');
        assert(from.read(seq!['"']) == opened) by {
            assert(seq!['"'] =~= Seq::<char>::empty().push('"'));
            lemma_read_push(from, Seq::empty(), '"');
        }
        assert(from.current + backslashes(0) =~= Seq::<char>::empty());
        let body = escaped_quotes(arg);
        lemma_read_escaped_quotes(opened, arg);
        let mid = opened.read(body);
        lemma_read_backslashes(mid, t);
        let last = mid.read(backslashes(t));
        let before_close = seq!['"'] + body + backslashes(t);
        lemma_read_concat(from, seq!['"'], body);
        lemma_read_concat(from, seq!['"'] + body, backslashes(t));
        assert(escaped_arg(arg) =~= before_close.push('"'));
        lemma_read_push(from, before_close, '"');
        assert((t + t) % 2 == 0 && (t + t) / 2 == t);
        assert(last.current + backslashes(t) =~= arg);
        assert(arg + backslashes(0) =~= arg);
    } else {
        lemma_read_escaped_quotes(from, arg);
        assert(from.current + arg.take(arg.len() - t) =~= arg.take(arg.len() - t));
    }
}

proof fn lemma_read_args_part(args: Seq<Seq<char>>)
    ensures
        Reading::start().read(args_part(args, true)).all_args() == args,
        !Reading::start().read(args_part(args, true)).quoted,
    decreases args.len(),
{
    if args.len() > 0 {
        let before = args.drop_last();
        lemma_read_args_part(before);
        lemma_read_push(Reading::start(), args_part(before, true), ' ');
        lemma_read_concat(
            Reading::start(),
            args_part(before, true).push(' '),
            escaped_arg(args.last()),
        );
        lemma_read_escaped_arg(before, args.last());
        assert(before.push(args.last()) =~= args);
    } else {
        assert(Seq::<Seq<char>>::empty() =~= args);
    }
}

proof fn lemma_args_part_start(args: Seq<Seq<char>>, escape: bool)
    ensures
        args_part(args, escape).len() > 0 ==> args_part(args, escape)[0] == ' ',
    decreases args.len(),
{
    if args.len() > 0 {
        lemma_args_part_start(args.drop_last(), escape);
    }
}

proof fn lemma_length_before(a: Seq<char>, b: Seq<char>, stop: spec_fn(char) -> bool)
    requires
        forall|i: int| 0 <= i < a.len() ==> !stop(#[trigger] a[i]),
        b.len() > 0 ==> stop(b[0]),
    ensures
        length_before(a + b, stop) == a.len(),
    decreases a.len(),
{
    if a.len() == 0 {
        assert(a + b =~= b);
    } else {
        assert((a + b)[0] == a[0]);
        assert((a + b).drop_first() =~= a.drop_first() + b);
        assert forall|i: int| 0 <= i < a.drop_first().len() implies !stop(
            #[trigger] a.drop_first()[i],
        ) by {
            assert(a.drop_first()[i] == a[i + 1]);
        }
        lemma_length_before(a.drop_first(), b, stop);
    }
}

/// An escaped command line is read back as the program and the arguments that it was made
/// from, whatever the arguments hold. A path holds no quote marks; a program with one in it
/// is not covered.
pub proof fn law_escaped_command_line_is_read_back(program: Seq<char>, args: Seq<Seq<char>>)
    requires
        !program.contains('"'),
    ensures
        read_program(command_line(program, args, true)) == program,
        read_args(after_program(command_line(program, args, true))) == args,
{
    let line = command_line(program, args, true);
    let rest = args_part(args, true);
    lemma_args_part_start(args, true);
    lemma_read_args_part(args);
    if has_blank(program) {
        let stop = |c: char| c == '"';
        let inner = line.skip(1);
        assert(inner =~= program + (seq!['"'] + rest));
        lemma_length_before(program, seq!['"'] + rest, stop);
        assert(inner.take(program.len() as int) =~= program);
        assert(inner.skip(program.len() as int + 1) =~= rest);
    } else {
        let stop = |c: char| is_blank(c);
        assert(program_part(program, true) == program);
        lemma_length_before(program, rest, stop);
        assert(line.take(program.len() as int) =~= program);
        assert(line.skip(program.len() as int) =~= rest);
    }
}

/// After a space behind any escaped arguments, one more escaped argument is read as exactly
/// that argument, and changes nothing about those before it.
pub proof fn law_escaped_arg_is_one_arg(args: Seq<Seq<char>>, arg: Seq<char>)
    ensures
        read_args(args_part(args, true).push(' ') + escaped_arg(arg)) == args.push(arg),
{
    lemma_read_args_part(args.push(arg));
    assert(args.push(arg).drop_last() =~= args);
}

/// An argument without blanks and quote marks, unless it is empty, stands as it is, however
/// many backslashes are in it.
pub proof fn law_plain_arg_is_unchanged(arg: Seq<char>)
    requires
        arg.len() > 0,
        !arg.contains(' '),
        !arg.contains('\t'),
        !arg.contains('"'),
    ensures
        escaped_arg(arg) == arg,
{
    lemma_no_quotes_to_escape(arg);
}

proof fn lemma_no_quotes_to_escape(arg: Seq<char>)
    requires
        !arg.contains('"'),
    ensures
        escaped_quotes(arg) == arg,
    decreases arg.len(),
{
    if arg.len() > 0 {
        let before = arg.drop_last();
        assert forall|x: char| before.contains(x) implies arg.contains(x) by {
            let i = before.index_of(x);
            assert(arg[i] == x);
        }
        assert(arg[arg.len() - 1] == arg.last());
        lemma_no_quotes_to_escape(before);
        assert(before.push(arg.last()) =~= arg);
    } else {
        assert(arg =~= Seq::empty());
    }
}

} // verus!
