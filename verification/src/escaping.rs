//! Laws that fix the command line character by character.
//!
//! They speak of the characters of programs and arguments alone, and of how the command lines
//! of two inputs relate. Together they leave one command line for each input.

use vstd::prelude::*;

use crate::command_line::{
    args_part, backslashes, command_line, escaped_arg, escaped_quotes, program_part,
    trailing_backslashes, Options,
};
use crate::parsing::law_plain_arg_is_unchanged;

verus! {

/// The program and the arguments are those of the shell that was asked for: every one of its
/// arguments, in order and unchanged. Where none was asked for, it is PowerShell without
/// arguments.
pub proof fn law_the_shell_is_run_as_given(options: Options)
    ensures
        options.shell is None ==> options.program_text() == "powershell"@
            && options.arg_texts().len() == 0,
        options.shell matches Some(shell) ==> {
            &&& options.program_text() == shell.program@
            &&& options.arg_texts().len() == shell.args@.len()
            &&& forall|i: int|
                0 <= i < shell.args@.len() ==> #[trigger] options.arg_texts()[i]
                    == shell.args@[i]@
        },
{
}

/// Without arguments, the command line is the program: between quote marks if it is to be
/// escaped and holds a space or a tab, and unchanged otherwise.
pub proof fn law_line_begins_with_program(program: Seq<char>, escape: bool)
    ensures
        command_line(program, Seq::empty(), escape) == (if escape && (program.contains(' ')
            || program.contains('\t')) {
            seq!['"'] + program + seq!['"']
        } else {
            program
        }),
{
    let none = Seq::<Seq<char>>::empty();
    assert(program_part(program, escape) + args_part(none, escape) =~= program_part(
        program,
        escape,
    ));
}

/// One more argument adds a space and the argument to the command line, and leaves what
/// stood there alone. Without escaping the argument is added as it is, whatever it holds.
pub proof fn law_each_arg_follows_a_space(
    program: Seq<char>,
    args: Seq<Seq<char>>,
    arg: Seq<char>,
)
    ensures
        command_line(program, args.push(arg), false) == command_line(program, args, false) + seq![
            ' ',
        ] + arg,
        command_line(program, args.push(arg), true) == command_line(program, args, true) + seq![
            ' ',
        ] + escaped_arg(arg),
{
    assert(args.push(arg).drop_last() =~= args);
    assert(command_line(program, args.push(arg), false) =~= command_line(program, args, false)
        + seq![' '] + arg);
    assert(command_line(program, args.push(arg), true) =~= command_line(program, args, true)
        + seq![' '] + escaped_arg(arg));
}

/// How many characters the first `count` arguments take up, each with one space.
pub open spec fn length_with_spaces(args: Seq<Seq<char>>, count: int) -> int
    decreases count,
{
    if count <= 0 {
        0
    } else {
        length_with_spaces(args, count - 1) + 1 + args[count - 1].len()
    }
}

/// Without escaping, the command line holds the program, and then for each argument in order
/// one space and exactly the characters of that argument, and nothing else.
pub proof fn law_unescaped_line_is_verbatim(program: Seq<char>, args: Seq<Seq<char>>)
    ensures
        command_line(program, args, false).len() == program.len() + length_with_spaces(
            args,
            args.len() as int,
        ),
        command_line(program, args, false).take(program.len() as int) == program,
        forall|k: int|
            0 <= k < args.len() ==> {
                let line = command_line(program, args, false);
                let from = program.len() + #[trigger] length_with_spaces(args, k);
                &&& 0 <= from
                &&& from + 1 + args[k].len() <= line.len()
                &&& line[from] == ' '
                &&& line.subrange(from + 1, from + 1 + args[k].len()) == args[k]
            },
    decreases args.len(),
{
    let line = command_line(program, args, false);
    if args.len() == 0 {
        law_line_begins_with_program(program, false);
        assert(args =~= Seq::<Seq<char>>::empty());
        assert(program.take(program.len() as int) =~= program);
    } else {
        let before = args.drop_last();
        let arg = args.last();
        let shorter = command_line(program, before, false);
        assert(before.push(arg) =~= args);
        law_each_arg_follows_a_space(program, before, arg);
        law_unescaped_line_is_verbatim(program, before);
        assert forall|k: int| 0 <= k <= before.len() implies #[trigger] length_with_spaces(
            before,
            k,
        ) == length_with_spaces(args, k) by {
            lemma_length_with_spaces(before, args, k);
        }
        let last = before.len() as int;
        assert(length_with_spaces(args, last) == length_with_spaces(before, last));
        assert(length_with_spaces(args, last + 1) == length_with_spaces(args, last) + 1
            + arg.len());
        assert(line.take(program.len() as int) =~= shorter.take(program.len() as int));
        assert forall|k: int| 0 <= k < args.len() implies {
            let from = program.len() + #[trigger] length_with_spaces(args, k);
            &&& 0 <= from
            &&& from + 1 + args[k].len() <= line.len()
            &&& line[from] == ' '
            &&& line.subrange(from + 1, from + 1 + args[k].len()) == args[k]
        } by {
            let from = program.len() + length_with_spaces(args, k);
            if k < last {
                assert(length_with_spaces(before, k) == length_with_spaces(args, k));
                assert(before[k] == args[k]);
                assert(line[from] == shorter[from]);
                assert(line.subrange(from + 1, from + 1 + args[k].len()) =~= shorter.subrange(
                    from + 1,
                    from + 1 + args[k].len(),
                ));
            } else {
                assert(from == shorter.len());
                assert(line.subrange(from + 1, from + 1 + args[k].len()) =~= arg);
            }
        }
    }
}

proof fn lemma_length_with_spaces(before: Seq<Seq<char>>, args: Seq<Seq<char>>, k: int)
    requires
        before.len() <= args.len(),
        forall|i: int| 0 <= i < before.len() ==> before[i] == #[trigger] args[i],
        0 <= k <= before.len(),
    ensures
        length_with_spaces(before, k) == length_with_spaces(args, k),
    decreases k,
{
    if k > 0 {
        lemma_length_with_spaces(before, args, k - 1);
    }
}

/// An empty argument is a pair of quote marks.
pub proof fn law_empty_arg_is_two_marks()
    ensures
        escaped_arg(Seq::empty()) == seq!['"', '"'],
{
    assert(escaped_arg(Seq::empty()) =~= seq!['"', '"']);
}

/// Backslashes in front of a quote mark are doubled, and one more is added, so that an odd
/// number stands there. No quote marks are put around the argument.
pub proof fn law_backslashes_before_a_mark_are_doubled(count: nat)
    ensures
        escaped_arg(Seq::new(count, |i: int| '\\').push('"')) == Seq::new(
            2 * count + 1,
            |i: int| '\\',
        ).push('"'),
{
    let run = Seq::new(count, |i: int| '\\');
    let arg = run.push('"');
    assert(run =~= backslashes(count));
    assert(arg.drop_last() =~= run);
    lemma_trailing_of_run(count);
    lemma_run_is_unchanged(count);
    assert(escaped_arg(arg) =~= Seq::new(2 * count + 1, |i: int| '\\').push('"'));
}

/// Arguments without blanks are escaped piece by piece: where the first of two pieces does not
/// end in a backslash, the whole is escaped as the two are.
pub proof fn law_pieces_are_escaped_apart(first: Seq<char>, second: Seq<char>)
    requires
        first.len() > 0,
        second.len() > 0,
        first.last() != '\\',
        forall|i: int| 0 <= i < first.len() ==> first[i] != ' ' && first[i] != '\t',
        forall|i: int| 0 <= i < second.len() ==> second[i] != ' ' && second[i] != '\t',
    ensures
        escaped_arg(first + second) == escaped_arg(first) + escaped_arg(second),
{
    lemma_escaped_quotes_join(first, second);
}

/// An argument without further blanks that ends in one stands between quote marks, with the
/// rest escaped as it is on its own.
pub proof fn law_blank_at_the_end_is_quoted(arg: Seq<char>, blank: char)
    requires
        blank == ' ' || blank == '\t',
        forall|i: int| 0 <= i < arg.len() ==> arg[i] != ' ' && arg[i] != '\t',
    ensures
        escaped_arg(arg.push(blank)) == seq!['"'] + (if arg.len() == 0 {
            Seq::empty()
        } else {
            escaped_arg(arg)
        }) + seq![blank, '"'],
{
    let whole = arg.push(blank);
    assert(whole.drop_last() =~= arg);
    assert(whole[arg.len() as int] == blank);
    assert(whole.contains(blank));
    assert(escaped_arg(whole) =~= seq!['"'] + escaped_quotes(arg) + seq![blank, '"']);
}

/// An argument without further blanks that begins with one stands between quote marks, with
/// the rest escaped as it is on its own, and the backslashes at its end doubled.
pub proof fn law_blank_at_the_start_is_quoted(blank: char, arg: Seq<char>, count: nat)
    requires
        blank == ' ' || blank == '\t',
        forall|i: int| 0 <= i < arg.len() ==> arg[i] != ' ' && arg[i] != '\t',
        count <= arg.len(),
        forall|i: int| arg.len() - count <= i < arg.len() ==> arg[i] == '\\',
        count < arg.len() ==> arg[arg.len() - count - 1] != '\\',
    ensures
        escaped_arg(seq![blank] + arg) == seq!['"', blank] + (if arg.len() == 0 {
            Seq::empty()
        } else {
            escaped_arg(arg)
        }) + Seq::new(count, |i: int| '\\') + seq!['"'],
{
    let whole = seq![blank] + arg;
    assert(whole[0] == blank);
    assert(whole.contains(blank));
    lemma_escaped_quotes_join(seq![blank], arg);
    lemma_trailing_join(seq![blank], arg);
    lemma_trailing_count(arg, count);
    lemma_one_character(blank);
    assert(Seq::new(count, |i: int| '\\') =~= backslashes(count));
    assert(escaped_arg(whole) =~= seq!['"', blank] + escaped_quotes(arg) + backslashes(count)
        + seq!['"']);
}

/// One more blank at the end of an argument that stands between quote marks already goes in
/// front of the closing mark. The backslashes that it now follows are not doubled any more.
pub proof fn law_further_blank_goes_inside(arg: Seq<char>, blank: char, count: nat)
    requires
        blank == ' ' || blank == '\t',
        arg.contains(' ') || arg.contains('\t'),
        count <= arg.len(),
        forall|i: int| arg.len() - count <= i < arg.len() ==> arg[i] == '\\',
        count < arg.len() ==> arg[arg.len() - count - 1] != '\\',
    ensures
        escaped_arg(arg.push(blank)) == escaped_arg(arg).take(
            escaped_arg(arg).len() - 1 - count,
        ) + seq![blank, '"'],
{
    let whole = arg.push(blank);
    assert(whole.drop_last() =~= arg);
    assert(whole[arg.len() as int] == blank);
    assert(whole.contains(blank));
    lemma_trailing_count(arg, count);
    assert(escaped_arg(arg).take(escaped_arg(arg).len() - 1 - count) =~= seq!['"']
        + escaped_quotes(arg));
    assert(escaped_arg(whole) =~= seq!['"'] + escaped_quotes(arg) + seq![blank, '"']);
}

/// At a blank an argument comes apart: up to the blank it is escaped as if it ended there,
/// and from there on as if it began there, but for the quote marks that would stand between
/// the two.
pub proof fn law_blank_in_between_is_kept(before: Seq<char>, blank: char, after: Seq<char>)
    requires
        blank == ' ' || blank == '\t',
    ensures
        escaped_arg(before.push(blank) + after) == escaped_arg(before.push(blank)).drop_last()
            + escaped_arg(seq![blank] + after).skip(2),
{
    let head = before.push(blank);
    let tail = seq![blank] + after;
    let whole = head + after;
    assert(head[before.len() as int] == blank);
    assert(whole[before.len() as int] == blank);
    assert(tail[0] == blank);
    assert(head.contains(blank) && whole.contains(blank) && tail.contains(blank));
    lemma_escaped_quotes_join(head, after);
    lemma_escaped_quotes_join(seq![blank], after);
    lemma_trailing_join(head, after);
    lemma_trailing_join(seq![blank], after);
    lemma_one_character(blank);
    assert(escaped_arg(head).drop_last() =~= seq!['"'] + escaped_quotes(head));
    assert(escaped_arg(tail).skip(2) =~= escaped_quotes(after) + backslashes(
        trailing_backslashes(after),
    ) + seq!['"']);
    assert(escaped_arg(whole) =~= escaped_arg(head).drop_last() + escaped_arg(tail).skip(2));
}

proof fn lemma_one_character(c: char)
    requires
        c != '"',
    ensures
        escaped_quotes(seq![c]) == seq![c],
{
    assert(seq![c].drop_last() =~= Seq::<char>::empty());
    assert(escaped_quotes(Seq::<char>::empty()) =~= Seq::<char>::empty());
    assert(escaped_quotes(seq![c]) =~= seq![c]);
}

proof fn lemma_trailing_join(a: Seq<char>, b: Seq<char>)
    requires
        a.len() > 0,
        a.last() != '\\',
    ensures
        trailing_backslashes(a + b) == trailing_backslashes(b),
    decreases b.len(),
{
    if b.len() == 0 {
        assert(a + b =~= a);
    } else {
        assert((a + b).drop_last() =~= a + b.drop_last());
        assert((a + b).last() == b.last());
        if b.last() == '\\' {
            lemma_trailing_join(a, b.drop_last());
        }
    }
}

proof fn lemma_escaped_quotes_join(a: Seq<char>, b: Seq<char>)
    requires
        a.len() > 0,
        a.last() != '\\',
    ensures
        escaped_quotes(a + b) == escaped_quotes(a) + escaped_quotes(b),
    decreases b.len(),
{
    if b.len() == 0 {
        assert(a + b =~= a);
        assert(escaped_quotes(a) + escaped_quotes(b) =~= escaped_quotes(a));
    } else {
        let before = b.drop_last();
        assert((a + b).drop_last() =~= a + before);
        assert((a + b).last() == b.last());
        lemma_escaped_quotes_join(a, before);
        lemma_trailing_join(a, before);
        assert(escaped_quotes(a + b) =~= escaped_quotes(a) + escaped_quotes(b));
    }
}

proof fn lemma_trailing_count(text: Seq<char>, count: nat)
    requires
        count <= text.len(),
        forall|i: int| text.len() - count <= i < text.len() ==> text[i] == '\\',
        count < text.len() ==> text[text.len() - count - 1] != '\\',
    ensures
        trailing_backslashes(text) == count,
    decreases count,
{
    if count > 0 {
        assert(text[text.len() - 1] == '\\');
        lemma_trailing_count(text.drop_last(), (count - 1) as nat);
    }
}

proof fn lemma_trailing_of_run(count: nat)
    ensures
        trailing_backslashes(backslashes(count)) == count,
{
    lemma_trailing_count(backslashes(count), count);
}

proof fn lemma_run_is_unchanged(count: nat)
    ensures
        escaped_quotes(backslashes(count)) == backslashes(count),
{
    if count > 0 {
        law_plain_arg_is_unchanged(backslashes(count));
    } else {
        assert(backslashes(0) =~= Seq::empty());
    }
}

} // verus!
