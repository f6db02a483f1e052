//! The help text of a command, laid out from its descriptors.

use vstd::prelude::*;
use vstd::utf8::encode_utf8;
use crate::arguments::{arg_views, var_view, Arg, ArgView};
use crate::options::{opt_views, Opt, OptView};
use crate::text::{padded, push_char, push_padded};

verus! {

/// The number of bytes that a text takes: the measure of a column's width.
pub open spec fn byte_len(text: Seq<char>) -> nat {
    encode_utf8(text).len()
}

/// The width of the widest of `names`, 0 where there is none.
pub open spec fn longest(names: Seq<Seq<char>>) -> nat
    decreases names.len(),
{
    if names.len() == 0 {
        0
    } else {
        let front = longest(names.drop_last());
        let last = byte_len(names.last());
        if last > front {
            last
        } else {
            front
        }
    }
}

/// The width of a column is that of its widest name: no name is wider, and
/// one name is as wide.
pub proof fn longest_is_the_widest(names: Seq<Seq<char>>)
    ensures
        forall|i: int| 0 <= i < names.len() ==> byte_len(#[trigger] names[i]) <= longest(names),
        names.len() > 0 ==> exists|i: int|
            0 <= i < names.len() && byte_len(#[trigger] names[i]) == longest(names),
    decreases names.len(),
{
    if names.len() > 0 {
        let front = names.drop_last();
        longest_is_the_widest(front);
        assert forall|i: int| 0 <= i < names.len() implies byte_len(#[trigger] names[i])
            <= longest(names) by {
            if i < front.len() {
                assert(names[i] == front[i]);
            }
        }
        if byte_len(names.last()) <= longest(front) && front.len() > 0 {
            let widest = choose|i: int|
                0 <= i < front.len() && byte_len(#[trigger] front[i]) == longest(front);
            assert(names[widest] == front[widest]);
        }
    }
}

/// The long names of the options, in order.
pub open spec fn long_names(opts: Seq<OptView>) -> Seq<Seq<char>> {
    opts.map_values(|opt: OptView| opt.long)
}

/// The names of the arguments, in order.
pub open spec fn arg_names(args: Seq<ArgView>) -> Seq<Seq<char>> {
    args.map_values(|arg: ArgView| arg.name)
}

/// Whether one of the options has a short form.
pub open spec fn any_short(opts: Seq<OptView>) -> bool {
    exists|i: int| 0 <= i < opts.len() && (#[trigger] opts[i]).short is Some
}

/// The column of the short forms: `-x,` for an option that has one, three
/// spaces for one that has none.
pub open spec fn short_column(short: Option<char>) -> Seq<char> {
    match short {
        Some(c) => seq!['-', c, ','],
        None => seq![' ', ' ', ' '],
    }
}

/// The line of one option. `with_short` says whether the table has a column
/// of short forms, `width` how wide the column of long names is.
pub open spec fn option_line(spacer: Seq<char>, opt: OptView, with_short: bool, width: nat) -> Seq<
    char,
> {
    spacer + (if with_short {
        short_column(opt.short) + seq![' ']
    } else {
        Seq::empty()
    }) + seq!['-', '-'] + padded(opt.long, width) + spacer + opt.description + seq!['\n']
}

/// The lines of the options, one for each, in order.
pub open spec fn option_lines(
    spacer: Seq<char>,
    opts: Seq<OptView>,
    with_short: bool,
    width: nat,
) -> Seq<char>
    decreases opts.len(),
{
    if opts.len() == 0 {
        Seq::empty()
    } else {
        option_lines(spacer, opts.drop_last(), with_short, width) + option_line(
            spacer,
            opts.last(),
            with_short,
            width,
        )
    }
}

/// The table of the options: nothing where there is no option, else an empty
/// line, the heading and one line for each option. The long names are
/// aligned to the widest of them; the column of short forms is there for
/// every line or for none.
pub open spec fn options_block(spacer: Seq<char>, opts: Seq<OptView>) -> Seq<char> {
    if opts.len() == 0 {
        Seq::empty()
    } else {
        "\nOPTIONS:\n"@ + option_lines(spacer, opts, any_short(opts), longest(long_names(opts)))
    }
}

/// The line of one argument, its name in a column of `width`.
pub open spec fn argument_line(spacer: Seq<char>, arg: ArgView, width: nat) -> Seq<char> {
    spacer + padded(arg.name, width) + spacer + arg.description + seq!['\n']
}

/// The lines of the arguments, one for each, in order.
pub open spec fn argument_lines(spacer: Seq<char>, args: Seq<ArgView>, width: nat) -> Seq<char>
    decreases args.len(),
{
    if args.len() == 0 {
        Seq::empty()
    } else {
        argument_lines(spacer, args.drop_last(), width) + argument_line(spacer, args.last(), width)
    }
}

/// The fixed arguments followed by the variadic one, where there is one.
pub open spec fn listed(args: Seq<ArgView>, var: Option<ArgView>) -> Seq<ArgView> {
    match var {
        Some(arg) => args.push(arg),
        None => args,
    }
}

/// The table of the arguments: nothing where the command takes none, else an
/// empty line, the heading and one line for each argument, the variadic one
/// last. The names are aligned to the widest of them.
pub open spec fn arguments_block(spacer: Seq<char>, args: Seq<ArgView>, var: Option<ArgView>) -> Seq<
    char,
> {
    let all = listed(args, var);
    if all.len() == 0 {
        Seq::empty()
    } else {
        "\nARGS:\n"@ + argument_lines(spacer, all, longest(arg_names(all)))
    }
}

/// The fixed arguments as the usage line names them: ` <name>` for each.
pub open spec fn usage_arguments(args: Seq<ArgView>) -> Seq<char>
    decreases args.len(),
{
    if args.len() == 0 {
        Seq::empty()
    } else {
        usage_arguments(args.drop_last()) + " <"@ + args.last().name + ">"@
    }
}

/// The synopsis: the heading, then on one line the name, ` [OPTIONS]` where
/// the command has options, each fixed argument, and the variadic one as
/// ` [name]...`.
pub open spec fn usage(
    spacer: Seq<char>,
    name: Seq<char>,
    opts: Seq<OptView>,
    args: Seq<ArgView>,
    var: Option<ArgView>,
) -> Seq<char> {
    "USAGE:\n"@ + spacer + name + (if opts.len() > 0 {
        " [OPTIONS]"@
    } else {
        Seq::empty()
    }) + usage_arguments(args) + (match var {
        Some(arg) => " ["@ + arg.name + "]..."@,
        None => Seq::empty(),
    }) + seq!['\n']
}

/// The whole help text of a command: synopsis, options, arguments.
pub open spec fn help_text(
    name: Seq<char>,
    opts: Seq<OptView>,
    args: Seq<ArgView>,
    var: Option<ArgView>,
) -> Seq<char> {
    usage("    "@, name, opts, args, var) + options_block("    "@, opts) + arguments_block(
        "    "@,
        args,
        var,
    )
}

/// The values of a list of string slices, in the list's order.
pub open spec fn slice_texts(names: Seq<&'static str>) -> Seq<Seq<char>> {
    Seq::new(names.len(), |i: int| names[i]@)
}

/// The width of the widest of `names`.
fn widest(names: &Vec<&'static str>) -> (width: usize)
    ensures
        width == longest(slice_texts(names@)),
{
    let ghost all = slice_texts(names@);
    let mut width: usize = 0;
    let mut i: usize = 0;
    while i < names.len()
        invariant
            i <= names@.len(),
            all == slice_texts(names@),
            width == longest(all.take(i as int)),
        decreases names@.len() - i,
    {
        let len = names[i].as_bytes().len();
        assert(all.take(i + 1).drop_last() =~= all.take(i as int));
        if len > width {
            width = len;
        }
        i = i + 1;
    }
    assert(all.take(names@.len() as int) =~= all);
    width
}

/// Whether one of the options has a short form.
fn has_short(opts: &[Opt]) -> (yes: bool)
    ensures
        yes == any_short(opt_views(opts@)),
{
    let mut i: usize = 0;
    while i < opts.len()
        invariant
            i <= opts@.len(),
            forall|j: int| 0 <= j < i ==> (#[trigger] opt_views(opts@)[j]).short is None,
        decreases opts@.len() - i,
    {
        if opts[i].short.is_some() {
            assert(opt_views(opts@)[i as int].short is Some);
            return true;
        }
        i = i + 1;
    }
    false
}

/// Appends the table of the options to `text`.
pub fn format_options(text: &mut String, spacer: &str, opts: &[Opt])
    ensures
        final(text)@ == old(text)@ + options_block(spacer@, opt_views(opts@)),
{
    let ghost table = opt_views(opts@);
    if opts.len() == 0 {
        return;
    }
    let mut names: Vec<&'static str> = Vec::new();
    let mut i: usize = 0;
    while i < opts.len()
        invariant
            i <= opts@.len(),
            table == opt_views(opts@),
            names@.len() == i,
            slice_texts(names@) == long_names(table).take(i as int),
        decreases opts@.len() - i,
    {
        names.push(opts[i].long);
        i = i + 1;
    }
    assert(long_names(table).take(opts@.len() as int) =~= long_names(table));
    let width = widest(&names);
    let with_short = has_short(opts);
    text.append("\nOPTIONS:\n");
    let ghost head = text@;
    let mut i: usize = 0;
    while i < opts.len()
        invariant
            i <= opts@.len(),
            table == opt_views(opts@),
            text@ == head + option_lines(spacer@, table.take(i as int), with_short, width as nat),
        decreases opts@.len() - i,
    {
        let ghost before = text@;
        let opt = &opts[i];
        text.append(spacer);
        if with_short {
            match opt.short {
                Some(c) => {
                    push_char(text, '-');
                    push_char(text, c);
                    push_char(text, ',');
                },
                None => {
                    text.append("   ");
                    proof {
                        reveal_strlit("   ");
                    }
                },
            }
            push_char(text, ' ');
        }
        text.append("--");
        proof {
            reveal_strlit("--");
        }
        push_padded(text, opt.long, width);
        text.append(spacer);
        text.append(opt.description);
        push_char(text, '\n');
        proof {
            let upto = table.take(i + 1);
            assert(upto.drop_last() =~= table.take(i as int));
            assert(text@ =~= before + option_line(spacer@, opt@, with_short, width as nat));
        }
        i = i + 1;
    }
    assert(table.take(opts@.len() as int) =~= table);
}

/// Appends the line of one argument to `text`.
fn push_argument_line(text: &mut String, spacer: &str, arg: &Arg, width: usize)
    ensures
        final(text)@ == old(text)@ + argument_line(spacer@, arg@, width as nat),
{
    text.append(spacer);
    push_padded(text, arg.name, width);
    text.append(spacer);
    text.append(arg.description);
    push_char(text, '\n');
}

/// Appends the table of the arguments to `text`.
pub fn format_arguments(text: &mut String, spacer: &str, args: &[Arg], var: Option<Arg>)
    ensures
        final(text)@ == old(text)@ + arguments_block(spacer@, arg_views(args@), var_view(var)),
{
    let ghost fixed = arg_views(args@);
    let ghost all = listed(fixed, var_view(var));
    let mut names: Vec<&'static str> = Vec::new();
    let mut i: usize = 0;
    while i < args.len()
        invariant
            i <= args@.len(),
            names@.len() == i,
            forall|j: int| 0 <= j < i ==> (#[trigger] names@[j])@ == args@[j].name@,
        decreases args@.len() - i,
    {
        names.push(args[i].name);
        i = i + 1;
    }
    match var {
        Some(arg) => {
            names.push(arg.name);
        },
        None => {},
    }
    assert(slice_texts(names@) =~= arg_names(all));
    if names.len() == 0 {
        return;
    }
    let width = widest(&names);
    text.append("\nARGS:\n");
    let ghost head = text@;
    let mut i: usize = 0;
    while i < args.len()
        invariant
            i <= args@.len(),
            fixed == arg_views(args@),
            text@ == head + argument_lines(spacer@, fixed.take(i as int), width as nat),
        decreases args@.len() - i,
    {
        push_argument_line(text, spacer, &args[i], width);
        assert(fixed.take(i + 1).drop_last() =~= fixed.take(i as int));
        i = i + 1;
    }
    assert(fixed.take(args@.len() as int) =~= fixed);
    match var {
        Some(arg) => {
            push_argument_line(text, spacer, &arg, width);
            assert(all.drop_last() =~= fixed);
        },
        None => {},
    }
}

/// Renders the help text of a command from its name and its descriptors.
///
/// The text depends on the values of its inputs and on nothing else: the same
/// name and descriptors give the same text, character for character.
pub fn render_help(name: &str, opts: &[Opt], args: &[Arg], var: Option<Arg>) -> (text: String)
    ensures
        text@ == help_text(name@, opt_views(opts@), arg_views(args@), var_view(var)),
{
    let spacer = "    ";
    let mut text = String::new();
    text.append("USAGE:\n");
    text.append(spacer);
    text.append(name);
    if opts.len() > 0 {
        text.append(" [OPTIONS]");
    }
    let ghost head = text@;
    let ghost table = arg_views(args@);
    let mut i: usize = 0;
    while i < args.len()
        invariant
            i <= args@.len(),
            table == arg_views(args@),
            text@ == head + usage_arguments(table.take(i as int)),
        decreases args@.len() - i,
    {
        text.append(" <");
        text.append(args[i].name);
        text.append(">");
        assert(table.take(i + 1).drop_last() =~= table.take(i as int));
        i = i + 1;
    }
    assert(table.take(args@.len() as int) =~= table);
    match var {
        Some(arg) => {
            text.append(" [");
            text.append(arg.name);
            text.append("]...");
        },
        None => {},
    }
    push_char(&mut text, '\n');
    format_options(&mut text, spacer, opts);
    format_arguments(&mut text, spacer, args, var);
    text
}

} // verus!
