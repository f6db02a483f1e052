//! The lexical rules that tell options from positional arguments.

use vstd::prelude::*;
use crate::options::{OptionItem, OptionToken};
use crate::tokens::Tokens;

verus! {

/// A token written as a long option: `--` and at least one more character.
pub open spec fn is_long(token: Seq<char>) -> bool {
    token.len() > 2 && token[0] == '-' && token[1] == '-'
}

/// A token written as a cluster of short options: one `-` and at least one
/// more character, the first of which is no dash.
pub open spec fn is_cluster(token: Seq<char>) -> bool {
    token.len() > 1 && token[0] == '-' && token[1] != '-'
}

/// A token that is read as one or more options. The bare `-` and the bare
/// `--` are not, nor is any token without a leading dash.
pub open spec fn option_shaped(token: Seq<char>) -> bool {
    is_long(token) || is_cluster(token)
}

/// The short option that is written with the character `c`.
pub open spec fn short_option(c: char) -> OptionToken {
    OptionToken::Short(c)
}

/// The options that one option-shaped token stands for: the name behind
/// `--`, or each character behind `-` in turn.
pub open spec fn token_options(token: Seq<char>) -> Seq<OptionToken> {
    if is_long(token) {
        seq![OptionToken::Long(token.skip(2))]
    } else {
        Seq::new((token.len() - 1) as nat, |i: int| short_option(token[i + 1]))
    }
}

/// How many tokens at the front are option-shaped: scanning ends at the
/// first token that is not.
pub open spec fn leading_options(tokens: Seq<Seq<char>>) -> nat
    decreases tokens.len(),
{
    if tokens.len() == 0 || !option_shaped(tokens[0]) {
        0
    } else {
        1 + leading_options(tokens.skip(1))
    }
}

/// The options that the option-shaped tokens at the front stand for, in the
/// order in which they were written.
pub open spec fn classified(tokens: Seq<Seq<char>>) -> Seq<OptionToken>
    decreases tokens.len(),
{
    if tokens.len() == 0 || !option_shaped(tokens[0]) {
        Seq::empty()
    } else {
        token_options(tokens[0]) + classified(tokens.skip(1))
    }
}

/// The tokens that are left for the positional arguments.
pub open spec fn positional(tokens: Seq<Seq<char>>) -> Seq<Seq<char>> {
    tokens.skip(leading_options(tokens) as int)
}

/// The values of a list of options, in the list's order.
pub open spec fn item_views(items: Seq<OptionItem>) -> Seq<OptionToken> {
    Seq::new(items.len(), |i: int| items[i]@)
}

/// Scanning takes the option-shaped tokens at the front and stops at the
/// first token that is not: every token in front of the stop is
/// option-shaped, and the token at the stop, where there is one, is not.
pub proof fn leading_options_end_at_first_positional(tokens: Seq<Seq<char>>)
    ensures
        leading_options(tokens) <= tokens.len(),
        forall|i: int| 0 <= i < leading_options(tokens) ==> option_shaped(#[trigger] tokens[i]),
        leading_options(tokens) < tokens.len() ==> !option_shaped(
            tokens[leading_options(tokens) as int],
        ),
    decreases tokens.len(),
{
    if tokens.len() > 0 && option_shaped(tokens[0]) {
        let rest = tokens.skip(1);
        leading_options_end_at_first_positional(rest);
        assert forall|i: int| 0 <= i < leading_options(tokens) implies option_shaped(
            #[trigger] tokens[i],
        ) by {
            if i > 0 {
                assert(tokens[i] == rest[i - 1]);
            }
        }
    }
}

/// Where the first token is not option-shaped, and where there is no token,
/// no option is found and every token is left for the positional arguments.
pub proof fn no_leading_option_means_all_positional(tokens: Seq<Seq<char>>)
    requires
        tokens.len() == 0 || !option_shaped(tokens[0]),
    ensures
        classified(tokens) == Seq::<OptionToken>::empty(),
        leading_options(tokens) == 0,
        positional(tokens) == tokens,
{
}

/// A cluster stands for its characters behind the dash, one short option
/// each, in the order in which they were written.
pub proof fn cluster_yields_each_character(token: Seq<char>)
    requires
        is_cluster(token),
    ensures
        token_options(token).len() == token.len() - 1,
        forall|i: int|
            0 <= i < token.len() - 1 ==> #[trigger] token_options(token)[i] == OptionToken::Short(
                token[i + 1],
            ),
        classified(seq![token]) == token_options(token),
{
    assert(classified(seq![token].skip(1)) == Seq::<OptionToken>::empty());
}

/// The short option that is written with the character `c`.
fn short_item(c: char) -> (item: OptionItem)
    ensures
        item@ == short_option(c),
{
    OptionItem::Short(c)
}

/// Reads the options of one short cluster into `options`.
fn push_cluster(options: &mut Vec<OptionItem>, token: &str)
    requires
        is_cluster(token@),
    ensures
        item_views(final(options)@) == item_views(old(options)@) + token_options(token@),
{
    let ghost all = token_options(token@);
    let mut dash = true;
    for c in iter: token.chars()
        invariant
            iter.seq() == token@,
            is_cluster(token@),
            all == token_options(token@),
            dash == (iter.index() == 0),
            item_views(options@) == item_views(old(options)@) + all.take(
                if dash {
                    0
                } else {
                    iter.index() - 1
                },
            ),
    {
        if dash {
            dash = false;
        } else {
            let ghost before = options@;
            options.push(short_item(c));
            assert(item_views(options@) =~= item_views(before).push(short_option(c)));
        }
    }
}

/// Takes the options off the front of a command line.
///
/// Reads tokens for as long as they are option-shaped and returns the options
/// they stand for, in order. The first token that is not option-shaped, and
/// every token behind it, stays with the cursor.
pub fn take_options(args: &mut Tokens) -> (options: Vec<OptionItem>)
    ensures
        item_views(options@) == classified(old(args)@),
        final(args)@ == positional(old(args)@),
        final(args).spent() == old(args).spent() + leading_options(old(args)@),
{
    let mut options: Vec<OptionItem> = Vec::new();
    let mut scanning = true;
    while scanning
        invariant
            classified(old(args)@) == item_views(options@) + classified(args@),
            leading_options(old(args)@) == (args.spent() - old(args).spent()) + leading_options(
                args@,
            ),
            args.spent() >= old(args).spent(),
            args@ == old(args)@.skip(args.spent() - old(args).spent()),
            args.spent() - old(args).spent() <= old(args)@.len(),
            !scanning ==> args@.len() == 0 || !option_shaped(args@[0]),
        decreases args@.len() + (if scanning { 1nat } else { 0nat }),
    {
        match args.peek() {
            None => {
                scanning = false;
            },
            Some(token) => {
                let count = token.unicode_len();
                if count >= 2 && token.get_char(0) == '-' {
                    if token.get_char(1) != '-' {
                        push_cluster(&mut options, token);
                        args.next();
                    } else if count > 2 {
                        let name = token.substring_char(2, count);
                        options.push(OptionItem::Long(name.to_owned()));
                        args.next();
                    } else {
                        scanning = false;
                    }
                } else {
                    scanning = false;
                }
            },
        }
    }
    options
}

} // verus!
