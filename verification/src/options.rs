//! Option tokens, option descriptors and the resolution of one by the other.

use vstd::prelude::*;
use crate::command::CommandInfo;
use crate::error::{EntranceError, ErrorView};
use crate::text::same_text;

verus! {

/// One option as it was written on the command line: `--name` or one
/// character of a `-abc` cluster.
#[derive(Debug, PartialEq, Eq)]
pub enum OptionItem {
    Long(String),
    Short(char),
}

/// The mathematical value of an [`OptionItem`].
pub enum OptionToken {
    Long(Seq<char>),
    Short(char),
}

impl View for OptionItem {
    type V = OptionToken;

    open spec fn view(&self) -> OptionToken {
        match self {
            OptionItem::Long(name) => OptionToken::Long(name@),
            OptionItem::Short(c) => OptionToken::Short(*c),
        }
    }
}

impl Clone for OptionItem {
    fn clone(&self) -> (copy: Self)
        ensures
            copy@ == self@,
    {
        match self {
            OptionItem::Long(name) => OptionItem::Long(name.clone()),
            OptionItem::Short(c) => OptionItem::Short(*c),
        }
    }
}

/// The description of one option that a command accepts.
#[derive(Debug, Clone, Copy)]
pub struct Opt {
    pub long: &'static str,
    pub short: Option<char>,
    pub description: &'static str,
}

/// The mathematical value of an [`Opt`].
pub struct OptView {
    pub long: Seq<char>,
    pub short: Option<char>,
    pub description: Seq<char>,
}

impl View for Opt {
    type V = OptView;

    open spec fn view(&self) -> OptView {
        OptView { long: self.long@, short: self.short, description: self.description@ }
    }
}

/// The values of a table of descriptors, in the table's order.
pub open spec fn opt_views(opts: Seq<Opt>) -> Seq<OptView> {
    Seq::new(opts.len(), |i: int| opts[i]@)
}

/// Whether a descriptor answers to a token: a long name matches exactly and
/// in full, a short character matches the descriptor's short form.
pub open spec fn accepts(opt: OptView, token: OptionToken) -> bool {
    match token {
        OptionToken::Long(name) => opt.long == name,
        OptionToken::Short(c) => opt.short == Some(c),
    }
}

/// The position of the first descriptor that answers to `token`, if any does.
pub open spec fn resolution(opts: Seq<OptView>, token: OptionToken) -> Option<nat>
    decreases opts.len(),
{
    if opts.len() == 0 {
        None
    } else if accepts(opts[0], token) {
        Some(0)
    } else {
        match resolution(opts.skip(1), token) {
            Some(at) => Some(at + 1),
            None => None,
        }
    }
}

/// `resolution` finds a descriptor exactly when one answers to the token,
/// and the one it finds is the first.
pub proof fn resolution_is_first_match(opts: Seq<OptView>, token: OptionToken)
    ensures
        match resolution(opts, token) {
            Some(at) => at < opts.len() && accepts(opts[at as int], token) && forall|j: int|
                0 <= j < at ==> !accepts(#[trigger] opts[j], token),
            None => forall|j: int| 0 <= j < opts.len() ==> !accepts(#[trigger] opts[j], token),
        },
    decreases opts.len(),
{
    if opts.len() > 0 && !accepts(opts[0], token) {
        let rest = opts.skip(1);
        resolution_is_first_match(rest, token);
        match resolution(rest, token) {
            Some(at) => {
                assert forall|j: int| 0 <= j < at + 1 implies !accepts(#[trigger] opts[j], token) by {
                    if j > 0 {
                        assert(opts[j] == rest[j - 1]);
                    }
                }
            },
            None => {
                assert forall|j: int| 0 <= j < opts.len() implies !accepts(
                    #[trigger] opts[j],
                    token,
                ) by {
                    if j > 0 {
                        assert(opts[j] == rest[j - 1]);
                    }
                }
            },
        }
    }
}

fn answers(opt: &Opt, item: &OptionItem) -> (yes: bool)
    ensures
        yes == accepts(opt@, item@),
{
    match item {
        OptionItem::Long(name) => same_text(opt.long, name.as_str()),
        OptionItem::Short(c) => match opt.short {
            Some(short) => short == *c,
            None => false,
        },
    }
}

/// Resolves one option token against a table of descriptors.
///
/// Returns the position of the first descriptor that answers to the token.
/// A token that no descriptor answers to is rejected as
/// [`EntranceError::InvalidOption`], which carries the token.
pub fn resolve(opts: &[Opt], item: &OptionItem) -> (found: Result<usize, EntranceError>)
    ensures
        match resolution(opt_views(opts@), item@) {
            Some(at) => found == Ok::<usize, EntranceError>(at as usize) && at < opts@.len(),
            None => found is Err && found->Err_0@ == ErrorView::InvalidOption(item@),
        },
{
    let ghost table = opt_views(opts@);
    let mut at: usize = 0;
    assert(table.skip(0) =~= table);
    while at < opts.len()
        invariant
            at <= opts@.len(),
            table == opt_views(opts@),
            resolution(table, item@) == match resolution(table.skip(at as int), item@) {
                Some(further) => Some((further + at) as nat),
                None => None,
            },
        decreases opts@.len() - at,
    {
        if answers(&opts[at], item) {
            return Ok(at);
        }
        assert(table.skip(at as int).skip(1) =~= table.skip(at + 1));
        at = at + 1;
    }
    Err(EntranceError::InvalidOption(item.clone()))
}

/// The options of a command line as a record of flags, one for each
/// descriptor: flag `i` is set exactly when option `i` was given, however
/// often.
pub open spec fn flags_of(count: nat, given: Seq<usize>) -> Seq<bool> {
    Seq::new(count, |i: int| exists|k: int| 0 <= k < given.len() && #[trigger] given[k] == i)
}

/// Collapses the resolved options of a command line into a record of flags.
///
/// `given` holds the positions that the options resolved to, in the order of
/// the tokens; `count` is the number of descriptors. An option given twice
/// sets its flag once.
pub fn flags(count: usize, given: &[usize]) -> (flags: Vec<bool>)
    ensures
        flags@ == flags_of(count as nat, given@),
{
    let mut flags: Vec<bool> = Vec::new();
    while flags.len() < count
        invariant
            flags@.len() <= count,
            forall|i: int| 0 <= i < flags@.len() ==> !#[trigger] flags@[i],
        decreases count - flags@.len(),
    {
        flags.push(false);
    }
    let mut k: usize = 0;
    while k < given.len()
        invariant
            k <= given@.len(),
            flags@.len() == count,
            forall|i: int|
                0 <= i < count ==> (#[trigger] flags@[i] <==> exists|j: int|
                    0 <= j < k && #[trigger] given@[j] == i),
        decreases given@.len() - k,
    {
        let position = given[k];
        if position < count {
            flags.set(position, true);
        }
        k = k + 1;
    }
    flags
}

/// A set of options that a command accepts.
///
/// `resolves`, `rejects`, `marks` and `describes` say what the four
/// functions beside them may return. As they stand they allow everything; a
/// type that is verified narrows them to what its functions do, and what is
/// proved of a command line is then proved of that.
pub trait Options: Sized {
    /// Whether `option` is what the token may resolve to.
    open spec fn resolves(token: OptionToken, option: Self) -> bool {
        true
    }

    /// Whether `error` is what the token may be rejected with.
    open spec fn rejects(token: OptionToken, error: ErrorView) -> bool {
        true
    }

    /// Whether `informative` is what the option may be marked as: an
    /// informative option, such as `--help`, pre-empts the command.
    open spec fn marks(&self, informative: bool) -> bool {
        true
    }

    /// Whether `table` may be the descriptors of the options.
    open spec fn describes(table: Seq<OptView>) -> bool {
        true
    }

    fn parse(option: OptionItem) -> (parsed: Result<Self, EntranceError>)
        ensures
            match parsed {
                Ok(value) => Self::resolves(option@, value),
                Err(error) => Self::rejects(option@, error@),
            },
    ;

    fn is_informative(&self) -> (informative: bool)
        ensures
            self.marks(informative),
    ;

    /// What an informative option does in place of the command.
    fn trigger_informative<C>(&self, info: &CommandInfo<C>);

    /// This associated function is for `HelpDisplay`.
    fn spec() -> (table: &'static [Opt])
        ensures
            Self::describes(opt_views(table@)),
    ;
}

/// The empty set of options: every token is rejected as
/// [`EntranceError::InvalidOption`], with the token in it.
impl Options for () {
    open spec fn resolves(token: OptionToken, option: Self) -> bool {
        false
    }

    open spec fn rejects(token: OptionToken, error: ErrorView) -> bool {
        error == ErrorView::InvalidOption(token)
    }

    open spec fn marks(&self, informative: bool) -> bool {
        !informative
    }

    open spec fn describes(table: Seq<OptView>) -> bool {
        table.len() == 0
    }

    fn parse(option: OptionItem) -> (parsed: Result<Self, EntranceError>) {
        Err(EntranceError::InvalidOption(option))
    }

    fn is_informative(&self) -> (informative: bool) {
        false
    }

    fn trigger_informative<C>(&self, info: &CommandInfo<C>) {
    }

    fn spec() -> (table: &'static [Opt]) {
        &[]
    }
}

} // verus!
