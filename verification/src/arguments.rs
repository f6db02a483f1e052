//! Positional arguments: their descriptors and how tokens are bound to them.

use vstd::prelude::*;
use crate::error::{EntranceError, ErrorView};
use crate::tokens::{texts, Tokens};

verus! {

/// The description of one positional argument of a command.
#[derive(Debug, Clone, Copy)]
pub struct Arg {
    pub name: &'static str,
    pub description: &'static str,
}

/// The mathematical value of an [`Arg`].
pub struct ArgView {
    pub name: Seq<char>,
    pub description: Seq<char>,
}

impl View for Arg {
    type V = ArgView;

    open spec fn view(&self) -> ArgView {
        ArgView { name: self.name@, description: self.description@ }
    }
}

/// The values of a table of descriptors, in the table's order.
pub open spec fn arg_views(args: Seq<Arg>) -> Seq<ArgView> {
    Seq::new(args.len(), |i: int| args[i]@)
}

/// The value of an optional descriptor.
pub open spec fn var_view(arg: Option<Arg>) -> Option<ArgView> {
    match arg {
        Some(arg) => Some(arg@),
        None => None,
    }
}

/// The positional arguments that a command takes.
///
/// `binds`, `refuses`, `lists` and `lists_variadic` say what the three
/// functions beside them may return. As they stand they allow everything; a
/// type that is verified narrows them to what its functions do, and what is
/// proved of a command line is then proved of that.
pub trait Arguments: Sized {
    /// Whether `arguments` is what the tokens may bind to.
    open spec fn binds(tokens: Seq<Seq<char>>, arguments: Self) -> bool {
        true
    }

    /// Whether `error` is what the tokens may be refused with.
    open spec fn refuses(tokens: Seq<Seq<char>>, error: ErrorView) -> bool {
        true
    }

    /// Whether `table` may be the descriptors of the fixed arguments, in the
    /// order of their fields.
    open spec fn lists(table: Seq<ArgView>) -> bool {
        true
    }

    /// Whether `variadic` may be the descriptor of the variadic argument,
    /// which takes every token behind the fixed ones: `None` where the
    /// command has none.
    open spec fn lists_variadic(variadic: Option<ArgView>) -> bool {
        true
    }

    fn parse(args: &mut Tokens) -> (parsed: Result<Self, EntranceError>)
        ensures
            match parsed {
                Ok(arguments) => Self::binds(old(args)@, arguments),
                Err(error) => Self::refuses(old(args)@, error@),
            },
    ;

    /// This associated function is for `HelpDisplay`.
    fn spec() -> (table: &'static [Arg])
        ensures
            Self::lists(arg_views(table@)),
    ;

    /// This associated function is for `HelpDisplay`.
    fn var_spec() -> (variadic: Option<Arg>)
        ensures
            Self::lists_variadic(var_view(variadic)),
    ;
}

/// No arguments: binding takes no token and cannot fail.
impl Arguments for () {
    open spec fn binds(tokens: Seq<Seq<char>>, arguments: Self) -> bool {
        true
    }

    open spec fn refuses(tokens: Seq<Seq<char>>, error: ErrorView) -> bool {
        false
    }

    open spec fn lists(table: Seq<ArgView>) -> bool {
        table.len() == 0
    }

    open spec fn lists_variadic(variadic: Option<ArgView>) -> bool {
        variadic is None
    }

    fn parse(args: &mut Tokens) -> (parsed: Result<Self, EntranceError>)
        ensures
            final(args)@ == old(args)@,
            final(args).spent() == old(args).spent(),
    {
        Ok(())
    }

    fn spec() -> (table: &'static [Arg]) {
        &[]
    }

    fn var_spec() -> (variadic: Option<Arg>) {
        None
    }
}

/// The tokens that bind to `count` fixed arguments: the first `count`, token
/// `i` for field `i`. With fewer tokens than fields nothing binds.
pub open spec fn fixed_fields(tokens: Seq<Seq<char>>, count: nat) -> Result<
    Seq<Seq<char>>,
    ErrorView,
> {
    if tokens.len() < count {
        Err(ErrorView::InvalidNumberOfArguments)
    } else {
        Ok(tokens.take(count as int))
    }
}

/// The tokens that are left once `count` fixed arguments are bound: those
/// behind the first `count`, or all of them where nothing binds.
pub open spec fn behind_fixed(tokens: Seq<Seq<char>>, count: nat) -> Seq<Seq<char>> {
    if tokens.len() < count {
        tokens
    } else {
        tokens.skip(count as int)
    }
}

/// Binding keeps the order and is exact in its arity: as many tokens as
/// there are fields always bind, field `i` gets token `i`, and no token is
/// left.
pub proof fn exact_arity_binds_in_order(tokens: Seq<Seq<char>>)
    ensures
        fixed_fields(tokens, tokens.len()) == Ok::<Seq<Seq<char>>, ErrorView>(tokens),
        behind_fixed(tokens, tokens.len()).len() == 0,
{
    assert(tokens.take(tokens.len() as int) =~= tokens);
}

/// With more tokens than fields, field `i` still gets token `i`, and the
/// tokens behind the fields are left in their order.
pub proof fn enough_tokens_bind_in_order(tokens: Seq<Seq<char>>, count: nat)
    requires
        count <= tokens.len(),
    ensures
        fixed_fields(tokens, count) is Ok,
        fixed_fields(tokens, count)->Ok_0.len() == count,
        forall|i: int| 0 <= i < count ==> fixed_fields(tokens, count)->Ok_0[i] == tokens[i],
        fixed_fields(tokens, count)->Ok_0 + behind_fixed(tokens, count) == tokens,
{
}

/// Fewer tokens than fields never bind: the failure is always
/// [`EntranceError::InvalidNumberOfArguments`], and no token is taken.
pub proof fn too_few_tokens_never_bind(tokens: Seq<Seq<char>>, count: nat)
    requires
        tokens.len() < count,
    ensures
        fixed_fields(tokens, count) == Err::<Seq<Seq<char>>, ErrorView>(
            ErrorView::InvalidNumberOfArguments,
        ),
        behind_fixed(tokens, count) == tokens,
{
}

/// Takes the tokens of the fixed arguments off the cursor.
///
/// With at least `count` tokens left, hands out the next `count`, in order:
/// token `i` is for field `i`. With fewer, refuses with
/// [`EntranceError::InvalidNumberOfArguments`] and takes none.
pub fn take_arguments(args: &mut Tokens, count: usize) -> (taken: Result<
    Vec<String>,
    EntranceError,
>)
    ensures
        match fixed_fields(old(args)@, count as nat) {
            Ok(fields) => taken is Ok && taken->Ok_0@.len() == count && texts(taken->Ok_0@)
                == fields,
            Err(error) => taken is Err && taken->Err_0@ == error,
        },
        final(args)@ == behind_fixed(old(args)@, count as nat),
        final(args).spent() == old(args).spent() + (old(args)@.len() - final(args)@.len()),
{
    if args.len() < count {
        return Err(EntranceError::InvalidNumberOfArguments);
    }
    let mut fields: Vec<String> = Vec::new();
    while fields.len() < count
        invariant
            fields@.len() <= count <= old(args)@.len(),
            texts(fields@) == old(args)@.take(fields@.len() as int),
            args@ == old(args)@.skip(fields@.len() as int),
            args.spent() == old(args).spent() + fields@.len(),
        decreases count - fields@.len(),
    {
        match args.next() {
            Some(token) => {
                fields.push(token);
            },
            None => {
                return Err(EntranceError::InvalidNumberOfArguments);
            },
        }
    }
    Ok(fields)
}

} // verus!
