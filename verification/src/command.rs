//! A command: its name, its options and arguments, and how its command line
//! is parsed.

use vstd::prelude::*;
use std::marker::PhantomData;
use crate::arguments::{arg_views, var_view, ArgView, Arguments};
use crate::classify::{classified, item_views, positional, take_options};
use crate::error::{EntranceError, ErrorView};
use crate::help::{help_text, render_help};
use crate::informative::{
    all_resolved, first_informative, first_unresolved, none_informative, short_circuit, Resolved,
    Selection,
};
use crate::options::{opt_views, OptView, OptionToken, Options};
use crate::tokens::{texts, Tokens};

verus! {

/// A command: the options and arguments that it takes, and what it does
/// with them.
pub trait Command: Sized {
    type Opts: Options;

    type Args: Arguments;

    /// Runs the command on a parsed command line.
    fn exec(info: &CommandInfo<Self>, opts: Vec<Self::Opts>, args: Self::Args);

    /// A parser for the command's command line.
    fn build(name: &str, version: &str) -> (parser: CommandParser<Self>)
        ensures
            parser.info()@ == (CommandInfoView { name: name@, version: version@ }),
    {
        CommandParser { info: CommandInfo::new(name, version) }
    }
}

/// The name and the version of a command.
#[derive(Debug)]
pub struct CommandInfo<C> {
    pub name: String,
    pub version: String,
    _phantom: PhantomData<C>,
}

/// The mathematical value of a [`CommandInfo`].
pub struct CommandInfoView {
    pub name: Seq<char>,
    pub version: Seq<char>,
}

impl<C> View for CommandInfo<C> {
    type V = CommandInfoView;

    closed spec fn view(&self) -> CommandInfoView {
        CommandInfoView { name: self.name@, version: self.version@ }
    }
}

impl<C> Clone for CommandInfo<C> {
    fn clone(&self) -> (copy: Self)
        ensures
            copy@ == self@,
    {
        Self { name: self.name.clone(), version: self.version.clone(), _phantom: PhantomData }
    }
}

impl<C> CommandInfo<C> {
    /// The command of the given name and version.
    pub fn new(name: &str, version: &str) -> (info: Self)
        ensures
            info@ == (CommandInfoView { name: name@, version: version@ }),
    {
        Self { name: name.to_owned(), version: version.to_owned(), _phantom: PhantomData }
    }
}

/// Parses the command line of the command `C`.
#[derive(Debug)]
pub struct CommandParser<C> {
    info: CommandInfo<C>,
}

/// The tokens behind the program's name, which is the first of a command
/// line.
pub open spec fn behind_program_name(line: Seq<Seq<char>>) -> Seq<Seq<char>> {
    if line.len() == 0 {
        line
    } else {
        line.skip(1)
    }
}

/// What becomes of positional tokens that no argument can take: those
/// behind the fixed arguments of a command without a variadic one.
#[derive(Debug, Clone, Copy, PartialEq, Eq, Structural)]
pub enum Leftover {
    /// They are not looked at.
    Ignore,
    /// They have the command line refused, as
    /// [`EntranceError::InvalidNumberOfArguments`].
    Refuse,
}

/// Whether `candidates` may be what the options `O` make of the option
/// tokens `items`: one candidate for each token, in order; a resolved option
/// with its mark, or the rejection.
pub open spec fn resolved_by<O: Options>(
    items: Seq<OptionToken>,
    candidates: Seq<Result<Resolved<O>, EntranceError>>,
) -> bool {
    &&& candidates.len() == items.len()
    &&& forall|i: int|
        0 <= i < items.len() ==> match #[trigger] candidates[i] {
            Ok(resolved) => O::resolves(items[i], resolved.option) && resolved.option.marks(
                resolved.informative,
            ),
            Err(error) => O::rejects(items[i], error@),
        }
}

/// Whether there are more tokens than the arguments so described can take.
pub open spec fn too_many(
    tokens: Seq<Seq<char>>,
    fixed: Seq<ArgView>,
    variadic: Option<ArgView>,
) -> bool {
    variadic is None && tokens.len() > fixed.len()
}

/// Whether `bound` may be what the positional tokens bind to as arguments
/// `A`, under the given policy.
///
/// Under [`Leftover::Refuse`], more tokens than the arguments can take are
/// refused, and binding is not tried. Otherwise `bound` is what binding
/// gives.
pub open spec fn bound_by<A: Arguments>(
    tokens: Seq<Seq<char>>,
    leftover: Leftover,
    bound: Result<A, ErrorView>,
) -> bool {
    let tried = match bound {
        Ok(arguments) => A::binds(tokens, arguments),
        Err(error) => A::refuses(tokens, error),
    };
    match leftover {
        Leftover::Ignore => tried,
        Leftover::Refuse => exists|fixed: Seq<ArgView>, variadic: Option<ArgView>|
            #![trigger A::lists(fixed), A::lists_variadic(variadic)]
            A::lists(fixed) && A::lists_variadic(variadic) && if too_many(tokens, fixed, variadic) {
                bound == Err::<A, ErrorView>(ErrorView::InvalidNumberOfArguments)
            } else {
                tried
            },
    }
}

/// Whether `parsed` is what a command line comes to, given what its option
/// tokens resolved to and the positional tokens behind them.
///
/// The first informative option among the candidates is the whole result,
/// whatever else is wrong with the command line. With none, the first
/// rejection is the failure. With every option resolved, the result is what
/// the positional tokens bind to: the failure, or all the options in their
/// order with the arguments.
pub open spec fn concluded<C: Command>(
    info: CommandInfo<C>,
    candidates: Seq<Result<Resolved<C::Opts>, EntranceError>>,
    positional: Seq<Seq<char>>,
    leftover: Leftover,
    parsed: Result<Call<C>, EntranceError>,
) -> bool {
    match parsed {
        Ok(call) => call.info() == info && match call.kind() {
            CallKind::Informative(option) => exists|at: int|
                #![trigger candidates[at]]
                first_informative(candidates, at) && candidates[at]->Ok_0.option == option,
            CallKind::Call((options, arguments)) => {
                &&& none_informative(candidates)
                &&& all_resolved(candidates)
                &&& options@.len() == candidates.len()
                &&& forall|i: int|
                    #![trigger candidates[i]]
                    #![trigger options@[i]]
                    0 <= i < candidates.len() ==> candidates[i]->Ok_0.option == options@[i]
                &&& bound_by::<C::Args>(positional, leftover, Ok(arguments))
            },
        },
        Err(error) => {
            &&& none_informative(candidates)
            &&& if all_resolved(candidates) {
                bound_by::<C::Args>(positional, leftover, Err(error@))
            } else {
                exists|at: int|
                    first_unresolved(candidates, at) && #[trigger] candidates[at] == Err::<
                        Resolved<C::Opts>,
                        EntranceError,
                    >(error)
            }
        },
    }
}

/// Whether `parsed` is what the command line `line` of the command `C` may
/// parse to: what it comes to for some resolution of its option tokens by
/// the options of `C`.
pub open spec fn parsed_as<C: Command>(
    info: CommandInfo<C>,
    line: Seq<Seq<char>>,
    leftover: Leftover,
    parsed: Result<Call<C>, EntranceError>,
) -> bool {
    let tokens = behind_program_name(line);
    exists|candidates: Seq<Result<Resolved<C::Opts>, EntranceError>>|
        #![trigger resolved_by::<C::Opts>(classified(tokens), candidates)]
        resolved_by::<C::Opts>(classified(tokens), candidates) && concluded(
            info,
            candidates,
            positional(tokens),
            leftover,
            parsed,
        )
}

/// An informative option always wins: where one of the candidates is an
/// informative option, the command line comes to an informative option and
/// to nothing else, whatever was rejected and whatever the positional tokens
/// are.
pub proof fn informative_option_wins<C: Command>(
    info: CommandInfo<C>,
    candidates: Seq<Result<Resolved<C::Opts>, EntranceError>>,
    positional: Seq<Seq<char>>,
    leftover: Leftover,
    parsed: Result<Call<C>, EntranceError>,
)
    requires
        concluded(info, candidates, positional, leftover, parsed),
        !none_informative(candidates),
    ensures
        parsed is Ok,
        parsed->Ok_0.kind() is Informative,
{
}

impl<C> CommandParser<C> {
    /// The command that the parser is for.
    pub closed spec fn info(&self) -> CommandInfo<C> {
        self.info
    }

    /// A parser for the command of the given name and version.
    pub fn new(name: &str, version: &str) -> (parser: Self)
        ensures
            parser.info()@ == (CommandInfoView { name: name@, version: version@ }),
    {
        Self { info: CommandInfo::new(name, version) }
    }

    /// Parses one command line, whose first token is the program's name.
    ///
    /// The options at the front are classified and resolved, every one of
    /// them. If one resolves to an informative option, the first such option
    /// is the whole result, whatever else is wrong with the command line.
    /// Otherwise the first option that fails to resolve is refused; with
    /// every option resolved, the tokens behind the options are bound to the
    /// command's arguments, and the result holds all the options, in their
    /// order, and the arguments.
    ///
    /// Tokens that the arguments leave are not looked at: to have them
    /// refused, call [`CommandParser::parse_with`].
    pub fn parse(self, args: Vec<String>) -> (parsed: Result<Call<C>, EntranceError>) where
        C: Command,

        ensures
            parsed_as(self.info(), texts(args@), Leftover::Ignore, parsed),
    {
        self.parse_with(args, Leftover::Ignore)
    }

    /// Parses one command line as [`CommandParser::parse`] does, under the
    /// given policy on positional tokens that no argument can take.
    ///
    /// Under [`Leftover::Refuse`] a command without a variadic argument
    /// takes as many positional tokens as it has fixed arguments, and no
    /// more: with more, binding is not tried, and the failure is
    /// [`EntranceError::InvalidNumberOfArguments`]. An informative option
    /// and an option that fails to resolve come first, as always.
    pub fn parse_with(self, args: Vec<String>, leftover: Leftover) -> (parsed: Result<
        Call<C>,
        EntranceError,
    >) where C: Command
        ensures
            parsed_as(self.info(), texts(args@), leftover, parsed),
    {
        let ghost line = behind_program_name(texts(args@));
        let mut tokens = Tokens::new(args);
        let _program = tokens.next();
        let items = take_options(&mut tokens);
        let ghost wanted = item_views(items@);
        let mut candidates: Vec<Result<Resolved<C::Opts>, EntranceError>> = Vec::new();
        for item in iter: items
            invariant
                iter.seq() == items@,
                wanted == item_views(items@),
                resolved_by::<C::Opts>(wanted.take(iter.index()), candidates@),
        {
            let candidate = match C::Opts::parse(item) {
                Ok(option) => {
                    let informative = option.is_informative();
                    Ok(Resolved { option, informative })
                },
                Err(error) => Err(error),
            };
            candidates.push(candidate);
        }
        let ghost resolved = candidates@;
        let parsed = match short_circuit(candidates) {
            Ok(Selection::Informative(option)) => Ok(
                Call::new(self.info, CallKind::Informative(option)),
            ),
            Ok(Selection::Options(options)) => {
                let surplus = match leftover {
                    Leftover::Ignore => false,
                    Leftover::Refuse => {
                        let variadic = C::Args::var_spec();
                        let fixed = C::Args::spec();
                        variadic.is_none() && tokens.len() > fixed.len()
                    },
                };
                let bound = if surplus {
                    Err(EntranceError::InvalidNumberOfArguments)
                } else {
                    C::Args::parse(&mut tokens)
                };
                match bound {
                    Ok(arguments) => Ok(Call::new(self.info, CallKind::Call((options, arguments)))),
                    Err(error) => Err(error),
                }
            },
            Err(error) => Err(error),
        };
        assert(resolved_by::<C::Opts>(classified(line), resolved));
        parsed
    }
}

/// What a command line asks for.
pub enum CallKind<C: Command> {
    /// An informative option, which stands for the whole command line.
    Informative(C::Opts),
    /// The command itself, with its options and its arguments.
    Call((Vec<C::Opts>, C::Args)),
}

/// A parsed command line, ready to run.
pub struct Call<C: Command> {
    info: CommandInfo<C>,
    kind: CallKind<C>,
}

impl<C: Command> Call<C> {
    /// The command that was called.
    pub closed spec fn info(&self) -> CommandInfo<C> {
        self.info
    }

    /// What was asked of it.
    pub closed spec fn kind(&self) -> CallKind<C> {
        self.kind
    }

    /// A call of the command `info` that asks for `kind`.
    pub fn new(info: CommandInfo<C>, kind: CallKind<C>) -> (call: Self)
        ensures
            call.info() == info,
            call.kind() == kind,
    {
        Self { info, kind }
    }

    /// Hands out what was asked.
    pub fn into_kind(self) -> (kind: CallKind<C>)
        ensures
            kind == self.kind(),
    {
        self.kind
    }

    /// The command that was called.
    pub fn command(&self) -> (info: &CommandInfo<C>)
        ensures
            *info == self.info(),
    {
        &self.info
    }

    /// Runs what the command line asks for: the informative option in place
    /// of the command, or the command.
    pub fn exec(self) {
        match self.kind {
            CallKind::Informative(opt) => opt.trigger_informative(&self.info),
            CallKind::Call((opts, args)) => C::exec(&self.info, opts, args),
        }
    }
}

/// Helper struct for rendering the help message of a command.
#[derive(Debug)]
pub struct HelpDisplay<'a, C>(&'a CommandInfo<C>);

impl<'a, C> HelpDisplay<'a, C> {
    /// The command that the help is for.
    pub closed spec fn info(&self) -> CommandInfo<C> {
        *self.0
    }

    /// The help of the command `info`.
    pub fn new(info: &'a CommandInfo<C>) -> (display: Self)
        ensures
            display.info() == *info,
    {
        Self(info)
    }

    /// The help message: the synopsis, the table of the options and the
    /// table of the arguments of the command `C`, under the command's name.
    pub fn to_string(&self) -> (text: String) where C: Command
        ensures
            exists|opts: Seq<OptView>, args: Seq<ArgView>, variadic: Option<ArgView>|
                #![trigger help_text(self.info()@.name, opts, args, variadic)]
                {
                    &&& C::Opts::describes(opts)
                    &&& C::Args::lists(args)
                    &&& C::Args::lists_variadic(variadic)
                    &&& text@ == help_text(self.info()@.name, opts, args, variadic)
                },
    {
        let opts = C::Opts::spec();
        let args = C::Args::spec();
        let variadic = C::Args::var_spec();
        let text = render_help(self.0.name.as_str(), opts, args, variadic);
        assert(text@ == help_text(
            self.info()@.name,
            opt_views(opts@),
            arg_views(args@),
            var_view(variadic),
        ));
        text
    }
}

} // verus!
