use entrance::{
    parse_argument, parse_variable_argument, resolve, short_circuit, take_arguments, Arg,
    Arguments, Call, CallKind, Command, CommandInfo, CommandParser, Error, ErrorKind, HelpDisplay,
    Leftover, Opt, OptionItem, Options, Resolved, Result, Selection, Tokens,
};
use std::path::PathBuf;

struct Args {
    arg1: String,
    arg2: i32,
    arg3: PathBuf,
}

impl Arguments for Args {
    fn parse(args: &mut Tokens) -> Result<Self> {
        Ok(Self {
            arg1: parse_argument(args.next().unwrap())?,
            arg2: parse_argument(args.next().unwrap())?,
            arg3: parse_argument(args.next().unwrap())?,
        })
    }

    fn spec() -> &'static [Arg] {
        const ARGS: [Arg; 3] = [
            Arg {
                name: "arg1",
                description: "This is parsed as String",
            },
            Arg {
                name: "arg2",
                description: "This is parsed as i32",
            },
            Arg {
                name: "arg3",
                description: "This is parsed as PathBuf",
            },
        ];
        &ARGS
    }

    fn var_spec() -> Option<Arg> {
        None
    }
}

fn line(tokens: &[&str]) -> Vec<String> {
    tokens.iter().map(|s| s.to_string()).collect()
}

#[test]
fn command() -> Result<()> {
    let args = ["sample", "arg1", "123", "path/to/file"];
    struct MyCommand;
    impl Command for MyCommand {
        type Opts = ();
        type Args = Args;

        fn exec(_info: &CommandInfo<Self>, _opts: Vec<()>, args: Args) {
            assert_eq!(args.arg1, "arg1".to_string());
            assert_eq!(args.arg2, 123);
            assert_eq!(args.arg3, "path/to/file".parse::<PathBuf>().unwrap());
        }
    }

    MyCommand::build("sample", "1.0.0")
        .parse(args.iter().map(|s| s.to_string()).collect())?
        .exec();

    Ok(())
}

#[test]
fn format_usage() {
    struct MyCommand;
    impl Command for MyCommand {
        type Opts = ();
        type Args = Args;

        fn exec(_info: &CommandInfo<Self>, _opts: Vec<()>, _args: Args) {}
    }

    let info = CommandInfo::<MyCommand>::new("sample", "1.0.0");
    let usage = HelpDisplay::new(&info);
    assert_eq!(
        usage.to_string(),
        "\
USAGE:
    sample <arg1> <arg2> <arg3>

ARGS:
    arg1    This is parsed as String
    arg2    This is parsed as i32
    arg3    This is parsed as PathBuf
"
        .to_string()
    );
}

#[derive(Debug, PartialEq)]
enum Flag {
    Verbose,
}

const FLAGS: [Opt; 1] = [Opt { long: "verbose", short: Some('v'), description: "Use verbose output" }];

impl Options for Flag {
    fn parse(option: OptionItem) -> Result<Self> {
        resolve(&FLAGS, &option).map(|_| Flag::Verbose)
    }

    fn is_informative(&self) -> bool {
        false
    }

    fn trigger_informative<C>(&self, _info: &CommandInfo<C>) {}

    fn spec() -> &'static [Opt] {
        &FLAGS
    }
}

#[derive(Debug, PartialEq)]
struct NumPath {
    num: f64,
    path: String,
}

const NUM_PATH: [Arg; 2] = [
    Arg { name: "num", description: "The number of lines" },
    Arg { name: "path", description: "Path to a file" },
];

impl Arguments for NumPath {
    fn parse(args: &mut Tokens) -> Result<Self> {
        let mut fields = take_arguments(args, NUM_PATH.len())?.into_iter();
        Ok(Self {
            num: parse_argument(fields.next().unwrap())?,
            path: parse_argument(fields.next().unwrap())?,
        })
    }

    fn spec() -> &'static [Arg] {
        &NUM_PATH
    }

    fn var_spec() -> Option<Arg> {
        None
    }
}

struct Count;

impl Command for Count {
    type Opts = Flag;
    type Args = NumPath;

    fn exec(_info: &CommandInfo<Self>, _opts: Vec<Flag>, _args: NumPath) {}
}

#[test]
fn options_and_arguments_are_bound() {
    let call = Count::build("prog", "1.0.0").parse(line(&["prog", "-v", "3.5", "/tmp/x"])).unwrap();
    assert_eq!(call.command().name, "prog");
    assert_eq!(call.command().version, "1.0.0");
    match call.into_kind() {
        CallKind::Call((opts, args)) => {
            assert_eq!(opts, vec![Flag::Verbose]);
            assert_eq!(args, NumPath { num: 3.5, path: "/tmp/x".to_string() });
        }
        CallKind::Informative(_) => panic!("no option is informative"),
    }
}

#[test]
fn a_malformed_argument_is_a_parse_error() {
    let refused = Count::build("prog", "1.0.0").parse(line(&["prog", "-v", "notanumber", "/tmp/x"]));
    let expected = "notanumber".parse::<f64>().unwrap_err().to_string();
    match refused {
        Err(Error::ParseError(message)) => assert_eq!(message, expected),
        _ => panic!("the first argument is no number"),
    }
}

#[test]
fn repeated_options_are_kept() {
    let call = Count::build("prog", "1.0.0").parse(line(&["prog", "-vv", "--verbose", "1", "x"]));
    match call.unwrap().into_kind() {
        CallKind::Call((opts, _)) => {
            assert_eq!(opts, vec![Flag::Verbose, Flag::Verbose, Flag::Verbose])
        }
        CallKind::Informative(_) => panic!("no option is informative"),
    }
}

#[test]
fn tokens_behind_the_arguments_are_left_alone() {
    let call = Count::build("prog", "1.0.0").parse(line(&["prog", "1", "x", "extra", "-v"]));
    match call.unwrap().into_kind() {
        CallKind::Call((opts, args)) => {
            assert!(opts.is_empty());
            assert_eq!(args, NumPath { num: 1.0, path: "x".to_string() });
        }
        CallKind::Informative(_) => panic!("no option is informative"),
    }
}

#[test]
fn too_few_arguments_win_over_a_malformed_one() {
    let refused = Count::build("prog", "1.0.0").parse(line(&["prog", "notanumber"]));
    assert_eq!(refused.err().unwrap().kind(), ErrorKind::InvalidNumberOfArguments);
}

#[derive(Debug, PartialEq)]
enum Opts {
    Help,
    Verbose,
}

const OPTS: [Opt; 2] = [
    Opt { long: "help", short: Some('h'), description: "Print the help message" },
    Opt { long: "verbose", short: Some('v'), description: "Use verbose output" },
];

impl Options for Opts {
    fn parse(option: OptionItem) -> Result<Self> {
        match resolve(&OPTS, &option)? {
            0 => Ok(Opts::Help),
            _ => Ok(Opts::Verbose),
        }
    }

    fn is_informative(&self) -> bool {
        *self == Opts::Help
    }

    fn trigger_informative<C>(&self, _info: &CommandInfo<C>) {}

    fn spec() -> &'static [Opt] {
        &OPTS
    }
}

#[derive(Debug, PartialEq)]
struct File {
    file: String,
}

const FILE: [Arg; 1] = [Arg { name: "file", description: "Path to a file" }];

impl Arguments for File {
    fn parse(args: &mut Tokens) -> Result<Self> {
        let mut fields = take_arguments(args, FILE.len())?.into_iter();
        Ok(Self { file: parse_argument(fields.next().unwrap())? })
    }

    fn spec() -> &'static [Arg] {
        &FILE
    }

    fn var_spec() -> Option<Arg> {
        None
    }
}

struct Show;

impl Command for Show {
    type Opts = Opts;
    type Args = File;

    fn exec(_info: &CommandInfo<Self>, _opts: Vec<Opts>, _args: File) {}
}

fn informative(call: Call<Show>) -> Opts {
    match call.into_kind() {
        CallKind::Informative(option) => option,
        CallKind::Call(_) => panic!("an informative option was given"),
    }
}

#[test]
fn an_informative_option_stands_alone() {
    let call = CommandParser::<Show>::new("prog", "1.0.0").parse(line(&["prog", "-h", "-v"]));
    assert_eq!(informative(call.unwrap()), Opts::Help);
}

#[test]
fn an_informative_option_wins_over_an_unknown_option() {
    let call = Show::build("prog", "1.0.0").parse(line(&["prog", "--bogus", "-h"]));
    assert_eq!(informative(call.unwrap()), Opts::Help);
    let call = Show::build("prog", "1.0.0").parse(line(&["prog", "-xh"]));
    assert_eq!(informative(call.unwrap()), Opts::Help);
    let call = Show::build("prog", "1.0.0").parse(line(&["prog", "--help", "--bogus"]));
    assert_eq!(informative(call.unwrap()), Opts::Help);
}

#[test]
fn an_informative_option_wins_over_missing_arguments() {
    let call = Show::build("prog", "1.0.0").parse(line(&["prog", "-vh"]));
    assert_eq!(informative(call.unwrap()), Opts::Help);
}

#[test]
fn an_informative_option_behind_the_options_is_not_one() {
    let call = Show::build("prog", "1.0.0").parse(line(&["prog", "file", "-h"]));
    match call.unwrap().into_kind() {
        CallKind::Call((opts, args)) => {
            assert!(opts.is_empty());
            assert_eq!(args, File { file: "file".to_string() });
        }
        CallKind::Informative(_) => panic!("the option stands behind a positional argument"),
    }
    let call = Show::build("prog", "1.0.0").parse(line(&["prog", "--", "-h"]));
    match call.unwrap().into_kind() {
        CallKind::Call((_, args)) => assert_eq!(args, File { file: "--".to_string() }),
        CallKind::Informative(_) => panic!("the option stands behind the end of the options"),
    }
}

#[test]
fn a_missing_argument_is_refused() {
    let refused = Show::build("prog", "1.0.0").parse(line(&["prog"]));
    assert_eq!(refused.err().unwrap().kind(), ErrorKind::InvalidNumberOfArguments);
    let refused = Show::build("prog", "1.0.0").parse(line(&["prog", "-v"]));
    assert_eq!(refused.err().unwrap().kind(), ErrorKind::InvalidNumberOfArguments);
}

#[test]
fn an_unknown_option_is_refused_with_its_name() {
    let refused = Show::build("prog", "1.0.0").parse(line(&["prog", "--unknown"]));
    match refused {
        Err(Error::InvalidOption(item)) => {
            assert_eq!(item, OptionItem::Long("unknown".to_string()))
        }
        _ => panic!("the option is unknown"),
    }
}

#[test]
fn the_first_unknown_option_is_the_one_refused() {
    let refused = Show::build("prog", "1.0.0").parse(line(&["prog", "-vxy", "--zed", "file"]));
    match refused {
        Err(Error::InvalidOption(item)) => assert_eq!(item, OptionItem::Short('x')),
        _ => panic!("the option is unknown"),
    }
}

#[test]
fn an_unknown_option_wins_over_missing_arguments() {
    let refused = Show::build("prog", "1.0.0").parse(line(&["prog", "--unknown"]));
    assert_eq!(refused.err().unwrap().kind(), ErrorKind::InvalidOption);
}

#[test]
fn a_command_line_without_a_program_name_has_no_tokens() {
    let refused = Show::build("prog", "1.0.0").parse(Vec::new());
    assert_eq!(refused.err().unwrap().kind(), ErrorKind::InvalidNumberOfArguments);
}

#[test]
fn the_program_name_is_never_an_option() {
    let call = Show::build("prog", "1.0.0").parse(line(&["-h", "file"]));
    match call.unwrap().into_kind() {
        CallKind::Call((opts, args)) => {
            assert!(opts.is_empty());
            assert_eq!(args, File { file: "file".to_string() });
        }
        CallKind::Informative(_) => panic!("the first token is the name of the program"),
    }
}

#[derive(Debug, PartialEq)]
struct Files {
    files: Vec<String>,
}

impl Arguments for Files {
    fn parse(args: &mut Tokens) -> Result<Self> {
        Ok(Self { files: parse_variable_argument(args)? })
    }

    fn spec() -> &'static [Arg] {
        &[]
    }

    fn var_spec() -> Option<Arg> {
        Some(Arg { name: "files", description: "Paths to files" })
    }
}

struct Concat;

impl Command for Concat {
    type Opts = Opts;
    type Args = Files;

    fn exec(_info: &CommandInfo<Self>, _opts: Vec<Opts>, _args: Files) {}
}

#[test]
fn a_variadic_argument_may_be_empty() {
    let call = Concat::build("prog", "1.0.0").parse(line(&["prog"])).unwrap();
    match call.into_kind() {
        CallKind::Call((opts, args)) => {
            assert!(opts.is_empty());
            assert_eq!(args, Files { files: Vec::new() });
        }
        CallKind::Informative(_) => panic!("no option was given"),
    }
}

#[test]
fn a_variadic_argument_takes_every_token_in_order() {
    let call = Concat::build("prog", "1.0.0").parse(line(&["prog", "-v", "b", "a", "-h"])).unwrap();
    match call.into_kind() {
        CallKind::Call((opts, args)) => {
            assert_eq!(opts, vec![Opts::Verbose]);
            assert_eq!(args.files, vec!["b", "a", "-h"]);
        }
        CallKind::Informative(_) => panic!("the option stands behind a positional argument"),
    }
}

#[test]
fn leftover_tokens_are_refused_on_request() {
    let tokens = line(&["prog", "-v", "file", "extra"]);
    let refused = Show::build("prog", "1.0.0").parse_with(tokens.clone(), Leftover::Refuse);
    assert_eq!(refused.err().unwrap().kind(), ErrorKind::InvalidNumberOfArguments);
    let call = Show::build("prog", "1.0.0").parse_with(tokens, Leftover::Ignore);
    match call.unwrap().into_kind() {
        CallKind::Call((opts, args)) => {
            assert_eq!(opts, vec![Opts::Verbose]);
            assert_eq!(args, File { file: "file".to_string() });
        }
        CallKind::Informative(_) => panic!("no option is informative"),
    }
}

#[test]
fn exactly_enough_tokens_are_never_refused() {
    let call = Show::build("prog", "1.0.0").parse_with(line(&["prog", "file"]), Leftover::Refuse);
    match call.unwrap().into_kind() {
        CallKind::Call((_, args)) => assert_eq!(args, File { file: "file".to_string() }),
        CallKind::Informative(_) => panic!("no option is informative"),
    }
    let refused = Show::build("prog", "1.0.0").parse_with(line(&["prog"]), Leftover::Refuse);
    assert_eq!(refused.err().unwrap().kind(), ErrorKind::InvalidNumberOfArguments);
}

#[test]
fn a_variadic_argument_leaves_nothing_to_refuse() {
    let call = Concat::build("prog", "1.0.0").parse_with(line(&["prog", "a", "b"]), Leftover::Refuse);
    match call.unwrap().into_kind() {
        CallKind::Call((_, args)) => assert_eq!(args.files, vec!["a", "b"]),
        CallKind::Informative(_) => panic!("no option is informative"),
    }
}

#[test]
fn an_informative_option_wins_over_leftover_tokens() {
    let call = Show::build("prog", "1.0.0").parse_with(line(&["prog", "-h", "a", "b"]), Leftover::Refuse);
    assert_eq!(informative(call.unwrap()), Opts::Help);
    let refused =
        Show::build("prog", "1.0.0").parse_with(line(&["prog", "-x", "a", "b"]), Leftover::Refuse);
    assert_eq!(refused.err().unwrap().kind(), ErrorKind::InvalidOption);
}

fn plain<O>(option: O) -> Result<Resolved<O>> {
    Ok(Resolved { option, informative: false })
}

fn informing<O>(option: O) -> Result<Resolved<O>> {
    Ok(Resolved { option, informative: true })
}

#[test]
fn short_circuit_prefers_the_first_informative_option() {
    let selected = short_circuit(vec![
        plain("verbose"),
        Err(Error::InvalidOption(OptionItem::Short('x'))),
        informing("help"),
        informing("version"),
        plain("verbose"),
    ]);
    match selected {
        Ok(Selection::Informative(option)) => assert_eq!(option, "help"),
        _ => panic!("an informative option was given"),
    }
}

#[test]
fn short_circuit_reports_the_first_failure() {
    let selected = short_circuit(vec![
        plain("verbose"),
        Err(Error::InvalidOption(OptionItem::Short('x'))),
        Err(Error::InvalidOption(OptionItem::Short('y'))),
    ]);
    match selected {
        Err(Error::InvalidOption(item)) => assert_eq!(item, OptionItem::Short('x')),
        _ => panic!("an option failed to resolve"),
    }
}

#[test]
fn short_circuit_keeps_all_options_in_order() {
    let selected = short_circuit(vec![plain(2), plain(1), plain(2)]);
    match selected {
        Ok(Selection::Options(options)) => assert_eq!(options, vec![2, 1, 2]),
        _ => panic!("every option resolved and none is informative"),
    }
    match short_circuit(Vec::<Result<Resolved<u8>>>::new()) {
        Ok(Selection::Options(options)) => assert!(options.is_empty()),
        _ => panic!("no option was given"),
    }
}

#[test]
fn command_info_is_copied_whole() {
    let info = CommandInfo::<Show>::new("sample", "1.2.3");
    let copy = info.clone();
    assert_eq!(copy.name, "sample");
    assert_eq!(copy.version, "1.2.3");
}
