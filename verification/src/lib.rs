//! Utilities for parsing command line arguments
//!
//! `entrance` provides type assisted tools for parsing command line
//! arguments. A command declares the options and the positional arguments
//! that it takes; its command line is then read in one pass, from left to
//! right:
//!
//! 1. [`take_options`] classifies the tokens at the front: `--name` is a
//!    long option, `-abc` a cluster of short options, and the first token
//!    that is neither, the bare `-` and `--` among them, ends the options.
//! 2. Each option is resolved by the command's [`Options`]; [`resolve`]
//!    does so against a table of descriptors.
//! 3. [`short_circuit`] lets an informative option, such as `--help`,
//!    pre-empt everything else.
//! 4. The tokens behind the options are bound by the command's
//!    [`Arguments`]: [`take_arguments`] hands out the tokens of the fixed
//!    arguments, [`parse_argument`] and [`parse_variable_argument`] convert
//!    them.
//!
//! [`CommandParser::parse`] runs the four steps; [`render_help`] lays out the
//! help text from the same descriptors.
//!
//! Every function states what it returns over the values of its arguments:
//! a token is a `Seq<char>`, a command line a `Seq<Seq<char>>`.

pub mod arguments;
pub mod classify;
pub mod command;
pub mod convert;
pub mod error;
pub mod help;
pub mod informative;
pub mod options;
pub mod schema;
pub mod text;
pub mod tokens;

pub use crate::arguments::{take_arguments, Arg, ArgView, Arguments};
pub use crate::classify::take_options;
pub use crate::command::{
    Call, CallKind, Command, CommandInfo, CommandParser, HelpDisplay, Leftover,
};
pub use crate::convert::{
    collect_converted, conversion_result, parse_argument, parse_variable_argument,
};
pub use crate::error::EntranceError as Error;
pub use crate::error::{EntranceError, ErrorKind, ErrorView, Result};
pub use crate::help::{format_arguments, format_options, render_help};
pub use crate::informative::{short_circuit, Resolved, Selection};
pub use crate::options::{flags, resolve, Opt, OptView, OptionItem, OptionToken, Options};
pub use crate::tokens::Tokens;
