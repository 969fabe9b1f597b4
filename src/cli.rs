//! The command line: `[-c|--config-filepath <PATH>] serve`, where the option
//! may stand before or after the command.

use vstd::prelude::*;

use crate::json::same_text;

verus! {

/// What the program is asked to do.
#[derive(PartialEq, Eq, Structural, Debug, Clone, Copy)]
pub enum Commands {
    /// Serve the query surface and the download route.
    Serve,
}

/// The parsed command line.
#[derive(Debug, Clone, PartialEq, Eq)]
pub struct Cli {
    pub config_filepath: Option<String>,
    pub command: Commands,
}

/// Why a command line does not parse; `Help` and `Version` are requests
/// rather than faults.
#[derive(Debug, Clone, PartialEq, Eq)]
pub enum CliError {
    Help,
    Version,
    MissingCommand,
    /// The option is last, with no value after it.
    MissingValue,
    /// The option is given twice.
    Repeated,
    /// An argument that is neither the option nor a command, or a second
    /// command.
    Unexpected(String),
}

pub open spec fn option_prefix() -> Seq<char> {
    "--config-filepath="@
}

pub open spec fn is_option(a: Seq<char>) -> bool {
    a == "-c"@ || a == "--config-filepath"@
}

pub open spec fn is_inline_option(a: Seq<char>) -> bool {
    a.len() >= option_prefix().len() && a.subrange(0, option_prefix().len() as int) == option_prefix()
}

/// The command line from its arguments onwards, given the option's value
/// so far and whether the command was seen: the option's value, or why it
/// does not parse.
pub open spec fn parse_cli(args: Seq<String>, config: Option<Seq<char>>, served: bool) -> Result<Option<Seq<char>>, CliError>
    decreases args.len(),
{
    if args.len() == 0 {
        if served {
            Ok(config)
        } else {
            Err(CliError::MissingCommand)
        }
    } else {
        let a = args[0]@;
        if a == "-h"@ || a == "--help"@ {
            Err(CliError::Help)
        } else if a == "-V"@ || a == "--version"@ {
            Err(CliError::Version)
        } else if is_option(a) {
            if args.len() < 2 {
                Err(CliError::MissingValue)
            } else if config is Some {
                Err(CliError::Repeated)
            } else {
                parse_cli(args.skip(2), Some(args[1]@), served)
            }
        } else if is_inline_option(a) {
            if config is Some {
                Err(CliError::Repeated)
            } else {
                parse_cli(args.drop_first(), Some(a.skip(option_prefix().len() as int)), served)
            }
        } else if a == "serve"@ && !served {
            parse_cli(args.drop_first(), config, true)
        } else {
            Err(CliError::Unexpected(args[0]))
        }
    }
}

impl Cli {
    /// Parses the arguments that follow the program's name.
    pub fn init(args: &Vec<String>) -> (r: Result<Cli, CliError>)
        ensures
            match parse_cli(args@, None, false) {
                Ok(config) => r matches Ok(cli) && cli.command == Commands::Serve && match cli.config_filepath {
                    Some(p) => config == Some(p@),
                    None => config is None,
                },
                Err(e) => r == Err::<Cli, CliError>(e),
            },
    {
        let mut config: Option<String> = None;
        let mut served = false;
        let mut i: usize = 0;
        let prefix = "--config-filepath=";
        proof {
            reveal_strlit("--config-filepath=");
            assert(args@.skip(0) =~= args@);
        }
        while i < args.len()
            invariant
                i <= args.len(),
                prefix@ == option_prefix(),
                option_prefix().len() == 18,
                parse_cli(args@, None, false) == parse_cli(
                    args@.skip(i as int),
                    match config {
                        Some(c) => Some(c@),
                        None => None,
                    },
                    served,
                ),
            decreases args.len() - i,
        {
            let a = &args[i];
            proof {
                assert(args@.skip(i as int)[0] == args@[i as int]);
                assert(args@.skip(i as int).drop_first() =~= args@.skip(i + 1));
            }
            if same_text(a, "-h") || same_text(a, "--help") {
                return Err(CliError::Help);
            } else if same_text(a, "-V") || same_text(a, "--version") {
                return Err(CliError::Version);
            } else if same_text(a, "-c") || same_text(a, "--config-filepath") {
                if i + 1 >= args.len() {
                    return Err(CliError::MissingValue);
                } else if config.is_some() {
                    return Err(CliError::Repeated);
                }
                proof {
                    assert(args@.skip(i as int).skip(2) =~= args@.skip(i + 2));
                    assert(args@.skip(i as int)[1] == args@[i + 1]);
                }
                config = Some(args[i + 1].clone());
                i = i + 2;
            } else if a.as_str().unicode_len() >= 18 && same_prefix(a.as_str(), prefix) {
                if config.is_some() {
                    return Err(CliError::Repeated);
                }
                let len = a.as_str().unicode_len();
                let value = a.as_str().substring_char(18, len);
                proof {
                    assert(a@.skip(18) =~= a@.subrange(18, a@.len() as int));
                }
                config = Some(String::from_str(value));
                i = i + 1;
            } else if same_text(a, "serve") && !served {
                served = true;
                i = i + 1;
            } else {
                return Err(CliError::Unexpected(a.clone()));
            }
        }
        if !served {
            return Err(CliError::MissingCommand);
        }
        Ok(Cli { config_filepath: config, command: Commands::Serve })
    }
}

/// Whether `s` begins with all of `prefix`.
fn same_prefix(s: &str, prefix: &str) -> (r: bool)
    requires
        s@.len() >= prefix@.len(),
    ensures
        r == (s@.subrange(0, prefix@.len() as int) == prefix@),
{
    let n = prefix.unicode_len();
    let mut k: usize = 0;
    while k < n
        invariant
            k <= n,
            n == prefix@.len(),
            s@.len() >= prefix@.len(),
            forall|m: int| 0 <= m < k ==> s@[m] == prefix@[m],
        decreases n - k,
    {
        if s.get_char(k) != prefix.get_char(k) {
            assert(s@.subrange(0, n as int)[k as int] != prefix@[k as int]);
            return false;
        }
        k = k + 1;
    }
    assert(s@.subrange(0, n as int) =~= prefix@);
    true
}

} // verus!
