//! The command-line surface: one global `--config <path>` option and one
//! required subcommand, `start`.

use vstd::prelude::*;

verus! {

/// The run modes the command line can select; `start` is the only one.
#[derive(Clone, Copy, Debug, PartialEq, Eq, Structural)]
pub enum Subcommand {
    Start,
}

/// The ways a command line can be malformed. A usage failure is fatal: the
/// process prints a message with the usage text and exits non-zero, so these
/// never travel further than the parsing layer.
#[derive(Clone, Copy, Debug, PartialEq, Eq, Structural)]
pub enum UsageError {
    /// The tokens ran out before any subcommand was named.
    MissingSubcommand,
    /// A positional token arrived where a subcommand was expected, but it
    /// names none.
    UnknownSubcommand,
    /// The configuration option was the last token, so its value is missing.
    MissingOptionValue,
    /// A positional token followed an already-selected subcommand.
    UnexpectedArgument,
}

/// What parsing produces: the selected run mode and, when `--config` was
/// given, the explicit configuration-file path.
#[derive(Debug, Clone, PartialEq, Eq)]
pub struct ParsedArguments {
    pub subcommand: Subcommand,
    pub config_path: Option<String>,
}

/// The mathematical image of `ParsedArguments`: the path as its character
/// sequence.
pub struct ParsedView {
    pub subcommand: Subcommand,
    pub config_path: Option<Seq<char>>,
}

/// The image that an optional owned path leaves in `ParsedView`.
pub open spec fn opt_path_view(p: Option<String>) -> Option<Seq<char>> {
    match p {
        Some(s) => Some(s@),
        None => None,
    }
}

impl View for ParsedArguments {
    type V = ParsedView;

    open spec fn view(&self) -> ParsedView {
        ParsedView {
            subcommand: self.subcommand,
            config_path: opt_path_view(self.config_path),
        }
    }
}

/// The two spellings of the configuration-path option.
pub open spec fn is_config_flag(tok: Seq<char>) -> bool {
    tok == "--config"@ || tok == "-c"@
}

/// One step of the grammar over the remaining tokens, carrying the option
/// value and the subcommand seen so far. The option is global — accepted
/// before or after the subcommand — and its last occurrence wins; exactly one
/// subcommand must appear.
pub open spec fn parse_step(
    args: Seq<String>,
    config_path: Option<Seq<char>>,
    subcommand: Option<Subcommand>,
) -> Result<ParsedView, UsageError>
    decreases args.len(),
{
    if args.len() == 0 {
        match subcommand {
            Some(s) => Ok(ParsedView { subcommand: s, config_path }),
            None => Err(UsageError::MissingSubcommand),
        }
    } else if is_config_flag(args[0]@) {
        if args.len() >= 2 {
            parse_step(args.skip(2), Some(args[1]@), subcommand)
        } else {
            Err(UsageError::MissingOptionValue)
        }
    } else if subcommand is None {
        if args[0]@ == "start"@ {
            parse_step(args.skip(1), config_path, Some(Subcommand::Start))
        } else {
            Err(UsageError::UnknownSubcommand)
        }
    } else {
        Err(UsageError::UnexpectedArgument)
    }
}

/// The whole grammar: `[--config <path>] start`.
pub open spec fn spec_parse(args: Seq<String>) -> Result<ParsedView, UsageError> {
    parse_step(args, None, None)
}

/// Compares a runtime token with an option or subcommand spelling, character
/// for character.
fn str_eq_lit(a: &String, lit: &str) -> (r: bool)
    ensures
        r == (a@ == lit@),
{
    *a == lit.to_owned()
}

/// Parses the raw command-line tokens (the program name excluded) against the
/// grammar `[--config <path>] start`, exactly as `spec_parse` states it.
pub fn parse(args: &Vec<String>) -> (r: Result<ParsedArguments, UsageError>)
    ensures
        match r {
            Ok(p) => spec_parse(args@) == Ok::<ParsedView, UsageError>(p@),
            Err(e) => spec_parse(args@) == Err::<ParsedView, UsageError>(e),
        },
{
    let ghost all: Seq<String> = args@;
    proof {
        assert(all.skip(0) =~= all);
    }
    let mut config_path: Option<String> = None;
    let mut subcommand: Option<Subcommand> = None;
    let mut i: usize = 0;
    while i < args.len()
        invariant
            i <= args.len(),
            args@ == all,
            spec_parse(all) == parse_step(
                all.skip(i as int),
                opt_path_view(config_path),
                subcommand,
            ),
        decreases args.len() - i,
    {
        let a = &args[i];
        proof {
            assert(all.skip(i as int)[0] == all[i as int]);
        }
        if str_eq_lit(a, "--config") || str_eq_lit(a, "-c") {
            if i + 1 < args.len() {
                proof {
                    assert(all.skip(i as int)[1] == all[i as int + 1]);
                    assert(all.skip(i as int).skip(2) =~= all.skip(i as int + 2));
                }
                config_path = Some(args[i + 1].clone());
                i = i + 2;
            } else {
                return Err(UsageError::MissingOptionValue);
            }
        } else if subcommand.is_none() {
            if str_eq_lit(a, "start") {
                proof {
                    assert(all.skip(i as int).skip(1) =~= all.skip(i as int + 1));
                }
                subcommand = Some(Subcommand::Start);
                i = i + 1;
            } else {
                return Err(UsageError::UnknownSubcommand);
            }
        } else {
            return Err(UsageError::UnexpectedArgument);
        }
    }
    match subcommand {
        Some(s) => Ok(ParsedArguments { subcommand: s, config_path }),
        None => Err(UsageError::MissingSubcommand),
    }
}

impl UsageError {
    /// What each malformed command line is told, ahead of the usage text.
    pub open spec fn spec_message(&self) -> Seq<char> {
        match self {
            UsageError::MissingSubcommand => "no subcommand given"@,
            UsageError::UnknownSubcommand => "unknown subcommand"@,
            UsageError::MissingOptionValue => "option --config takes a value"@,
            UsageError::UnexpectedArgument => "unexpected argument"@,
        }
    }

    /// The human-readable line printed with the usage text before the
    /// non-zero exit.
    pub fn message(&self) -> (r: String)
        ensures
            r@ == self.spec_message(),
    {
        match self {
            UsageError::MissingSubcommand => "no subcommand given".to_owned(),
            UsageError::UnknownSubcommand => "unknown subcommand".to_owned(),
            UsageError::MissingOptionValue => "option --config takes a value".to_owned(),
            UsageError::UnexpectedArgument => "unexpected argument".to_owned(),
        }
    }
}

/// A command line that never names `start` cannot parse: a subcommand is
/// required, and `start` is the only one, so parsing ends in a usage error
/// before any configuration work begins.
pub proof fn lemma_parse_needs_subcommand(args: Seq<String>)
    requires
        forall|k: int| 0 <= k < args.len() ==> args[k]@ != "start"@,
    ensures
        spec_parse(args) is Err,
{
    lemma_parse_step_needs_subcommand(args, None);
}

proof fn lemma_parse_step_needs_subcommand(args: Seq<String>, config_path: Option<Seq<char>>)
    requires
        forall|k: int| 0 <= k < args.len() ==> args[k]@ != "start"@,
    ensures
        parse_step(args, config_path, None) is Err,
    decreases args.len(),
{
    if args.len() == 0 {
    } else if is_config_flag(args[0]@) {
        if args.len() >= 2 {
            assert forall|k: int| 0 <= k < args.skip(2).len() implies args.skip(2)[k]@ != "start"@ by {
                assert(args.skip(2)[k] == args[k + 2]);
            }
            lemma_parse_step_needs_subcommand(args.skip(2), Some(args[1]@));
        }
    } else {
        assert(args[0]@ != "start"@);
    }
}

/// A first token that is neither the configuration option nor `start` names
/// no known subcommand and is fatal, whatever follows it.
pub proof fn lemma_unknown_first_token_rejected(args: Seq<String>)
    requires
        args.len() > 0,
        !is_config_flag(args[0]@),
        args[0]@ != "start"@,
    ensures
        spec_parse(args) == Err::<ParsedView, UsageError>(UsageError::UnknownSubcommand),
{
}

/// A command line that never spells the configuration option parses, when it
/// parses at all, to arguments without an explicit path — the very inputs
/// whose resolution the silent-fallback tiers keep from failing.
pub proof fn lemma_no_flag_no_explicit_path(args: Seq<String>)
    requires
        forall|k: int| 0 <= k < args.len() ==> !is_config_flag(args[k]@),
    ensures
        spec_parse(args) matches Ok(p) ==> p.config_path is None,
{
    lemma_parse_step_no_flag(args, None);
}

proof fn lemma_parse_step_no_flag(args: Seq<String>, subcommand: Option<Subcommand>)
    requires
        forall|k: int| 0 <= k < args.len() ==> !is_config_flag(args[k]@),
    ensures
        parse_step(args, None, subcommand) matches Ok(p) ==> p.config_path is None,
    decreases args.len(),
{
    if args.len() == 0 {
    } else if is_config_flag(args[0]@) {
        assert(!is_config_flag(args[0]@));
    } else if subcommand is None && args[0]@ == "start"@ {
        assert forall|k: int| 0 <= k < args.skip(1).len() implies !is_config_flag(
            args.skip(1)[k]@,
        ) by {
            assert(args.skip(1)[k] == args[k + 1]);
        }
        lemma_parse_step_no_flag(args.skip(1), Some(Subcommand::Start));
    }
}

/// An empty command line is rejected for want of a subcommand.
pub proof fn lemma_empty_args_rejected()
    ensures
        spec_parse(Seq::<String>::empty()) == Err::<ParsedView, UsageError>(
            UsageError::MissingSubcommand,
        ),
{
}

} // verus!
