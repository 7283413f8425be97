//! The command line.

use vstd::prelude::*;

use crate::config::SecretProviderKind;
use crate::error;
use crate::error::EdgeError;
use crate::text;

verus! {

/// What is printed for an operator who needs to know the command line.
pub const USAGE: &'static str =
    "Usage:\nelowen-edge run --config PATH\nelowen-edge tui --config PATH\nelowen-edge config import-env --env-file PATH --config PATH\nelowen-edge trust generate-keypair\nelowen-edge trust import-key --from PATH --to PATH --provider file|dpapi\n\nTOML config is required for runtime startup. Legacy env files are supported only by import-env.\n";

/// What is printed for an operator who needs to know the command line.
pub fn startup_usage() -> (out: &'static str)
    ensures
        out@ == USAGE@,
{
    USAGE
}

/// What the process was started for.
#[derive(Clone, Debug, PartialEq, Eq)]
pub enum EdgeCommand {
    /// Show the usage.
    Help,
    /// Run the edge runtime.
    Run { config_path: String },
    /// Open the terminal interface.
    Tui { config_path: String },
    /// Turn an environment file into a configuration file.
    ImportEnv { env_file: String, config_path: String },
    /// Hand a key to a secret provider.
    ImportTrustKey { from_path: String, to_path: String, provider: SecretProviderKind },
    /// Print a fresh pair of keys.
    GenerateTrustKeypair,
}

/// The contents of an [`EdgeCommand`].
pub enum EdgeCommandView {
    Help,
    Run { config_path: Seq<char> },
    Tui { config_path: Seq<char> },
    ImportEnv { env_file: Seq<char>, config_path: Seq<char> },
    ImportTrustKey { from_path: Seq<char>, to_path: Seq<char>, provider: SecretProviderKind },
    GenerateTrustKeypair,
}

impl View for EdgeCommand {
    type V = EdgeCommandView;

    open spec fn view(&self) -> EdgeCommandView {
        match *self {
            EdgeCommand::Help => EdgeCommandView::Help,
            EdgeCommand::Run { config_path } => EdgeCommandView::Run { config_path: config_path@ },
            EdgeCommand::Tui { config_path } => EdgeCommandView::Tui { config_path: config_path@ },
            EdgeCommand::ImportEnv { env_file, config_path } => EdgeCommandView::ImportEnv {
                env_file: env_file@,
                config_path: config_path@,
            },
            EdgeCommand::ImportTrustKey { from_path, to_path, provider } =>
                EdgeCommandView::ImportTrustKey {
                    from_path: from_path@,
                    to_path: to_path@,
                    provider,
                },
            EdgeCommand::GenerateTrustKeypair => EdgeCommandView::GenerateTrustKeypair,
        }
    }
}

/// The first position, from a given one on, at which a word stands.
pub open spec fn position_from(args: Seq<Seq<char>>, word: Seq<char>, from: nat) -> Option<nat>
    decreases args.len() - from,
{
    if from >= args.len() {
        None
    } else if args[from as int] == word {
        Some(from)
    } else {
        position_from(args, word, from + 1)
    }
}

/// The value of a named argument and the arguments without both, or the message of its absence.
pub open spec fn taken(args: Seq<Seq<char>>, name: Seq<char>) -> Result<
    (Seq<char>, Seq<Seq<char>>),
    Seq<char>,
> {
    match position_from(args, name, 0) {
        None => Err("missing required "@ + name + "\n\n"@ + USAGE@),
        Some(at) => if at + 1 >= args.len() {
            Err("missing value after "@ + name)
        } else {
            Ok((args[at as int + 1], args.remove(at as int + 1).remove(at as int)))
        },
    }
}

/// The first position at which a word stands.
fn position_of(args: &Vec<String>, word: &str) -> (out: Option<usize>)
    ensures
        match out {
            Some(at) => position_from(text::texts(args@), word@, 0) == Some(at as nat) && at
                < args.len(),
            None => position_from(text::texts(args@), word@, 0) is None,
        },
{
    let mut i: usize = 0;
    while i < args.len()
        invariant
            i <= args.len(),
            position_from(text::texts(args@), word@, 0) == position_from(
                text::texts(args@),
                word@,
                i as nat,
            ),
        decreases args.len() - i,
    {
        assert(text::texts(args@)[i as int] == args@[i as int]@);
        if text::text_eq(&args[i], word) {
            return Some(i);
        }
        i = i + 1;
    }
    None
}

/// Takes the value of a named argument, and the argument itself, out of the command line. Where
/// it is missing the command line is unchanged.
pub fn take_path_arg(args: &mut Vec<String>, name: &str) -> (out: Result<String, EdgeError>)
    ensures
        match taken(text::texts(old(args)@), name@) {
            Ok((value, rest)) => {
                &&& out matches Ok(found) && found@ == value
                &&& text::texts(final(args)@) == rest
            },
            Err(message) => {
                &&& out matches Err(error) && error@ == message
                &&& final(args)@ == old(args)@
            },
        },
{
    let ghost before = text::texts(args@);
    let at = match position_of(args, name) {
        Some(at) => at,
        None => {
            let mut message = "missing required ".to_owned();
            message.append(name);
            message.append("\n\n");
            message.append(startup_usage());
            return Err(EdgeError::of(message));
        },
    };
    assert(before.len() == args.len());
    if at >= args.len() - 1 {
        let mut message = "missing value after ".to_owned();
        message.append(name);
        return Err(EdgeError::of(message));
    }
    let value = args.remove(at + 1);
    assert(text::texts(args@) == before.remove(at + 1));
    let _name = args.remove(at);
    assert(text::texts(args@) == before.remove(at + 1).remove(at as int));
    Ok(value)
}

/// The provider that a name selects, or the message of its refusal.
pub open spec fn provider_named(value: Seq<char>) -> Result<SecretProviderKind, Seq<char>> {
    let word = text::lower(text::trim(value));
    if word == "file"@ {
        Ok(SecretProviderKind::File)
    } else if word == "dpapi"@ || word == "windows-dpapi"@ {
        Ok(SecretProviderKind::Dpapi)
    } else if word == "windows-credential"@ || word == "credential"@ {
        Ok(SecretProviderKind::WindowsCredential)
    } else {
        Err("unsupported secret provider `"@ + value + "`"@)
    }
}

/// The provider that a name selects.
pub fn parse_secret_provider(value: &str) -> (out: Result<SecretProviderKind, EdgeError>)
    ensures
        (match out {
            Ok(provider) => Ok::<SecretProviderKind, Seq<char>>(provider),
            Err(error) => Err::<SecretProviderKind, Seq<char>>(error@),
        }) == provider_named(value@),
{
    let word = text::lowered(&text::trimmed_text(value));
    if text::text_eq(&word, "file") {
        Ok(SecretProviderKind::File)
    } else if text::text_eq(&word, "dpapi") || text::text_eq(&word, "windows-dpapi") {
        Ok(SecretProviderKind::Dpapi)
    } else if text::text_eq(&word, "windows-credential") || text::text_eq(&word, "credential") {
        Ok(SecretProviderKind::WindowsCredential)
    } else {
        let mut message = "unsupported secret provider `".to_owned();
        message.append(value);
        message.append("`");
        Err(EdgeError::of(message))
    }
}

/// The provider that a named argument selects, or the message of its refusal.
pub open spec fn provider_taken(args: Seq<Seq<char>>, name: Seq<char>) -> Result<
    SecretProviderKind,
    Seq<char>,
> {
    match taken(args, name) {
        Err(message) => Err(message),
        Ok((value, rest)) => provider_named(value),
    }
}

/// Takes the provider of a named argument, and the argument itself, out of the command line. Where
/// it is missing the command line is unchanged.
pub fn take_provider_arg(args: &mut Vec<String>, name: &str) -> (out: Result<
    SecretProviderKind,
    EdgeError,
>)
    ensures
        (match out {
            Ok(provider) => Ok::<SecretProviderKind, Seq<char>>(provider),
            Err(error) => Err::<SecretProviderKind, Seq<char>>(error@),
        }) == provider_taken(text::texts(old(args)@), name@),
        text::texts(final(args)@) == (match taken(text::texts(old(args)@), name@) {
            Ok((value, rest)) => rest,
            Err(_) => text::texts(old(args)@),
        }),
{
    match take_path_arg(args, name) {
        Ok(value) => parse_secret_provider(&value),
        Err(error) => Err(error),
    }
}

/// The command that hands a key to a provider.
pub open spec fn import_key_command(args: Seq<Seq<char>>) -> Result<EdgeCommandView, Seq<char>> {
    match taken(args, "--from"@) {
        Err(message) => Err(message),
        Ok((from_path, rest)) => match taken(rest, "--to"@) {
            Err(message) => Err(message),
            Ok((to_path, last)) => match provider_taken(last, "--provider"@) {
                Err(message) => Err(message),
                Ok(provider) => Ok(
                    EdgeCommandView::ImportTrustKey { from_path, to_path, provider },
                ),
            },
        },
    }
}

/// The command that turns an environment file into a configuration file.
pub open spec fn import_env_command(args: Seq<Seq<char>>) -> Result<EdgeCommandView, Seq<char>> {
    match taken(args, "--env-file"@) {
        Err(message) => Err(message),
        Ok((env_file, rest)) => match taken(rest, "--config"@) {
            Err(message) => Err(message),
            Ok((config_path, last)) => Ok(EdgeCommandView::ImportEnv { env_file, config_path }),
        },
    }
}

/// The command that arguments make up, or the message of their refusal.
pub open spec fn command_of(args: Seq<Seq<char>>) -> Result<EdgeCommandView, Seq<char>> {
    if args.len() == 0 {
        Err(USAGE@)
    } else if args[0] == "--help"@ || args[0] == "-h"@ {
        Ok(EdgeCommandView::Help)
    } else if args[0] == "--generate-trust-keypair"@ {
        Ok(EdgeCommandView::GenerateTrustKeypair)
    } else {
        let rest = args.drop_first();
        let second = if rest.len() > 0 {
            Some(rest[0])
        } else {
            None
        };
        if args[0] == "run"@ {
            match taken(rest, "--config"@) {
                Err(message) => Err(message),
                Ok((config_path, last)) => Ok(EdgeCommandView::Run { config_path }),
            }
        } else if args[0] == "tui"@ {
            match taken(rest, "--config"@) {
                Err(message) => Err(message),
                Ok((config_path, last)) => Ok(EdgeCommandView::Tui { config_path }),
            }
        } else if args[0] == "trust"@ && second == Some("generate-keypair"@) {
            Ok(EdgeCommandView::GenerateTrustKeypair)
        } else if args[0] == "trust"@ && second == Some("import-key"@) {
            import_key_command(rest.drop_first())
        } else if args[0] == "config"@ && second == Some("import-env"@) {
            import_env_command(rest.drop_first())
        } else {
            Err("unsupported command `"@ + args[0] + "`\n\n"@ + USAGE@)
        }
    }
}

/// Whether a list begins with a word.
fn begins_with_word(args: &Vec<String>, word: &str) -> (yes: bool)
    ensures
        yes == (text::texts(args@).len() > 0 && text::texts(args@)[0] == word@),
{
    assert(text::texts(args@).len() == args.len());
    if args.len() == 0 {
        return false;
    }
    assert(text::texts(args@)[0] == args@[0]@);
    text::text_eq(&args[0], word)
}

/// Takes the first word off a list.
fn drop_word(args: &mut Vec<String>) -> (word: String)
    requires
        old(args).len() > 0,
    ensures
        text::texts(final(args)@) == text::texts(old(args)@).drop_first(),
        word@ == text::texts(old(args)@)[0],
{
    let ghost before = text::texts(args@);
    assert(before[0] == args@[0]@);
    let word = args.remove(0);
    assert(text::texts(args@) == before.drop_first());
    word
}

/// The command that the arguments after the program's name make up.
pub fn parse_command(args: Vec<String>) -> (out: Result<EdgeCommand, EdgeError>)
    ensures
        error::outcome(out) == command_of(text::texts(args@)),
{
    let mut args = args;
    assert(text::texts(args@).len() == args.len());
    if args.len() == 0 {
        return Err(EdgeError::new(startup_usage()));
    }
    if begins_with_word(&args, "--help") || begins_with_word(&args, "-h") {
        return Ok(EdgeCommand::Help);
    }
    if begins_with_word(&args, "--generate-trust-keypair") {
        return Ok(EdgeCommand::GenerateTrustKeypair);
    }
    let command = drop_word(&mut args);
    if text::text_eq(&command, "run") {
        return match take_path_arg(&mut args, "--config") {
            Ok(config_path) => Ok(EdgeCommand::Run { config_path }),
            Err(error) => Err(error),
        };
    }
    if text::text_eq(&command, "tui") {
        return match take_path_arg(&mut args, "--config") {
            Ok(config_path) => Ok(EdgeCommand::Tui { config_path }),
            Err(error) => Err(error),
        };
    }
    if text::text_eq(&command, "trust") && begins_with_word(&args, "generate-keypair") {
        return Ok(EdgeCommand::GenerateTrustKeypair);
    }
    if text::text_eq(&command, "trust") && begins_with_word(&args, "import-key") {
        assert(text::texts(args@).len() == args.len());
        let _word = drop_word(&mut args);
        let from_path = match take_path_arg(&mut args, "--from") {
            Ok(path) => path,
            Err(error) => return Err(error),
        };
        let to_path = match take_path_arg(&mut args, "--to") {
            Ok(path) => path,
            Err(error) => return Err(error),
        };
        return match take_provider_arg(&mut args, "--provider") {
            Ok(provider) => Ok(EdgeCommand::ImportTrustKey { from_path, to_path, provider }),
            Err(error) => Err(error),
        };
    }
    if text::text_eq(&command, "config") && begins_with_word(&args, "import-env") {
        assert(text::texts(args@).len() == args.len());
        let _word = drop_word(&mut args);
        let env_file = match take_path_arg(&mut args, "--env-file") {
            Ok(path) => path,
            Err(error) => return Err(error),
        };
        return match take_path_arg(&mut args, "--config") {
            Ok(config_path) => Ok(EdgeCommand::ImportEnv { env_file, config_path }),
            Err(error) => Err(error),
        };
    }
    let mut message = "unsupported command `".to_owned();
    message.append(&command);
    message.append("`\n\n");
    message.append(startup_usage());
    Err(EdgeError::of(message))
}

/// A named argument is found wherever it stands, and with its value it leaves the command line,
/// which keeps the order of the rest.
pub proof fn named_arguments_stand_anywhere(
    before: Seq<Seq<char>>,
    name: Seq<char>,
    value: Seq<char>,
    after: Seq<Seq<char>>,
)
    requires
        !before.contains(name),
    ensures
        taken(before + seq![name, value] + after, name) == Ok::<
            (Seq<char>, Seq<Seq<char>>),
            Seq<char>,
        >((value, before + after)),
{
    let args = before + seq![name, value] + after;
    assert(args.take(before.len() as int) == before);
    assert(args[before.len() as int] == name);
    lemma_skipped_from(args, name, 0, before.len());
    assert(args[before.len() as int + 1] == value);
    assert(args.remove(before.len() as int + 1).remove(before.len() as int) == before + after);
}

/// Words that differ are skipped, from a position on.
proof fn lemma_skipped_from(args: Seq<Seq<char>>, word: Seq<char>, from: nat, upto: nat)
    requires
        from <= upto < args.len(),
        args[upto as int] == word,
        !args.take(upto as int).contains(word),
    ensures
        position_from(args, word, from) == Some(upto),
    decreases upto - from,
{
    if from < upto {
        assert(args.take(upto as int)[from as int] == args[from as int]);
        lemma_skipped_from(args, word, from + 1, upto);
    }
}

/// What is asked for is named first, and its arguments may stand anywhere behind that.
pub proof fn commands_take_their_arguments(
    before: Seq<Seq<char>>,
    value: Seq<char>,
    after: Seq<Seq<char>>,
)
    requires
        !before.contains("--config"@),
    ensures
        ({
            let named = before + seq!["--config"@, value] + after;
            &&& command_of(seq!["run"@] + named) == Ok::<EdgeCommandView, Seq<char>>(
                EdgeCommandView::Run { config_path: value },
            )
            &&& command_of(seq!["tui"@] + named) == Ok::<EdgeCommandView, Seq<char>>(
                EdgeCommandView::Tui { config_path: value },
            )
        }),
{
    let named = before + seq!["--config"@, value] + after;
    named_arguments_stand_anywhere(before, "--config"@, value, after);
    assert((seq!["run"@] + named).drop_first() =~= named);
    assert((seq!["tui"@] + named).drop_first() =~= named);
    lemma_words_differ();
}

/// A key is imported from one path to another, under the provider that is named.
pub proof fn keys_are_imported_as_named(from: Seq<char>, to: Seq<char>, provider: Seq<char>)
    ensures
        ({
            let asked = command_of(
                seq![
                    "trust"@,
                    "import-key"@,
                    "--from"@,
                    from,
                    "--to"@,
                    to,
                    "--provider"@,
                    provider,
                ],
            );
            &&& provider_named(provider) matches Ok(kind) ==> asked == Ok::<
                EdgeCommandView,
                Seq<char>,
            >(EdgeCommandView::ImportTrustKey { from_path: from, to_path: to, provider: kind })
            &&& provider_named(provider) matches Err(message) ==> asked == Err::<
                EdgeCommandView,
                Seq<char>,
            >(message)
        }),
{
    lemma_words_differ();
    let last = seq!["--provider"@, provider];
    let middle = seq!["--to"@, to] + last;
    let rest = seq!["--from"@, from] + middle;
    let args = seq!["trust"@, "import-key"@] + rest;
    let none = Seq::<Seq<char>>::empty();
    named_arguments_stand_anywhere(none, "--from"@, from, middle);
    named_arguments_stand_anywhere(none, "--to"@, to, last);
    named_arguments_stand_anywhere(none, "--provider"@, provider, none);
    assert(none + seq!["--from"@, from] + middle =~= rest);
    assert(none + middle =~= middle);
    assert(none + seq!["--to"@, to] + last =~= middle);
    assert(none + last =~= last);
    assert(none + seq!["--provider"@, provider] + none =~= last);
    assert(args =~= seq![
        "trust"@,
        "import-key"@,
        "--from"@,
        from,
        "--to"@,
        to,
        "--provider"@,
        provider,
    ]);
    assert(args.drop_first().drop_first() =~= rest);
    assert(args.drop_first()[0] == "import-key"@);
}

/// Variables are imported from one file into another.
pub proof fn variables_are_imported_as_named(env_file: Seq<char>, config_path: Seq<char>)
    ensures
        command_of(
            seq!["config"@, "import-env"@, "--env-file"@, env_file, "--config"@, config_path],
        ) == Ok::<EdgeCommandView, Seq<char>>(
            EdgeCommandView::ImportEnv { env_file, config_path },
        ),
{
    lemma_words_differ();
    let last = seq!["--config"@, config_path];
    let rest = seq!["--env-file"@, env_file] + last;
    let args = seq!["config"@, "import-env"@] + rest;
    let none = Seq::<Seq<char>>::empty();
    named_arguments_stand_anywhere(none, "--env-file"@, env_file, last);
    named_arguments_stand_anywhere(none, "--config"@, config_path, none);
    assert(none + seq!["--env-file"@, env_file] + last =~= rest);
    assert(none + last =~= last);
    assert(none + seq!["--config"@, config_path] + none =~= last);
    assert(args =~= seq![
        "config"@,
        "import-env"@,
        "--env-file"@,
        env_file,
        "--config"@,
        config_path,
    ]);
    assert(args.drop_first().drop_first() =~= rest);
    assert(args.drop_first()[0] == "import-env"@);
}

/// Help and a pair of keys need no arguments, and take any. Nothing at all is answered with the
/// usage, and a word that asks for nothing is named.
pub proof fn plain_commands_are_known(more: Seq<Seq<char>>, word: Seq<char>)
    ensures
        command_of(Seq::empty()) == Err::<EdgeCommandView, Seq<char>>(USAGE@),
        command_of(seq!["--help"@] + more) == Ok::<EdgeCommandView, Seq<char>>(
            EdgeCommandView::Help,
        ),
        command_of(seq!["-h"@] + more) == Ok::<EdgeCommandView, Seq<char>>(EdgeCommandView::Help),
        command_of(seq!["--generate-trust-keypair"@] + more) == Ok::<EdgeCommandView, Seq<char>>(
            EdgeCommandView::GenerateTrustKeypair,
        ),
        command_of(seq!["trust"@, "generate-keypair"@] + more) == Ok::<EdgeCommandView, Seq<char>>(
            EdgeCommandView::GenerateTrustKeypair,
        ),
        !seq![
            "--help"@,
            "-h"@,
            "--generate-trust-keypair"@,
            "run"@,
            "tui"@,
            "trust"@,
            "config"@,
        ].contains(word) ==> {
            &&& command_of(seq![word] + more) matches Err(message)
            &&& ("unsupported command `"@ + word).is_prefix_of(message)
            &&& USAGE@.is_suffix_of(message)
        },
{
    lemma_words_differ();
    let known = seq![
        "--help"@,
        "-h"@,
        "--generate-trust-keypair"@,
        "run"@,
        "tui"@,
        "trust"@,
        "config"@,
    ];
    assert(known[0] == "--help"@ && known[1] == "-h"@ && known[2]
        == "--generate-trust-keypair"@);
    assert(known[3] == "run"@ && known[4] == "tui"@ && known[5] == "trust"@ && known[6]
        == "config"@);
    let made = seq!["trust"@, "generate-keypair"@] + more;
    assert(made[0] == "trust"@ && made.drop_first()[0] == "generate-keypair"@);
    let head = "unsupported command `"@ + word;
    let whole = head + "`\n\n"@ + USAGE@;
    assert(whole =~= head + ("`\n\n"@ + USAGE@));
    text::parts_begin_and_end(head, "`\n\n"@ + USAGE@);
    text::parts_begin_and_end(head + "`\n\n"@, USAGE@);
    assert((seq![word] + more)[0] == word);
}

/// An argument that is missing is asked for by its name, and so is a value that is missing behind it.
pub proof fn missing_arguments_are_named(args: Seq<Seq<char>>, name: Seq<char>)
    ensures
        !args.contains(name) ==> {
            &&& taken(args, name) matches Err(message)
            &&& ("missing required "@ + name).is_prefix_of(message)
        },
        !args.contains(name) ==> taken(args.push(name), name) == Err::<
            (Seq<char>, Seq<Seq<char>>),
            Seq<char>,
        >("missing value after "@ + name),
{
    if !args.contains(name) {
        lemma_absent_from(args, name, 0);
        let head = "missing required "@ + name;
        assert(head + "\n\n"@ + USAGE@ =~= head + ("\n\n"@ + USAGE@));
        text::parts_begin_and_end(head, "\n\n"@ + USAGE@);
        assert(args.push(name).take(args.len() as int) =~= args);
        lemma_skipped_from(args.push(name), name, 0, args.len());
    }
}

/// A word that is absent is not found.
proof fn lemma_absent_from(args: Seq<Seq<char>>, word: Seq<char>, from: nat)
    requires
        !args.contains(word),
    ensures
        position_from(args, word, from) is None,
    decreases args.len() - from,
{
    if from < args.len() {
        assert(args.contains(args[from as int]));
        lemma_absent_from(args, word, from + 1);
    }
}

/// A provider is known by its names, in any case and with white space around them; anything else is
/// refused and named.
pub proof fn providers_are_known_by_name(value: Seq<char>)
    ensures
        ({
            let word = text::lower(text::trim(value));
            &&& provider_named(value) == Ok::<SecretProviderKind, Seq<char>>(
                SecretProviderKind::File,
            ) <==> word == "file"@
            &&& provider_named(value) == Ok::<SecretProviderKind, Seq<char>>(
                SecretProviderKind::Dpapi,
            ) <==> word == "dpapi"@ || word == "windows-dpapi"@
            &&& provider_named(value) == Ok::<SecretProviderKind, Seq<char>>(
                SecretProviderKind::WindowsCredential,
            ) <==> word == "credential"@ || word == "windows-credential"@
            &&& provider_named(value) matches Err(message) ==> text::contains_text(message, value)
        }),
{
    reveal_strlit("file");
    reveal_strlit("dpapi");
    reveal_strlit("windows-dpapi");
    reveal_strlit("credential");
    reveal_strlit("windows-credential");
    assert("file"@.len() == 4 && "dpapi"@.len() == 5 && "windows-dpapi"@.len() == 13);
    assert("credential"@.len() == 10 && "windows-credential"@.len() == 18);
    text::parts_are_contained("unsupported secret provider `"@, value, "`"@);
}

/// The words of the command line are told apart.
proof fn lemma_words_differ()
    ensures
        "--help"@.len() == 6,
        "-h"@.len() == 2,
        "--generate-trust-keypair"@.len() == 24,
        "run"@.len() == 3 && "run"@[0] == 'r',
        "tui"@.len() == 3 && "tui"@[0] == 't',
        "trust"@.len() == 5,
        "config"@.len() == 6 && "config"@[0] == 'c',
        "--help"@[0] == '-',
        "generate-keypair"@.len() == 16,
        "import-key"@.len() == 10 && "import-key"@[7] == 'k',
        "import-env"@.len() == 10 && "import-env"@[7] == 'e',
{
    reveal_strlit("--help");
    reveal_strlit("-h");
    reveal_strlit("--generate-trust-keypair");
    reveal_strlit("run");
    reveal_strlit("tui");
    reveal_strlit("trust");
    reveal_strlit("config");
    reveal_strlit("generate-keypair");
    reveal_strlit("import-key");
    reveal_strlit("import-env");
}

/// What is shown of a value is its kind and what it holds.
pub proof fn kinds_are_shown_with_what_they_hold(
    edge_command: EdgeCommand,
)
    ensures
        edge_command is Help ==> edge_command@ == (EdgeCommandView::Help),
        edge_command matches EdgeCommand::Run { config_path } ==> edge_command@ == (EdgeCommandView::Run {
            config_path: config_path@,
        }),
        edge_command matches EdgeCommand::Tui { config_path } ==> edge_command@ == (EdgeCommandView::Tui {
            config_path: config_path@,
        }),
        edge_command matches EdgeCommand::ImportEnv { env_file, config_path } ==> edge_command@ == (EdgeCommandView::ImportEnv {
            env_file: env_file@,
            config_path: config_path@,
        }),
        edge_command matches EdgeCommand::ImportTrustKey {
            from_path,
            to_path,
            provider,
        } ==> edge_command@ == (EdgeCommandView::ImportTrustKey {
            from_path: from_path@,
            to_path: to_path@,
            provider,
        }),
        edge_command is GenerateTrustKeypair ==> edge_command@ == (EdgeCommandView::GenerateTrustKeypair),
{
}

} // verus!
