//! Settings from the command line, the environment and the config file, and
//! the order in which they win.
use vstd::prelude::*;
use crate::cli::{Cli, OutputFormat};
use crate::error::CliError;
use crate::text::{chars_eq, chars_of, push_str, string_from, string_of, trim, trim_chars};

verus! {

broadcast use vstd::string::group_string_axioms;

/// The API address used when no source names one.
pub const DEFAULT_BASE_URL: &'static str = "https://secure.splitwise.com/api/v3.0";

/// The resolved settings of one run.
#[derive(Debug, Clone)]
pub struct Config {
    pub base_url: String,
    pub token: String,
    pub output: OutputFormat,
    pub verbose: bool,
}

/// The settings a config file may hold.
#[derive(Debug, Clone, Default)]
pub struct FileConfig {
    pub base_url: Option<String>,
    pub token: Option<String>,
    pub output: Option<String>,
}

/// The settings read from the environment.
#[derive(Debug, Clone, Default)]
pub struct EnvConfig {
    pub base_url: Option<String>,
    pub token: Option<String>,
}

/// The characters of an optional string.
pub open spec fn opt_view(o: Option<String>) -> Option<Seq<char>> {
    match o {
        Some(s) => Some(s@),
        None => None,
    }
}

/// The first of three optional values that is present.
pub open spec fn first_of(
    a: Option<Seq<char>>,
    b: Option<Seq<char>>,
    c: Option<Seq<char>>,
) -> Option<Seq<char>> {
    if a is Some {
        a
    } else if b is Some {
        b
    } else {
        c
    }
}

/// The format a config file names, if it names one of the three.
pub open spec fn output_format_named(s: Seq<char>) -> Option<OutputFormat> {
    if s == "table"@ {
        Some(OutputFormat::Table)
    } else if s == "json"@ {
        Some(OutputFormat::Json)
    } else if s == "yaml"@ {
        Some(OutputFormat::Yaml)
    } else {
        None
    }
}

/// The output format a run uses: `--json`, then `--yaml`, then `--output`, then
/// the config file, then a table. `None` where the file is consulted and names
/// no known format.
pub open spec fn output_choice(cli: &Cli, file_output: Option<Seq<char>>) -> Option<OutputFormat> {
    if cli.json {
        Some(OutputFormat::Json)
    } else if cli.yaml {
        Some(OutputFormat::Yaml)
    } else if cli.output is Some {
        cli.output
    } else if file_output is Some {
        output_format_named(file_output.unwrap())
    } else {
        Some(OutputFormat::Table)
    }
}

/// The message for an output format in the config file that is not known.
pub open spec fn invalid_output_text(value: Seq<char>) -> Seq<char> {
    "invalid output format in config file: "@ + value
}

/// Reads the output format a config file names.
pub fn parse_output_format(value: &str) -> (r: Result<OutputFormat, CliError>)
    ensures
        r matches Ok(f) ==> output_format_named(value@) == Some(f),
        r is Err ==> output_format_named(value@) is None,
        r matches Err(e) ==> e matches CliError::Config(m) && m@ == invalid_output_text(value@),
{
    let v = chars_of(value);
    if chars_eq(&v, &chars_of("table")) {
        Ok(OutputFormat::Table)
    } else if chars_eq(&v, &chars_of("json")) {
        Ok(OutputFormat::Json)
    } else if chars_eq(&v, &chars_of("yaml")) {
        Ok(OutputFormat::Yaml)
    } else {
        let mut m = string_from("invalid output format in config file: ");
        push_str(&mut m, value);
        Err(CliError::Config(m))
    }
}

fn first_string(
    a: &Option<String>,
    b: Option<String>,
    c: Option<String>,
) -> (r: Option<String>)
    ensures
        opt_view(r) == first_of(opt_view(*a), opt_view(b), opt_view(c)),
{
    match a {
        Some(s) => Some(s.clone()),
        None => match b {
            Some(s) => Some(s),
            None => c,
        },
    }
}

impl Config {
    /// Combines the sources: a command-line option wins over the environment,
    /// which wins over the config file. The output format is chosen as
    /// `output_choice` says; an unknown format in the file is an error, checked
    /// before the token. The base URL falls back to `DEFAULT_BASE_URL`; a missing
    /// token is `MissingToken`.
    pub fn resolve(cli: &Cli, env: EnvConfig, file_config: FileConfig) -> (r: Result<
        Config,
        CliError,
    >)
        ensures
            output_choice(cli, opt_view(file_config.output)) is None ==> (r matches Err(e) && (e
                matches CliError::Config(m) && m@ == invalid_output_text(
                file_config.output.unwrap()@,
            ))),
            output_choice(cli, opt_view(file_config.output)) is Some && first_of(
                opt_view(cli.token),
                opt_view(env.token),
                opt_view(file_config.token),
            ) is None ==> (r matches Err(e) && e is MissingToken),
            r is Ok <==> output_choice(cli, opt_view(file_config.output)) is Some && first_of(
                opt_view(cli.token),
                opt_view(env.token),
                opt_view(file_config.token),
            ) is Some,
            r matches Ok(c) ==> {
                &&& Some(c.output) == output_choice(cli, opt_view(file_config.output))
                &&& c.base_url@ == match first_of(
                    opt_view(cli.base_url),
                    opt_view(env.base_url),
                    opt_view(file_config.base_url),
                ) {
                    Some(u) => u,
                    None => DEFAULT_BASE_URL@,
                }
                &&& Some(c.token@) == first_of(
                    opt_view(cli.token),
                    opt_view(env.token),
                    opt_view(file_config.token),
                )
                &&& c.verbose == cli.verbose
            },
    {
        let output = if cli.json {
            OutputFormat::Json
        } else if cli.yaml {
            OutputFormat::Yaml
        } else if let Some(output) = cli.output {
            output
        } else if let Some(file_output) = &file_config.output {
            match parse_output_format(file_output.as_str()) {
                Ok(f) => f,
                Err(e) => return Err(e),
            }
        } else {
            OutputFormat::Table
        };
        let base_url = match first_string(&cli.base_url, env.base_url, file_config.base_url) {
            Some(u) => u,
            None => string_from(DEFAULT_BASE_URL),
        };
        let token = match first_string(&cli.token, env.token, file_config.token) {
            Some(t) => t,
            None => return Err(CliError::MissingToken),
        };
        Ok(Config { base_url, token, output, verbose: cli.verbose })
    }
}

/// The environment variables that may hold the token, in the order they are read.
pub fn token_env_keys() -> (keys: Vec<&'static str>)
    ensures
        keys@.len() == 4,
        keys@[0]@ == "SPLITWISE_API_KEY"@,
        keys@[1]@ == "SPLITWISE_ACCESS_TOKEN"@,
        keys@[2]@ == "SPLITWISE_OAUTH_ACCESS_TOKEN"@,
        keys@[3]@ == "SPLITWISE_BEARER_TOKEN"@,
{
    let mut keys = Vec::new();
    keys.push("SPLITWISE_API_KEY");
    keys.push("SPLITWISE_ACCESS_TOKEN");
    keys.push("SPLITWISE_OAUTH_ACCESS_TOKEN");
    keys.push("SPLITWISE_BEARER_TOKEN");
    keys
}

/// The first value that is set, if any.
pub open spec fn first_set(values: Seq<Option<String>>) -> Option<Seq<char>>
    decreases values.len(),
{
    if values.len() == 0 {
        None
    } else if values[0] is Some {
        Some(values[0].unwrap()@)
    } else {
        first_set(values.drop_first())
    }
}

/// The token the environment gives: the first variable that is set, trimmed;
/// nothing when that value is blank, even if a later variable is set.
pub open spec fn env_token(values: Seq<Option<String>>) -> Option<Seq<char>> {
    match first_set(values) {
        Some(v) => if trim(v).len() == 0 {
            None
        } else {
            Some(trim(v))
        },
        None => None,
    }
}

/// Picks the token from the values of the token variables, read in the order of
/// `token_env_keys` (`None` for a variable that is not set).
pub fn select_env_token(values: &Vec<Option<String>>) -> (r: Option<String>)
    ensures
        opt_view(r) == env_token(values@),
{
    let mut i: usize = 0;
    assert(values@.skip(0) == values@);
    while i < values.len()
        invariant
            i <= values@.len(),
            forall|k: int| 0 <= k < i ==> values@[k] is None,
            first_set(values@) == first_set(values@.skip(i as int)),
        decreases values@.len() - i,
    {
        match &values[i] {
            Some(v) => {
                let t = trim_chars(&chars_of(v.as_str()));
                if t.len() == 0 {
                    return None;
                }
                return Some(string_of(&t));
            },
            None => {
                assert(values@.skip(i as int).drop_first() == values@.skip(i + 1));
            },
        }
        i = i + 1;
    }
    None
}

} // verus!
