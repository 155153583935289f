use super::job::{job_from_number, job_numbered, selection_of, Job, JobView};
use crate::crontab::text::chars_of;
use crate::crontab::tokens::text_of;
use vstd::prelude::*;
use vstd::std_specs::cmp::PartialEqSpecImpl;
use vstd::string::StringExecFns;

verus! {

/// What the command line asks for.
#[derive(Debug)]
pub struct Config {
    pub help: bool,
    pub long_help: bool,
    pub version: bool,
    pub list_only: bool,
    pub as_json: bool,
    pub safe: bool,
    pub tag: bool,
    pub detach: bool,
    pub env_file: Option<String>,
    pub job: Option<Job>,
}

/// What a [`Config`] holds, its texts as sequences of characters.
pub struct ConfigView {
    pub help: bool,
    pub long_help: bool,
    pub version: bool,
    pub list_only: bool,
    pub as_json: bool,
    pub safe: bool,
    pub tag: bool,
    pub detach: bool,
    pub env_file: Option<Seq<char>>,
    pub job: Option<JobView>,
}

impl View for Config {
    type V = ConfigView;

    open spec fn view(&self) -> ConfigView {
        ConfigView {
            help: self.help,
            long_help: self.long_help,
            version: self.version,
            list_only: self.list_only,
            as_json: self.as_json,
            safe: self.safe,
            tag: self.tag,
            detach: self.detach,
            env_file: text_of(self.env_file),
            job: selection_of(self.job),
        }
    }
}

/// The configuration that asks for nothing.
pub open spec fn default_config() -> ConfigView {
    ConfigView {
        help: false,
        long_help: false,
        version: false,
        list_only: false,
        as_json: false,
        safe: false,
        tag: false,
        detach: false,
        env_file: None,
        job: None,
    }
}

impl Default for Config {
    fn default() -> (config: Self)
        ensures
            config@ == default_config(),
    {
        Config {
            help: false,
            long_help: false,
            version: false,
            list_only: false,
            as_json: false,
            safe: false,
            tag: false,
            detach: false,
            env_file: None,
            job: None,
        }
    }
}

impl PartialEq for Config {
    fn eq(&self, other: &Self) -> (same: bool) {
        let same_file = match (&self.env_file, &other.env_file) {
            (Some(left), Some(right)) => *left == *right,
            (None, None) => true,
            _ => false,
        };
        let same_job = match (&self.job, &other.job) {
            (Some(left), Some(right)) => *left == *right,
            (None, None) => true,
            _ => false,
        };
        self.help == other.help && self.long_help == other.long_help && self.version
            == other.version && self.list_only == other.list_only && self.as_json == other.as_json
            && self.safe == other.safe && self.tag == other.tag && self.detach == other.detach
            && same_file && same_job
    }
}

impl PartialEqSpecImpl for Config {
    open spec fn obeys_eq_spec() -> bool {
        true
    }

    open spec fn eq_spec(&self, other: &Self) -> bool {
        self@ == other@
    }
}

impl Eq for Config {

}

/// The configuration that the environment asks for before any argument is
/// read: safe mode where `CRONRUNNER_SAFE` is set, whatever it holds, and
/// the environment file that `CRONRUNNER_ENV` names, unless it is empty.
pub open spec fn config_from_env(safe: Option<Seq<char>>, env_file: Option<Seq<char>>) -> ConfigView {
    ConfigView {
        safe: safe is Some,
        env_file: match env_file {
            Some(file) => if file.len() > 0 {
                Some(file)
            } else {
                None
            },
            None => None,
        },
        ..default_config()
    }
}

/// The error for an argument that is no option and no job.
pub open spec fn unexpected_argument(arg: Seq<char>) -> Seq<char> {
    "Unexpected argument '"@ + arg + "'"@
}

/// The error for an option that lacks its file.
pub open spec fn expected_file(arg: Seq<char>) -> Seq<char> {
    "Expected file path after '"@ + arg + "'"@
}

/// The error for `--tag` without a tag.
pub open spec fn tag_required() -> Seq<char> {
    "Option '--tag' requires a tag"@
}

/// What the arguments come to once reading has stopped: `--tag` has to
/// have found its tag.
pub open spec fn concluded(config: ConfigView) -> Result<ConfigView, Seq<char>> {
    if config.tag && config.job is None {
        Err(tag_required())
    } else {
        Ok(config)
    }
}

/// The job that `arg` names: a tag in tag mode, else a fingerprint in
/// hexadecimal in safe mode, else a job number in decimal.
pub open spec fn job_named(config: ConfigView, arg: Seq<char>) -> Option<JobView> {
    if config.tag {
        Some(JobView::Tag(arg))
    } else {
        job_numbered(arg, config.safe)
    }
}

/// What an argument is to the reader of the command line.
#[derive(Clone, Copy, Debug, PartialEq, Eq, Structural)]
pub enum Word {
    /// `-h`
    Help,
    /// `--help`
    LongHelp,
    /// `-v` or `--version`
    Version,
    /// `-l` or `--list-only`
    ListOnly,
    /// `--as-json`
    AsJson,
    /// `-s` or `--safe`
    Safe,
    /// `-t` or `--tag`
    Tag,
    /// `-d` or `--detach`
    Detach,
    /// `-e` or `--env`
    Env,
    /// Anything else: a job, or a mistake.
    Other,
}

/// What `arg` is.
pub open spec fn word_of(arg: Seq<char>) -> Word {
    if arg == "-h"@ {
        Word::Help
    } else if arg == "--help"@ {
        Word::LongHelp
    } else if arg == "-v"@ || arg == "--version"@ {
        Word::Version
    } else if arg == "-l"@ || arg == "--list-only"@ {
        Word::ListOnly
    } else if arg == "--as-json"@ {
        Word::AsJson
    } else if arg == "-s"@ || arg == "--safe"@ {
        Word::Safe
    } else if arg == "-t"@ || arg == "--tag"@ {
        Word::Tag
    } else if arg == "-d"@ || arg == "--detach"@ {
        Word::Detach
    } else if arg == "-e"@ || arg == "--env"@ {
        Word::Env
    } else {
        Word::Other
    }
}

/// What `args` ask for, read from left to right on top of `config`.
///
/// `-h`, `--help`, `-v`, `--version` and the job end the reading: what
/// follows them is not looked at. `-e` and `--env` take the argument
/// behind them as a file.
pub open spec fn config_after(config: ConfigView, args: Seq<Seq<char>>) -> Result<
    ConfigView,
    Seq<char>,
>
    decreases args.len(),
{
    if args.len() == 0 {
        concluded(config)
    } else {
        let arg = args.first();
        let rest = args.drop_first();
        match word_of(arg) {
            Word::Help => concluded(ConfigView { help: true, ..config }),
            Word::LongHelp => concluded(ConfigView { long_help: true, ..config }),
            Word::Version => concluded(ConfigView { version: true, ..config }),
            Word::ListOnly => config_after(ConfigView { list_only: true, ..config }, rest),
            Word::AsJson => config_after(
                ConfigView { list_only: true, as_json: true, ..config },
                rest,
            ),
            Word::Safe => config_after(ConfigView { safe: true, ..config }, rest),
            Word::Tag => config_after(ConfigView { tag: true, ..config }, rest),
            Word::Detach => config_after(ConfigView { detach: true, ..config }, rest),
            Word::Env => if rest.len() == 0 {
                Err(expected_file(arg))
            } else {
                config_after(
                    ConfigView { env_file: Some(rest.first()), ..config },
                    rest.drop_first(),
                )
            },
            Word::Other => match job_named(config, arg) {
                Some(job) => concluded(ConfigView { job: Some(job), ..config }),
                None => Err(unexpected_argument(arg)),
            },
        }
    }
}

/// The arguments without the first of them, the path of the program.
pub open spec fn without_program(args: Seq<Seq<char>>) -> Seq<Seq<char>> {
    if args.len() > 0 {
        args.drop_first()
    } else {
        args
    }
}

/// The views of the arguments, in the same order.
pub open spec fn arguments_of(args: Seq<String>) -> Seq<Seq<char>> {
    args.map_values(|arg: String| arg@)
}

/// The view of what reading the arguments came to.
pub open spec fn built_view(built: Result<Config, String>) -> Result<ConfigView, Seq<char>> {
    match built {
        Ok(config) => Ok(config@),
        Err(reason) => Err(reason@),
    }
}

/// Whether `arg` is the word `word`.
fn is(arg: &String, word: &str) -> (yes: bool)
    ensures
        yes == (arg@ == word@),
{
    *arg == word.to_owned()
}

impl Config {
    /// Reads the command line.
    ///
    /// `args` are the arguments as the program got them: the first, the
    /// path of the program, is skipped. `safe` and `env_file` are what the
    /// environment holds under `CRONRUNNER_SAFE` and `CRONRUNNER_ENV`.
    pub fn build_from_args(args: Vec<String>, safe: Option<String>, env_file: Option<String>) -> (built:
        Result<Self, String>)
        ensures
            built_view(built) == config_after(
                config_from_env(text_of(safe), text_of(env_file)),
                without_program(arguments_of(args@)),
            ),
    {
        let mut config = Self::default();

        Self::pre_populate_from_env(&mut config, safe, env_file);

        if args.len() == 0 {
            return Self::conclude(config);
        }
        proof {
            assert(without_program(arguments_of(args@)) =~= arguments_of(args@).skip(1));
        }
        Self::read_from(config, &args, 1)
    }

    /// Reads the arguments from the one at `at` on.
    fn read_from(config: Config, args: &Vec<String>, at: usize) -> (built: Result<Self, String>)
        requires
            at <= args@.len(),
        ensures
            built_view(built) == config_after(config@, arguments_of(args@).skip(at as int)),
        decreases args@.len() - at,
    {
        let ghost rest = arguments_of(args@).skip(at as int);
        if at >= args.len() {
            return Self::conclude(config);
        }
        let arg = &args[at];
        proof {
            assert(rest.first() == arg@);
            assert(rest.drop_first() =~= arguments_of(args@).skip(at + 1));
        }
        let mut config = config;
        match Self::word(arg) {
            Word::Help => {
                config.help = true;
                Self::conclude(config)
            },
            Word::LongHelp => {
                config.long_help = true;
                Self::conclude(config)
            },
            Word::Version => {
                config.version = true;
                Self::conclude(config)
            },
            Word::ListOnly => {
                config.list_only = true;
                Self::read_from(config, args, at + 1)
            },
            Word::AsJson => {
                config.list_only = true;
                config.as_json = true;
                Self::read_from(config, args, at + 1)
            },
            Word::Safe => {
                config.safe = true;
                Self::read_from(config, args, at + 1)
            },
            Word::Tag => {
                config.tag = true;
                Self::read_from(config, args, at + 1)
            },
            Word::Detach => {
                config.detach = true;
                Self::read_from(config, args, at + 1)
            },
            Word::Env => {
                if at + 1 >= args.len() {
                    let mut reason = String::from_str("Expected file path after '");
                    reason.append(arg.as_str());
                    reason.append("'");
                    return Err(reason);
                }
                proof {
                    assert(rest.drop_first().first() == args@[at + 1]@);
                    assert(rest.drop_first().drop_first() =~= arguments_of(args@).skip(at + 2));
                }
                config.env_file = Some(args[at + 1].clone());
                Self::read_from(config, args, at + 2)
            },
            Word::Other => match Self::job_from_arg(&config, arg) {
                Some(job) => {
                    config.job = Some(job);
                    Self::conclude(config)
                },
                None => {
                    let mut reason = String::from_str("Unexpected argument '");
                    reason.append(arg.as_str());
                    reason.append("'");
                    Err(reason)
                },
            },
        }
    }

    /// What `arg` is.
    fn word(arg: &String) -> (word: Word)
        ensures
            word == word_of(arg@),
    {
        if is(arg, "-h") {
            Word::Help
        } else if is(arg, "--help") {
            Word::LongHelp
        } else if is(arg, "-v") || is(arg, "--version") {
            Word::Version
        } else if is(arg, "-l") || is(arg, "--list-only") {
            Word::ListOnly
        } else if is(arg, "--as-json") {
            Word::AsJson
        } else if is(arg, "-s") || is(arg, "--safe") {
            Word::Safe
        } else if is(arg, "-t") || is(arg, "--tag") {
            Word::Tag
        } else if is(arg, "-d") || is(arg, "--detach") {
            Word::Detach
        } else if is(arg, "-e") || is(arg, "--env") {
            Word::Env
        } else {
            Word::Other
        }
    }

    /// Ends the reading: `--tag` has to have found its tag.
    fn conclude(config: Config) -> (built: Result<Self, String>)
        ensures
            built_view(built) == concluded(config@),
    {
        if config.tag && config.job.is_none() {
            return Err(String::from_str("Option '--tag' requires a tag"));
        }
        Ok(config)
    }

    /// The job that `arg` names, if it names one.
    fn job_from_arg(config: &Config, arg: &String) -> (job: Option<Job>)
        ensures
            selection_of(job) == job_named(config@, arg@),
    {
        if config.tag {
            return Some(Job::Tag(arg.clone()));
        }
        let digits = chars_of(arg.as_str());
        job_from_number(digits.as_slice(), config.safe)
    }

    /// Sets what the environment asks for.
    ///
    /// Some arguments have a counterpart in the environment, for settings
    /// that are meant to last.
    fn pre_populate_from_env(config: &mut Self, safe: Option<String>, env_file: Option<String>)
        requires
            old(config)@ == default_config(),
        ensures
            final(config)@ == config_from_env(text_of(safe), text_of(env_file)),
    {
        if safe.is_some() {
            config.safe = true;
        }
        if let Some(env_file) = env_file {
            if env_file.as_str().unicode_len() > 0 {
                config.env_file = Some(env_file);
            }
        }
    }
}

} // verus!
