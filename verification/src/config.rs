//! Start-up: from the arguments of the command line and the settings in force
//! to the settings that the session runs with.

use crate::document::{SchemaError, SchemaErrorView};
use crate::arguments::{parse, parsed};
use crate::options::{OptionsView, ParseError, ParseErrorView, RawOptions};
use crate::paths::config_dir_choice;
use crate::resolve::{resolve, resolved, ResolveError};
use crate::schema::{deserialize, deserialized_bytes};
use crate::session::{default_blocklist_url, SessionSettings, SettingsView};
use crate::text::{copy_text, text_view, texts_view};
use vstd::prelude::*;

verus! {

/// What the command line says of the run itself, beside the settings.
#[derive(Clone, Debug, PartialEq, Eq)]
pub struct RunOptions {
    /// Print the resolved settings and exit without starting a session.
    pub dump_settings: bool,
    /// Stay in the foreground.
    pub foreground: bool,
    /// Start with all torrents paused.
    pub paused: bool,
    /// File that receives the log messages.
    pub logfile: Option<String>,
    /// Directory that holds the configuration files.
    pub config_dir: Option<String>,
    /// Process id file.
    pub pid_file: Option<u32>,
}

/// What a [`RunOptions`] value holds, with texts as sequences of characters.
pub struct RunView {
    pub dump_settings: bool,
    pub foreground: bool,
    pub paused: bool,
    pub logfile: Option<Seq<char>>,
    pub config_dir: Option<Seq<char>>,
    pub pid_file: Option<u32>,
}

impl View for RunOptions {
    type V = RunView;

    open spec fn view(&self) -> RunView {
        RunView {
            dump_settings: self.dump_settings,
            foreground: self.foreground,
            paused: self.paused,
            logfile: text_view(self.logfile),
            config_dir: text_view(self.config_dir),
            pid_file: self.pid_file,
        }
    }
}

/// The part of the options that concerns the run itself.
pub open spec fn run_options_of(cli: OptionsView) -> RunView {
    RunView {
        dump_settings: cli.dump_settings,
        foreground: cli.foreground,
        paused: cli.paused,
        logfile: cli.logfile,
        config_dir: cli.config_dir,
        pid_file: cli.pid_file,
    }
}

/// Why the configuration could not be made.
#[derive(Clone, Debug, PartialEq, Eq)]
pub enum ConfigError {
    /// The command line could not be read.
    Parse(ParseError),
    /// The persisted settings could not be read.
    Schema(SchemaError),
    /// The options of the command line and the settings could not be combined.
    Resolve(ResolveError),
}

/// What a [`ConfigError`] holds, with texts as sequences of characters.
pub enum ConfigErrorView {
    Parse(ParseErrorView),
    Schema(SchemaErrorView),
    Resolve(ResolveError),
}

impl View for ConfigError {
    type V = ConfigErrorView;

    open spec fn view(&self) -> ConfigErrorView {
        match self {
            ConfigError::Parse(error) => ConfigErrorView::Parse(error@),
            ConfigError::Schema(error) => ConfigErrorView::Schema(error@),
            ConfigError::Resolve(error) => ConfigErrorView::Resolve(*error),
        }
    }
}

/// The configuration that options make of settings: the error of combining
/// them, else the combined settings with what the options say of the run.
pub open spec fn combined(cli: OptionsView, base: SettingsView) -> Result<
    (SettingsView, RunView),
    ConfigErrorView,
> {
    match resolved(base, cli) {
        Err(error) => Err(ConfigErrorView::Resolve(error)),
        Ok(settings) => Ok((settings, run_options_of(cli))),
    }
}

/// The configuration that the arguments `args` make of the settings `base`:
/// the error of reading the arguments, else what their options make of
/// `base`.
pub open spec fn configured(args: Seq<Seq<char>>, dir_exists: bool, base: SettingsView) -> Result<
    (SettingsView, RunView),
    ConfigErrorView,
> {
    match parsed(args, dir_exists) {
        Err(error) => Err(ConfigErrorView::Parse(error)),
        Ok(cli) => combined(cli, base),
    }
}

/// The configuration of a start: the error of reading the arguments; else
/// the error of reading the persisted document, where there is one; else
/// what the options make of the persisted settings, or of the settings
/// `fresh` where nothing was persisted.
pub open spec fn initialized(
    args: Seq<Seq<char>>,
    dir_exists: bool,
    persisted: Option<Seq<u8>>,
    fresh: SettingsView,
) -> Result<(SettingsView, RunView), ConfigErrorView> {
    match parsed(args, dir_exists) {
        Err(error) => Err(ConfigErrorView::Parse(error)),
        Ok(cli) => match persisted {
            None => combined(cli, fresh),
            Some(bytes) => match deserialized_bytes(bytes) {
                Err(error) => Err(ConfigErrorView::Schema(error)),
                Ok(base) => combined(cli, base),
            },
        },
    }
}

/// Whether settings are those of a fresh installation on some machine where
/// the environment and the platform name these directories: all is as
/// [`SettingsView::defaults`] has it, incomplete torrents go to `downloads`,
/// and downloads to `config_home` or, without it, to a default configuration
/// directory.
pub open spec fn is_fresh(
    settings: SettingsView,
    config_home: Option<Seq<char>>,
    downloads: Option<Seq<char>>,
) -> bool {
    &&& settings == SettingsView::defaults(
        settings.download_dir,
        downloads,
        default_blocklist_url(),
    )
    &&& config_home is Some ==> settings.download_dir == config_home
    &&& config_home is None ==> exists|platform_config: Option<Seq<char>>, home: Option<Seq<char>>|
        settings.download_dir == #[trigger] config_dir_choice(None, platform_config, home)
}

/// The view of a configuration or of the error in its place.
pub open spec fn configuration_view(
    outcome: Result<(SessionSettings, RunOptions), ConfigError>,
) -> Result<(SettingsView, RunView), ConfigErrorView> {
    match outcome {
        Ok((settings, run)) => Ok((settings@, run@)),
        Err(error) => Err(error@),
    }
}

/// The bytes of an optional document.
pub open spec fn bytes_view(document: Option<&[u8]>) -> Option<Seq<u8>> {
    match document {
        Some(bytes) => Some(bytes@),
        None => None,
    }
}

/// Computes [`run_options_of`].
pub fn run_options(cli: &RawOptions) -> (run: RunOptions)
    ensures
        run@ == run_options_of(cli@),
{
    RunOptions {
        dump_settings: cli.dump_settings,
        foreground: cli.foreground,
        paused: cli.paused,
        logfile: copy_text(&cli.logfile),
        config_dir: copy_text(&cli.config_dir),
        pid_file: cli.pid_file,
    }
}

/// Lays the options `cli` over the settings `base` and keeps what the
/// options say of the run.
pub fn combine(cli: RawOptions, base: SessionSettings) -> (outcome: Result<
    (SessionSettings, RunOptions),
    ConfigError,
>)
    ensures
        configuration_view(outcome) == combined(cli@, base@),
{
    let run = run_options(&cli);
    match resolve(base, cli) {
        Ok(settings) => Ok((settings, run)),
        Err(error) => Err(ConfigError::Resolve(error)),
    }
}

/// Reads the arguments `args` and lays their options over the settings
/// `base`. `dir_exists` is as [`parse`] takes it.
pub fn configure(args: &Vec<String>, dir_exists: bool, base: SessionSettings) -> (outcome: Result<
    (SessionSettings, RunOptions),
    ConfigError,
>)
    ensures
        configuration_view(outcome) == configured(texts_view(args@), dir_exists, base@),
{
    match parse(args, dir_exists) {
        Ok(cli) => combine(cli, base),
        Err(error) => Err(ConfigError::Parse(error)),
    }
}

/// Makes the configuration of a start: reads the arguments `args` of the
/// command line and lays their options over the settings that were
/// persisted, or over those of a fresh installation where `persisted` holds
/// no document.
///
/// `dir_exists` is as [`parse`] takes it, `config_home` and `downloads` as
/// [`SessionSettings::default`] takes them. Where the platform is asked for
/// the configuration directory, what a fresh installation holds depends on
/// the machine: the outcome is [`initialized`] for some fresh settings.
pub fn init_config(
    args: &Vec<String>,
    dir_exists: bool,
    persisted: Option<&[u8]>,
    config_home: Option<String>,
    downloads: Option<String>,
) -> (outcome: Result<(SessionSettings, RunOptions), ConfigError>)
    ensures
        exists|fresh: SettingsView|
            is_fresh(fresh, text_view(config_home), text_view(downloads)) && configuration_view(
                outcome,
            ) == #[trigger] initialized(
                texts_view(args@),
                dir_exists,
                bytes_view(persisted),
                fresh,
            ),
{
    let ghost untouched = SettingsView::defaults(
        text_view(config_home),
        text_view(downloads),
        default_blocklist_url(),
    );
    proof {
        if config_home is None {
            assert(untouched.download_dir == config_dir_choice(None, None, None));
        }
        assert(is_fresh(untouched, text_view(config_home), text_view(downloads)));
    }
    let cli = match parse(args, dir_exists) {
        Ok(cli) => cli,
        Err(error) => {
            assert(initialized(texts_view(args@), dir_exists, bytes_view(persisted), untouched)
                == Err::<(SettingsView, RunView), ConfigErrorView>(ConfigErrorView::Parse(error@)));
            return Err(ConfigError::Parse(error));
        },
    };
    match persisted {
        Some(bytes) => {
            let outcome = match deserialize(bytes) {
                Ok(base) => combine(cli, base),
                Err(error) => Err(ConfigError::Schema(error)),
            };
            assert(configuration_view(outcome) == initialized(
                texts_view(args@),
                dir_exists,
                bytes_view(persisted),
                untouched,
            ));
            outcome
        },
        None => {
            let ghost home = text_view(config_home);
            let ghost given = text_view(downloads);
            let base = SessionSettings::default(config_home, downloads);
            let ghost fresh = base@;
            let outcome = combine(cli, base);
            assert(is_fresh(fresh, home, given));
            assert(configuration_view(outcome) == initialized(
                texts_view(args@),
                dir_exists,
                bytes_view(persisted),
                fresh,
            ));
            outcome
        },
    }
}

} // verus!
