//! Log records, and the report of a finished run.

use vstd::prelude::*;
use vstd::string::StringExecFns;
use crate::clock::{
    ends_with, ends_with_offset, is_date, is_time, local_now_as, read_from,
    reading_tells_its_clock, timestamp, utc_suffix, Clock,
};
use crate::color::{Color, TerminalText};
use crate::configurer::{ConfigurationDirectory, DefaultConfiguration, Place};
use crate::text::{decimal, decimal_text, lowercase_of, truth, truth_text};
use crate::timer::{indicator_labels_differ, timezone_labels_differ, Indicator, TimerSettings, Timezone};

verus! {

/// The weight of a log record, from the gravest to the most verbose.
#[derive(Clone, Copy, Debug, PartialEq, Eq, Structural)]
pub enum Level {
    Error,
    Warn,
    Info,
    Debug,
    Trace,
}

impl Level {
    /// The position of the level, from 1 for `Error` to 5 for `Trace`.
    pub open spec fn verbosity(self) -> nat {
        match self {
            Level::Error => 1,
            Level::Warn => 2,
            Level::Info => 3,
            Level::Debug => 4,
            Level::Trace => 5,
        }
    }

    /// The name of the level as a record shows it.
    pub open spec fn name(self) -> Seq<char> {
        match self {
            Level::Error => "ERROR"@,
            Level::Warn => "WARN"@,
            Level::Info => "INFO"@,
            Level::Debug => "DEBUG"@,
            Level::Trace => "TRACE"@,
        }
    }

    fn rank(self) -> (r: u8)
        ensures
            r == self.verbosity(),
    {
        match self {
            Level::Error => 1,
            Level::Warn => 2,
            Level::Info => 3,
            Level::Debug => 4,
            Level::Trace => 5,
        }
    }
}

/// Renders `level` with the `Display` of `log::Level`, which writes the
/// level's name in capitals: ERROR, WARN, INFO, DEBUG or TRACE.
#[verifier::external_body]
fn level_name(level: Level) -> (r: String)
    ensures
        r@ == level.name(),
{
    let outside = match level {
        Level::Error => log::Level::Error,
        Level::Warn => log::Level::Warn,
        Level::Info => log::Level::Info,
        Level::Debug => log::Level::Debug,
        Level::Trace => log::Level::Trace,
    };
    format!("{}", outside)
}

/// Calls `log::set_max_level`, which stores the level up to which the `log`
/// macros hand records to the installed sink. It returns nothing, and nothing
/// is claimed of it.
#[verifier::external_body]
fn let_through(level: Level) {
    let filter = match level {
        Level::Error => log::LevelFilter::Error,
        Level::Warn => log::LevelFilter::Warn,
        Level::Info => log::LevelFilter::Info,
        Level::Debug => log::LevelFilter::Debug,
        Level::Trace => log::LevelFilter::Trace,
    };
    log::set_max_level(filter);
}

/// The module named in a record; a record without one shows an empty name.
pub open spec fn module_name(module: Option<&str>) -> Seq<char> {
    match module {
        Some(name) => name@,
        None => Seq::empty(),
    }
}

/// One record of the log file: date, time, level and module in square
/// brackets, a dash, the message and a line break.
pub open spec fn record_line(
    date: Seq<char>,
    time: Seq<char>,
    level: Seq<char>,
    module: Seq<char>,
    message: Seq<char>,
) -> Seq<char> {
    "["@ + date + "]["@ + time + "]["@ + level + "]["@ + module + "] - "@ + message + "\n"@
}

/// The sink's log file lies in the working directory and is named after the
/// application.
pub open spec fn log_file_name(application: Seq<char>) -> Seq<char> {
    application + ".log"@
}

/// The sink that writes every record to the application's log file.
pub struct Logger;

impl Logger {
    /// Whether records of `level` are written: those up to `Trace`, which is
    /// every level.
    pub open spec fn lets_through(level: Level) -> bool {
        level.verbosity() <= Level::Trace.verbosity()
    }

    /// Whether records of `level` are written.
    pub fn enabled(&self, level: Level) -> (r: bool)
        ensures
            r == Logger::lets_through(level),
            r,
    {
        level.rank() <= Level::Trace.rank()
    }

    /// The record for a message, stamped with the given date and time.
    pub fn line(date: &str, time: &str, level: Level, module: Option<&str>, message: &str) -> (r:
        String)
        ensures
            r@ == record_line(date@, time@, level.name(), module_name(module), message@),
    {
        let module_text = match module {
            Some(name) => name,
            None => {
                proof {
                    reveal_strlit("");
                }
                assert(""@ =~= Seq::<char>::empty());
                ""
            },
        };
        let name = level_name(level);
        let mut out = String::from_str("[");
        out.append(date);
        out.append("][");
        out.append(time);
        out.append("][");
        out.append(name.as_str());
        out.append("][");
        out.append(module_text);
        out.append("] - ");
        out.append(message);
        out.append("\n");
        out
    }

    /// The record to append to the log file for a message, stamped with the
    /// local date and time of the call; `None` for a level that is not
    /// written.
    pub fn log(&self, level: Level, module: Option<&str>, message: &str) -> (r: Option<String>)
        ensures
            r is Some <==> Logger::lets_through(level),
            r matches Some(text) ==> exists|date: Seq<char>, time: Seq<char>|
                is_date(date) && is_time(time) && text@ == #[trigger] record_line(
                    date,
                    time,
                    level.name(),
                    module_name(module),
                    message@,
                ),
    {
        if self.enabled(level) {
            let date = local_now_as("%Y-%m-%d");
            let time = local_now_as("%H:%M:%S");
            let text = Logger::line(date.as_str(), time.as_str(), level, module, message);
            Some(text)
        } else {
            None
        }
    }

    /// Records are written as they come; nothing is held back.
    pub fn flush(&self) {
    }

    /// The name of the log file of `application`.
    pub fn file_name(application: &str) -> (r: String)
        ensures
            r@ == log_file_name(application@),
    {
        let mut out = String::from_str(application);
        out.append(".log");
        out
    }
}

/// Whether logging is switched on.
pub fn status(logger: bool) -> (r: bool)
    ensures
        r == logger,
{
    if logger {
        true
    } else {
        false
    }
}

/// A run counts as a success when it was logged and its indicator is
/// supported.
pub open spec fn success(logging: bool, indicator: Indicator) -> bool {
    logging && indicator != Indicator::Unsupported
}

/// A success is reported at info level, anything else at error level.
pub open spec fn report_level(success: bool) -> Level {
    if success {
        Level::Info
    } else {
        Level::Error
    }
}

/// The first line of a report.
pub open spec fn verdict(success: bool) -> Seq<char> {
    if success {
        "Executed successfully."@
    } else {
        "Execution failed."@
    }
}

/// The indicator as a report shows it: in capitals and, where the run fell
/// back to the default time zone, followed by the default indicator in
/// brackets.
pub open spec fn indicator_entry(
    indicator: Indicator,
    timezone: Timezone,
    defaults: DefaultConfiguration,
) -> Seq<char> {
    if timezone == Timezone::Unsupported {
        indicator.heading() + " - ["@ + defaults.indicator@ + "]"@
    } else {
        indicator.heading()
    }
}

/// The time zone as a report shows it: in capitals and, where it is not
/// supported, followed by the default time zone in brackets.
pub open spec fn timezone_entry(timezone: Timezone, defaults: DefaultConfiguration) -> Seq<char> {
    if timezone == Timezone::Unsupported {
        timezone.heading() + "  - ["@ + defaults.timezone@ + "]"@
    } else {
        timezone.heading()
    }
}

/// The text of a report: the verdict, then one line for each of duration,
/// frequency, total duration, indicator, colour, sound, time zone and
/// version.
pub open spec fn report_text(
    success: bool,
    settings: TimerSettings,
    indicator: Seq<char>,
    timezone: Seq<char>,
    version: Seq<char>,
) -> Seq<char> {
    verdict(success) + "\n[DURATION]  = "@ + decimal(settings.duration as nat) + " SECONDS"@
        + "\n[FREQUENCY] = "@ + decimal(settings.frequency as nat) + " SECONDS"@
        + "\n[TOTAL]     = "@ + decimal(settings.total_duration as nat) + " SECONDS"@
        + "\n[INDICATOR] = "@ + indicator + "\n[COLORED]   = "@ + truth(settings.colored)
        + "\n[SOUND]     = "@ + truth(settings.sound) + "\n[TIMEZONE]  = "@ + timezone
        + "\n[VERSION]   = "@ + version
}

/// What the terminal shows when the time zone of a run is not supported.
pub open spec fn timezone_warning() -> Seq<char> {
    "\nUnsupported timezone. Running through default timezone instead.\n"@
}

/// The warning that a run in `timezone` sends to the terminal, as
/// `TerminalText::shown` gives it: a red one where the time zone is not
/// supported, none otherwise.
pub open spec fn warning_for(timezone: Timezone, colored: bool) -> Option<
    (bool, Seq<char>, Color),
> {
    if timezone == Timezone::Unsupported {
        Some((colored, timezone_warning(), Color::Red))
    } else {
        None
    }
}

/// What `warning` shows, if there is one.
pub open spec fn warning_shown(warning: Option<TerminalText>) -> Option<(bool, Seq<char>, Color)> {
    match warning {
        Some(text) => Some(text.shown()),
        None => None,
    }
}

/// The one record that reports a run.
pub struct Report {
    pub level: Level,
    pub message: String,
}

/// What is left to do once a run is closed, in this order: enter
/// `directory`, print `warning`, hand `report` to the log.
pub struct Execution {
    /// The components of the path of the configuration directory, in which
    /// the run is logged.
    pub directory: Vec<String>,
    /// When the run was closed, as the clock rendered it.
    pub time: String,
    /// The clock that `time` was read from.
    pub clock: Clock,
    /// The warning to print on the terminal, if any.
    pub warning: Option<TerminalText>,
    /// The record to hand to the log.
    pub report: Report,
}

/// Writes the report of a run whose settings are normalized: `indicator` and
/// `timezone` are the kinds that the settings named.
pub fn report(
    defaults: &DefaultConfiguration,
    settings: &TimerSettings,
    indicator: Indicator,
    timezone: Timezone,
    version: &str,
) -> (r: Report)
    ensures
        r.level == report_level(success(settings.logger, indicator)),
        r.message@ == report_text(
            success(settings.logger, indicator),
            *settings,
            indicator_entry(indicator, timezone, *defaults),
            timezone_entry(timezone, *defaults),
            version@,
        ),
{
    let unsupported = indicator == Indicator::Unsupported;
    let succeeded = status(settings.logger && !unsupported);
    let fallback = timezone == Timezone::Unsupported;

    let mut indicator_text = String::from_str(indicator.as_heading());
    let mut timezone_text = String::from_str(timezone.as_heading());
    if fallback {
        indicator_text.append(" - [");
        indicator_text.append(defaults.indicator.as_str());
        indicator_text.append("]");
        timezone_text.append("  - [");
        timezone_text.append(defaults.timezone.as_str());
        timezone_text.append("]");
    }
    let duration = decimal_text(settings.duration);
    let frequency = decimal_text(settings.frequency);
    let total = decimal_text(settings.total_duration);

    let mut message = String::from_str(
        if succeeded {
            "Executed successfully."
        } else {
            "Execution failed."
        },
    );
    message.append("\n[DURATION]  = ");
    message.append(duration.as_str());
    message.append(" SECONDS");
    message.append("\n[FREQUENCY] = ");
    message.append(frequency.as_str());
    message.append(" SECONDS");
    message.append("\n[TOTAL]     = ");
    message.append(total.as_str());
    message.append(" SECONDS");
    message.append("\n[INDICATOR] = ");
    message.append(indicator_text.as_str());
    message.append("\n[COLORED]   = ");
    message.append(truth_text(settings.colored));
    message.append("\n[SOUND]     = ");
    message.append(truth_text(settings.sound));
    message.append("\n[TIMEZONE]  = ");
    message.append(timezone_text.as_str());
    message.append("\n[VERSION]   = ");
    message.append(version);

    let level = if succeeded {
        Level::Info
    } else {
        Level::Error
    };
    Report { level, message }
}

/// The terminal warning for a run in `timezone`, in colour if `colored`.
pub fn warning(timezone: Timezone, colored: bool) -> (r: Option<TerminalText>)
    ensures
        warning_shown(r) == warning_for(timezone, colored),
{
    match timezone {
        Timezone::Unsupported => Some(
            TerminalText {
                colored,
                text: String::from_str(
                    "\nUnsupported timezone. Running through default timezone instead.\n",
                ),
                color: Color::Red,
            },
        ),
        _ => None,
    }
}

/// Puts together what a run leaves to be done, once its settings are
/// normalized and its clock is read: `indicator` and `timezone` are the
/// kinds that the settings named, and `time` is the reading of the clock of
/// `timezone`, which is handed on as it is.
pub fn conclude(
    configuration_directory: &ConfigurationDirectory,
    default_configuration: &DefaultConfiguration,
    timer: &TimerSettings,
    indicator: Indicator,
    timezone: Timezone,
    time: String,
    version: &str,
) -> (r: Execution)
    ensures
        r.directory.deep_view() == configuration_directory.components(Place::Application),
        r.time == time,
        r.clock == timezone.clock(),
        warning_shown(r.warning) == warning_for(timezone, timer.colored),
        r.report.level == report_level(success(timer.logger, indicator)),
        r.report.message@ == report_text(
            success(timer.logger, indicator),
            *timer,
            indicator_entry(indicator, timezone, *default_configuration),
            timezone_entry(timezone, *default_configuration),
            version@,
        ),
{
    let directory = configuration_directory.path(Place::Application);
    let clock = timezone.as_clock();
    let warning = warning(timezone, timer.colored);
    let report = report(default_configuration, timer, indicator, timezone, version);
    Execution { directory, time, clock, warning, report }
}

/// Closes a run: normalizes the indicator and the time zone of `timer` in
/// place, reads the clock of the time zone (the local clock where the time
/// zone is not supported) and writes the report. The run is logged from
/// inside the configuration directory, and the working directory stays
/// there: to go back is up to the caller.
pub fn execution(
    configuration_directory: &ConfigurationDirectory,
    default_configuration: &DefaultConfiguration,
    timer: &mut TimerSettings,
    version: &str,
) -> (r: Execution)
    ensures
        final(timer).same_run_as(*old(timer)),
        final(timer).indicator@ == Indicator::named_in(lowercase_of(old(timer).indicator@)).label(),
        final(timer).timezone@ == Timezone::named_in(lowercase_of(old(timer).timezone@)).label(),
        ({
            let indicator = Indicator::named_in(lowercase_of(old(timer).indicator@));
            let timezone = Timezone::named_in(lowercase_of(old(timer).timezone@));
            let succeeded = success(old(timer).logger, indicator);
            &&& r.directory.deep_view() == configuration_directory.components(Place::Application)
            &&& r.clock == timezone.clock()
            &&& read_from(r.clock, r.time@)
            &&& r.time@.len() > 0
            &&& warning_shown(r.warning) == warning_for(timezone, old(timer).colored)
            &&& r.report.level == report_level(succeeded)
            &&& r.report.message@ == report_text(
                succeeded,
                *old(timer),
                indicator_entry(indicator, timezone, *default_configuration),
                timezone_entry(timezone, *default_configuration),
                version@,
            )
        }),
{
    let (indicator, timezone) = timer.normalize();
    let time = timestamp(timezone.as_clock());
    proof {
        reading_tells_its_clock(time@, timezone.clock(), timezone.clock());
    }
    conclude(
        configuration_directory,
        default_configuration,
        timer,
        indicator,
        timezone,
        time,
        version,
    )
}

/// The sink was not registered, so nothing was set up.
#[derive(Clone, Copy, Debug, PartialEq, Eq, Structural)]
pub struct NotRegistered;

/// Completes the installation of the sink. Where `log` took the sink, every
/// level up to trace is let through to it from now on, and that level is
/// returned; where it did not, nothing is changed and the failure is passed
/// on.
pub fn init(registered: bool) -> (r: Result<Level, NotRegistered>)
    ensures
        r == if registered {
            Ok::<Level, NotRegistered>(Level::Trace)
        } else {
            Err::<Level, NotRegistered>(NotRegistered)
        },
{
    if registered {
        let ceiling = Level::Trace;
        let_through(ceiling);
        Ok(ceiling)
    } else {
        Err(NotRegistered)
    }
}

/// A report goes out at error level where logging is off or the normalized
/// indicator is the sentinel, and at info level otherwise.
pub proof fn report_level_follows_success(logging: bool, indicator: Indicator)
    ensures
        ({
            let level = report_level(success(logging, indicator));
            let failed = !logging || indicator.label() == Indicator::Unsupported.label();
            &&& failed ==> level == Level::Error
            &&& !failed ==> level == Level::Info
        }),
{
    if indicator.label() == Indicator::Unsupported.label() {
        indicator_labels_differ(indicator, Indicator::Unsupported);
    }
}

/// Where the normalized time zone is the sentinel, the run is stamped by the
/// local clock, so that a timestamp `time` read for it ends in the offset of
/// the machine and not in the mark of UTC, and one warning goes to the
/// terminal. No other run warns.
pub proof fn unsupported_timezone_falls_back(timezone: Timezone, time: Seq<char>)
    ensures
        timezone.label() == Timezone::Unsupported.label() ==> {
            &&& timezone.clock() == Clock::Local
            &&& read_from(timezone.clock(), time) ==> ends_with_offset(time) && !ends_with(
                time,
                utc_suffix(),
            )
            &&& forall|colored: bool| #[trigger]
                warning_for(timezone, colored) == Some((colored, timezone_warning(), Color::Red))
        },
        timezone.label() != Timezone::Unsupported.label() ==> forall|colored: bool| #[trigger]
            warning_for(timezone, colored) is None,
{
    if timezone.label() == Timezone::Unsupported.label() {
        timezone_labels_differ(timezone, Timezone::Unsupported);
        if read_from(Clock::Local, time) {
            reading_tells_its_clock(time, Clock::Local, Clock::Utc);
        }
    }
}

} // verus!
