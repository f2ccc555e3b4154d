//! The bootstrap of the configuration directory.
//!
//! The bootstrap is a machine that asks for one action at a time and is told
//! how that action went. It never touches the disk itself: whoever drives it
//! changes directories, creates what is asked for and hands records to the
//! log. The machine decides what comes next, and the laws at the end of this
//! file say where every run of it leads.

use vstd::prelude::*;
use crate::logger::{status, Level};

verus! {

/// Labels shown in a report beside settings that could not be used.
pub struct DefaultConfiguration {
    pub indicator: String,
    pub timezone: String,
}

/// The directories between which the bootstrap moves, and the names of what
/// it creates.
pub struct ConfigurationDirectory {
    /// The working directory of the process when it started.
    pub current_directory: String,
    /// The directory under which the configuration directory is created.
    pub target_directory: String,
    pub directory_name: &'static str,
    pub file_name: &'static str,
}

/// A location that the bootstrap refers to.
#[derive(Clone, Copy, Debug, PartialEq, Eq, Structural)]
pub enum Place {
    /// The directory the process started in.
    Current,
    /// The directory that holds the configuration directory.
    Target,
    /// The configuration directory.
    Application,
    /// The configuration file inside the configuration directory.
    ConfigurationFile,
}

impl ConfigurationDirectory {
    /// The path of `place` as the components that lead to it, the first one
    /// a directory of the configuration and each further one a name below
    /// the one before.
    pub open spec fn components(self, place: Place) -> Seq<Seq<char>> {
        match place {
            Place::Current => seq![self.current_directory@],
            Place::Target => seq![self.target_directory@],
            Place::Application => seq![self.target_directory@, self.directory_name@],
            Place::ConfigurationFile => seq![
                self.target_directory@,
                self.directory_name@,
                self.file_name@,
            ],
        }
    }

    /// The components of the path of `place`, to be joined in order.
    pub fn path(&self, place: Place) -> (r: Vec<String>)
        ensures
            r.deep_view() == self.components(place),
    {
        let mut parts: Vec<String> = Vec::new();
        match place {
            Place::Current => {
                parts.push(self.current_directory.clone());
            },
            Place::Target => {
                parts.push(self.target_directory.clone());
            },
            Place::Application => {
                parts.push(self.target_directory.clone());
                parts.push(self.directory_name.to_owned());
            },
            Place::ConfigurationFile => {
                parts.push(self.target_directory.clone());
                parts.push(self.directory_name.to_owned());
                parts.push(self.file_name.to_owned());
            },
        }
        assert(parts.deep_view() =~= self.components(place));
        parts
    }
}

/// What the bootstrap says to the log.
#[derive(Clone, Copy, Debug, PartialEq, Eq, Structural)]
pub enum Notice {
    DirectoryExists,
    CreatingDirectory,
    CreatingFile,
    CreatedDirectory,
    CreatedFile,
}

impl Notice {
    /// That the directory is already there is a trace; the rest is
    /// information.
    pub open spec fn level(self) -> Level {
        match self {
            Notice::DirectoryExists => Level::Trace,
            _ => Level::Info,
        }
    }

    /// The message of the notice.
    pub open spec fn text(self) -> Seq<char> {
        match self {
            Notice::DirectoryExists =>
                "Application's configuration directory already exists. Moving on."@,
            Notice::CreatingDirectory => "Creating application's configuration directory."@,
            Notice::CreatingFile => "Creating application's configuration file."@,
            Notice::CreatedDirectory =>
                "Successfully created application's configuration directory."@,
            Notice::CreatedFile => "Successfully created application's configuration file."@,
        }
    }

    /// The level at which the notice is logged.
    pub fn as_level(self) -> (r: Level)
        ensures
            r == self.level(),
    {
        match self {
            Notice::DirectoryExists => Level::Trace,
            _ => Level::Info,
        }
    }

    /// The message of the notice.
    pub fn as_str(self) -> (r: &'static str)
        ensures
            r@ == self.text(),
    {
        match self {
            Notice::DirectoryExists =>
                "Application's configuration directory already exists. Moving on.",
            Notice::CreatingDirectory => "Creating application's configuration directory.",
            Notice::CreatingFile => "Creating application's configuration file.",
            Notice::CreatedDirectory =>
                "Successfully created application's configuration directory.",
            Notice::CreatedFile => "Successfully created application's configuration file.",
        }
    }
}

/// What a fresh configuration file holds.
pub open spec fn default_content() -> Seq<char> {
    "Configuration."@
}

/// The text to write into a fresh configuration file.
pub fn default_text() -> (r: &'static str)
    ensures
        r@ == default_content(),
{
    "Configuration."
}

/// One thing the bootstrap asks of whoever drives it.
#[derive(Clone, Copy, Debug, PartialEq, Eq, Structural)]
pub enum Action {
    /// Make the place the working directory. A failure ends the bootstrap.
    Enter(Place),
    /// Create the configuration directory below the working directory. It
    /// fails where the directory is already there.
    CreateDirectory,
    /// Open the configuration file for reading and writing, creating it if
    /// needed and leaving what it holds.
    OpenFile,
    /// Tell whether the configuration directory is a directory.
    CheckDirectory,
    /// Write the default content into the configuration file.
    WriteDefault,
    /// Hand the notice to the log.
    Log(Notice),
    /// The bootstrap is over; the working directory is where it was.
    Finish,
    /// The working directory could not be changed: stop the process.
    Abort,
}

/// How far the bootstrap is: each phase waits for the outcome of one action.
#[derive(Clone, Copy, Debug, PartialEq, Eq, Structural)]
pub enum Phase {
    EnteringTarget,
    CreatingDirectory,
    /// The directory was there before; logging moves into it.
    EnteringExisting,
    NotingExisting,
    /// The directory is new.
    ReenteringTarget,
    EnteringCreated,
    AnnouncingDirectory,
    AnnouncingFile,
    OpeningFile,
    CheckingDirectory { file: bool },
    ConfirmingDirectory { file: bool },
    ConfirmingFile,
    WritingDefault,
    Restoring,
    Done,
    Aborted,
}

impl Phase {
    /// The action whose outcome the phase waits for.
    pub open spec fn request(self) -> Action {
        match self {
            Phase::EnteringTarget => Action::Enter(Place::Target),
            Phase::CreatingDirectory => Action::CreateDirectory,
            Phase::EnteringExisting => Action::Enter(Place::Application),
            Phase::NotingExisting => Action::Log(Notice::DirectoryExists),
            Phase::ReenteringTarget => Action::Enter(Place::Target),
            Phase::EnteringCreated => Action::Enter(Place::Application),
            Phase::AnnouncingDirectory => Action::Log(Notice::CreatingDirectory),
            Phase::AnnouncingFile => Action::Log(Notice::CreatingFile),
            Phase::OpeningFile => Action::OpenFile,
            Phase::CheckingDirectory { .. } => Action::CheckDirectory,
            Phase::ConfirmingDirectory { .. } => Action::Log(Notice::CreatedDirectory),
            Phase::ConfirmingFile => Action::Log(Notice::CreatedFile),
            Phase::WritingDefault => Action::WriteDefault,
            Phase::Restoring => Action::Enter(Place::Current),
            Phase::Done => Action::Finish,
            Phase::Aborted => Action::Abort,
        }
    }

    /// Where the bootstrap goes once the file was opened and, with logging,
    /// what is to be said of the directory was said: to the file's own
    /// confirmation and the default content if the file is there, else back.
    pub open spec fn after_directory(logging: bool, file: bool) -> Phase {
        if !file {
            Phase::Restoring
        } else if logging {
            Phase::ConfirmingFile
        } else {
            Phase::WritingDefault
        }
    }

    /// The phase that follows when the requested action went as `outcome`
    /// says. Only a change of directory can fail the bootstrap; what else
    /// goes wrong is passed over.
    pub open spec fn next(self, logging: bool, outcome: bool) -> Phase {
        match self {
            Phase::EnteringTarget => if outcome {
                Phase::CreatingDirectory
            } else {
                Phase::Aborted
            },
            Phase::CreatingDirectory => if outcome {
                Phase::ReenteringTarget
            } else if logging {
                Phase::EnteringExisting
            } else {
                Phase::Restoring
            },
            Phase::EnteringExisting => if outcome {
                Phase::NotingExisting
            } else {
                Phase::Aborted
            },
            Phase::NotingExisting => Phase::Restoring,
            Phase::ReenteringTarget => if !outcome {
                Phase::Aborted
            } else if logging {
                Phase::EnteringCreated
            } else {
                Phase::OpeningFile
            },
            Phase::EnteringCreated => if outcome {
                Phase::AnnouncingDirectory
            } else {
                Phase::Aborted
            },
            Phase::AnnouncingDirectory => Phase::AnnouncingFile,
            Phase::AnnouncingFile => Phase::OpeningFile,
            Phase::OpeningFile => if logging {
                Phase::CheckingDirectory { file: outcome }
            } else {
                Phase::after_directory(logging, outcome)
            },
            Phase::CheckingDirectory { file } => if outcome {
                Phase::ConfirmingDirectory { file }
            } else {
                Phase::after_directory(logging, file)
            },
            Phase::ConfirmingDirectory { file } => Phase::after_directory(logging, file),
            Phase::ConfirmingFile => Phase::WritingDefault,
            Phase::WritingDefault => Phase::Restoring,
            Phase::Restoring => if outcome {
                Phase::Done
            } else {
                Phase::Aborted
            },
            Phase::Done => Phase::Done,
            Phase::Aborted => Phase::Aborted,
        }
    }

    /// The bootstrap is over, one way or the other.
    pub open spec fn is_over(self) -> bool {
        self == Phase::Done || self == Phase::Aborted
    }

    /// An upper bound on the actions still to be asked for.
    pub open spec fn steps_left(self) -> nat {
        match self {
            Phase::EnteringTarget => 12,
            Phase::CreatingDirectory => 11,
            Phase::ReenteringTarget => 10,
            Phase::EnteringCreated => 9,
            Phase::AnnouncingDirectory => 8,
            Phase::AnnouncingFile => 7,
            Phase::OpeningFile => 6,
            Phase::CheckingDirectory { .. } => 5,
            Phase::ConfirmingDirectory { .. } => 4,
            Phase::ConfirmingFile => 3,
            Phase::EnteringExisting => 3,
            Phase::WritingDefault => 2,
            Phase::NotingExisting => 2,
            Phase::Restoring => 1,
            Phase::Done => 0,
            Phase::Aborted => 0,
        }
    }
}

/// A bootstrap under way.
pub struct Bootstrap<'a> {
    pub configuration: &'a ConfigurationDirectory,
    pub logging: bool,
    pub phase: Phase,
}

/// Starts the bootstrap of `configuration`, with or without logging. Its
/// first request is to enter the target directory.
pub fn init<'a>(configuration: &'a ConfigurationDirectory, logger: bool) -> (r: Bootstrap<'a>)
    ensures
        r.configuration == configuration,
        r.logging == logger,
        r.phase == Phase::EnteringTarget,
{
    Bootstrap { configuration, logging: logger, phase: Phase::EnteringTarget }
}

impl<'a> Bootstrap<'a> {
    /// The action to perform now.
    pub fn request(&self) -> (r: Action)
        ensures
            r == self.phase.request(),
    {
        match self.phase {
            Phase::EnteringTarget => Action::Enter(Place::Target),
            Phase::CreatingDirectory => Action::CreateDirectory,
            Phase::EnteringExisting => Action::Enter(Place::Application),
            Phase::NotingExisting => Action::Log(Notice::DirectoryExists),
            Phase::ReenteringTarget => Action::Enter(Place::Target),
            Phase::EnteringCreated => Action::Enter(Place::Application),
            Phase::AnnouncingDirectory => Action::Log(Notice::CreatingDirectory),
            Phase::AnnouncingFile => Action::Log(Notice::CreatingFile),
            Phase::OpeningFile => Action::OpenFile,
            Phase::CheckingDirectory { .. } => Action::CheckDirectory,
            Phase::ConfirmingDirectory { .. } => Action::Log(Notice::CreatedDirectory),
            Phase::ConfirmingFile => Action::Log(Notice::CreatedFile),
            Phase::WritingDefault => Action::WriteDefault,
            Phase::Restoring => Action::Enter(Place::Current),
            Phase::Done => Action::Finish,
            Phase::Aborted => Action::Abort,
        }
    }

    /// Takes note of how the requested action went and moves on. The outcome
    /// of handing a notice to the log does not matter.
    pub fn advance(&mut self, outcome: bool)
        ensures
            final(self).configuration == old(self).configuration,
            final(self).logging == old(self).logging,
            final(self).phase == old(self).phase.next(old(self).logging, outcome),
    {
        let logging = status(self.logging);
        let phase = match self.phase {
            Phase::EnteringTarget => if outcome {
                Phase::CreatingDirectory
            } else {
                Phase::Aborted
            },
            Phase::CreatingDirectory => if outcome {
                Phase::ReenteringTarget
            } else if logging {
                Phase::EnteringExisting
            } else {
                Phase::Restoring
            },
            Phase::EnteringExisting => if outcome {
                Phase::NotingExisting
            } else {
                Phase::Aborted
            },
            Phase::NotingExisting => Phase::Restoring,
            Phase::ReenteringTarget => if !outcome {
                Phase::Aborted
            } else if logging {
                Phase::EnteringCreated
            } else {
                Phase::OpeningFile
            },
            Phase::EnteringCreated => if outcome {
                Phase::AnnouncingDirectory
            } else {
                Phase::Aborted
            },
            Phase::AnnouncingDirectory => Phase::AnnouncingFile,
            Phase::AnnouncingFile => Phase::OpeningFile,
            Phase::OpeningFile => if logging {
                Phase::CheckingDirectory { file: outcome }
            } else {
                Bootstrap::after_directory(logging, outcome)
            },
            Phase::CheckingDirectory { file } => if outcome {
                Phase::ConfirmingDirectory { file }
            } else {
                Bootstrap::after_directory(logging, file)
            },
            Phase::ConfirmingDirectory { file } => Bootstrap::after_directory(logging, file),
            Phase::ConfirmingFile => Phase::WritingDefault,
            Phase::WritingDefault => Phase::Restoring,
            Phase::Restoring => if outcome {
                Phase::Done
            } else {
                Phase::Aborted
            },
            Phase::Done => Phase::Done,
            Phase::Aborted => Phase::Aborted,
        };
        self.phase = phase;
    }

    fn after_directory(logging: bool, file: bool) -> (r: Phase)
        ensures
            r == Phase::after_directory(logging, file),
    {
        if !file {
            Phase::Restoring
        } else if logging {
            Phase::ConfirmingFile
        } else {
            Phase::WritingDefault
        }
    }

    /// The components of the path of `place` in the configuration that is
    /// bootstrapped.
    pub fn path(&self, place: Place) -> (r: Vec<String>)
        ensures
            r.deep_view() == self.configuration.components(place),
    {
        self.configuration.path(place)
    }

    /// Whether nothing is left to do.
    pub fn is_over(&self) -> (r: bool)
        ensures
            r == self.phase.is_over(),
    {
        match self.phase {
            Phase::Done => true,
            Phase::Aborted => true,
            _ => false,
        }
    }
}

/// The phase reached from the start once the actions asked for went, in
/// order, as `outcomes` say.
pub open spec fn run(logging: bool, outcomes: Seq<bool>) -> Phase
    decreases outcomes.len(),
{
    if outcomes.len() == 0 {
        Phase::EnteringTarget
    } else {
        run(logging, outcomes.drop_last()).next(logging, outcomes.last())
    }
}

/// The working directory after those actions: the place of the last change
/// of directory that went well, and before any the directory the process
/// started in.
pub open spec fn place_after(logging: bool, outcomes: Seq<bool>) -> Place
    decreases outcomes.len(),
{
    if outcomes.len() == 0 {
        Place::Current
    } else {
        match run(logging, outcomes.drop_last()).request() {
            Action::Enter(place) if outcomes.last() => place,
            _ => place_after(logging, outcomes.drop_last()),
        }
    }
}

/// The action touches the configuration directory or what is in it.
pub open spec fn writes(action: Action) -> bool {
    action == Action::CreateDirectory || action == Action::OpenFile || action
        == Action::WriteDefault
}

/// Every answer brings the bootstrap closer to its end.
pub proof fn step_counts_down(phase: Phase, logging: bool, outcome: bool)
    requires
        !phase.is_over(),
    ensures
        phase.next(logging, outcome).steps_left() < phase.steps_left(),
{
}

proof fn run_counts_down(logging: bool, outcomes: Seq<bool>)
    ensures
        run(logging, outcomes).is_over() || run(logging, outcomes).steps_left() + outcomes.len()
            <= 12,
    decreases outcomes.len(),
{
    if outcomes.len() > 0 {
        run_counts_down(logging, outcomes.drop_last());
    }
}

/// However the actions go, the bootstrap is over when twelve were answered.
pub proof fn run_ends(logging: bool, outcomes: Seq<bool>)
    requires
        outcomes.len() >= 12,
    ensures
        run(logging, outcomes).is_over(),
{
    run_counts_down(logging, outcomes);
}

/// A bootstrap that finishes leaves the process in the directory it started
/// in, whichever way it took.
pub proof fn finished_run_is_back(logging: bool, outcomes: Seq<bool>)
    ensures
        run(logging, outcomes) == Phase::Done ==> place_after(logging, outcomes) == Place::Current,
    decreases outcomes.len(),
{
    if outcomes.len() > 0 {
        finished_run_is_back(logging, outcomes.drop_last());
    }
}

/// What holds of the working directory while the bootstrap waits in `phase`.
spec fn in_place(logging: bool, phase: Phase, place: Place) -> bool {
    match phase {
        Phase::CreatingDirectory => place == Place::Target,
        Phase::OpeningFile => logging ==> place == Place::Application,
        Phase::NotingExisting
        | Phase::AnnouncingDirectory
        | Phase::AnnouncingFile
        | Phase::CheckingDirectory { .. }
        | Phase::ConfirmingDirectory { .. }
        | Phase::ConfirmingFile => place == Place::Application,
        _ => true,
    }
}

proof fn run_stays_in_place(logging: bool, outcomes: Seq<bool>)
    ensures
        in_place(logging, run(logging, outcomes), place_after(logging, outcomes)),
    decreases outcomes.len(),
{
    if outcomes.len() > 0 {
        run_stays_in_place(logging, outcomes.drop_last());
    }
}

/// The configuration directory is created from inside the target directory,
/// and every notice is logged from inside the configuration directory, where
/// the log file belongs.
pub proof fn actions_happen_in_place(logging: bool, outcomes: Seq<bool>)
    ensures
        run(logging, outcomes).request() == Action::CreateDirectory ==> place_after(
            logging,
            outcomes,
        ) == Place::Target,
        run(logging, outcomes).request() is Log ==> place_after(logging, outcomes)
            == Place::Application,
{
    run_stays_in_place(logging, outcomes);
}

/// The bootstrap gives up only where a change of directory failed.
pub proof fn only_a_failed_change_aborts(logging: bool, outcomes: Seq<bool>)
    requires
        run(logging, outcomes) == Phase::Aborted,
    ensures
        exists|i: int|
            0 <= i < outcomes.len() && !outcomes[i] && #[trigger] run(
                logging,
                outcomes.take(i),
            ).request() is Enter,
    decreases outcomes.len(),
{
    let before = outcomes.drop_last();
    let last = outcomes.len() - 1;
    assert(outcomes.take(last) =~= before);
    if run(logging, before) == Phase::Aborted {
        only_a_failed_change_aborts(logging, before);
        let i = choose|i: int|
            0 <= i < before.len() && !before[i] && #[trigger] run(
                logging,
                before.take(i),
            ).request() is Enter;
        assert(before.take(i) =~= outcomes.take(i));
    } else {
        assert(run(logging, outcomes.take(last)).request() is Enter);
    }
}

/// Where the configuration directory was there before, nothing in it is
/// touched: the bootstrap does not open the file and writes nothing into it.
pub proof fn existing_directory_is_left_alone(logging: bool, outcomes: Seq<bool>)
    requires
        outcomes.len() >= 2,
        !outcomes[1],
    ensures
        !writes(run(logging, outcomes).request()),
{
    let phase = run(logging, outcomes);
    assert(phase == Phase::EnteringExisting || phase == Phase::NotingExisting || phase
        == Phase::Restoring || phase.is_over()) by {
        reached_without_creating(logging, outcomes);
    }
}

proof fn reached_without_creating(logging: bool, outcomes: Seq<bool>)
    requires
        outcomes.len() >= 2,
        !outcomes[1],
    ensures
        ({
            let phase = run(logging, outcomes);
            phase == Phase::EnteringExisting || phase == Phase::NotingExisting || phase
                == Phase::Restoring || phase.is_over()
        }),
    decreases outcomes.len(),
{
    let before = outcomes.drop_last();
    if outcomes.len() == 2 {
        assert(before.drop_last().len() == 0);
        assert(run(logging, before.drop_last()) == Phase::EnteringTarget);
    } else {
        reached_without_creating(logging, before);
    }
}

/// The default content goes only into a configuration directory that this
/// very run created.
pub proof fn default_needs_new_directory(logging: bool, outcomes: Seq<bool>)
    requires
        run(logging, outcomes).request() == Action::WriteDefault,
    ensures
        outcomes.len() >= 2,
        outcomes[0],
        outcomes[1],
{
    if outcomes.len() == 0 {
    } else if outcomes.len() == 1 {
        assert(run(logging, outcomes.drop_last()) == Phase::EnteringTarget);
    } else if !outcomes[1] {
        existing_directory_is_left_alone(logging, outcomes);
    } else if !outcomes[0] {
        let first = outcomes.take(1);
        assert(run(logging, first.drop_last()) == Phase::EnteringTarget);
        assert(run(logging, first) == Phase::Aborted);
        stays_aborted(logging, outcomes, 1);
    }
}

proof fn stays_aborted(logging: bool, outcomes: Seq<bool>, from: int)
    requires
        0 <= from <= outcomes.len(),
        run(logging, outcomes.take(from)) == Phase::Aborted,
    ensures
        run(logging, outcomes) == Phase::Aborted,
    decreases outcomes.len(),
{
    if from == outcomes.len() {
        assert(outcomes.take(from) =~= outcomes);
    } else {
        assert(outcomes.drop_last().take(from) =~= outcomes.take(from));
        stays_aborted(logging, outcomes.drop_last(), from);
    }
}

/// The part of the disk that a bootstrap can change, for stating what its
/// runs do: the working directory, whether the configuration directory is
/// there, what the configuration file holds if it is there, and the notices
/// in the log.
pub struct Disk {
    pub place: Place,
    pub directory: bool,
    pub file: Option<Seq<char>>,
    pub log: Seq<Notice>,
}

impl Disk {
    /// How an orderly disk takes an action, and what it answers. The target
    /// directory and the one the process started in can always be entered
    /// and the target can be written to; a directory is created unless it is
    /// there, and then it is empty; opening the file creates it empty or
    /// leaves what it holds; the log takes every notice.
    pub open spec fn answer(self, action: Action) -> (Disk, bool) {
        match action {
            Action::Enter(Place::Current) => (Disk { place: Place::Current, ..self }, true),
            Action::Enter(Place::Target) => (Disk { place: Place::Target, ..self }, true),
            Action::Enter(Place::Application) => if self.directory {
                (Disk { place: Place::Application, ..self }, true)
            } else {
                (self, false)
            },
            Action::Enter(Place::ConfigurationFile) => (self, false),
            Action::CreateDirectory => if self.directory {
                (self, false)
            } else {
                (Disk { directory: true, file: None, ..self }, true)
            },
            Action::OpenFile => if !self.directory {
                (self, false)
            } else if self.file is Some {
                (self, true)
            } else {
                (Disk { file: Some(Seq::empty()), ..self }, true)
            },
            Action::CheckDirectory => (self, self.directory),
            Action::WriteDefault => if self.directory {
                (Disk { file: Some(default_content()), ..self }, true)
            } else {
                (self, false)
            },
            Action::Log(notice) => (Disk { log: self.log.push(notice), ..self }, true),
            Action::Finish => (self, true),
            Action::Abort => (self, true),
        }
    }
}

/// Runs the bootstrap from `phase` against an orderly disk until it is over.
pub open spec fn settle(logging: bool, phase: Phase, disk: Disk) -> (Phase, Disk)
    decreases phase.steps_left(),
{
    if phase.is_over() {
        (phase, disk)
    } else {
        let (changed, outcome) = disk.answer(phase.request());
        settle(logging, phase.next(logging, outcome), changed)
    }
}

/// A whole bootstrap against an orderly disk.
pub open spec fn bootstrap(logging: bool, disk: Disk) -> (Phase, Disk) {
    settle(logging, Phase::EnteringTarget, disk)
}

/// The notices of a bootstrap that creates the directory and the file.
pub open spec fn creation_notices() -> Seq<Notice> {
    seq![
        Notice::CreatingDirectory,
        Notice::CreatingFile,
        Notice::CreatedDirectory,
        Notice::CreatedFile,
    ]
}

/// Without a configuration directory the bootstrap creates it and the file,
/// fills the file with the default content and is back where it started. With
/// logging it announces and confirms both, at info level.
pub proof fn first_run_creates(logging: bool, disk: Disk)
    requires
        !disk.directory,
    ensures
        bootstrap(logging, disk) == (
            Phase::Done,
            Disk {
                place: Place::Current,
                directory: true,
                file: Some(default_content()),
                log: if logging {
                    disk.log + creation_notices()
                } else {
                    disk.log
                },
            },
        ),
        forall|i: int|
            0 <= i < creation_notices().len() ==> (#[trigger] creation_notices()[i]).level()
                == Level::Info,
{
    reveal_with_fuel(settle, 13);
    if logging {
        assert(disk.log.push(Notice::CreatingDirectory).push(Notice::CreatingFile).push(
            Notice::CreatedDirectory,
        ).push(Notice::CreatedFile) =~= disk.log + creation_notices());
    }
}

/// With the configuration directory in place the bootstrap leaves it and the
/// file as they are and is back where it started. With logging it notes, as
/// a trace, that the directory is there.
pub proof fn later_run_changes_nothing(logging: bool, disk: Disk)
    requires
        disk.directory,
    ensures
        bootstrap(logging, disk) == (
            Phase::Done,
            Disk {
                place: Place::Current,
                log: if logging {
                    disk.log.push(Notice::DirectoryExists)
                } else {
                    disk.log
                },
                ..disk
            },
        ),
        Notice::DirectoryExists.level() == Level::Trace,
{
    reveal_with_fuel(settle, 7);
}

/// Bootstrapping twice is as good as once: both runs finish where the
/// process started, and the second leaves the directory and what the
/// configuration file holds as the first left them.
pub proof fn bootstrap_is_idempotent(first: bool, second: bool, disk: Disk)
    ensures
        ({
            let once = bootstrap(first, disk);
            let twice = bootstrap(second, once.1);
            &&& once.0 == Phase::Done
            &&& twice.0 == Phase::Done
            &&& once.1.place == Place::Current
            &&& twice.1.place == Place::Current
            &&& twice.1.directory == once.1.directory
            &&& twice.1.file == once.1.file
        }),
{
    if disk.directory {
        later_run_changes_nothing(first, disk);
    } else {
        first_run_creates(first, disk);
    }
    later_run_changes_nothing(second, bootstrap(first, disk).1);
}

} // verus!
