use runlog::configurer::{
    init, default_text, Action, Bootstrap, ConfigurationDirectory, Notice, Phase, Place,
};
use runlog::logger::Level;

fn configuration() -> ConfigurationDirectory {
    ConfigurationDirectory {
        current_directory: "/home/user/work".to_string(),
        target_directory: "/home/user/.config".to_string(),
        directory_name: "timer",
        file_name: "configuration.toml",
    }
}

/// A disk that keeps what a bootstrap can see or change.
struct Disk {
    place: Place,
    directory: bool,
    file: Option<String>,
    notices: Vec<Notice>,
    /// Places that cannot be entered.
    barred: Vec<Place>,
    /// Whether the file can be opened.
    openable: bool,
}

impl Disk {
    fn new() -> Disk {
        Disk {
            place: Place::Current,
            directory: false,
            file: None,
            notices: Vec::new(),
            barred: Vec::new(),
            openable: true,
        }
    }

    fn perform(&mut self, action: Action) -> bool {
        match action {
            Action::Enter(place) => {
                let there = place != Place::Application || self.directory;
                if self.barred.contains(&place) || !there {
                    return false;
                }
                self.place = place;
                true
            }
            Action::CreateDirectory => {
                assert_eq!(self.place, Place::Target);
                if self.directory {
                    return false;
                }
                self.directory = true;
                true
            }
            Action::OpenFile => {
                if !self.directory || !self.openable {
                    return false;
                }
                if self.file.is_none() {
                    self.file = Some(String::new());
                }
                true
            }
            Action::CheckDirectory => self.directory,
            Action::WriteDefault => {
                self.file = Some(default_text().to_string());
                true
            }
            Action::Log(notice) => {
                assert_eq!(self.place, Place::Application);
                self.notices.push(notice);
                true
            }
            Action::Finish | Action::Abort => true,
        }
    }
}

/// Drives a bootstrap to its end and returns what it asked for, in order.
fn drive(machine: &mut Bootstrap, disk: &mut Disk) -> Vec<Action> {
    let mut asked = Vec::new();
    while !machine.is_over() {
        let action = machine.request();
        asked.push(action);
        let outcome = disk.perform(action);
        machine.advance(outcome);
        assert!(asked.len() <= 12);
    }
    asked.push(machine.request());
    asked
}

#[test]
fn first_run_creates_directory_and_file() {
    let configuration = configuration();
    let mut disk = Disk::new();
    let mut machine = init(&configuration, true);
    let asked = drive(&mut machine, &mut disk);

    assert_eq!(
        asked,
        vec![
            Action::Enter(Place::Target),
            Action::CreateDirectory,
            Action::Enter(Place::Target),
            Action::Enter(Place::Application),
            Action::Log(Notice::CreatingDirectory),
            Action::Log(Notice::CreatingFile),
            Action::OpenFile,
            Action::CheckDirectory,
            Action::Log(Notice::CreatedDirectory),
            Action::Log(Notice::CreatedFile),
            Action::WriteDefault,
            Action::Enter(Place::Current),
            Action::Finish,
        ]
    );
    assert!(disk.directory);
    assert_eq!(disk.file.as_deref(), Some("Configuration."));
    assert_eq!(disk.place, Place::Current);
    assert_eq!(disk.notices.len(), 4);
    for notice in &disk.notices {
        assert_eq!(notice.as_level(), Level::Info);
    }
    assert_eq!(
        disk.notices.iter().map(|notice| notice.as_str()).collect::<Vec<_>>(),
        vec![
            "Creating application's configuration directory.",
            "Creating application's configuration file.",
            "Successfully created application's configuration directory.",
            "Successfully created application's configuration file.",
        ]
    );
}

#[test]
fn second_run_changes_nothing() {
    let configuration = configuration();
    let mut disk = Disk::new();
    drive(&mut init(&configuration, true), &mut disk);
    disk.file = Some("edited by hand".to_string());
    disk.notices.clear();

    let mut machine = init(&configuration, true);
    let asked = drive(&mut machine, &mut disk);

    assert_eq!(
        asked,
        vec![
            Action::Enter(Place::Target),
            Action::CreateDirectory,
            Action::Enter(Place::Application),
            Action::Log(Notice::DirectoryExists),
            Action::Enter(Place::Current),
            Action::Finish,
        ]
    );
    assert_eq!(machine.phase, Phase::Done);
    assert!(disk.directory);
    assert_eq!(disk.file.as_deref(), Some("edited by hand"));
    assert_eq!(disk.place, Place::Current);
    assert_eq!(disk.notices, vec![Notice::DirectoryExists]);
    assert_eq!(Notice::DirectoryExists.as_level(), Level::Trace);
    assert_eq!(
        Notice::DirectoryExists.as_str(),
        "Application's configuration directory already exists. Moving on."
    );
}

#[test]
fn first_run_without_logging_says_nothing() {
    let configuration = configuration();
    let mut disk = Disk::new();
    let asked = drive(&mut init(&configuration, false), &mut disk);

    assert_eq!(
        asked,
        vec![
            Action::Enter(Place::Target),
            Action::CreateDirectory,
            Action::Enter(Place::Target),
            Action::OpenFile,
            Action::WriteDefault,
            Action::Enter(Place::Current),
            Action::Finish,
        ]
    );
    assert_eq!(disk.file.as_deref(), Some("Configuration."));
    assert_eq!(disk.place, Place::Current);
    assert!(disk.notices.is_empty());
}

#[test]
fn second_run_without_logging_only_looks() {
    let configuration = configuration();
    let mut disk = Disk::new();
    disk.directory = true;
    let asked = drive(&mut init(&configuration, false), &mut disk);

    assert_eq!(
        asked,
        vec![
            Action::Enter(Place::Target),
            Action::CreateDirectory,
            Action::Enter(Place::Current),
            Action::Finish,
        ]
    );
    assert_eq!(disk.file, None);
    assert_eq!(disk.place, Place::Current);
}

#[test]
fn a_file_that_cannot_be_opened_is_passed_over() {
    let configuration = configuration();
    let mut disk = Disk::new();
    disk.openable = false;
    let mut machine = init(&configuration, true);
    let asked = drive(&mut machine, &mut disk);

    assert_eq!(machine.phase, Phase::Done);
    assert!(!asked.contains(&Action::WriteDefault));
    assert_eq!(
        disk.notices,
        vec![Notice::CreatingDirectory, Notice::CreatingFile, Notice::CreatedDirectory]
    );
    assert_eq!(disk.file, None);
    assert_eq!(disk.place, Place::Current);
}

#[test]
fn a_directory_that_is_not_one_is_not_confirmed() {
    let configuration = configuration();
    let mut machine = init(&configuration, true);
    let mut notices = Vec::new();
    while !machine.is_over() {
        let action = machine.request();
        if let Action::Log(notice) = action {
            notices.push(notice);
        }
        machine.advance(action != Action::CheckDirectory);
    }
    assert_eq!(machine.phase, Phase::Done);
    assert_eq!(notices, vec![Notice::CreatingDirectory, Notice::CreatingFile, Notice::CreatedFile]);
}

#[test]
fn a_target_that_cannot_be_entered_aborts() {
    let configuration = configuration();
    let mut disk = Disk::new();
    disk.barred.push(Place::Target);
    let mut machine = init(&configuration, true);
    let asked = drive(&mut machine, &mut disk);

    assert_eq!(asked, vec![Action::Enter(Place::Target), Action::Abort]);
    assert_eq!(machine.phase, Phase::Aborted);
    assert!(!disk.directory);
}

#[test]
fn any_failed_change_of_directory_aborts() {
    let configuration = configuration();
    for logger in [true, false] {
        for existing in [true, false] {
            for failing in 0..4 {
                let mut machine = init(&configuration, logger);
                let mut disk = Disk::new();
                disk.directory = existing;
                let mut changes = 0;
                let mut failed = false;
                while !machine.is_over() {
                    let action = machine.request();
                    let mut outcome = disk.perform(action);
                    if let Action::Enter(_) = action {
                        if changes == failing {
                            outcome = false;
                            failed = true;
                        }
                        changes += 1;
                    }
                    machine.advance(outcome);
                }
                if failed {
                    assert_eq!(machine.phase, Phase::Aborted);
                    assert_eq!(machine.request(), Action::Abort);
                } else {
                    assert_eq!(machine.phase, Phase::Done);
                    assert_eq!(disk.place, Place::Current);
                }
            }
        }
    }
}

#[test]
fn every_run_is_over_after_twelve_answers() {
    let configuration = configuration();
    for logger in [true, false] {
        for answers in 0u32..(1 << 12) {
            let mut machine = init(&configuration, logger);
            let mut place = Place::Current;
            for step in 0..12 {
                let outcome = answers & (1 << step) != 0;
                if let Action::Enter(entered) = machine.request() {
                    if outcome {
                        place = entered;
                    }
                }
                machine.advance(outcome);
            }
            assert!(machine.is_over());
            if machine.phase == Phase::Done {
                assert_eq!(place, Place::Current);
            }
        }
    }
}

#[test]
fn a_finished_bootstrap_stays_finished() {
    let configuration = configuration();
    let mut machine = init(&configuration, true);
    machine.phase = Phase::Done;
    machine.advance(false);
    assert_eq!(machine.phase, Phase::Done);
    assert_eq!(machine.request(), Action::Finish);
    machine.phase = Phase::Aborted;
    machine.advance(true);
    assert_eq!(machine.phase, Phase::Aborted);
    assert_eq!(machine.request(), Action::Abort);
}

#[test]
fn init_starts_by_entering_the_target() {
    let configuration = configuration();
    let machine = init(&configuration, true);
    assert!(machine.logging);
    assert_eq!(machine.phase, Phase::EnteringTarget);
    assert_eq!(machine.request(), Action::Enter(Place::Target));
    assert!(!machine.is_over());
    assert!(!init(&configuration, false).logging);
}

#[test]
fn paths_are_built_from_the_configuration() {
    let configuration = configuration();
    assert_eq!(configuration.path(Place::Current), vec!["/home/user/work"]);
    assert_eq!(configuration.path(Place::Target), vec!["/home/user/.config"]);
    assert_eq!(configuration.path(Place::Application), vec!["/home/user/.config", "timer"]);
    assert_eq!(
        configuration.path(Place::ConfigurationFile),
        vec!["/home/user/.config", "timer", "configuration.toml"]
    );
}

#[test]
fn a_bootstrap_knows_the_paths_of_its_configuration() {
    let configuration = configuration();
    let machine = init(&configuration, false);
    let places = [Place::Current, Place::Target, Place::Application, Place::ConfigurationFile];
    for place in places {
        assert_eq!(machine.path(place), configuration.path(place));
    }
}

#[test]
fn the_default_content_is_fixed() {
    assert_eq!(default_text(), "Configuration.");
}
