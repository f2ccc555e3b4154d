use runlog::logger::{init, status, Level, Logger, NotRegistered};

const LEVELS: [Level; 5] = [Level::Error, Level::Warn, Level::Info, Level::Debug, Level::Trace];

#[test]
fn status_is_the_switch() {
    assert!(status(true));
    assert!(!status(false));
}

#[test]
fn every_level_is_written() {
    for level in LEVELS {
        assert!(Logger.enabled(level));
    }
}

#[test]
fn a_record_has_the_fixed_shape() {
    let line = Logger::line("2024-01-02", "03:04:05", Level::Info, Some("timer::logger"), "hello");
    assert_eq!(line, "[2024-01-02][03:04:05][INFO][timer::logger] - hello\n");
}

#[test]
fn a_record_names_its_level_in_capitals() {
    let names = ["ERROR", "WARN", "INFO", "DEBUG", "TRACE"];
    for (level, name) in LEVELS.into_iter().zip(names) {
        let line = Logger::line("d", "t", level, Some("m"), "x");
        assert_eq!(line, format!("[d][t][{}][m] - x\n", name));
    }
}

#[test]
fn a_record_without_a_module_shows_an_empty_name() {
    let line = Logger::line("2024-01-02", "03:04:05", Level::Trace, None, "moving on");
    assert_eq!(line, "[2024-01-02][03:04:05][TRACE][] - moving on\n");
}

#[test]
fn a_record_keeps_a_message_of_several_lines() {
    let line = Logger::line("d", "t", Level::Error, Some("m"), "one\ntwo");
    assert_eq!(line, "[d][t][ERROR][m] - one\ntwo\n");
}

#[test]
fn log_stamps_the_record_with_the_local_date_and_time() {
    let before = chrono::Local::now().naive_local();
    let line = Logger.log(Level::Info, Some("timer"), "started").expect("info is written");
    let after = chrono::Local::now().naive_local();

    assert!(line.ends_with("][INFO][timer] - started\n"));
    assert!(line.starts_with('['));
    let stamp = &line[1..line.len() - "][INFO][timer] - started\n".len()];
    let read = chrono::NaiveDateTime::parse_from_str(stamp, "%Y-%m-%d][%H:%M:%S")
        .expect("date and time in the shape of a record");
    // The record drops fractions of a second, and the date and the time are read one after the other.
    assert!(read >= before - chrono::Duration::seconds(2));
    assert!(read <= after + chrono::Duration::seconds(2));
}

#[test]
fn log_writes_every_level() {
    for level in LEVELS {
        assert!(Logger.log(level, None, "x").is_some());
    }
}

#[test]
fn flush_has_nothing_to_do() {
    Logger.flush();
}

#[test]
fn the_log_file_is_named_after_the_application() {
    assert_eq!(Logger::file_name("timer"), "timer.log");
    assert_eq!(Logger::file_name(""), ".log");
}

#[test]
fn init_lets_every_level_through_once_the_sink_is_registered() {
    assert_eq!(log::max_level(), log::LevelFilter::Off);
    assert_eq!(init(false), Err(NotRegistered));
    assert_eq!(log::max_level(), log::LevelFilter::Off);
    assert_eq!(init(true), Ok(Level::Trace));
    assert_eq!(log::max_level(), log::LevelFilter::Trace);
}

#[test]
fn log_stamps_the_record_in_the_shape_of_date_and_time() {
    let line = Logger.log(Level::Error, None, "x").expect("error is written");
    let stamp = line.strip_suffix("][ERROR][] - x\n").expect("the rest of the record");
    let stamp = stamp.strip_prefix('[').expect("an opening bracket");
    let (date, time) = stamp.split_once("][").expect("date and time in brackets");

    let marks: Vec<char> = time.chars().collect();
    assert_eq!(marks.len(), 8);
    for (at, mark) in marks.iter().enumerate() {
        if at == 2 || at == 5 {
            assert_eq!(*mark, ':');
        } else {
            assert!(mark.is_ascii_digit());
        }
    }

    let marks: Vec<char> = date.chars().collect();
    assert!(marks.len() >= 10);
    let tail = &marks[marks.len() - 6..];
    assert_eq!(tail[0], '-');
    assert!(tail[1].is_ascii_digit() && tail[2].is_ascii_digit());
    assert_eq!(tail[3], '-');
    assert!(tail[4].is_ascii_digit() && tail[5].is_ascii_digit());
}
