use alterable_logger::sink::Logger;
use alterable_logger::configure;
use alterable_logger::registry::{Registry, Standing};
use log::{Level, LevelFilter, Log, Metadata, Record};
use std::sync::{Arc, Mutex};

type Seen = Arc<Mutex<Vec<(&'static str, Level)>>>;

/// A logger that writes down what reaches it, under its own name, and wants
/// nothing above its ceiling.
struct Recorder {
    name: &'static str,
    ceiling: LevelFilter,
    seen: Seen,
}

impl Log for Recorder {
    fn enabled(&self, metadata: &Metadata) -> bool {
        metadata.level() <= self.ceiling
    }

    fn log(&self, record: &Record) {
        if self.enabled(record.metadata()) {
            self.seen.lock().unwrap().push((self.name, record.level()));
        }
    }

    fn flush(&self) {}
}

fn recorder(name: &'static str, ceiling: LevelFilter, seen: &Seen) -> Recorder {
    Recorder { name, ceiling, seen: Arc::clone(seen) }
}

/// What the facade's logging macros do with a message: weigh its level
/// against the threshold, then hand the record to the registered logger.
fn emit(level: Level) {
    if level <= log::STATIC_MAX_LEVEL && level <= log::max_level() {
        log::logger().log(&Record::builder().level(level).target("scenario").build());
    }
}

fn taken(seen: &Seen) -> Vec<(&'static str, Level)> {
    std::mem::take(&mut *seen.lock().unwrap())
}

#[test]
fn configure_installs_logger_and_threshold() {
    let seen = Seen::default();
    let registry = Registry::new();
    let standing =
        configure(&registry, LevelFilter::Warn, Logger::new(recorder("a", LevelFilter::Trace, &seen)));
    assert_eq!(standing, Standing::Registered);
    assert_eq!(registry.installation().standing, Standing::Registered);
    assert_eq!(log::max_level(), LevelFilter::Warn);

    emit(Level::Error);
    assert_eq!(taken(&seen), vec![("a", Level::Error)]);
    emit(Level::Warn);
    assert_eq!(taken(&seen), vec![("a", Level::Warn)]);
    emit(Level::Info);
    assert_eq!(taken(&seen), vec![]);
    emit(Level::Debug);
    emit(Level::Trace);
    assert_eq!(taken(&seen), vec![]);

    // Configuring again replaces both.
    configure(&registry, LevelFilter::Trace, Logger::new(recorder("b", LevelFilter::Trace, &seen)));
    assert_eq!(log::max_level(), LevelFilter::Trace);
    emit(Level::Trace);
    emit(Level::Error);
    assert_eq!(taken(&seen), vec![("b", Level::Trace), ("b", Level::Error)]);

    configure(&registry, LevelFilter::Off, Logger::new(recorder("c", LevelFilter::Trace, &seen)));
    assert_eq!(log::max_level(), LevelFilter::Off);
    emit(Level::Error);
    assert_eq!(taken(&seen), vec![]);
}
