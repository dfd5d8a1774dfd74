use alterable_logger::sink::Logger;
use alterable_logger::registry::{standing_of, Registry, Standing};
use alterable_logger::{configure, set_boxed_logger};
use log::{Level, LevelFilter, Log, Metadata, Record};
use std::sync::{Arc, Mutex};

type Seen = Arc<Mutex<Vec<(&'static str, Level)>>>;

/// A logger that writes down what reaches it, under its own name, and wants
/// nothing above its ceiling.
struct Recorder {
    name: &'static str,
    ceiling: LevelFilter,
    seen: Seen,
}

impl Log for Recorder {
    fn enabled(&self, metadata: &Metadata) -> bool {
        metadata.level() <= self.ceiling
    }

    fn log(&self, record: &Record) {
        if self.enabled(record.metadata()) {
            self.seen.lock().unwrap().push((self.name, record.level()));
        }
    }

    fn flush(&self) {}
}

fn recorder(name: &'static str, ceiling: LevelFilter, seen: &Seen) -> Recorder {
    Recorder { name, ceiling, seen: Arc::clone(seen) }
}

/// What the facade's logging macros do with a message: weigh its level
/// against the threshold, then hand the record to the registered logger.
fn emit(level: Level) {
    if level <= log::STATIC_MAX_LEVEL && level <= log::max_level() {
        log::logger().log(&Record::builder().level(level).target("scenario").build());
    }
}

fn taken(seen: &Seen) -> Vec<(&'static str, Level)> {
    std::mem::take(&mut *seen.lock().unwrap())
}

#[test]
fn refused_handle_works_in_the_shadow() {
    let seen = Seen::default();
    log::set_boxed_logger(Box::new(recorder("earlier", LevelFilter::Trace, &seen))).unwrap();
    let refusal = log::set_boxed_logger(Box::new(recorder("later", LevelFilter::Trace, &seen)));
    assert!(refusal.is_err());
    assert_eq!(standing_of(&refusal), Standing::Shadow);

    let registry = Registry::new();
    assert_eq!(registry.installation().standing, Standing::Shadow);

    // The entry points still work: the threshold is the facade's, the cell
    // is the handle's, and the facade goes on with the earlier logger.
    let standing =
        configure(&registry, LevelFilter::Info, Logger::new(recorder("ours", LevelFilter::Trace, &seen)));
    assert_eq!(standing, Standing::Shadow);
    assert_eq!(log::max_level(), LevelFilter::Info);
    emit(Level::Info);
    emit(Level::Debug);
    assert_eq!(taken(&seen), vec![("earlier", Level::Info)]);

    let handle = &registry.installation().handle;
    handle.log(&Record::builder().level(Level::Debug).target("scenario").build());
    assert_eq!(taken(&seen), vec![("ours", Level::Debug)]);

    let standing =
        set_boxed_logger(&registry, Logger::new(recorder("ours again", LevelFilter::Error, &seen)));
    assert_eq!(standing, Standing::Shadow);
    assert!(!handle.enabled(&Metadata::builder().level(Level::Warn).target("scenario").build()));
    handle.log(&Record::builder().level(Level::Error).target("scenario").build());
    assert_eq!(taken(&seen), vec![("ours again", Level::Error)]);
    assert_eq!(registry.installation().standing, Standing::Shadow);
}
