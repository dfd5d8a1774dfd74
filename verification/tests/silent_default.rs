use alterable_logger::registry::{Registry, Standing};
use log::{Level, Log, Metadata, Record};

#[test]
fn nothing_is_wanted_before_configuration() {
    let levels = [Level::Error, Level::Warn, Level::Info, Level::Debug, Level::Trace];
    for level in levels {
        let probe = Metadata::builder().level(level).target("default").build();
        assert!(!log::logger().enabled(&probe));
    }

    let registry = Registry::new();
    let installation = registry.installation();
    assert_eq!(installation.standing, Standing::Registered);
    for level in levels {
        let probe = Metadata::builder().level(level).target("default").build();
        assert!(!installation.handle.enabled(&probe));
        assert!(!log::logger().enabled(&probe));
        log::logger().log(&Record::builder().level(level).target("default").build());
        installation.handle.log(&Record::builder().level(level).target("default").build());
    }
    log::logger().flush();
    installation.handle.flush();
    assert_eq!(log::max_level(), log::LevelFilter::Off);
}
