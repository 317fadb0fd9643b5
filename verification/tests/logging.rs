use wasi_nn_tract::logging::{HostLevel, Level, WasiLogger};

#[test]
fn guest_levels_map_to_host_levels() {
    assert_eq!(HostLevel::from_level(Level::Trace), HostLevel::Trace);
    assert_eq!(HostLevel::from_level(Level::Debug), HostLevel::Debug);
    assert_eq!(HostLevel::from_level(Level::Info), HostLevel::Info);
    assert_eq!(HostLevel::from_level(Level::Warn), HostLevel::Warn);
    assert_eq!(HostLevel::from_level(Level::Error), HostLevel::Error);
    assert_eq!(HostLevel::from_level(Level::Fatal), HostLevel::Error);
}

#[test]
fn logger_makes_an_entry_of_each_call() {
    let mut logger = WasiLogger {};
    let entry = logger.log("loaded", Level::Info);
    assert_eq!(entry.level, HostLevel::Info);
    assert_eq!(entry.message, "loaded");
    assert_eq!(logger.trace("t").level, HostLevel::Trace);
    assert_eq!(logger.debug("d").level, HostLevel::Debug);
    assert_eq!(logger.info("i").level, HostLevel::Info);
    assert_eq!(logger.warn("w").level, HostLevel::Warn);
    assert_eq!(logger.error("e").level, HostLevel::Error);
    let fatal = logger.fatal("the end");
    assert_eq!(fatal.level, HostLevel::Error);
    assert_eq!(fatal.message, "the end");
}

#[test]
fn test_rust_log() {
    let mut data = WasiLogger {};
    let msg: &str = "To err is human to rub it in is divine";
    let entry = data.error(msg);
    assert_eq!(entry.level, HostLevel::Error);
    assert_eq!(entry.message, msg);
}
