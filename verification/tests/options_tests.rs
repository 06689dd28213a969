use sorai::vite::options::{ConfigCell, Level, ViteProxyOptions};

fn fresh_cell() -> ConfigCell {
    ConfigCell::new(None)
}

#[test]
fn test_default_creation() {
    let options = ViteProxyOptions::new();
    assert_eq!(options.port, None);
    assert!(options.working_directory.contains("./") || options.working_directory.contains("."));
    assert_eq!(options.log_level, Some(Level::Debug));
}

#[test]
fn test_port_builder() {
    let options = ViteProxyOptions::new().port(3000);
    assert_eq!(options.port, Some(3000));
}

#[test]
fn test_working_directory_builder() {
    let dir = "/custom/dir";
    let options = ViteProxyOptions::new().working_directory(dir);
    assert_eq!(options.working_directory, dir);
}

#[test]
fn test_log_level_builder() {
    let options = ViteProxyOptions::new().log_level(Level::Info);
    assert_eq!(options.log_level, Some(Level::Info));
}

#[test]
fn test_disable_logging_builder() {
    let options = ViteProxyOptions::new().disable_logging();
    assert_eq!(options.log_level, None);
}

#[test]
fn test_clone() {
    let options1 = ViteProxyOptions::new()
        .port(9999)
        .working_directory("/test")
        .log_level(Level::Warn);

    let options2 = options1.clone();

    assert_eq!(options1.port, options2.port);
    assert_eq!(options1.working_directory, options2.working_directory);
    assert_eq!(options1.log_level, options2.log_level);
}

#[test]
fn test_build_and_global() {
    let mut cell = fresh_cell();
    ViteProxyOptions::new()
        .port(5000)
        .working_directory("/test/dir")
        .log_level(Level::Error)
        .build(&mut cell)
        .unwrap();

    let global = ViteProxyOptions::global(&cell);
    assert_eq!(global.port, Some(5000));
    assert_eq!(global.working_directory, "/test/dir");
    assert_eq!(global.log_level, Some(Level::Error));
}

#[test]
fn test_update_port() {
    let mut cell = fresh_cell();
    ViteProxyOptions::new().port(3000).build(&mut cell).unwrap();

    ViteProxyOptions::update_port(&mut cell, 4000).unwrap();

    let global = ViteProxyOptions::global(&cell);
    assert_eq!(global.port, Some(4000));
}

#[test]
fn test_override_global() {
    let mut cell = fresh_cell();
    ViteProxyOptions::new().port(1111).build(&mut cell).unwrap();

    let global1 = ViteProxyOptions::global(&cell);
    assert_eq!(global1.port, Some(1111));

    ViteProxyOptions::new().port(2222).build(&mut cell).unwrap();

    let global2 = ViteProxyOptions::global(&cell);
    assert_eq!(global2.port, Some(2222));
}

#[test]
fn test_default_options() {
    let options = ViteProxyOptions::new();

    assert_eq!(options.port, None);
    assert!(options.working_directory.contains("./") || options.working_directory.contains("."));
    assert_eq!(options.log_level, Some(Level::Debug));
}

#[test]
fn test_port_configuration() {
    let mut cell = fresh_cell();
    ViteProxyOptions::new().port(3000).build(&mut cell).unwrap();

    let global = ViteProxyOptions::global(&cell);
    assert_eq!(global.port, Some(3000));
}

#[test]
fn test_working_directory() {
    let mut cell = fresh_cell();
    let custom_dir = "/tmp/custom-vite-project";
    ViteProxyOptions::new().working_directory(custom_dir).build(&mut cell).unwrap();

    let global = ViteProxyOptions::global(&cell);
    assert_eq!(global.working_directory, custom_dir);
}

#[test]
fn test_log_level_configuration() {
    let mut cell = fresh_cell();
    let levels = vec![Level::Error, Level::Warn, Level::Info, Level::Debug, Level::Trace];

    for level in levels {
        ViteProxyOptions::new().log_level(level).build(&mut cell).unwrap();

        let global = ViteProxyOptions::global(&cell);
        assert_eq!(global.log_level, Some(level));
    }
}

#[test]
fn test_disable_logging() {
    let mut cell = fresh_cell();
    ViteProxyOptions::new().disable_logging().build(&mut cell).unwrap();

    let global = ViteProxyOptions::global(&cell);
    assert_eq!(global.log_level, None);
}

#[test]
fn test_chained_configuration() {
    let mut cell = fresh_cell();
    ViteProxyOptions::new()
        .port(8888)
        .working_directory("/chained/test")
        .log_level(Level::Warn)
        .build(&mut cell)
        .unwrap();

    let global = ViteProxyOptions::global(&cell);
    assert_eq!(global.port, Some(8888));
    assert_eq!(global.working_directory, "/chained/test");
    assert_eq!(global.log_level, Some(Level::Warn));
}

#[test]
fn test_port_update() {
    let mut cell = fresh_cell();
    ViteProxyOptions::new().port(5000).build(&mut cell).unwrap();

    ViteProxyOptions::update_port(&mut cell, 6000).unwrap();

    let global = ViteProxyOptions::global(&cell);
    assert_eq!(global.port, Some(6000));
}

#[test]
fn test_multiple_configurations() {
    let mut cell = fresh_cell();
    ViteProxyOptions::new()
        .port(1111)
        .working_directory("/dir1")
        .build(&mut cell)
        .unwrap();

    let global1 = ViteProxyOptions::global(&cell);
    assert_eq!(global1.port, Some(1111));
    assert_eq!(global1.working_directory, "/dir1");

    ViteProxyOptions::new()
        .port(2222)
        .working_directory("/dir2")
        .build(&mut cell)
        .unwrap();

    let global2 = ViteProxyOptions::global(&cell);
    assert_eq!(global2.port, Some(2222));
    assert_eq!(global2.working_directory, "/dir2");
}

#[test]
fn test_options_clone() {
    let options1 = ViteProxyOptions::new()
        .port(7777)
        .working_directory("/clone/test")
        .log_level(Level::Warn);

    let options2 = options1.clone();

    assert_eq!(options1.port, options2.port);
    assert_eq!(options1.working_directory, options2.working_directory);
    assert_eq!(options1.log_level, options2.log_level);
}

#[test]
fn test_global_without_build() {
    let cell = fresh_cell();
    let global = ViteProxyOptions::global(&cell);

    assert!(global.port.is_none() || global.port.is_some());
    assert!(!global.working_directory.is_empty());
}

#[test]
fn test_working_directory_respects_custom_path() {
    let custom_dir = "/custom/vite/project";
    let options = ViteProxyOptions::new().working_directory(custom_dir);

    assert_eq!(options.working_directory, custom_dir);
}
