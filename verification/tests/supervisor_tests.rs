use sorai::vite::options::{ConfigCell, DirProbe, Level, LockError, ViteProxyOptions};
use sorai::vite::options::{try_find_vite_dir, vite_config_names};
use sorai::vite::resolver::ResolvedCommand;
use sorai::vite::supervisor::{
    announces_address, command_line, on_read, port_announcement, port_from_url, port_in_line,
    record_announcement, relay_line, scan_line, start_vite_server, strip_line_ending, ReadEvent,
    ReaderState, StartError,
};
use sorai::vite::resolver::{GlobalLookup, ResolverProbe};

fn probe_with_nothing() -> ResolverProbe {
    ResolverProbe {
        override_path: None,
        override_exists: false,
        local_path: "./node_modules/.bin/vite".to_string(),
        local_exists: false,
        managers: vec![false, false, false, false, false],
        global: GlobalLookup::Unavailable,
    }
}

#[test]
fn line_with_local_url_sets_port() {
    let scan = scan_line("Local: http://localhost:5173/");
    assert_eq!(scan.forwarded, "Local: http://localhost:5173/");
    assert_eq!(scan.port, Some(5173));

    let mut cell = ConfigCell::new(None);
    assert_eq!(cell.get().port, None);
    ViteProxyOptions::update_port(&mut cell, scan.port.unwrap()).unwrap();
    assert_eq!(ViteProxyOptions::global(&cell).port, Some(5173));
}

#[test]
fn scan_line_forwards_verbatim_and_searches_a_copy() {
    let line = "  \u{1b}[32m➜\u{1b}[39m  \u{1b}[1mLocal\u{1b}[22m:   \u{1b}[36mhttp://localhost:\u{1b}[1m4321\u{1b}[22m/\u{1b}[39m \r\n";
    let scan = scan_line(line);
    assert_eq!(scan.forwarded, &line[..line.len() - 2]);
    assert!(scan.forwarded.starts_with("  \u{1b}"));
    assert!(scan.forwarded.ends_with("\u{1b}[39m "));
    assert_eq!(scan.port, Some(4321));
}

#[test]
fn only_the_line_ending_is_cut() {
    assert_eq!(strip_line_ending("  ➜  Local:   http://localhost:5173/\n"), "  ➜  Local:   http://localhost:5173/");
    assert_eq!(strip_line_ending("a\r\n"), "a");
    assert_eq!(strip_line_ending("a\n"), "a");
    assert_eq!(strip_line_ending("a"), "a");
    assert_eq!(strip_line_ending("a\r"), "a\r");
    assert_eq!(strip_line_ending("a\n\n"), "a\n");
    assert_eq!(strip_line_ending("a\r\r\n"), "a\r");
    assert_eq!(strip_line_ending("\ta b \t\n"), "\ta b \t");
    assert_eq!(strip_line_ending("\n"), "");
    assert_eq!(strip_line_ending("\r\n"), "");
    assert_eq!(strip_line_ending(""), "");
}

#[test]
fn escapes_inside_marker_word_are_stripped_before_matching() {
    let line = "Lo\u{1b}[1mcal\u{1b}[22m: http://localhost:3000/";
    assert_eq!(port_in_line(line), Some(3000));
    assert_eq!(port_in_line("   Local: http://localhost:3001/  \n"), Some(3001));
    assert!(!announces_address(line));
}

#[test]
fn lines_without_marker_or_address_announce_nothing() {
    assert_eq!(scan_line("ready in 312 ms").port, None);
    assert_eq!(scan_line("Network: http://192.168.1.2:5173/").port, None);
    assert_eq!(scan_line("Local: https://localhost:5173/").port, None);
    assert_eq!(scan_line("http://localhost:5173/").port, None);
    assert_eq!(scan_line("Local: http://localhost:/").port, None);
    assert_eq!(scan_line("").port, None);
}

#[test]
fn first_address_on_the_line_is_used() {
    let scan = scan_line("Local: http://localhost:5173/ and http://localhost:9999/");
    assert_eq!(scan.port, Some(5173));
}

#[test]
fn port_from_url_reads_digits_after_last_colon() {
    assert_eq!(port_from_url("http://localhost:5173"), Some(5173));
    assert_eq!(port_from_url("http://localhost:0"), Some(0));
    assert_eq!(port_from_url("http://localhost:0080"), Some(80));
    assert_eq!(port_from_url("http://localhost:65535"), Some(65535));
    assert_eq!(port_from_url("http://localhost:65536"), None);
    assert_eq!(port_from_url("http://localhost:99999999999999999999"), None);
    assert_eq!(port_from_url("http://localhost:"), None);
    assert_eq!(port_from_url("http://localhost:80a"), None);
    assert_eq!(port_from_url("http://localhost:+80"), None);
    assert_eq!(port_from_url("8080"), Some(8080));
    assert_eq!(port_from_url(""), None);
}

#[test]
fn port_announcement_needs_marker_address_and_capture() {
    let text = "Local: http://localhost:5173/";
    assert_eq!(port_announcement(text, Some("http://localhost:5173".to_string())), Some(5173));
    assert_eq!(port_announcement(text, None), None);
    assert_eq!(port_announcement("Local only", Some("http://localhost:5173".to_string())), None);
    assert_eq!(port_announcement(text, Some(text.to_string())), None);
}

#[test]
fn reader_forwards_lines_verbatim_and_stops_at_end() {
    let step = on_read(ReaderState::Reading, ReadEvent::Line("  hello \n".to_string()));
    assert_eq!(step.state, ReaderState::Reading);
    assert_eq!(step.forward, Some("  hello ".to_string()));
    assert_eq!(step.port, None);

    let step = on_read(
        ReaderState::Reading,
        ReadEvent::Line("  ➜  Local:   http://localhost:5173/\n".to_string()),
    );
    assert_eq!(step.state, ReaderState::Reading);
    assert_eq!(step.forward, Some("  ➜  Local:   http://localhost:5173/".to_string()));
    assert_eq!(step.port, Some(5173));

    let step = on_read(ReaderState::Reading, ReadEvent::Line("\n".to_string()));
    assert_eq!(step.state, ReaderState::Reading);
    assert_eq!(step.forward, Some(String::new()));

    let step = on_read(ReaderState::Reading, ReadEvent::EndOfStream);
    assert_eq!(step.state, ReaderState::Stopped);
    assert_eq!(step.forward, None);
    assert_eq!(step.port, None);

    let step = on_read(ReaderState::Reading, ReadEvent::Failed);
    assert_eq!(step.state, ReaderState::Stopped);
    assert_eq!(step.forward, None);
    assert_eq!(step.port, None);
}

#[test]
fn lines_reach_the_relay_in_order_and_whole() {
    let lines = ["  first\n", "\tsecond  \r\n", "\n", "last without ending"];
    let mut state = ReaderState::Reading;
    let mut relayed = Vec::new();
    for line in lines {
        let step = on_read(state, ReadEvent::Line(line.to_string()));
        state = step.state;
        relayed.push(step.forward.unwrap());
    }
    let step = on_read(state, ReadEvent::EndOfStream);
    assert_eq!(step.state, ReaderState::Stopped);
    assert_eq!(step.forward, None);
    assert_eq!(relayed, vec!["  first", "\tsecond  ", "", "last without ending"]);
}

#[test]
fn stopped_reader_stays_stopped() {
    let step =
        on_read(ReaderState::Stopped, ReadEvent::Line("Local: http://localhost:1/".to_string()));
    assert_eq!(step.state, ReaderState::Stopped);
    assert_eq!(step.forward, None);
    assert_eq!(step.port, None);
    let step = on_read(ReaderState::Stopped, ReadEvent::EndOfStream);
    assert_eq!(step.state, ReaderState::Stopped);
}

#[test]
fn relay_publishes_at_configured_level_or_drops() {
    let record = relay_line(Some(Level::Warn), "a line".to_string()).unwrap();
    assert_eq!(record.level, Level::Warn);
    assert_eq!(record.line, "a line");
    assert!(relay_line(None, "a line".to_string()).is_none());
}

fn resolved(program: &str, args: &[&str]) -> ResolvedCommand {
    ResolvedCommand {
        program: program.to_string(),
        args: args.iter().map(|a| a.to_string()).collect(),
    }
}

#[test]
fn command_line_keeps_program_whole_and_appends_port() {
    let options = ViteProxyOptions::new().port(3000).working_directory("/srv/app");
    let command = command_line(&options, resolved("pnpm", &["exec", "vite"]));
    assert_eq!(command.program, "pnpm");
    assert_eq!(command.args, vec!["exec", "vite", "--port", "3000"]);
    assert_eq!(command.current_dir, "/srv/app");

    let options = ViteProxyOptions::new();
    let command = command_line(&options, resolved("/usr/bin/vite", &[]));
    assert_eq!(command.program, "/usr/bin/vite");
    assert!(command.args.is_empty());
    assert_eq!(command.current_dir, ".");

    let command = command_line(&options, resolved("/opt/my tools/vite", &[]));
    assert_eq!(command.program, "/opt/my tools/vite");
    assert!(command.args.is_empty());

    let options = ViteProxyOptions::new().port(65535);
    let command = command_line(&options, resolved("/opt/my tools/vite", &[]));
    assert_eq!(command.program, "/opt/my tools/vite");
    assert_eq!(command.args, vec!["--port", "65535"]);
}

#[test]
fn override_with_a_space_is_started_whole() {
    let options = ViteProxyOptions::new();
    let mut probe = probe_with_nothing();
    probe.override_path = Some("/opt/my tools/vite".to_string());
    probe.override_exists = true;
    let command = start_vite_server(&options, &probe).unwrap();
    assert_eq!(command.program, "/opt/my tools/vite");
    assert!(command.args.is_empty());
}

#[test]
fn start_fails_fast_when_nothing_is_found() {
    let options = ViteProxyOptions::new().working_directory("/srv/app");
    let probe = probe_with_nothing();
    match start_vite_server(&options, &probe) {
        Err(StartError::NotFound(text)) => {
            assert!(text.starts_with("Vite not found. Tried:\n"));
            assert!(text.contains("- node_modules/.bin/vite in /srv/app\n"));
            assert!(text.ends_with("Install Vite with: npm install -D vite"));
        }
        other => panic!("unexpected start: {:?}", other),
    }
}

#[test]
fn start_builds_command_from_resolution() {
    let options = ViteProxyOptions::new().port(5173);
    let mut probe = probe_with_nothing();
    probe.managers = vec![false, true, true, false, false];
    let command = start_vite_server(&options, &probe).unwrap();
    assert_eq!(command.program, "yarn");
    assert_eq!(command.args, vec!["vite", "--port", "5173"]);
}

#[test]
fn start_error_messages() {
    assert_eq!(StartError::StdoutCaptureFailure.message(), "Failed to capture Vite process stdout");
    assert_eq!(StartError::NotFound("x".to_string()).message(), "x");
    assert_eq!(StartError::SpawnFailed.message(), "Failed to start Vite process");
    assert_eq!(StartError::UndecodableLookup.message(), "Vite lookup printed invalid text");
}

fn probe(path: &str, is_root: bool, markers: [bool; 4]) -> DirProbe {
    DirProbe { path: Some(path.to_string()), is_root, markers: markers.to_vec() }
}

#[test]
fn marker_file_names() {
    assert_eq!(
        vite_config_names(),
        vec!["vite.config.ts", "vite.config.js", "vite.config.mts", "vite.config.mjs"]
    );
}

#[test]
fn detection_finds_each_marker_in_current_directory() {
    for i in 0..4 {
        let mut markers = [false; 4];
        markers[i] = true;
        let probes = vec![probe("/work/app", false, markers), probe("/work", false, [false; 4])];
        assert_eq!(try_find_vite_dir(&probes), Some("/work/app".to_string()));
    }
}

#[test]
fn detection_walks_up_to_parent() {
    let probes = vec![
        probe("/work/app/src/components", false, [false; 4]),
        probe("/work/app/src", false, [false; 4]),
        probe("/work/app", false, [true, false, false, false]),
        probe("/work", false, [false, true, false, false]),
        probe("/", true, [false; 4]),
    ];
    assert_eq!(try_find_vite_dir(&probes), Some("/work/app".to_string()));
}

#[test]
fn detection_stops_at_root_without_looking_into_it() {
    let probes = vec![probe("/work", false, [false; 4]), probe("/", true, [true; 4])];
    assert_eq!(try_find_vite_dir(&probes), None);
    assert_eq!(try_find_vite_dir(&Vec::new()), None);
    let probes = vec![probe("/", true, [true; 4]), probe("/work", false, [true; 4])];
    assert_eq!(try_find_vite_dir(&probes), None);
}

#[test]
fn detection_gives_up_on_marked_directory_without_text_path() {
    let probes = vec![
        DirProbe { path: None, is_root: false, markers: vec![true, false, false, false] },
        probe("/work", false, [true; 4]),
    ];
    assert_eq!(try_find_vite_dir(&probes), None);
}

#[test]
fn detected_directory_becomes_default_working_directory() {
    let found = ViteProxyOptions::with_detected_directory(Some("/work/app".to_string()));
    assert_eq!(found.working_directory, "/work/app");
    assert_eq!(found.port, None);
    assert_eq!(found.log_level, Some(Level::Debug));
    let none = ViteProxyOptions::with_detected_directory(None);
    assert_eq!(none.working_directory, ".");
}

#[test]
fn update_port_touches_only_the_port() {
    let mut cell = ConfigCell::new(None);
    ViteProxyOptions::new()
        .working_directory("/srv")
        .log_level(Level::Trace)
        .build(&mut cell)
        .unwrap();
    cell.update_port(8080).unwrap();
    let now = cell.get();
    assert_eq!(now.port, Some(8080));
    assert_eq!(now.working_directory, "/srv");
    assert_eq!(now.log_level, Some(Level::Trace));
}

#[test]
fn poisoned_cell_falls_back_to_defaults_and_refuses_writes() {
    let mut cell = ConfigCell::new(Some("/detected".to_string()));
    assert_eq!(cell.get().working_directory, "/detected");
    assert_eq!(cell.get().port, None);
    assert_eq!(cell.get().log_level, Some(Level::Debug));
    ViteProxyOptions::new()
        .port(7000)
        .working_directory("/set")
        .log_level(Level::Error)
        .build(&mut cell)
        .unwrap();
    assert!(!cell.snapshot().degraded);
    assert_eq!(cell.get().port, Some(7000));

    cell.poison();
    let snapshot = cell.snapshot();
    assert!(snapshot.degraded);
    assert_eq!(snapshot.options.port, None);
    assert_eq!(snapshot.options.working_directory, "/detected");
    assert_eq!(snapshot.options.log_level, Some(Level::Debug));
    let global = ViteProxyOptions::global(&cell);
    assert_eq!(global.port, None);
    assert_eq!(global.working_directory, "/detected");
    assert_eq!(global.log_level, Some(Level::Debug));

    assert_eq!(cell.update_port(1), Err(LockError::PortUpdate));
    assert_eq!(ViteProxyOptions::update_port(&mut cell, 1), Err(LockError::PortUpdate));
    assert_eq!(cell.set(ViteProxyOptions::new()), Err(LockError::Build));
    assert_eq!(ViteProxyOptions::new().build(&mut cell), Err(LockError::Build));
    assert_eq!(ViteProxyOptions::global(&cell).port, None);
    assert_eq!(LockError::PortUpdate.message(), "Failed to lock proxy options for port update");
    assert_eq!(LockError::Build.message(), "Failed to lock proxy options during build");

    let mut plain = ConfigCell::new(None);
    plain.poison();
    assert_eq!(plain.get().working_directory, ".");
    assert_eq!(plain.get().port, None);
}

#[test]
fn announced_port_is_recorded_in_the_cell() {
    let mut cell = ConfigCell::new(None);
    ViteProxyOptions::new().working_directory("/srv").build(&mut cell).unwrap();
    let step =
        on_read(ReaderState::Reading, ReadEvent::Line("  Local:   http://localhost:5173/\n".into()));
    assert_eq!(record_announcement(&mut cell, step.port), None);
    assert_eq!(cell.get().port, Some(5173));
    assert_eq!(cell.get().working_directory, "/srv");

    let step = on_read(ReaderState::Reading, ReadEvent::Line("page reload src/main.ts\n".into()));
    assert_eq!(record_announcement(&mut cell, step.port), None);
    assert_eq!(cell.get().port, Some(5173));

    cell.poison();
    let step =
        on_read(ReaderState::Reading, ReadEvent::Line("Local: http://localhost:6000/\n".into()));
    assert_eq!(step.state, ReaderState::Reading);
    assert_eq!(record_announcement(&mut cell, step.port), Some(LockError::PortUpdate));
    assert_eq!(record_announcement(&mut cell, None), None);
}
