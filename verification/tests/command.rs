use fiberpath_bridge::command::{
    derive_request, plan_wind, plot_preview, simulate_program, stream_program, temp_path,
    Operation, Request,
};
use std::path::PathBuf;

fn tmp() -> PathBuf {
    PathBuf::from("/tmp")
}

fn words(args: &[&str]) -> Vec<String> {
    args.iter().map(|word| word.to_string()).collect()
}

#[test]
fn plan_without_output_generates_one() {
    let spec = plan_wind("in.wind".to_string(), None, None, &tmp(), 1700000000123);
    assert_eq!(
        spec.args(),
        &words(&["plan", "in.wind", "--output", "/tmp/fiberpath-1700000000123.gcode", "--json"])
    );
    assert!(!spec.args().iter().any(|word| word == "--axis-format"));
    assert_eq!(spec.operation(), Operation::Plan);
    assert!(spec.json());
    assert_eq!(spec.artifact(), Some("/tmp/fiberpath-1700000000123.gcode".to_string()));
}

#[test]
fn plan_with_output_and_format_is_verbatim() {
    let spec = plan_wind(
        "in.wind".to_string(),
        Some("out dir/part.gcode".to_string()),
        Some("fmt".to_string()),
        &tmp(),
        5,
    );
    assert_eq!(
        spec.args(),
        &words(&["plan", "in.wind", "--output", "out dir/part.gcode", "--json", "--axis-format", "fmt"])
    );
    assert_eq!(spec.artifact(), Some("out dir/part.gcode".to_string()));
}

#[test]
fn plan_with_format_only() {
    let spec = plan_wind("a".to_string(), None, Some("xab".to_string()), &tmp(), 0);
    assert_eq!(
        spec.args(),
        &words(&["plan", "a", "--output", "/tmp/fiberpath-0.gcode", "--json", "--axis-format", "xab"])
    );
}

#[test]
fn simulate_asks_for_json() {
    let spec = simulate_program("part.gcode".to_string());
    assert_eq!(spec.args(), &words(&["simulate", "part.gcode", "--json"]));
    assert_eq!(spec.operation(), Operation::Simulate);
    assert!(spec.json());
    assert_eq!(spec.artifact(), None);
}

#[test]
fn preview_plots_to_a_generated_image() {
    let spec = plot_preview("part.gcode".to_string(), "0.5".to_string(), &tmp(), 42);
    assert_eq!(
        spec.args(),
        &words(&["plot", "part.gcode", "--output", "/tmp/fiberpath-42.png", "--scale", "0.5"])
    );
    assert_eq!(spec.operation(), Operation::Plot);
    assert!(!spec.json());
    assert_eq!(spec.artifact(), Some("/tmp/fiberpath-42.png".to_string()));
}

#[test]
fn stream_dry_run_wins_over_port() {
    for port in [None, Some("COM3".to_string()), Some("/dev/ttyUSB0".to_string())] {
        for rate in [0u32, 9600, 115200, u32::MAX] {
            let spec = stream_program("part.gcode".to_string(), port.clone(), rate, true);
            assert!(!spec.args().iter().any(|word| word == "--port"));
            assert_eq!(spec.args().iter().filter(|word| *word == "--dry-run").count(), 1);
            assert_eq!(
                spec.args(),
                &words(&["stream", "part.gcode", "--baud-rate", &rate.to_string(), "--json", "--dry-run"])
            );
        }
    }
}

#[test]
fn stream_to_port() {
    let spec = stream_program("part.gcode".to_string(), Some("COM3".to_string()), 115200, false);
    assert_eq!(
        spec.args(),
        &words(&["stream", "part.gcode", "--baud-rate", "115200", "--json", "--port", "COM3"])
    );
    assert_eq!(spec.operation(), Operation::Stream);
    assert!(spec.json());
}

#[test]
fn stream_without_port_or_dry_run() {
    let spec = stream_program("part.gcode".to_string(), None, 250000, false);
    assert_eq!(
        spec.args(),
        &words(&["stream", "part.gcode", "--baud-rate", "250000", "--json"])
    );
}

#[test]
fn temp_path_follows_the_pattern() {
    assert_eq!(temp_path(&tmp(), 1700000000123, "gcode"), "/tmp/fiberpath-1700000000123.gcode");
    assert_eq!(temp_path(&tmp(), 0, "png"), "/tmp/fiberpath-0.png");
    assert_eq!(
        temp_path(&PathBuf::from("/var/tmp/"), u128::MAX, "png"),
        "/var/tmp/fiberpath-340282366920938463463374607431768211455.png"
    );
}

#[test]
fn temp_paths_of_one_millisecond_collide() {
    let first = temp_path(&tmp(), 1700000000123, "gcode");
    let second = temp_path(&tmp(), 1700000000123, "gcode");
    assert_eq!(first, second);
    assert_ne!(first, temp_path(&tmp(), 1700000000124, "gcode"));
    assert_ne!(first, temp_path(&tmp(), 1700000000123, "png"));
}

#[test]
fn request_builds_the_same_command_as_the_entry_point() {
    let request = Request::Stream {
        path: "p".to_string(),
        port: Some("COM1".to_string()),
        baud_rate: 9600,
        dry_run: false,
    };
    let direct = stream_program("p".to_string(), Some("COM1".to_string()), 9600, false);
    assert_eq!(request.command().args(), direct.args());
}

#[test]
fn plan_round_trip() {
    let spec = plan_wind("in.wind".to_string(), Some("o.gcode".to_string()), Some("xab".to_string()), &tmp(), 1);
    match derive_request(spec.args()) {
        Some(Request::Plan { input, output, axis_format }) => {
            assert_eq!(input, "in.wind");
            assert_eq!(output, "o.gcode");
            assert_eq!(axis_format, Some("xab".to_string()));
        }
        other => panic!("expected a plan, got {:?}", other),
    }
    let spec = plan_wind("--json".to_string(), None, None, &tmp(), 77);
    match derive_request(spec.args()) {
        Some(Request::Plan { input, output, axis_format }) => {
            assert_eq!(input, "--json");
            assert_eq!(output, "/tmp/fiberpath-77.gcode");
            assert_eq!(axis_format, None);
        }
        other => panic!("expected a plan, got {:?}", other),
    }
}

#[test]
fn simulate_and_preview_round_trip() {
    let spec = simulate_program("part.gcode".to_string());
    assert!(matches!(derive_request(spec.args()), Some(Request::Simulate { path }) if path == "part.gcode"));
    let spec = plot_preview("part.gcode".to_string(), "1.5".to_string(), &tmp(), 9);
    match derive_request(spec.args()) {
        Some(Request::Preview { path, output, scale }) => {
            assert_eq!(path, "part.gcode");
            assert_eq!(output, "/tmp/fiberpath-9.png");
            assert_eq!(scale, "1.5");
        }
        other => panic!("expected a preview, got {:?}", other),
    }
}

#[test]
fn stream_round_trip() {
    for (port, dry_run) in [(None, false), (None, true), (Some("COM3".to_string()), false)] {
        for rate in [0u32, 7, 115200, u32::MAX] {
            let spec = stream_program("part.gcode".to_string(), port.clone(), rate, dry_run);
            match derive_request(spec.args()) {
                Some(Request::Stream { path, port: read_port, baud_rate, dry_run: read_dry }) => {
                    assert_eq!(path, "part.gcode");
                    assert_eq!(read_port, port);
                    assert_eq!(baud_rate, rate);
                    assert_eq!(read_dry, dry_run);
                }
                other => panic!("expected a stream, got {:?}", other),
            }
        }
    }
}

#[test]
fn dry_run_with_port_reads_back_without_port() {
    let spec = stream_program("p".to_string(), Some("COM3".to_string()), 9600, true);
    match derive_request(spec.args()) {
        Some(Request::Stream { port, dry_run, .. }) => {
            assert_eq!(port, None);
            assert!(dry_run);
        }
        other => panic!("expected a stream, got {:?}", other),
    }
}

#[test]
fn vectors_that_spell_no_request() {
    assert!(derive_request(&words(&[])).is_none());
    assert!(derive_request(&words(&["render", "p"])).is_none());
    assert!(derive_request(&words(&["plan", "a", "--output", "b"])).is_none());
    assert!(derive_request(&words(&["plan", "a", "--out", "b", "--json"])).is_none());
    assert!(derive_request(&words(&["plan", "a", "--output", "b", "--json", "--axis-format"])).is_none());
    assert!(derive_request(&words(&["simulate", "p"])).is_none());
    assert!(derive_request(&words(&["plot", "p", "--output", "o", "--scale"])).is_none());
    assert!(derive_request(&words(&["stream", "p", "--baud-rate", "0115200", "--json"])).is_none());
    assert!(derive_request(&words(&["stream", "p", "--baud-rate", "4294967296", "--json"])).is_none());
    assert!(derive_request(&words(&["stream", "p", "--baud-rate", "96oo", "--json"])).is_none());
    assert!(derive_request(&words(&["stream", "p", "--baud-rate", "9600", "--json", "--port"])).is_none());
    assert!(derive_request(&words(&["stream", "p", "--baud-rate", "9600", "--json", "--dry-run", "x"])).is_none());
}

#[test]
fn command_remembers_its_request() {
    let spec = stream_program("p".to_string(), Some("COM3".to_string()), 9600, false);
    match spec.request() {
        Request::Stream { path, port, baud_rate, dry_run } => {
            assert_eq!(path, "p");
            assert_eq!(port, Some("COM3".to_string()));
            assert_eq!(baud_rate, 9600);
            assert!(!dry_run);
        }
        other => panic!("expected a stream, got {:?}", other),
    }
    let spec = plan_wind("in.wind".to_string(), None, None, &tmp(), 3);
    let again = spec.request().command();
    assert_eq!(again.args(), spec.args());
    assert_eq!(again.operation(), spec.operation());
    assert_eq!(again.json(), spec.json());
    assert_eq!(again.artifact(), spec.artifact());
}
