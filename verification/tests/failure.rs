use sigma_input::failure::{Failure, Invocation};

fn args(words: &[&str]) -> Vec<String> {
    words.iter().map(|w| w.to_string()).collect()
}

#[test]
fn two_arguments_are_device_and_log() {
    let parsed = Invocation::parse(&args(&["monitor", "/dev/input/event3", "/tmp/keys.log"]));
    assert_eq!(
        parsed,
        Ok(Invocation { device: "/dev/input/event3".to_string(), log: "/tmp/keys.log".to_string() })
    );
}

#[test]
fn missing_arguments_are_a_usage_failure() {
    assert_eq!(
        Invocation::parse(&args(&["monitor"])),
        Err(Failure::Usage { program: "monitor".to_string() })
    );
    assert_eq!(
        Invocation::parse(&args(&["monitor", "/dev/input/event3"])),
        Err(Failure::Usage { program: "monitor".to_string() })
    );
}

#[test]
fn extra_arguments_are_a_usage_failure() {
    assert_eq!(
        Invocation::parse(&args(&["monitor", "a", "b", "c"])),
        Err(Failure::Usage { program: "monitor".to_string() })
    );
}

#[test]
fn no_arguments_at_all_are_a_usage_failure() {
    assert_eq!(Invocation::parse(&Vec::new()), Err(Failure::Usage { program: String::new() }));
}

#[test]
fn usage_names_the_program_and_how_to_find_the_device() {
    let failure = Failure::Usage { program: "monitor".to_string() };
    assert_eq!(
        failure.diagnostic(),
        vec![
            "Usage: monitor /dev/input/eventN <log file>".to_string(),
            "Find the correct device with `sudo evtest` or `cat /proc/bus/input/devices`."
                .to_string(),
        ]
    );
    assert!(failure.is_fatal());
    assert_eq!(failure.exit_status(), Some(1));
}

#[test]
fn missing_device_names_the_path() {
    let failure = Failure::DeviceMissing { path: "/dev/input/event9".to_string() };
    assert_eq!(failure.diagnostic(), vec!["Device /dev/input/event9 does not exist.".to_string()]);
    assert!(failure.is_fatal());
    assert_eq!(failure.exit_status(), Some(1));
}

#[test]
fn failed_open_names_path_and_cause() {
    let failure = Failure::DeviceOpen {
        path: "/dev/input/event3".to_string(),
        cause: "Permission denied (os error 13)".to_string(),
    };
    assert_eq!(
        failure.diagnostic(),
        vec!["Failed to open /dev/input/event3: Permission denied (os error 13). Are you root or have device access?"
            .to_string()]
    );
    assert!(failure.is_fatal());
    assert_eq!(failure.exit_status(), Some(1));
}

#[test]
fn failed_read_reports_its_cause() {
    let failure = Failure::Read { cause: "No such device (os error 19)".to_string() };
    assert_eq!(failure.diagnostic(), vec!["No such device (os error 19)".to_string()]);
    assert!(failure.is_fatal());
    assert_eq!(failure.exit_status(), Some(1));
}

#[test]
fn lost_log_line_is_silent_and_not_fatal() {
    let failure = Failure::LogWrite;
    assert_eq!(failure.diagnostic().len(), 0);
    assert!(!failure.is_fatal());
    assert_eq!(failure.exit_status(), None);
}
