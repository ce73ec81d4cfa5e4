use metropolis::load::{error_message, start, step, Entry, LoadAction, LoadEvent, LoadState};

fn yes() -> LoadEvent {
    LoadEvent::Answer { yes: true }
}

fn no() -> LoadEvent {
    LoadEvent::Answer { yes: false }
}

/// Runs the machine on the given events and describes each action.
fn run(events: Vec<LoadEvent>) -> Vec<String> {
    let (mut state, action) = start();
    let mut seen = vec![describe(&action)];
    for e in events {
        let (s, a) = step(state, e);
        state = s;
        seen.push(describe(&a));
    }
    seen
}

fn describe(a: &LoadAction) -> String {
    match a {
        LoadAction::LocateDirs => "locate".to_string(),
        LoadAction::CheckExists { entry } => format!("check {:?}", entry),
        LoadAction::CreateDir { entry } => format!("create {:?}", entry),
        LoadAction::WriteTemplate { entry } => format!("write {:?}", entry),
        LoadAction::ReadConfig => "read".to_string(),
        LoadAction::ParseConfig => "parse".to_string(),
        LoadAction::WriteErrorLog { message } => format!("log {}", message),
        LoadAction::PrintError { message } => format!("print {}", message),
        LoadAction::Pause { seconds } => format!("pause {}", seconds),
        LoadAction::Finish { use_parsed } => format!("finish {}", use_parsed),
    }
}

#[test]
fn no_config_directory_means_default() {
    assert_eq!(run(vec![no()]), vec!["locate", "finish false"]);
}

#[test]
fn existing_config_is_parsed_and_used() {
    assert_eq!(
        run(vec![yes(), yes(), yes(), yes(), yes(), yes()]),
        vec![
            "locate",
            "check ThemesDir",
            "check ThemeTemplate",
            "check ConfigFile",
            "read",
            "parse",
            "finish true"
        ]
    );
}

#[test]
fn first_run_creates_everything() {
    assert_eq!(
        run(vec![yes(), no(), LoadEvent::Done, no(), LoadEvent::Done, no(), no(), LoadEvent::Done, LoadEvent::Done]),
        vec![
            "locate",
            "check ThemesDir",
            "create ThemesDir",
            "check ThemeTemplate",
            "write ThemeTemplate",
            "check ConfigFile",
            "check ConfigDir",
            "create ConfigDir",
            "write ConfigFile",
            "finish false"
        ]
    );
}

#[test]
fn existing_config_dir_is_not_recreated() {
    let seen = run(vec![yes(), yes(), yes(), no(), yes(), LoadEvent::Done]);
    assert_eq!(seen[4..].to_vec(), vec!["check ConfigDir", "write ConfigFile", "finish false"]);
}

#[test]
fn unreadable_config_means_default() {
    let seen = run(vec![yes(), yes(), yes(), yes(), no()]);
    assert_eq!(seen.last().unwrap(), "finish false");
    assert!(!seen.iter().any(|s| s.starts_with("write")));
}

#[test]
fn parse_error_is_logged_printed_and_waited_on() {
    let seen = run(vec![
        yes(),
        yes(),
        yes(),
        yes(),
        yes(),
        LoadEvent::ParseFailed { error: "expected `=`".to_string() },
        LoadEvent::Done,
        LoadEvent::Done,
        LoadEvent::Done,
    ]);
    assert_eq!(
        seen[6..].to_vec(),
        vec![
            "log Error parsing config.toml: expected `=`\n",
            "print Error parsing config.toml: expected `=`\n",
            "pause 2",
            "finish false"
        ]
    );
}

#[test]
fn error_message_text() {
    assert_eq!(error_message("oops"), "Error parsing config.toml: oops\n");
    assert_eq!(error_message(""), "Error parsing config.toml: \n");
}

#[test]
fn config_never_overwritten_when_present() {
    // Whatever else the caller answers, once config.toml exists nothing writes it.
    for themes in [true, false] {
        for template in [true, false] {
            for read_ok in [true, false] {
                let mut events = vec![yes(), LoadEvent::Answer { yes: themes }];
                if !themes {
                    events.push(LoadEvent::Done);
                }
                events.push(LoadEvent::Answer { yes: template });
                if !template {
                    events.push(LoadEvent::Done);
                }
                events.push(yes());
                events.push(LoadEvent::Answer { yes: read_ok });
                if read_ok {
                    events.push(no());
                }
                let seen = run(events);
                assert!(!seen.contains(&"write ConfigFile".to_string()));
                assert!(seen.len() <= 15);
                assert_eq!(seen.last().unwrap(), "finish false");
            }
        }
    }
}

#[test]
fn entries_compare() {
    assert_ne!(Entry::ConfigDir, Entry::ConfigFile);
    let _ = LoadState::Locating;
}
