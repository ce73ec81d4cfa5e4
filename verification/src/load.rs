//! The decisions of loading the configuration: which file-system step comes
//! next, given what the previous step found.  The caller performs each
//! step and reports back; the machine never touches the file system itself.

use vstd::prelude::*;

verus! {

/// A place on disk that loading looks at or writes.
#[derive(PartialEq, Eq, Structural, Clone, Copy, Debug)]
pub enum Entry {
    /// The configuration directory.
    ConfigDir,
    /// The `themes` directory inside it.
    ThemesDir,
    /// `themes/template.toml`, the example theme.
    ThemeTemplate,
    /// `config.toml`, the user's configuration.
    ConfigFile,
}

/// Where loading stands.
pub enum LoadState {
    /// Asking the platform for the configuration directory.
    Locating,
    CheckingThemesDir,
    CreatingThemesDir,
    CheckingThemeTemplate,
    WritingThemeTemplate,
    CheckingConfigFile,
    ReadingConfig,
    ParsingConfig,
    /// Writing `message` to `error.log`.
    LoggingError { message: String },
    /// Printing `message` to standard error.
    PrintingError { message: String },
    /// Waiting so that the printed error can be read.
    Pausing,
    CheckingConfigDir,
    CreatingConfigDir,
    WritingConfigTemplate,
    /// Done: use the parsed configuration, or the default one.
    Finished { use_parsed: bool },
}

/// The next thing the caller does.
pub enum LoadAction {
    /// Find the configuration directory; answer whether there is one.
    LocateDirs,
    /// Answer whether the entry exists.
    CheckExists { entry: Entry },
    /// Create the directory with its parents, ignoring failure; answer done.
    CreateDir { entry: Entry },
    /// Write the built-in template to the entry, ignoring failure; answer done.
    WriteTemplate { entry: Entry },
    /// Read `config.toml`; answer whether that succeeded.
    ReadConfig,
    /// Parse what was read; answer whether it parsed, or the parser's error.
    ParseConfig,
    /// Write `message` to `error.log` beside `config.toml`, ignoring failure.
    WriteErrorLog { message: String },
    /// Print `message` on standard error.
    PrintError { message: String },
    /// Wait `seconds` seconds.
    Pause { seconds: u64 },
    /// Stop: return the parsed configuration, or the default one.
    Finish { use_parsed: bool },
}

/// What the caller reports after performing an action.
pub enum LoadEvent {
    /// The answer to a question: found, exists, read, parsed.
    Answer { yes: bool },
    /// The configuration did not parse; `error` is the parser's message.
    ParseFailed { error: String },
    /// A step whose outcome does not matter has been done.
    Done,
}

/// `LoadState` with its messages as character sequences.
pub enum LoadStateView {
    Locating,
    CheckingThemesDir,
    CreatingThemesDir,
    CheckingThemeTemplate,
    WritingThemeTemplate,
    CheckingConfigFile,
    ReadingConfig,
    ParsingConfig,
    LoggingError { message: Seq<char> },
    PrintingError { message: Seq<char> },
    Pausing,
    CheckingConfigDir,
    CreatingConfigDir,
    WritingConfigTemplate,
    Finished { use_parsed: bool },
}

/// `LoadAction` with its messages as character sequences.
pub enum LoadActionView {
    LocateDirs,
    CheckExists { entry: Entry },
    CreateDir { entry: Entry },
    WriteTemplate { entry: Entry },
    ReadConfig,
    ParseConfig,
    WriteErrorLog { message: Seq<char> },
    PrintError { message: Seq<char> },
    Pause { seconds: u64 },
    Finish { use_parsed: bool },
}

/// `LoadEvent` with its message as a character sequence.
pub enum LoadEventView {
    Answer { yes: bool },
    ParseFailed { error: Seq<char> },
    Done,
}

impl View for LoadState {
    type V = LoadStateView;

    open spec fn view(&self) -> LoadStateView {
        match self {
            LoadState::Locating => LoadStateView::Locating,
            LoadState::CheckingThemesDir => LoadStateView::CheckingThemesDir,
            LoadState::CreatingThemesDir => LoadStateView::CreatingThemesDir,
            LoadState::CheckingThemeTemplate => LoadStateView::CheckingThemeTemplate,
            LoadState::WritingThemeTemplate => LoadStateView::WritingThemeTemplate,
            LoadState::CheckingConfigFile => LoadStateView::CheckingConfigFile,
            LoadState::ReadingConfig => LoadStateView::ReadingConfig,
            LoadState::ParsingConfig => LoadStateView::ParsingConfig,
            LoadState::LoggingError { message } => LoadStateView::LoggingError { message: message@ },
            LoadState::PrintingError { message } => LoadStateView::PrintingError { message: message@ },
            LoadState::Pausing => LoadStateView::Pausing,
            LoadState::CheckingConfigDir => LoadStateView::CheckingConfigDir,
            LoadState::CreatingConfigDir => LoadStateView::CreatingConfigDir,
            LoadState::WritingConfigTemplate => LoadStateView::WritingConfigTemplate,
            LoadState::Finished { use_parsed } => LoadStateView::Finished { use_parsed: *use_parsed },
        }
    }
}

impl View for LoadAction {
    type V = LoadActionView;

    open spec fn view(&self) -> LoadActionView {
        match self {
            LoadAction::LocateDirs => LoadActionView::LocateDirs,
            LoadAction::CheckExists { entry } => LoadActionView::CheckExists { entry: *entry },
            LoadAction::CreateDir { entry } => LoadActionView::CreateDir { entry: *entry },
            LoadAction::WriteTemplate { entry } => LoadActionView::WriteTemplate { entry: *entry },
            LoadAction::ReadConfig => LoadActionView::ReadConfig,
            LoadAction::ParseConfig => LoadActionView::ParseConfig,
            LoadAction::WriteErrorLog { message } => LoadActionView::WriteErrorLog { message: message@ },
            LoadAction::PrintError { message } => LoadActionView::PrintError { message: message@ },
            LoadAction::Pause { seconds } => LoadActionView::Pause { seconds: *seconds },
            LoadAction::Finish { use_parsed } => LoadActionView::Finish { use_parsed: *use_parsed },
        }
    }
}

impl View for LoadEvent {
    type V = LoadEventView;

    open spec fn view(&self) -> LoadEventView {
        match self {
            LoadEvent::Answer { yes } => LoadEventView::Answer { yes: *yes },
            LoadEvent::ParseFailed { error } => LoadEventView::ParseFailed { error: error@ },
            LoadEvent::Done => LoadEventView::Done,
        }
    }
}

/// The text logged and printed when `config.toml` does not parse.
pub open spec fn error_message_spec(error: Seq<char>) -> Seq<char> {
    "Error parsing config.toml: "@ + error + "\n"@
}

/// The text logged and printed when `config.toml` does not parse with
/// the parser's message `error`.
pub fn error_message(error: &str) -> (message: String)
    ensures
        message@ == error_message_spec(error@),
{
    String::from_str("Error parsing config.toml: ").concat(error).concat("\n")
}

/// The event is a fitting answer to the action of state `s`.
pub open spec fn fits(s: LoadStateView, e: LoadEventView) -> bool {
    match s {
        LoadStateView::Finished { .. } => false,
        LoadStateView::ParsingConfig => e is Answer || e is ParseFailed,
        LoadStateView::Locating
        | LoadStateView::CheckingThemesDir
        | LoadStateView::CheckingThemeTemplate
        | LoadStateView::CheckingConfigFile
        | LoadStateView::CheckingConfigDir
        | LoadStateView::ReadingConfig => e is Answer,
        _ => e is Done,
    }
}

/// The state after `s` on the event `e`.
pub open spec fn step_spec(s: LoadStateView, e: LoadEventView) -> LoadStateView {
    match s {
        LoadStateView::Locating => if e == (LoadEventView::Answer { yes: true }) {
            LoadStateView::CheckingThemesDir
        } else {
            LoadStateView::Finished { use_parsed: false }
        },
        LoadStateView::CheckingThemesDir => if e == (LoadEventView::Answer { yes: true }) {
            LoadStateView::CheckingThemeTemplate
        } else {
            LoadStateView::CreatingThemesDir
        },
        LoadStateView::CreatingThemesDir => LoadStateView::CheckingThemeTemplate,
        LoadStateView::CheckingThemeTemplate => if e == (LoadEventView::Answer { yes: true }) {
            LoadStateView::CheckingConfigFile
        } else {
            LoadStateView::WritingThemeTemplate
        },
        LoadStateView::WritingThemeTemplate => LoadStateView::CheckingConfigFile,
        LoadStateView::CheckingConfigFile => if e == (LoadEventView::Answer { yes: true }) {
            LoadStateView::ReadingConfig
        } else {
            LoadStateView::CheckingConfigDir
        },
        LoadStateView::ReadingConfig => if e == (LoadEventView::Answer { yes: true }) {
            LoadStateView::ParsingConfig
        } else {
            LoadStateView::Finished { use_parsed: false }
        },
        LoadStateView::ParsingConfig => match e {
            LoadEventView::ParseFailed { error } => LoadStateView::LoggingError {
                message: error_message_spec(error),
            },
            LoadEventView::Answer { yes } => if yes {
                LoadStateView::Finished { use_parsed: true }
            } else {
                LoadStateView::Finished { use_parsed: false }
            },
            LoadEventView::Done => LoadStateView::Finished { use_parsed: false },
        },
        LoadStateView::LoggingError { message } => LoadStateView::PrintingError { message },
        LoadStateView::PrintingError { .. } => LoadStateView::Pausing,
        LoadStateView::Pausing => LoadStateView::Finished { use_parsed: false },
        LoadStateView::CheckingConfigDir => if e == (LoadEventView::Answer { yes: true }) {
            LoadStateView::WritingConfigTemplate
        } else {
            LoadStateView::CreatingConfigDir
        },
        LoadStateView::CreatingConfigDir => LoadStateView::WritingConfigTemplate,
        LoadStateView::WritingConfigTemplate => LoadStateView::Finished { use_parsed: false },
        LoadStateView::Finished { use_parsed } => LoadStateView::Finished { use_parsed },
    }
}

/// The action that state `s` asks of the caller.
pub open spec fn action_spec(s: LoadStateView) -> LoadActionView {
    match s {
        LoadStateView::Locating => LoadActionView::LocateDirs,
        LoadStateView::CheckingThemesDir => LoadActionView::CheckExists { entry: Entry::ThemesDir },
        LoadStateView::CreatingThemesDir => LoadActionView::CreateDir { entry: Entry::ThemesDir },
        LoadStateView::CheckingThemeTemplate => LoadActionView::CheckExists { entry: Entry::ThemeTemplate },
        LoadStateView::WritingThemeTemplate => LoadActionView::WriteTemplate { entry: Entry::ThemeTemplate },
        LoadStateView::CheckingConfigFile => LoadActionView::CheckExists { entry: Entry::ConfigFile },
        LoadStateView::ReadingConfig => LoadActionView::ReadConfig,
        LoadStateView::ParsingConfig => LoadActionView::ParseConfig,
        LoadStateView::LoggingError { message } => LoadActionView::WriteErrorLog { message },
        LoadStateView::PrintingError { message } => LoadActionView::PrintError { message },
        LoadStateView::Pausing => LoadActionView::Pause { seconds: 2 },
        LoadStateView::CheckingConfigDir => LoadActionView::CheckExists { entry: Entry::ConfigDir },
        LoadStateView::CreatingConfigDir => LoadActionView::CreateDir { entry: Entry::ConfigDir },
        LoadStateView::WritingConfigTemplate => LoadActionView::WriteTemplate { entry: Entry::ConfigFile },
        LoadStateView::Finished { use_parsed } => LoadActionView::Finish { use_parsed },
    }
}

/// The first state of loading and its action.
pub fn start() -> (first: (LoadState, LoadAction))
    ensures
        first.0@ == LoadStateView::Locating,
        first.1@ == action_spec(first.0@),
{
    (LoadState::Locating, LoadAction::LocateDirs)
}

fn is_yes(event: &LoadEvent) -> (yes: bool)
    ensures
        yes == (event@ == (LoadEventView::Answer { yes: true })),
{
    match event {
        LoadEvent::Answer { yes } => *yes,
        _ => false,
    }
}

/// The action of a state.
fn action_of(state: &LoadState) -> (action: LoadAction)
    ensures
        action@ == action_spec(state@),
{
    match state {
        LoadState::Locating => LoadAction::LocateDirs,
        LoadState::CheckingThemesDir => LoadAction::CheckExists { entry: Entry::ThemesDir },
        LoadState::CreatingThemesDir => LoadAction::CreateDir { entry: Entry::ThemesDir },
        LoadState::CheckingThemeTemplate => LoadAction::CheckExists { entry: Entry::ThemeTemplate },
        LoadState::WritingThemeTemplate => LoadAction::WriteTemplate { entry: Entry::ThemeTemplate },
        LoadState::CheckingConfigFile => LoadAction::CheckExists { entry: Entry::ConfigFile },
        LoadState::ReadingConfig => LoadAction::ReadConfig,
        LoadState::ParsingConfig => LoadAction::ParseConfig,
        LoadState::LoggingError { message } => LoadAction::WriteErrorLog { message: message.clone() },
        LoadState::PrintingError { message } => LoadAction::PrintError { message: message.clone() },
        LoadState::Pausing => LoadAction::Pause { seconds: 2 },
        LoadState::CheckingConfigDir => LoadAction::CheckExists { entry: Entry::ConfigDir },
        LoadState::CreatingConfigDir => LoadAction::CreateDir { entry: Entry::ConfigDir },
        LoadState::WritingConfigTemplate => LoadAction::WriteTemplate { entry: Entry::ConfigFile },
        LoadState::Finished { use_parsed } => LoadAction::Finish { use_parsed: *use_parsed },
    }
}

/// One decision: the state that follows `state` on `event`, and the action
/// that state asks for.
pub fn step(state: LoadState, event: LoadEvent) -> (next: (LoadState, LoadAction))
    requires
        fits(state@, event@),
    ensures
        next.0@ == step_spec(state@, event@),
        next.1@ == action_spec(next.0@),
{
    let yes = is_yes(&event);
    let next_state = match state {
        LoadState::Locating => if yes {
            LoadState::CheckingThemesDir
        } else {
            LoadState::Finished { use_parsed: false }
        },
        LoadState::CheckingThemesDir => if yes {
            LoadState::CheckingThemeTemplate
        } else {
            LoadState::CreatingThemesDir
        },
        LoadState::CreatingThemesDir => LoadState::CheckingThemeTemplate,
        LoadState::CheckingThemeTemplate => if yes {
            LoadState::CheckingConfigFile
        } else {
            LoadState::WritingThemeTemplate
        },
        LoadState::WritingThemeTemplate => LoadState::CheckingConfigFile,
        LoadState::CheckingConfigFile => if yes {
            LoadState::ReadingConfig
        } else {
            LoadState::CheckingConfigDir
        },
        LoadState::ReadingConfig => if yes {
            LoadState::ParsingConfig
        } else {
            LoadState::Finished { use_parsed: false }
        },
        LoadState::ParsingConfig => match event {
            LoadEvent::ParseFailed { error } => LoadState::LoggingError {
                message: error_message(error.as_str()),
            },
            _ => LoadState::Finished { use_parsed: yes },
        },
        LoadState::LoggingError { message } => LoadState::PrintingError { message },
        LoadState::PrintingError { .. } => LoadState::Pausing,
        LoadState::Pausing => LoadState::Finished { use_parsed: false },
        LoadState::CheckingConfigDir => if yes {
            LoadState::WritingConfigTemplate
        } else {
            LoadState::CreatingConfigDir
        },
        LoadState::CreatingConfigDir => LoadState::WritingConfigTemplate,
        LoadState::WritingConfigTemplate => LoadState::Finished { use_parsed: false },
        LoadState::Finished { use_parsed } => LoadState::Finished { use_parsed },
    };
    let action = action_of(&next_state);
    (next_state, action)
}

/// How many more decisions at most follow state `s`.
pub open spec fn steps_left(s: LoadStateView) -> int {
    match s {
        LoadStateView::Locating => 14,
        LoadStateView::CheckingThemesDir => 13,
        LoadStateView::CreatingThemesDir => 12,
        LoadStateView::CheckingThemeTemplate => 11,
        LoadStateView::WritingThemeTemplate => 10,
        LoadStateView::CheckingConfigFile => 9,
        LoadStateView::ReadingConfig => 8,
        LoadStateView::ParsingConfig => 7,
        LoadStateView::LoggingError { .. } => 6,
        LoadStateView::PrintingError { .. } => 5,
        LoadStateView::Pausing => 4,
        LoadStateView::CheckingConfigDir => 3,
        LoadStateView::CreatingConfigDir => 2,
        LoadStateView::WritingConfigTemplate => 1,
        LoadStateView::Finished { .. } => 0,
    }
}

/// `states` is what loading goes through when the caller reports `events`:
/// it starts by locating the directories and each state follows from the
/// one before on a fitting event.
pub open spec fn valid_run(states: Seq<LoadStateView>, events: Seq<LoadEventView>) -> bool {
    &&& states.len() == events.len() + 1
    &&& states[0] == LoadStateView::Locating
    &&& forall|k: int|
        0 <= k < events.len() ==> fits(states[k], events[k]) && #[trigger] states[k + 1]
            == step_spec(states[k], events[k])
}

proof fn lemma_step_at(states: Seq<LoadStateView>, events: Seq<LoadEventView>, k: int)
    requires
        valid_run(states, events),
        0 <= k < events.len(),
    ensures
        fits(states[k], events[k]),
        states[k + 1] == step_spec(states[k], events[k]),
{
    assert(fits(states[k], events[k]) && states[k + 1] == step_spec(states[k], events[k]));
}

proof fn lemma_steps_left_bound(states: Seq<LoadStateView>, events: Seq<LoadEventView>, k: int)
    requires
        valid_run(states, events),
        0 <= k < states.len(),
    ensures
        steps_left(states[k]) + k <= 14,
    decreases k,
{
    if k > 0 {
        lemma_steps_left_bound(states, events, k - 1);
        lemma_step_at(states, events, k - 1);
    }
}

/// Loading always comes to an end: whatever the caller reports, at most 14
/// decisions are taken, and a run can go on only while it has not finished.
pub proof fn lemma_loading_terminates(states: Seq<LoadStateView>, events: Seq<LoadEventView>)
    requires
        valid_run(states, events),
    ensures
        events.len() <= 14,
        forall|k: int| 0 <= k < events.len() ==> !(#[trigger] states[k] is Finished),
{
    lemma_steps_left_bound(states, events, states.len() - 1);
    assert forall|k: int| 0 <= k < events.len() implies !(#[trigger] states[k] is Finished) by {
        lemma_step_at(states, events, k);
    }
}

/// An existing `config.toml` is never overwritten, nor an existing theme
/// template: the built-in template is written to either only after the
/// caller answered that it does not exist.
pub proof fn lemma_never_overwrites(states: Seq<LoadStateView>, events: Seq<LoadEventView>)
    requires
        valid_run(states, events),
    ensures
        forall|k: int|
            0 <= k < states.len() && #[trigger] action_spec(states[k]) == (LoadActionView::WriteTemplate {
                entry: Entry::ConfigFile,
            }) ==> exists|j: int|
                0 <= j < k && action_spec(states[j]) == (LoadActionView::CheckExists {
                    entry: Entry::ConfigFile,
                }) && #[trigger] events[j] == (LoadEventView::Answer { yes: false }),
        forall|k: int|
            0 <= k < states.len() && #[trigger] action_spec(states[k]) == (LoadActionView::WriteTemplate {
                entry: Entry::ThemeTemplate,
            }) ==> exists|j: int|
                0 <= j < k && action_spec(states[j]) == (LoadActionView::CheckExists {
                    entry: Entry::ThemeTemplate,
                }) && #[trigger] events[j] == (LoadEventView::Answer { yes: false }),
{
    assert forall|k: int|
        0 <= k < states.len() && #[trigger] action_spec(states[k]) == (LoadActionView::WriteTemplate {
            entry: Entry::ConfigFile,
        }) implies exists|j: int|
        0 <= j < k && action_spec(states[j]) == (LoadActionView::CheckExists {
            entry: Entry::ConfigFile,
        }) && #[trigger] events[j] == (LoadEventView::Answer { yes: false }) by {
        assert(states[k] == LoadStateView::WritingConfigTemplate);
        lemma_step_at(states, events, k - 1);
        if states[k - 1] == LoadStateView::CreatingConfigDir {
            lemma_step_at(states, events, k - 2);
            assert(states[k - 2] == LoadStateView::CheckingConfigDir);
            lemma_step_at(states, events, k - 3);
            assert(events[k - 3] == (LoadEventView::Answer { yes: false }));
        } else {
            assert(states[k - 1] == LoadStateView::CheckingConfigDir);
            lemma_step_at(states, events, k - 2);
            assert(events[k - 2] == (LoadEventView::Answer { yes: false }));
        }
    }
    assert forall|k: int|
        0 <= k < states.len() && #[trigger] action_spec(states[k]) == (LoadActionView::WriteTemplate {
            entry: Entry::ThemeTemplate,
        }) implies exists|j: int|
        0 <= j < k && action_spec(states[j]) == (LoadActionView::CheckExists {
            entry: Entry::ThemeTemplate,
        }) && #[trigger] events[j] == (LoadEventView::Answer { yes: false }) by {
        assert(states[k] == LoadStateView::WritingThemeTemplate);
        lemma_step_at(states, events, k - 1);
        assert(events[k - 1] == (LoadEventView::Answer { yes: false }));
    }
}

/// The parsed configuration is used only when `config.toml` existed, was
/// read, and parsed; in every other run loading ends with the default.
pub proof fn lemma_parsed_only_after_parse(states: Seq<LoadStateView>, events: Seq<LoadEventView>)
    requires
        valid_run(states, events),
    ensures
        forall|k: int|
            0 <= k < states.len() && #[trigger] states[k] == (LoadStateView::Finished { use_parsed: true })
                ==> k >= 3 && states[k - 1] == LoadStateView::ParsingConfig && events[k - 1]
                == (LoadEventView::Answer { yes: true }) && states[k - 2] == LoadStateView::ReadingConfig
                && events[k - 2] == (LoadEventView::Answer { yes: true }) && states[k - 3]
                == LoadStateView::CheckingConfigFile && events[k - 3] == (LoadEventView::Answer {
                yes: true,
            }),
{
    assert forall|k: int|
        0 <= k < states.len() && #[trigger] states[k] == (LoadStateView::Finished { use_parsed: true })
            implies k >= 3 && states[k - 1] == LoadStateView::ParsingConfig && events[k - 1]
            == (LoadEventView::Answer { yes: true }) && states[k - 2] == LoadStateView::ReadingConfig
            && events[k - 2] == (LoadEventView::Answer { yes: true }) && states[k - 3]
            == LoadStateView::CheckingConfigFile && events[k - 3] == (LoadEventView::Answer {
            yes: true,
        }) by {
        assert(k > 0);
        lemma_step_at(states, events, k - 1);
        assert(states[k - 1] == LoadStateView::ParsingConfig);
        lemma_step_at(states, events, k - 2);
        lemma_step_at(states, events, k - 3);
    }
}

/// A configuration that does not parse is reported, never silently dropped:
/// the error, prefixed and ended by a newline, is written to `error.log`,
/// then printed, then loading waits two seconds and ends with the default.
pub proof fn lemma_parse_error_reported(error: Seq<char>)
    ensures
        ({
            let s1 = step_spec(LoadStateView::ParsingConfig, LoadEventView::ParseFailed { error });
            let s2 = step_spec(s1, LoadEventView::Done);
            let s3 = step_spec(s2, LoadEventView::Done);
            let s4 = step_spec(s3, LoadEventView::Done);
            &&& action_spec(s1) == (LoadActionView::WriteErrorLog { message: error_message_spec(error) })
            &&& action_spec(s2) == (LoadActionView::PrintError { message: error_message_spec(error) })
            &&& action_spec(s3) == (LoadActionView::Pause { seconds: 2 })
            &&& s4 == (LoadStateView::Finished { use_parsed: false })
        }),
{
}

} // verus!
