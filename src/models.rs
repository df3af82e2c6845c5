//! Plain data of the application: feedback records, projects and settings.

use vstd::prelude::*;
use vstd::string::StringExecFns;
use std::path::PathBuf;
use std::time::{Duration, SystemTime};

verus! {

#[verifier::external_type_specification]
#[verifier::external_body]
pub struct ExPathBuf(PathBuf);

#[verifier::external_type_specification]
#[verifier::external_body]
pub struct ExSystemTime(SystemTime);

pub assume_specification[ Duration::from_secs ](secs: u64) -> Duration;

/// Relies on std::time::SystemTime::now: the current system time.
#[verifier::external_body]
fn system_now() -> SystemTime {
    SystemTime::now()
}

/// A feedback record of one tool call.
pub struct Feedback {
    pub project_directory: PathBuf,
    pub summary: String,
    pub command_logs: String,
    pub interactive_feedback: String,
    pub conversation_history: String,
    pub timestamp: SystemTime,
    pub metadata: FeedbackMetadata,
}

/// Bookkeeping of a feedback record.
pub struct FeedbackMetadata {
    pub tool_name: String,
    pub execution_time: Duration,
    pub commands_executed: Vec<String>,
    pub user_interaction_time: Duration,
}

impl Default for FeedbackMetadata {
    fn default() -> (r: FeedbackMetadata)
        ensures
            r.tool_name@ == "interactive_feedback"@,
            r.commands_executed@.len() == 0,
    {
        FeedbackMetadata {
            tool_name: String::from_str("interactive_feedback"),
            execution_time: Duration::from_secs(0),
            commands_executed: Vec::new(),
            user_interaction_time: Duration::from_secs(0),
        }
    }
}

impl Feedback {
    /// A record for `project_directory` and `summary`, stamped now, with
    /// empty texts and no commands.
    pub fn new(project_directory: PathBuf, summary: String) -> (r: Feedback)
        ensures
            r.project_directory == project_directory,
            r.summary == summary,
            r.command_logs@.len() == 0,
            r.interactive_feedback@.len() == 0,
            r.conversation_history@.len() == 0,
            r.metadata.tool_name@ == "interactive_feedback"@,
            r.metadata.commands_executed@.len() == 0,
    {
        Feedback {
            project_directory,
            summary,
            command_logs: String::new(),
            interactive_feedback: String::new(),
            conversation_history: String::new(),
            timestamp: system_now(),
            metadata: FeedbackMetadata::default(),
        }
    }

    pub fn set_command_logs(&mut self, logs: String)
        ensures
            *final(self) == (Feedback { command_logs: logs, ..*old(self) }),
    {
        self.command_logs = logs;
    }

    pub fn set_interactive_feedback(&mut self, feedback: String)
        ensures
            *final(self) == (Feedback { interactive_feedback: feedback, ..*old(self) }),
    {
        self.interactive_feedback = feedback;
    }

    /// Appends `command` to the commands run.
    pub fn add_executed_command(&mut self, command: String)
        ensures
            final(self).metadata.commands_executed@ == old(
                self,
            ).metadata.commands_executed@.push(command),
            final(self).metadata.tool_name == old(self).metadata.tool_name,
            final(self).metadata.execution_time == old(self).metadata.execution_time,
            final(self).metadata.user_interaction_time == old(self).metadata.user_interaction_time,
            final(self).project_directory == old(self).project_directory,
            final(self).summary == old(self).summary,
            final(self).command_logs == old(self).command_logs,
            final(self).interactive_feedback == old(self).interactive_feedback,
            final(self).conversation_history == old(self).conversation_history,
            final(self).timestamp == old(self).timestamp,
    {
        self.metadata.commands_executed.push(command);
    }

    pub fn set_execution_time(&mut self, duration: Duration)
        ensures
            final(self).metadata == (FeedbackMetadata {
                execution_time: duration,
                ..old(self).metadata
            }),
            *final(self) == (Feedback { metadata: final(self).metadata, ..*old(self) }),
    {
        self.metadata.execution_time = duration;
    }

    pub fn set_user_interaction_time(&mut self, duration: Duration)
        ensures
            final(self).metadata == (FeedbackMetadata {
                user_interaction_time: duration,
                ..old(self).metadata
            }),
            *final(self) == (Feedback { metadata: final(self).metadata, ..*old(self) }),
    {
        self.metadata.user_interaction_time = duration;
    }

    pub fn set_conversation_history(&mut self, history: String)
        ensures
            *final(self) == (Feedback { conversation_history: history, ..*old(self) }),
    {
        self.conversation_history = history;
    }
}

/// A project the tool has been used for.
pub struct Project {
    pub directory: PathBuf,
    pub name: String,
    pub settings: ProjectSettings,
    pub metadata: ProjectMetadata,
}

/// Settings of one project.
pub struct ProjectSettings {
    pub auto_execute: bool,
    pub default_command: Option<String>,
    pub ui_state: UIState,
}

/// Window state kept for a project.
pub struct UIState {
    pub window_size: (u32, u32),
    pub window_position: (i32, i32),
    pub show_command_section: bool,
}

/// When a project was made and last used.
pub struct ProjectMetadata {
    pub created_at: SystemTime,
    pub last_accessed: SystemTime,
    pub version: String,
}

impl Default for ProjectSettings {
    fn default() -> (r: ProjectSettings)
        ensures
            !r.auto_execute,
            r.default_command is None,
            r.ui_state.window_size == (800u32, 600u32),
            r.ui_state.window_position == (100i32, 100i32),
            !r.ui_state.show_command_section,
    {
        ProjectSettings {
            auto_execute: false,
            default_command: None,
            ui_state: UIState {
                window_size: (800, 600),
                window_position: (100, 100),
                show_command_section: false,
            },
        }
    }
}

impl Default for ProjectMetadata {
    fn default() -> (r: ProjectMetadata)
        ensures
            r.version@ == "1.0.0"@,
    {
        ProjectMetadata {
            created_at: system_now(),
            last_accessed: system_now(),
            version: String::from_str("1.0.0"),
        }
    }
}

/// Settings of the whole application.
pub struct AppSettings {
    pub general: GeneralSettings,
    pub ui: UISettings,
    pub security: SecuritySettings,
    pub performance: PerformanceSettings,
}

pub struct GeneralSettings {
    pub log_level: LogLevel,
    pub timeout: Duration,
    pub auto_save: bool,
}

pub struct UISettings {
    pub theme: Theme,
    pub window_size: (u32, u32),
    pub window_position: (i32, i32),
    pub show_command_section: bool,
}

pub struct SecuritySettings {
    pub allowed_commands: Vec<String>,
    pub sandbox_mode: bool,
    pub max_process_time: Duration,
}

pub struct PerformanceSettings {
    pub max_memory_usage: usize,
    pub log_rotation_size: usize,
    pub cache_size: usize,
}

#[derive(Clone, Copy, Debug, PartialEq, Eq)]
pub enum LogLevel {
    Error,
    Warn,
    Info,
    Debug,
    Trace,
}

#[derive(Clone, Copy, Debug, PartialEq, Eq)]
pub enum Theme {
    Light,
    Dark,
    Auto,
}

/// Whether `r` holds the default settings (the two time limits aside).
pub open spec fn default_settings(r: AppSettings) -> bool {
    &&& r.general.log_level == LogLevel::Info
    &&& r.general.auto_save
    &&& r.ui.theme == Theme::Auto
    &&& r.ui.window_size == (800u32, 600u32)
    &&& r.ui.window_position == (100i32, 100i32)
    &&& !r.ui.show_command_section
    &&& r.security.allowed_commands@.len() == 0
    &&& r.security.sandbox_mode
    &&& r.performance.max_memory_usage == 100 * 1024 * 1024
    &&& r.performance.log_rotation_size == 10 * 1024 * 1024
    &&& r.performance.cache_size == 50 * 1024 * 1024
}

impl Default for AppSettings {
    /// Info logging with auto-save, the automatic theme in an 800x600 window
    /// at (100, 100), sandboxing with no allowed command, and 100, 10 and 50
    /// MiB of memory, log rotation and cache.
    fn default() -> (r: AppSettings)
        ensures
            default_settings(r),
    {
        AppSettings {
            general: GeneralSettings {
                log_level: LogLevel::Info,
                timeout: Duration::from_secs(300),
                auto_save: true,
            },
            ui: UISettings {
                theme: Theme::Auto,
                window_size: (800, 600),
                window_position: (100, 100),
                show_command_section: false,
            },
            security: SecuritySettings {
                allowed_commands: Vec::new(),
                sandbox_mode: true,
                max_process_time: Duration::from_secs(60),
            },
            performance: PerformanceSettings {
                max_memory_usage: 100 * 1024 * 1024,
                log_rotation_size: 10 * 1024 * 1024,
                cache_size: 50 * 1024 * 1024,
            },
        }
    }
}

/// Kinds of events of the publish/subscribe facility.
#[derive(Clone, Copy, Debug, PartialEq, Eq, Hash)]
pub enum EventType {
    ToolExecuted,
    ProcessSpawned,
    ProcessCompleted,
    SettingsChanged,
    ErrorOccurred,
    UIEvent,
}

/// The format that stored data is written in.
#[derive(Clone, Copy, Debug, PartialEq, Eq)]
pub enum SerializationFormat {
    Json,
    Toml,
    Yaml,
}

/// Writes and reads stored data in one format.
pub struct SerializationManager {
    pub format: SerializationFormat,
}

impl SerializationManager {
    pub fn new(format: SerializationFormat) -> (r: SerializationManager)
        ensures
            r.format == format,
    {
        SerializationManager { format }
    }
}

/// Relies on dirs::config_dir: the user's configuration folder, where the
/// platform has one.
#[verifier::external_body]
fn config_dir() -> Option<PathBuf> {
    dirs::config_dir()
}

/// Relies on std::path::Path::join: `base` with `part` appended.
#[verifier::external_body]
fn join_path(base: &PathBuf, part: &str) -> PathBuf {
    base.join(part)
}

/// Relies on std::path::PathBuf::from: the path that `s` names.
#[verifier::external_body]
fn path_of(s: &str) -> PathBuf {
    PathBuf::from(s)
}

/// The application settings and the file they are kept in.
pub struct SettingsManagerImpl {
    pub settings: AppSettings,
    pub settings_path: PathBuf,
}

impl SettingsManagerImpl {
    /// Default settings, kept in `ifm-ruta/settings.toml` under the user's
    /// configuration folder, or under the current folder where there is none.
    pub fn new() -> (r: SettingsManagerImpl)
        ensures
            default_settings(r.settings),
    {
        SettingsManagerImpl { settings: AppSettings::default(), settings_path: Self::get_settings_path() }
    }

    fn get_settings_path() -> PathBuf {
        let base = match config_dir() {
            Some(d) => d,
            None => path_of("."),
        };
        let dir = join_path(&base, "ifm-ruta");
        join_path(&dir, "settings.toml")
    }
}

} // verus!
