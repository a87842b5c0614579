//! Application settings, their defaults and version migration, and where
//! the settings and logs live.

use vstd::prelude::*;

verus! {

/// The settings format this build writes.
pub const CONFIG_VERSION: u32 = 2;

/// General behaviour.
#[derive(Debug, Clone)]
pub struct GeneralConfig {
    pub auto_start: bool,
    pub start_minimized: bool,
    pub prefer_stereo: bool,
    /// Poll cadence of the monitor, in milliseconds.
    pub poll_interval_ms: u32,
    /// Locale override; `None` follows the system.
    pub language: Option<String>,
}

/// Which notifications are shown.
#[derive(Debug, Clone)]
pub struct NotificationConfig {
    pub notify_mode_change: bool,
    pub notify_mic_usage: bool,
    pub notify_errors: bool,
    pub notify_updates: bool,
}

/// Log settings as stored.
#[derive(Debug, Clone)]
pub struct LoggingConfig {
    pub level: String,
    pub max_file_size: u64,
    pub max_files: u32,
}

/// Update-check settings.
#[derive(Debug, Clone)]
pub struct UpdateConfig {
    pub auto_check: bool,
    pub check_interval_hours: u32,
    /// Unix time of the last check.
    pub last_check: u64,
    pub skipped_version: Option<String>,
}

/// All settings.
#[derive(Debug, Clone)]
pub struct AppConfig {
    pub config_version: u32,
    pub general: GeneralConfig,
    pub notifications: NotificationConfig,
    pub logging: LoggingConfig,
    pub updates: UpdateConfig,
}

/// The version a stored file without one is read as.
pub fn default_version() -> (r: u32)
    ensures
        r == CONFIG_VERSION,
{
    CONFIG_VERSION
}

pub fn default_true() -> (r: bool)
    ensures
        r,
{
    true
}

pub fn default_poll_interval() -> (r: u32)
    ensures
        r == 500,
{
    500
}

pub fn default_log_level() -> (r: String)
    ensures
        r@ == "info"@,
{
    String::from_str("info")
}

pub fn default_max_log_size() -> (r: u64)
    ensures
        r == 5 * 1024 * 1024,
{
    5 * 1024 * 1024
}

pub fn default_max_log_files() -> (r: u32)
    ensures
        r == 3,
{
    3
}

pub fn default_check_interval() -> (r: u32)
    ensures
        r == 24,
{
    24
}

impl Default for GeneralConfig {
    fn default() -> (r: Self)
        ensures
            !r.auto_start,
            r.start_minimized,
            !r.prefer_stereo,
            r.poll_interval_ms == 500,
            r.language is None,
    {
        GeneralConfig {
            auto_start: false,
            start_minimized: true,
            prefer_stereo: false,
            poll_interval_ms: default_poll_interval(),
            language: None,
        }
    }
}

impl Default for NotificationConfig {
    fn default() -> (r: Self)
        ensures
            r.notify_mode_change,
            r.notify_mic_usage,
            r.notify_errors,
            r.notify_updates,
    {
        NotificationConfig {
            notify_mode_change: true,
            notify_mic_usage: true,
            notify_errors: true,
            notify_updates: true,
        }
    }
}

impl Default for LoggingConfig {
    fn default() -> (r: Self)
        ensures
            r.level@ == "info"@,
            r.max_file_size == 5 * 1024 * 1024,
            r.max_files == 3,
    {
        LoggingConfig {
            level: default_log_level(),
            max_file_size: default_max_log_size(),
            max_files: default_max_log_files(),
        }
    }
}

impl Default for UpdateConfig {
    fn default() -> (r: Self)
        ensures
            r.auto_check,
            r.check_interval_hours == 24,
            r.last_check == 0,
            r.skipped_version is None,
    {
        UpdateConfig {
            auto_check: true,
            check_interval_hours: default_check_interval(),
            last_check: 0,
            skipped_version: None,
        }
    }
}

impl Default for AppConfig {
    fn default() -> (r: Self)
        ensures
            r.config_version == CONFIG_VERSION,
            !r.general.auto_start,
            r.general.start_minimized,
            !r.general.prefer_stereo,
            r.general.poll_interval_ms == 500,
            r.general.language is None,
            r.notifications.notify_mode_change,
            r.notifications.notify_mic_usage,
            r.notifications.notify_errors,
            r.notifications.notify_updates,
            r.logging.level@ == "info"@,
            r.logging.max_file_size == 5 * 1024 * 1024,
            r.logging.max_files == 3,
            r.updates.auto_check,
            r.updates.check_interval_hours == 24,
            r.updates.last_check == 0,
            r.updates.skipped_version is None,
    {
        AppConfig {
            config_version: CONFIG_VERSION,
            general: GeneralConfig::default(),
            notifications: NotificationConfig::default(),
            logging: LoggingConfig::default(),
            updates: UpdateConfig::default(),
        }
    }
}

impl AppConfig {
    /// Brings settings read from an older format up to this one. Fields added
    /// since were filled with their defaults when read, so only the version moves.
    pub fn migrate(&mut self)
        ensures
            final(self).config_version == (if old(self).config_version < CONFIG_VERSION {
                CONFIG_VERSION
            } else {
                old(self).config_version
            }),
            final(self).general.auto_start == old(self).general.auto_start,
            final(self).general.start_minimized == old(self).general.start_minimized,
            final(self).general.prefer_stereo == old(self).general.prefer_stereo,
            final(self).general.poll_interval_ms == old(self).general.poll_interval_ms,
            final(self).general.language == old(self).general.language,
            final(self).notifications == old(self).notifications,
            final(self).logging == old(self).logging,
            final(self).updates == old(self).updates,
    {
        if self.config_version < CONFIG_VERSION {
            self.config_version = CONFIG_VERSION;
        }
    }
}

/// The position of the last path separator (`\` or `/`), if any.
pub open spec fn last_separator(p: Seq<char>) -> Option<int>
    decreases p.len(),
{
    if p.len() == 0 {
        None
    } else if p.last() == '\\' || p.last() == '/' {
        Some(p.len() - 1)
    } else {
        last_separator(p.drop_last())
    }
}

/// The directory part of a path: everything before its last separator.
pub open spec fn parent_of(p: Seq<char>) -> Seq<char> {
    match last_separator(p) {
        Some(i) => p.subrange(0, i),
        None => Seq::empty(),
    }
}

/// Where the settings file is, and whether the install is portable.
#[derive(Debug, Clone)]
pub struct ConfigManager {
    pub config_path: String,
    pub is_portable: bool,
}

impl ConfigManager {
    /// A manager for a settings file found at `config_path`.
    pub fn new(config_path: String, is_portable: bool) -> (r: Self)
        ensures
            r.config_path == config_path,
            r.is_portable == is_portable,
    {
        ConfigManager { config_path, is_portable }
    }

    pub fn is_portable(&self) -> (r: bool)
        ensures
            r == self.is_portable,
    {
        self.is_portable
    }

    pub fn config_path(&self) -> (r: &String)
        ensures
            r == &self.config_path,
    {
        &self.config_path
    }

    /// The log directory: a `logs` folder beside a portable install's
    /// settings, else the settings folder itself.
    pub fn log_dir(&self) -> (r: String)
        ensures
            r@ == (if self.is_portable {
                parent_of(self.config_path@) + "\\logs"@
            } else {
                parent_of(self.config_path@)
            }),
    {
        let p = self.config_path.as_str();
        let n = p.unicode_len();
        let mut i: usize = n;
        let mut found = false;
        proof {
            assert(p@.subrange(0, n as int) =~= p@);
        }
        while i > 0 && !found
            invariant
                n == p@.len(),
                i <= n,
                last_separator(p@) == last_separator(p@.subrange(0, i as int)),
                found ==> i > 0 && last_separator(p@) == Some(i - 1),
            decreases i + (if found { 0int } else { 1int }),
        {
            let c = p.get_char(i - 1);
            proof {
                assert(p@.subrange(0, i as int).drop_last() =~= p@.subrange(0, i - 1));
            }
            if c == '\\' || c == '/' {
                found = true;
            } else {
                i -= 1;
            }
        }
        proof {
            if i == 0 {
                assert(p@.subrange(0, 0) =~= Seq::<char>::empty());
            }
        }
        let parent: &str = if !found {
            p.substring_char(0, 0)
        } else {
            p.substring_char(0, i - 1)
        };
        let dir = String::from_str(parent);
        if self.is_portable {
            dir.concat("\\logs")
        } else {
            dir
        }
    }
}

} // verus!
