//! The persisted settings and how update events change them.
use vstd::prelude::*;

use crate::model::{Locale, UpdateTarget, optional_text};

verus! {

/// What the installer remembers about one update channel. The times of the
/// last attempt and the last successful check are kept as RFC 3339 text.
#[derive(Clone, Debug)]
pub struct UpdateChannelSettings {
    pub last_attempt_utc: Option<String>,
    pub last_successful_check_utc: Option<String>,
    pub last_notified_version: Option<String>,
    pub skipped_version: Option<String>,
    pub staged_version: Option<String>,
    pub blocked_version: Option<String>,
    pub blocked_node_version: Option<String>,
}

/// The channel state as texts; the times are carried along unread.
pub struct ChannelView {
    pub last_notified_version: Option<Seq<char>>,
    pub skipped_version: Option<Seq<char>>,
    pub staged_version: Option<Seq<char>>,
    pub blocked_version: Option<Seq<char>>,
    pub blocked_node_version: Option<Seq<char>>,
}

impl View for UpdateChannelSettings {
    type V = ChannelView;

    open spec fn view(&self) -> ChannelView {
        ChannelView {
            last_notified_version: optional_text(self.last_notified_version),
            skipped_version: optional_text(self.skipped_version),
            staged_version: optional_text(self.staged_version),
            blocked_version: optional_text(self.blocked_version),
            blocked_node_version: optional_text(self.blocked_node_version),
        }
    }
}

/// A channel that remembers nothing.
pub open spec fn empty_channel(c: UpdateChannelSettings) -> bool {
    &&& c.last_attempt_utc is None
    &&& c.last_successful_check_utc is None
    &&& c.last_notified_version is None
    &&& c.skipped_version is None
    &&& c.staged_version is None
    &&& c.blocked_version is None
    &&& c.blocked_node_version is None
}

impl UpdateChannelSettings {
    /// A channel that remembers nothing.
    pub fn empty() -> (c: UpdateChannelSettings)
        ensures
            empty_channel(c),
    {
        UpdateChannelSettings {
            last_attempt_utc: None,
            last_successful_check_utc: None,
            last_notified_version: None,
            skipped_version: None,
            staged_version: None,
            blocked_version: None,
            blocked_node_version: None,
        }
    }
}

impl Default for UpdateChannelSettings {
    fn default() -> (c: UpdateChannelSettings)
        ensures
            empty_channel(c),
    {
        UpdateChannelSettings::empty()
    }
}

/// The persisted settings.
#[derive(Clone, Debug)]
pub struct Settings {
    pub schema_version: u32,
    pub locale: Locale,
    pub auto_download: bool,
    pub controller: UpdateChannelSettings,
    pub dsh: UpdateChannelSettings,
}

/// The settings of a fresh installation: schema 1, English, automatic
/// downloads on, and nothing remembered about either channel.
pub open spec fn default_settings(s: Settings) -> bool {
    &&& s.schema_version == 1
    &&& s.locale == Locale::English
    &&& s.auto_download
    &&& empty_channel(s.controller)
    &&& empty_channel(s.dsh)
}

/// The only settings schema this installer reads.
pub open spec fn current_schema(s: Settings) -> bool {
    s.schema_version == 1
}

impl Default for Settings {
    fn default() -> (s: Settings)
        ensures
            default_settings(s),
    {
        Settings {
            schema_version: 1,
            locale: Locale::English,
            auto_download: true,
            controller: UpdateChannelSettings::empty(),
            dsh: UpdateChannelSettings::empty(),
        }
    }
}

/// Whether `new` is `old` with only the channel of `target` changed.
pub open spec fn other_channel_kept(old: Settings, new: Settings, target: UpdateTarget) -> bool {
    &&& new.schema_version == old.schema_version
    &&& new.locale == old.locale
    &&& new.auto_download == old.auto_download
    &&& target == UpdateTarget::Dsh ==> new.controller == old.controller
    &&& target == UpdateTarget::Controller ==> new.dsh == old.dsh
}

impl Settings {
    /// The settings to use after reading the settings file: what was read
    /// if it could be parsed and has the current schema, else the defaults.
    pub fn from_loaded(loaded: Option<Settings>) -> (s: Settings)
        ensures
            match loaded {
                Some(l) => if current_schema(l) {
                    s == l
                } else {
                    default_settings(s)
                },
                None => default_settings(s),
            },
    {
        match loaded {
            Some(settings) => {
                if settings.schema_version == 1 {
                    settings
                } else {
                    Settings::default()
                }
            },
            None => Settings::default(),
        }
    }

    /// At start, a staged installer update is always forgotten and a staged
    /// DSH update only when its staging directory did not hold a valid
    /// runtime. Returns whether anything was forgotten.
    pub fn reconcile_staged_versions(&mut self, staged_dsh_valid: bool) -> (changed: bool)
        ensures
            final(self).controller.staged_version is None,
            final(self).dsh.staged_version == (if staged_dsh_valid {
                old(self).dsh.staged_version
            } else {
                None
            }),
            changed == (old(self).controller.staged_version is Some || (!staged_dsh_valid
                && old(self).dsh.staged_version is Some)),
            final(self).schema_version == old(self).schema_version,
            final(self).locale == old(self).locale,
            final(self).auto_download == old(self).auto_download,
            final(self).controller == (UpdateChannelSettings {
                staged_version: None,
                ..old(self).controller
            }),
            final(self).dsh == (UpdateChannelSettings {
                staged_version: final(self).dsh.staged_version,
                ..old(self).dsh
            }),
    {
        let mut changed = self.controller.staged_version.is_some();
        self.controller.staged_version = None;
        if !staged_dsh_valid {
            changed = changed || self.dsh.staged_version.is_some();
            self.dsh.staged_version = None;
        }
        changed
    }

    /// Skipping `version` of `target`: the version is remembered as skipped
    /// and, for DSH, nothing stays staged.
    pub fn skip_version(&mut self, target: UpdateTarget, version: &str)
        ensures
            other_channel_kept(*old(self), *final(self), target),
            target == UpdateTarget::Controller ==> final(self).controller == (UpdateChannelSettings {
                skipped_version: final(self).controller.skipped_version,
                ..old(self).controller
            }),
            target == UpdateTarget::Controller ==> final(self).controller@.skipped_version == Some(
                version@,
            ),
            target == UpdateTarget::Dsh ==> final(self).dsh == (UpdateChannelSettings {
                skipped_version: final(self).dsh.skipped_version,
                staged_version: None,
                ..old(self).dsh
            }),
            target == UpdateTarget::Dsh ==> final(self).dsh@.skipped_version == Some(version@),
    {
        match target {
            UpdateTarget::Controller => {
                self.controller.skipped_version = Some(String::from_str(version));
            },
            UpdateTarget::Dsh => {
                self.dsh.skipped_version = Some(String::from_str(version));
                self.dsh.staged_version = None;
            },
        }
    }

    /// Offering DSH `version`: it becomes the last notified version and is
    /// remembered as staged exactly when a validated staged copy exists.
    pub fn record_dsh_offer(&mut self, version: &str, staged: bool)
        ensures
            other_channel_kept(*old(self), *final(self), UpdateTarget::Dsh),
            final(self).dsh == (UpdateChannelSettings {
                last_notified_version: final(self).dsh.last_notified_version,
                staged_version: final(self).dsh.staged_version,
                ..old(self).dsh
            }),
            final(self).dsh@.last_notified_version == Some(version@),
            final(self).dsh@.staged_version == (if staged {
                Some(version@)
            } else {
                None
            }),
    {
        self.dsh.staged_version = if staged {
            Some(String::from_str(version))
        } else {
            None
        };
        self.dsh.last_notified_version = Some(String::from_str(version));
    }

    /// Offering installer `version`: it becomes the last notified version.
    pub fn record_controller_offer(&mut self, version: &str)
        ensures
            other_channel_kept(*old(self), *final(self), UpdateTarget::Controller),
            final(self).controller == (UpdateChannelSettings {
                last_notified_version: final(self).controller.last_notified_version,
                ..old(self).controller
            }),
            final(self).controller@.last_notified_version == Some(version@),
    {
        self.controller.last_notified_version = Some(String::from_str(version));
    }

    /// Sets which DSH version is staged: the downloaded one after a
    /// confirmed download, none after it was installed.
    pub fn set_staged_dsh(&mut self, version: Option<String>)
        ensures
            other_channel_kept(*old(self), *final(self), UpdateTarget::Dsh),
            final(self).dsh == (UpdateChannelSettings { staged_version: version, ..old(self).dsh }),
    {
        self.dsh.staged_version = version;
    }
}

} // verus!
