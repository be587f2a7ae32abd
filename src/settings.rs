use vstd::prelude::*;

verus! {

/// The colour scheme of the client.
#[derive(Debug, Clone, Copy, PartialEq, Eq, Structural)]
pub enum Theme {
    Light,
    Dark,
}

impl Default for Theme {
    fn default() -> (r: Theme)
        ensures
            r == Theme::Light,
    {
        Theme::Light
    }
}

/// The persisted configuration: the server to talk to and the theme.
#[derive(Debug, Clone)]
pub struct AppSettings {
    pub server_url: String,
    pub theme: Theme,
}

impl Default for AppSettings {
    /// The settings of a first run: no server yet, the light theme.
    fn default() -> (r: AppSettings)
        ensures
            r.server_url@ == Seq::<char>::empty(),
            r.theme == Theme::Light,
    {
        AppSettings { server_url: String::new(), theme: Theme::Light }
    }
}

/// A change to one setting, carrying its new value.
#[derive(Debug, Clone)]
pub enum SettingUpdate {
    ServerUrl(String),
    Theme(Theme),
}

impl AppSettings {
    /// Sets the one setting that `update` names; the other stays as it was.
    pub fn apply(&mut self, update: SettingUpdate)
        ensures
            match update {
                SettingUpdate::ServerUrl(url) => {
                    &&& final(self).server_url == url
                    &&& final(self).theme == old(self).theme
                },
                SettingUpdate::Theme(theme) => {
                    &&& final(self).theme == theme
                    &&& final(self).server_url == old(self).server_url
                },
            },
    {
        match update {
            SettingUpdate::ServerUrl(url) => self.server_url = url,
            SettingUpdate::Theme(theme) => self.theme = theme,
        }
    }
}

} // verus!
