use auth_client::settings::{AppSettings, SettingUpdate, Theme};

#[test]
fn default_theme_is_light() {
    assert_eq!(Theme::default(), Theme::Light);
}

#[test]
fn default_settings() {
    let st = AppSettings::default();
    assert_eq!(st.server_url, "");
    assert_eq!(st.theme, Theme::Light);
}

#[test]
fn update_server_url_keeps_theme() {
    let mut st = AppSettings { server_url: "old".to_string(), theme: Theme::Dark };
    st.apply(SettingUpdate::ServerUrl("http://new".to_string()));
    assert_eq!(st.server_url, "http://new");
    assert_eq!(st.theme, Theme::Dark);
}

#[test]
fn update_theme_keeps_server_url() {
    let mut st = AppSettings::default();
    st.server_url = "http://s".to_string();
    st.apply(SettingUpdate::Theme(Theme::Dark));
    assert_eq!(st.theme, Theme::Dark);
    assert_eq!(st.server_url, "http://s");
}
