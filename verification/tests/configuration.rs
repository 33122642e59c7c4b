use piped_embeds::config::{
    BACKEND_URL_VAR, CHANNEL_ROUTE, DEFAULT_BACKEND_URL, DEFAULT_FRONTEND_URL, FRONTEND_URL_VAR,
    LISTEN_ADDRESS, LISTEN_PORT, PLAYLIST_ROUTE, STATUS_ROUTE, VIDEO_ROUTE,
};
use piped_embeds::{get_env_string, ServiceConfig};

#[test]
fn get_env_string_takes_what_was_found() {
    let value = get_env_string(Some("https://my.front".to_string()), "https://piped.video".to_string());
    assert_eq!(value, "https://my.front");
}

#[test]
fn get_env_string_falls_back_to_the_default() {
    let value = get_env_string(None, "https://piped.video".to_string());
    assert_eq!(value, "https://piped.video");
}

#[test]
fn get_env_string_keeps_an_empty_value() {
    let value = get_env_string(Some(String::new()), "https://piped.video".to_string());
    assert_eq!(value, "");
}

#[test]
fn config_defaults() {
    let config = ServiceConfig::resolve(None, None);
    assert_eq!(config.frontend_url, "https://piped.video");
    assert_eq!(config.backend_url, "https://pipedapi.adminforge.de");
}

#[test]
fn config_takes_each_value_on_its_own() {
    let config = ServiceConfig::resolve(Some("http://front".to_string()), None);
    assert_eq!(config.frontend_url, "http://front");
    assert_eq!(config.backend_url, "https://pipedapi.adminforge.de");
    let config = ServiceConfig::resolve(None, Some("not a url".to_string()));
    assert_eq!(config.frontend_url, "https://piped.video");
    assert_eq!(config.backend_url, "not a url");
}

#[test]
fn names_and_routes() {
    assert_eq!(FRONTEND_URL_VAR, "FRONTEND_URL");
    assert_eq!(BACKEND_URL_VAR, "BACKEND_URL");
    assert_eq!(DEFAULT_FRONTEND_URL, "https://piped.video");
    assert_eq!(DEFAULT_BACKEND_URL, "https://pipedapi.adminforge.de");
    assert_eq!(LISTEN_ADDRESS, "0.0.0.0");
    assert_eq!(LISTEN_PORT, 8080);
    assert_eq!(STATUS_ROUTE, "/status");
    assert_eq!(VIDEO_ROUTE, "/watch");
    assert_eq!(PLAYLIST_ROUTE, "/playlist");
    assert_eq!(CHANNEL_ROUTE, "/channel/{id}");
}
