use twitarc::config::{
    config_path, Config, ConfigError, DriverConfig, FetchConfig, TwitterConfig,
};

fn some(s: &str) -> Option<String> {
    Some(s.to_string())
}

fn twitter(username: Option<String>, password: Option<String>) -> TwitterConfig {
    TwitterConfig::new(
        "auth.cache".to_string(),
        username,
        password,
        vec![
            ("following_users".to_string(), vec!["css-1".to_string(), "r-2".to_string()]),
            ("empty".to_string(), vec![]),
            ("following_users".to_string(), vec!["later".to_string()]),
        ],
        vec![
            ("banner_img".to_string(), "/html/body/img".to_string()),
            ("banner_exit".to_string(), "/html/body/div".to_string()),
        ],
    )
}

fn file(username: Option<String>, password: Option<String>) -> Config {
    Config {
        fetch_config: FetchConfig {
            max_links_per_fetch: 10,
            max_concurrent_users: 2,
            max_sessions_per_user: 1,
            fetch_username: "me".to_string(),
            max_retries: 3,
            users_from_following_retry_delay: 1,
        },
        driver_config: DriverConfig { driver_count: 2, base_port: 4444 },
        twitter_config: twitter(username, password),
    }
}

#[test]
fn config_path_prefers_the_command_line() {
    assert_eq!(config_path(some("cli.toml"), some("env.toml"), some("/data")), "cli.toml");
}

#[test]
fn config_path_falls_back_to_the_environment() {
    assert_eq!(config_path(None, some("env.toml"), some("/data")), "env.toml");
}

#[test]
fn config_path_falls_back_to_the_data_directory() {
    assert_eq!(config_path(None, None, some("/data")), "/data/config.toml");
}

#[test]
fn config_path_defaults_to_the_working_directory() {
    assert_eq!(config_path(None, None, None), "config.toml");
}

#[test]
fn credentials_prefer_the_command_line() {
    let config =
        Config::get(file(some("file-u"), some("file-p")), some("cli-u"), some("env-u"), some("cli-p"), some("env-p"))
            .ok()
            .unwrap();
    assert_eq!(config.twitter_config.username(), "cli-u");
    assert_eq!(config.twitter_config.password(), "cli-p");
}

#[test]
fn credentials_fall_back_to_the_environment() {
    let config = Config::get(file(some("file-u"), some("file-p")), None, some("env-u"), None, some("env-p"))
        .ok()
        .unwrap();
    assert_eq!(config.twitter_config.username(), "env-u");
    assert_eq!(config.twitter_config.password(), "env-p");
}

#[test]
fn credentials_fall_back_to_the_file() {
    let config = Config::get(file(some("file-u"), some("file-p")), None, None, None, None).ok().unwrap();
    assert_eq!(config.twitter_config.username(), "file-u");
    assert_eq!(config.twitter_config.password(), "file-p");
    assert_eq!(config.twitter_config.auth_cache_fname(), "auth.cache");
    assert_eq!(config.fetch_config.max_links_per_fetch, 10);
    assert_eq!(config.driver_config, DriverConfig { driver_count: 2, base_port: 4444 });
    assert_eq!(config.twitter_config.xpath("banner_img"), Ok("/html/body/img"));
}

#[test]
fn missing_username_is_refused() {
    assert_eq!(
        Config::get(file(None, some("p")), None, None, None, None).err(),
        Some(ConfigError::MissingUsername)
    );
    assert_eq!(
        Config::get(file(None, None), None, None, some("p"), None).err(),
        Some(ConfigError::MissingUsername)
    );
}

#[test]
fn missing_password_is_refused() {
    assert_eq!(
        Config::get(file(some("u"), None), None, None, None, None).err(),
        Some(ConfigError::MissingPassword)
    );
    assert_eq!(
        Config::get(file(None, None), some("u"), None, None, None).err(),
        Some(ConfigError::MissingPassword)
    );
}

#[test]
fn css_class_gives_the_named_list() {
    let config = twitter(some("u"), some("p"));
    assert_eq!(config.css_class("following_users"), Ok(vec!["css-1", "r-2"]));
    assert_eq!(config.css_class("empty"), Ok(vec![]));
    assert_eq!(config.css_class("other"), Err(ConfigError::NotInConfig));
}

#[test]
fn xpath_gives_the_named_path() {
    let config = twitter(some("u"), some("p"));
    assert_eq!(config.xpath("banner_exit"), Ok("/html/body/div"));
    assert_eq!(config.xpath("following_users"), Err(ConfigError::NotInConfig));
}

#[test]
fn credentials_are_reported_as_set() {
    let config = twitter(some("u"), None);
    assert!(config.has_username());
    assert!(!config.has_password());
    assert_eq!(config.username(), "u");
}
