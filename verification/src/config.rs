//! The settings that the fetch, the driver pool and the site access take.

use vstd::hash_map::StringHashMap;
use vstd::prelude::*;
use vstd::string::StringExecFns;

verus! {

/// How much to fetch, and with how many workers.
#[derive(Debug, Clone, PartialEq, Eq)]
pub struct FetchConfig {
    pub max_links_per_fetch: usize,
    pub max_concurrent_users: usize,
    pub max_sessions_per_user: usize,
    pub fetch_username: String,
    pub max_retries: usize,
    /// Seconds that the first reading of the following list waits; every
    /// reading in a row that brings nothing new waits that much longer.
    pub users_from_following_retry_delay: usize,
}

/// How many automation servers to run, and on which ports.
#[derive(Debug, Clone, Copy, PartialEq, Eq, Structural)]
pub struct DriverConfig {
    pub driver_count: usize,
    pub base_port: usize,
}

/// What is wrong with the settings.
#[derive(Debug, Clone, Copy, PartialEq, Eq, Structural)]
pub enum ConfigError {
    /// The settings name no selector of that name.
    NotInConfig,
    /// Neither the command line, the environment nor the file gives a user name.
    MissingUsername,
    /// Neither the command line, the environment nor the file gives a password.
    MissingPassword,
}

/// The table that named entries stand for: of two entries with one name the
/// earlier one counts.
pub open spec fn table_of<V>(entries: Seq<(String, V)>) -> Map<Seq<char>, V>
    decreases entries.len(),
{
    if entries.len() == 0 {
        Map::empty()
    } else {
        table_of(entries.skip(1)).insert(entries[0].0@, entries[0].1)
    }
}

/// Builds the table of named entries.
fn make_table<V>(entries: Vec<(String, V)>) -> (table: StringHashMap<V>)
    ensures
        table@ == table_of(entries@),
{
    let mut entries = entries;
    let ghost all = entries@;
    let mut table: StringHashMap<V> = StringHashMap::new();
    while entries.len() > 0
        invariant
            entries.len() <= all.len(),
            entries@ == all.take(entries.len() as int),
            table@ == table_of(all.skip(entries.len() as int)),
        decreases entries.len(),
    {
        let ghost n = entries.len() as int;
        let (name, value) = entries.pop().unwrap();
        proof {
            assert(all.skip(n - 1)[0] == (name, value));
            assert(all.skip(n - 1).skip(1) == all.skip(n));
            assert(entries@ == all.take(n - 1));
        }
        table.insert(name, value);
    }
    assert(all.skip(0) == all);
    table
}

/// How to get at the site: the credentials, the file that caches the session
/// token, and the selectors by name.
pub struct TwitterConfig {
    pub auth_cache_fname: String,
    username: Option<String>,
    password: Option<String>,
    css_classes: StringHashMap<Vec<String>>,
    xpaths: StringHashMap<String>,
}

impl TwitterConfig {
    /// The path of the file that caches the session token.
    pub closed spec fn cache_path_view(&self) -> Seq<char> {
        self.auth_cache_fname@
    }

    /// The user name, if one is set.
    pub closed spec fn username_view(&self) -> Option<Seq<char>> {
        self.username.deep_view()
    }

    /// The password, if one is set.
    pub closed spec fn password_view(&self) -> Option<Seq<char>> {
        self.password.deep_view()
    }

    /// The class lists by name.
    pub closed spec fn css_class_map(&self) -> Map<Seq<char>, Vec<String>> {
        self.css_classes@
    }

    /// The XPaths by name.
    pub closed spec fn xpath_map(&self) -> Map<Seq<char>, String> {
        self.xpaths@
    }

    /// Settings with these credentials and selectors.
    pub fn new(
        auth_cache_fname: String,
        username: Option<String>,
        password: Option<String>,
        css_classes: Vec<(String, Vec<String>)>,
        xpaths: Vec<(String, String)>,
    ) -> (config: TwitterConfig)
        ensures
            config.cache_path_view() == auth_cache_fname@,
            config.username_view() == username.deep_view(),
            config.password_view() == password.deep_view(),
            config.css_class_map() == table_of(css_classes@),
            config.xpath_map() == table_of(xpaths@),
    {
        TwitterConfig {
            auth_cache_fname,
            username,
            password,
            css_classes: make_table(css_classes),
            xpaths: make_table(xpaths),
        }
    }

    pub fn username(&self) -> (name: &str)
        requires
            self.username_view() is Some,
        ensures
            Some(name@) == self.username_view(),
    {
        match &self.username {
            Some(name) => name.as_str(),
            None => "",
        }
    }

    pub fn password(&self) -> (password: &str)
        requires
            self.password_view() is Some,
        ensures
            Some(password@) == self.password_view(),
    {
        match &self.password {
            Some(password) => password.as_str(),
            None => "",
        }
    }

    /// The path of the file that caches the session token.
    pub fn auth_cache_fname(&self) -> (path: &str)
        ensures
            path@ == self.cache_path_view(),
    {
        self.auth_cache_fname.as_str()
    }

    /// Whether a user name is set.
    pub fn has_username(&self) -> (r: bool)
        ensures
            r == self.username_view() is Some,
    {
        self.username.is_some()
    }

    /// Whether a password is set.
    pub fn has_password(&self) -> (r: bool)
        ensures
            r == self.password_view() is Some,
    {
        self.password.is_some()
    }

    /// The class list of the given name.
    pub fn css_class(&self, name: &str) -> (r: Result<Vec<&str>, ConfigError>)
        ensures
            match r {
                Ok(classes) => self.css_class_map().contains_key(name@) && classes.deep_view()
                    == self.css_class_map()[name@].deep_view(),
                Err(e) => !self.css_class_map().contains_key(name@) && e == ConfigError::NotInConfig,
            },
    {
        match self.css_classes.get(name) {
            Some(found) => {
                let mut classes: Vec<&str> = Vec::new();
                let mut i: usize = 0;
                while i < found.len()
                    invariant
                        i <= found.len(),
                        classes.deep_view() == found.deep_view().take(i as int),
                    decreases found.len() - i,
                {
                    let ghost prev = classes.deep_view();
                    classes.push(found[i].as_str());
                    assert(classes.deep_view() == prev.push(found[i as int]@));
                    assert(found.deep_view().take(i + 1) == found.deep_view().take(i as int).push(
                        found[i as int]@,
                    ));
                    i += 1;
                }
                assert(found.deep_view().take(found.len() as int) == found.deep_view());
                Ok(classes)
            },
            None => Err(ConfigError::NotInConfig),
        }
    }

    /// The XPath of the given name.
    pub fn xpath(&self, name: &str) -> (r: Result<&str, ConfigError>)
        ensures
            match r {
                Ok(path) => self.xpath_map().contains_key(name@) && path@ == self.xpath_map()[name@]@,
                Err(e) => !self.xpath_map().contains_key(name@) && e == ConfigError::NotInConfig,
            },
    {
        match self.xpaths.get(name) {
            Some(path) => Ok(path.as_str()),
            None => Err(ConfigError::NotInConfig),
        }
    }
}

/// All settings.
pub struct Config {
    pub fetch_config: FetchConfig,
    pub driver_config: DriverConfig,
    pub twitter_config: TwitterConfig,
}

/// The first of the three that is there.
pub open spec fn first_of(
    a: Option<Seq<char>>,
    b: Option<Seq<char>>,
    c: Option<Seq<char>>,
) -> Option<Seq<char>> {
    if a is Some {
        a
    } else if b is Some {
        b
    } else {
        c
    }
}

/// The path of the settings file: the one given on the command line, else
/// the one that the environment names, else `config.toml` in the data
/// directory that the environment names, else `config.toml` where the program
/// runs.
pub open spec fn config_path_of(
    cli: Option<Seq<char>>,
    env_config: Option<Seq<char>>,
    env_data: Option<Seq<char>>,
) -> Seq<char> {
    match first_of(
        cli,
        env_config,
        match env_data {
            Some(dir) => Some(dir + "/config.toml"@),
            None => None,
        },
    ) {
        Some(path) => path,
        None => "config.toml"@,
    }
}

/// The path of the settings file: see [`config_path_of`].
pub fn config_path(cli: Option<String>, env_config: Option<String>, env_data: Option<String>) -> (path:
    String)
    ensures
        path@ == config_path_of(cli.deep_view(), env_config.deep_view(), env_data.deep_view()),
{
    match cli {
        Some(path) => path,
        None => match env_config {
            Some(path) => path,
            None => match env_data {
                Some(dir) => dir.concat("/config.toml"),
                None => String::from_str("config.toml"),
            },
        },
    }
}

/// The first of the three that is there.
fn first_set(a: Option<String>, b: Option<String>, c: Option<String>) -> (r: Option<String>)
    ensures
        r.deep_view() == first_of(a.deep_view(), b.deep_view(), c.deep_view()),
{
    match a {
        Some(_) => a,
        None => match b {
            Some(_) => b,
            None => c,
        },
    }
}

impl Config {
    /// The settings of a run, from those of the settings file and the
    /// credentials of the command line and of the environment. For the user
    /// name and for the password the command line goes before the
    /// environment and the environment before the file; a run without a user
    /// name or without a password is refused, the user name being looked at
    /// first. Nothing else of the file's settings changes.
    pub fn get(
        file: Config,
        cli_username: Option<String>,
        env_username: Option<String>,
        cli_password: Option<String>,
        env_password: Option<String>,
    ) -> (r: Result<Config, ConfigError>)
        ensures
            match r {
                Ok(config) => {
                    &&& config.twitter_config.username_view() is Some
                    &&& config.twitter_config.password_view() is Some
                    &&& config.twitter_config.username_view() == first_of(
                        cli_username.deep_view(),
                        env_username.deep_view(),
                        file.twitter_config.username_view(),
                    )
                    &&& config.twitter_config.password_view() == first_of(
                        cli_password.deep_view(),
                        env_password.deep_view(),
                        file.twitter_config.password_view(),
                    )
                    &&& config.twitter_config.cache_path_view()
                        == file.twitter_config.cache_path_view()
                    &&& config.twitter_config.css_class_map()
                        == file.twitter_config.css_class_map()
                    &&& config.twitter_config.xpath_map() == file.twitter_config.xpath_map()
                    &&& config.fetch_config == file.fetch_config
                    &&& config.driver_config == file.driver_config
                },
                Err(e) => if first_of(
                    cli_username.deep_view(),
                    env_username.deep_view(),
                    file.twitter_config.username_view(),
                ) is None {
                    e == ConfigError::MissingUsername
                } else {
                    &&& e == ConfigError::MissingPassword
                    &&& first_of(
                        cli_password.deep_view(),
                        env_password.deep_view(),
                        file.twitter_config.password_view(),
                    ) is None
                },
            },
    {
        let Config { fetch_config, driver_config, twitter_config } = file;
        let TwitterConfig { auth_cache_fname, username, password, css_classes, xpaths } =
            twitter_config;
        let username = first_set(cli_username, env_username, username);
        if username.is_none() {
            return Err(ConfigError::MissingUsername);
        }
        let password = first_set(cli_password, env_password, password);
        if password.is_none() {
            return Err(ConfigError::MissingPassword);
        }
        Ok(
            Config {
                fetch_config,
                driver_config,
                twitter_config: TwitterConfig {
                    auth_cache_fname,
                    username,
                    password,
                    css_classes,
                    xpaths,
                },
            },
        )
    }
}

} // verus!
