//! The model of the configuration file: its sections, their defaults, and
//! how a configuration manager loads and resets them. Reading and writing the
//! file is left to the caller, which hands over what it read.
use vstd::prelude::*;
use crate::error::AppError;
use crate::text::{has_suffix, strip_suffix};

verus! {

/// General application settings.
#[derive(Debug)]
pub struct AppSettings {
    pub name: String,
    pub version: String,
    pub auto_start: bool,
    pub startup_enabled: bool,
}

/// Recording defaults.
#[derive(Debug)]
pub struct RecordingSettings {
    pub output_dir: String,
    pub format: String,
    pub quality: String,
    pub auto_retry: bool,
    pub max_retries: u32,
    /// Seconds.
    pub timeout: u64,
}

/// Network settings.
#[derive(Debug)]
pub struct NetworkSettings {
    /// Seconds.
    pub request_timeout: u64,
    /// Seconds.
    pub connect_timeout: u64,
    pub use_proxy: bool,
    pub proxy_url: Option<String>,
    pub user_agent: String,
}

/// Window and appearance settings.
#[derive(Debug)]
pub struct UISettings {
    pub theme: String,
    pub language: String,
    pub window_width: u32,
    pub window_height: u32,
    pub remember_window_position: bool,
    pub window_x: Option<i32>,
    pub window_y: Option<i32>,
}

/// The whole configuration.
#[derive(Debug)]
pub struct AppConfig {
    pub app: AppSettings,
    pub recording: RecordingSettings,
    pub network: NetworkSettings,
    pub ui: UISettings,
}

/// `part` added to the path `base` as one more component: with a `/`
/// between them unless `base` is empty or already ends with one.
pub open spec fn join_component(base: Seq<char>, part: Seq<char>) -> Seq<char> {
    if base.len() == 0 || has_suffix(base, "/"@) {
        base + part
    } else {
        base + "/"@ + part
    }
}

/// Adds a relative component to a path.
pub fn join_component_exec(base: &str, part: &str) -> (r: String)
    ensures
        r@ == join_component(base@, part@),
{
    let mut s = String::from_str(base);
    if !base.is_empty() && strip_suffix(base, "/").is_none() {
        s.append("/");
    }
    s.append(part);
    s
}

/// Where recordings go by default: `Movies/blive` in the home directory,
/// or `./recordings` when there is no home directory.
pub open spec fn default_output_dir_spec(home_dir: Option<Seq<char>>) -> Seq<char> {
    match home_dir {
        Some(h) => join_component(join_component(h, "Movies"@), "blive"@),
        None => "./recordings"@,
    }
}

pub open spec fn opt_str_seq(s: Option<&str>) -> Option<Seq<char>> {
    match s {
        Some(t) => Some(t@),
        None => None,
    }
}

/// The default directory for recordings, given the home directory if any.
pub fn default_output_dir(home_dir: Option<&str>) -> (r: String)
    ensures
        r@ == default_output_dir_spec(opt_str_seq(home_dir)),
{
    match home_dir {
        Some(h) => {
            let movies = join_component_exec(h, "Movies");
            join_component_exec(movies.as_str(), "blive")
        },
        None => String::from_str("./recordings"),
    }
}

/// Whether a configuration is the default one for an application version and
/// a home directory.
pub open spec fn is_default_config(c: AppConfig, version: Seq<char>, home_dir: Option<Seq<char>>) -> bool {
    &&& c.app.name@ == "B站录播姬"@
    &&& c.app.version@ == version
    &&& !c.app.auto_start && !c.app.startup_enabled
    &&& c.recording.output_dir@ == default_output_dir_spec(home_dir)
    &&& c.recording.format@ == "flv"@
    &&& c.recording.quality@ == "original"@
    &&& c.recording.auto_retry && c.recording.max_retries == 3 && c.recording.timeout == 30
    &&& c.network.request_timeout == 30 && c.network.connect_timeout == 10
    &&& !c.network.use_proxy && c.network.proxy_url is None
    &&& c.network.user_agent@ == "B站录播姬/1.0"@
    &&& c.ui.theme@ == "dark"@
    &&& c.ui.language@ == "zh-CN"@
    &&& c.ui.window_width == 1200 && c.ui.window_height == 800
    &&& c.ui.remember_window_position
    &&& c.ui.window_x is None && c.ui.window_y is None
}

/// The default configuration for an application version and a home directory.
pub fn default_config(version: &str, home_dir: Option<&str>) -> (r: AppConfig)
    ensures
        is_default_config(r, version@, opt_str_seq(home_dir)),
{
    AppConfig {
        app: AppSettings {
            name: String::from_str("B站录播姬"),
            version: String::from_str(version),
            auto_start: false,
            startup_enabled: false,
        },
        recording: RecordingSettings {
            output_dir: default_output_dir(home_dir),
            format: String::from_str("flv"),
            quality: String::from_str("original"),
            auto_retry: true,
            max_retries: 3,
            timeout: 30,
        },
        network: NetworkSettings {
            request_timeout: 30,
            connect_timeout: 10,
            use_proxy: false,
            proxy_url: None,
            user_agent: String::from_str("B站录播姬/1.0"),
        },
        ui: UISettings {
            theme: String::from_str("dark"),
            language: String::from_str("zh-CN"),
            window_width: 1200,
            window_height: 800,
            remember_window_position: true,
            window_x: None,
            window_y: None,
        },
    }
}

/// A configuration file and the configuration it holds.
pub struct ConfigManager {
    config_path: String,
    config: AppConfig,
}

impl ConfigManager {
    pub closed spec fn spec_path(&self) -> Seq<char> {
        self.config_path@
    }

    pub closed spec fn spec_config(&self) -> AppConfig {
        self.config
    }

    /// A manager for the file at `config_path`. `stored` is what reading and
    /// parsing the file gave, `None` when the file does not exist; then the
    /// configuration is the default one for `version` and `home_dir`.
    pub fn new(
        config_path: String,
        stored: Option<Result<AppConfig, AppError>>,
        version: &str,
        home_dir: Option<&str>,
    ) -> (r: Result<Self, AppError>)
        ensures
            match stored {
                None => r matches Ok(m) && m.spec_path() == config_path@ && is_default_config(
                    m.spec_config(),
                    version@,
                    opt_str_seq(home_dir),
                ),
                Some(Ok(c)) => r matches Ok(m) && m.spec_path() == config_path@ && m.spec_config() == c,
                Some(Err(e)) => r matches Err(f) && f == e,
            },
    {
        let config = match stored {
            None => default_config(version, home_dir),
            Some(Ok(c)) => c,
            Some(Err(e)) => {
                return Err(e);
            },
        };
        Ok(ConfigManager { config_path, config })
    }

    /// Takes what reading and parsing the file gave: a configuration replaces
    /// the one held, an error is handed back and changes nothing, and a
    /// missing file (`None`) changes nothing.
    pub fn load(&mut self, stored: Option<Result<AppConfig, AppError>>) -> (r: Result<(), AppError>)
        ensures
            final(self).spec_path() == old(self).spec_path(),
            match stored {
                None => r is Ok && final(self).spec_config() == old(self).spec_config(),
                Some(Ok(c)) => r is Ok && final(self).spec_config() == c,
                Some(Err(e)) => (r matches Err(f) && f == e) && final(self).spec_config()
                    == old(self).spec_config(),
            },
    {
        match stored {
            None => Ok(()),
            Some(Ok(c)) => {
                self.config = c;
                Ok(())
            },
            Some(Err(e)) => Err(e),
        }
    }

    /// The path of the configuration file.
    pub fn config_path(&self) -> (r: &str)
        ensures
            r@ == self.spec_path(),
    {
        self.config_path.as_str()
    }

    /// The configuration held.
    pub fn config(&self) -> (r: &AppConfig)
        ensures
            *r == self.spec_config(),
    {
        &self.config
    }

    /// Replaces the configuration held.
    pub fn set_config(&mut self, config: AppConfig)
        ensures
            final(self).spec_path() == old(self).spec_path(),
            final(self).spec_config() == config,
    {
        self.config = config;
    }

    /// Goes back to the default configuration.
    pub fn reset_to_default(&mut self, version: &str, home_dir: Option<&str>)
        ensures
            final(self).spec_path() == old(self).spec_path(),
            is_default_config(final(self).spec_config(), version@, opt_str_seq(home_dir)),
    {
        self.config = default_config(version, home_dir);
    }
}

} // verus!
