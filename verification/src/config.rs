//! The application's configuration records, their built-in defaults, and
//! their one-line descriptions.
use vstd::prelude::*;
use crate::text::{decimal, push_decimal};

verus! {

/// The file the configuration is read from.
pub const CONFIG_FILE: &'static str = "config.toml";

/// The file a missing configuration is copied from.
pub const EXAMPLE_CONFIG_FILE: &'static str = "config.example.toml";

#[derive(Clone, Debug)]
pub struct AppConfig {
    pub app: AppSettings,
    pub server: ServerSettings,
    pub database: DatabaseSettings,
    pub features: FeatureSettings,
    pub ui: UISettings,
    pub logging: LoggingSettings,
    pub security: SecuritySettings,
    pub email: EmailSettings,
    pub storage: StorageSettings,
    pub analytics: AnalyticsSettings,
}

#[derive(Clone, Debug)]
pub struct AppSettings {
    pub name: String,
    pub version: String,
    pub description: String,
}

#[derive(Clone, Debug)]
pub struct ServerSettings {
    pub host: String,
    pub port: u16,
    pub debug: bool,
}

#[derive(Clone, Debug)]
pub struct DatabaseSettings {
    pub url: String,
    pub pool_size: u32,
}

#[derive(Clone, Debug)]
pub struct FeatureSettings {
    pub auth: bool,
    pub api: bool,
    pub websocket: bool,
    pub caching: bool,
}

#[derive(Clone, Debug)]
pub struct UISettings {
    pub theme: String,
    pub language: String,
    pub timezone: String,
}

#[derive(Clone, Debug)]
pub struct LoggingSettings {
    pub level: String,
    pub file: String,
    pub max_size: String,
    pub max_files: u32,
}

#[derive(Clone, Debug)]
pub struct SecuritySettings {
    pub session_timeout: u32,
    pub max_login_attempts: u32,
    pub password_min_length: u32,
}

#[derive(Clone, Debug)]
pub struct EmailSettings {
    pub smtp_host: String,
    pub smtp_port: u16,
    pub smtp_username: String,
    pub smtp_password: String,
    pub from_address: String,
}

/// Where uploaded files are kept. `storage_type` is the `type` key of the
/// configuration file.
#[derive(Clone, Debug)]
pub struct StorageSettings {
    pub storage_type: String,
    pub path: String,
    pub max_file_size: String,
    pub allowed_types: Vec<String>,
}

#[derive(Clone, Debug)]
pub struct AnalyticsSettings {
    pub enabled: bool,
    pub provider: String,
    pub tracking_id: String,
}

/// The texts of a list of strings.
pub open spec fn texts(v: Seq<String>) -> Seq<Seq<char>> {
    v.map_values(|s: String| s@)
}

/// The texts of `items` separated by `sep`.
pub open spec fn joined(items: Seq<Seq<char>>, sep: Seq<char>) -> Seq<char>
    decreases items.len(),
{
    if items.len() == 0 {
        Seq::empty()
    } else if items.len() == 1 {
        items[0]
    } else {
        joined(items.drop_last(), sep) + sep + items.last()
    }
}

/// How a switch is described: enabled or disabled.
pub open spec fn switch_text(on: bool) -> Seq<char> {
    if on { "启用"@ } else { "禁用"@ }
}

fn switch_str(on: bool) -> (s: &'static str)
    ensures
        s@ == switch_text(on),
{
    if on { "启用" } else { "禁用" }
}

/// Appends the strings of `items`, separated by `sep`, to `out`.
pub fn push_joined(out: &mut String, items: &Vec<String>, sep: &str)
    ensures
        final(out)@ == old(out)@ + joined(texts(items@), sep@),
{
    let ghost start = out@;
    let n = items.len();
    let mut i: usize = 0;
    while i < n
        invariant
            n == items@.len(),
            i <= n,
            out@ == start + joined(texts(items@).take(i as int), sep@),
        decreases n - i,
    {
        let ghost before = out@;
        if i != 0 {
            out.append(sep);
        }
        out.append(items[i].as_str());
        proof {
            let t = texts(items@);
            assert(t.take(i + 1).drop_last() =~= t.take(i as int));
            assert(t.take(i + 1).last() == items@[i as int]@);
            if i == 0 {
                assert(t.take(0) =~= Seq::<Seq<char>>::empty());
            }
            assert(out@ =~= start + joined(t.take(i + 1), sep@));
        }
        i = i + 1;
    }
    assert(texts(items@).take(n as int) =~= texts(items@));
}

impl AppSettings {
    /// The one-line description: name, version and description.
    pub open spec fn text(&self) -> Seq<char> {
        "名称: "@ + self.name@ + ", 版本: "@ + self.version@ + ", 描述: "@ + self.description@
    }

    pub fn to_string(&self) -> (s: String)
        ensures
            s@ == self.text(),
    {
        let mut s = "名称: ".to_owned();
        s.append(self.name.as_str());
        s.append(", 版本: ");
        s.append(self.version.as_str());
        s.append(", 描述: ");
        s.append(self.description.as_str());
        s
    }
}

impl ServerSettings {
    /// The one-line description: host, port and whether debugging is on.
    pub open spec fn text(&self) -> Seq<char> {
        "主机: "@ + self.host@ + ", 端口: "@ + decimal(self.port as nat) + ", 调试: "@ + switch_text(self.debug)
    }

    pub fn to_string(&self) -> (s: String)
        ensures
            s@ == self.text(),
    {
        let mut s = "主机: ".to_owned();
        s.append(self.host.as_str());
        s.append(", 端口: ");
        push_decimal(&mut s, self.port as u64);
        s.append(", 调试: ");
        s.append(switch_str(self.debug));
        s
    }
}

impl FeatureSettings {
    /// The one-line description: which features are on.
    pub open spec fn text(&self) -> Seq<char> {
        "认证: "@ + switch_text(self.auth) + ", API: "@ + switch_text(self.api) + ", WebSocket: "@
            + switch_text(self.websocket) + ", 缓存: "@ + switch_text(self.caching)
    }

    pub fn to_string(&self) -> (s: String)
        ensures
            s@ == self.text(),
    {
        let mut s = "认证: ".to_owned();
        s.append(switch_str(self.auth));
        s.append(", API: ");
        s.append(switch_str(self.api));
        s.append(", WebSocket: ");
        s.append(switch_str(self.websocket));
        s.append(", 缓存: ");
        s.append(switch_str(self.caching));
        s
    }
}

impl UISettings {
    /// The one-line description: theme, language and time zone.
    pub open spec fn text(&self) -> Seq<char> {
        "主题: "@ + self.theme@ + ", 语言: "@ + self.language@ + ", 时区: "@ + self.timezone@
    }

    pub fn to_string(&self) -> (s: String)
        ensures
            s@ == self.text(),
    {
        let mut s = "主题: ".to_owned();
        s.append(self.theme.as_str());
        s.append(", 语言: ");
        s.append(self.language.as_str());
        s.append(", 时区: ");
        s.append(self.timezone.as_str());
        s
    }
}

impl SecuritySettings {
    /// The one-line description: session timeout, login attempts and password length.
    pub open spec fn text(&self) -> Seq<char> {
        "会话超时: "@ + decimal(self.session_timeout as nat) + "秒, 最大登录尝试: "@ + decimal(
            self.max_login_attempts as nat,
        ) + ", 密码最小长度: "@ + decimal(self.password_min_length as nat)
    }

    pub fn to_string(&self) -> (s: String)
        ensures
            s@ == self.text(),
    {
        let mut s = "会话超时: ".to_owned();
        push_decimal(&mut s, self.session_timeout as u64);
        s.append("秒, 最大登录尝试: ");
        push_decimal(&mut s, self.max_login_attempts as u64);
        s.append(", 密码最小长度: ");
        push_decimal(&mut s, self.password_min_length as u64);
        s
    }
}

impl StorageSettings {
    /// The one-line description: type, path, size limit and allowed types.
    pub open spec fn text(&self) -> Seq<char> {
        "类型: "@ + self.storage_type@ + ", 路径: "@ + self.path@ + ", 最大文件大小: "@
            + self.max_file_size@ + ", 允许类型: "@ + joined(texts(self.allowed_types@), ", "@)
    }

    pub fn to_string(&self) -> (s: String)
        ensures
            s@ == self.text(),
    {
        let mut s = "类型: ".to_owned();
        s.append(self.storage_type.as_str());
        s.append(", 路径: ");
        s.append(self.path.as_str());
        s.append(", 最大文件大小: ");
        s.append(self.max_file_size.as_str());
        s.append(", 允许类型: ");
        push_joined(&mut s, &self.allowed_types, ", ");
        s
    }
}


impl AppConfig {
    /// Whether `c` holds the built-in defaults.
    pub open spec fn is_default(c: AppConfig) -> bool {
        &&& c.app.name@ == "Liwin"@
        &&& c.app.version@ == "0.1.0"@
        &&& c.app.description@ == "A modern web application template"@
        &&& c.server.host@ == "127.0.0.1"@
        &&& c.server.port == 8080
        &&& c.server.debug
        &&& c.database.url@ == "sqlite:./data/app.db"@
        &&& c.database.pool_size == 10
        &&& c.features.auth
        &&& c.features.api
        &&& !c.features.websocket
        &&& c.features.caching
        &&& c.ui.theme@ == "light"@
        &&& c.ui.language@ == "zh-CN"@
        &&& c.ui.timezone@ == "Asia/Shanghai"@
        &&& c.logging.level@ == "info"@
        &&& c.logging.file@ == "./logs/app.log"@
        &&& c.logging.max_size@ == "10MB"@
        &&& c.logging.max_files == 5
        &&& c.security.session_timeout == 3600
        &&& c.security.max_login_attempts == 5
        &&& c.security.password_min_length == 8
        &&& c.email.smtp_host@ == "smtp.example.com"@
        &&& c.email.smtp_port == 587
        &&& c.email.smtp_username@ == "your-email@example.com"@
        &&& c.email.smtp_password@ == "your-password"@
        &&& c.email.from_address@ == "noreply@example.com"@
        &&& c.storage.storage_type@ == "local"@
        &&& c.storage.path@ == "./uploads"@
        &&& c.storage.max_file_size@ == "10MB"@
        &&& texts(c.storage.allowed_types@) == seq!["jpg"@, "png"@, "pdf"@, "doc"@]
        &&& !c.analytics.enabled
        &&& c.analytics.provider@ == "google"@
        &&& c.analytics.tracking_id@ == ""@
    }

    /// The built-in configuration.
    pub fn get_default() -> (c: AppConfig)
        ensures
            AppConfig::is_default(c),
    {
        let mut allowed_types: Vec<String> = Vec::new();
        allowed_types.push("jpg".to_owned());
        allowed_types.push("png".to_owned());
        allowed_types.push("pdf".to_owned());
        allowed_types.push("doc".to_owned());
        let c = AppConfig {
            app: AppSettings {
                name: "Liwin".to_owned(),
                version: "0.1.0".to_owned(),
                description: "A modern web application template".to_owned(),
            },
            server: ServerSettings { host: "127.0.0.1".to_owned(), port: 8080, debug: true },
            database: DatabaseSettings { url: "sqlite:./data/app.db".to_owned(), pool_size: 10 },
            features: FeatureSettings { auth: true, api: true, websocket: false, caching: true },
            ui: UISettings {
                theme: "light".to_owned(),
                language: "zh-CN".to_owned(),
                timezone: "Asia/Shanghai".to_owned(),
            },
            logging: LoggingSettings {
                level: "info".to_owned(),
                file: "./logs/app.log".to_owned(),
                max_size: "10MB".to_owned(),
                max_files: 5,
            },
            security: SecuritySettings {
                session_timeout: 3600,
                max_login_attempts: 5,
                password_min_length: 8,
            },
            email: EmailSettings {
                smtp_host: "smtp.example.com".to_owned(),
                smtp_port: 587,
                smtp_username: "your-email@example.com".to_owned(),
                smtp_password: "your-password".to_owned(),
                from_address: "noreply@example.com".to_owned(),
            },
            storage: StorageSettings {
                storage_type: "local".to_owned(),
                path: "./uploads".to_owned(),
                max_file_size: "10MB".to_owned(),
                allowed_types,
            },
            analytics: AnalyticsSettings {
                enabled: false,
                provider: "google".to_owned(),
                tracking_id: "".to_owned(),
            },
        };
        assert(texts(c.storage.allowed_types@) =~= seq!["jpg"@, "png"@, "pdf"@, "doc"@]);
        c
    }
}

/// Where the configuration comes from.
#[derive(Clone, Copy, PartialEq, Eq, Structural, Debug)]
pub enum ConfigSource {
    /// The configuration file exists and is read as it is.
    Existing,
    /// The example file is first copied to the configuration file.
    CopiedFromExample,
}

/// Why no configuration can be read.
#[derive(Clone, Copy, PartialEq, Eq, Structural, Debug)]
pub enum ConfigError {
    /// Neither the configuration file nor the example file exists.
    Missing,
}

impl ConfigError {
    /// The text of the error.
    pub open spec fn text(&self) -> Seq<char> {
        match self {
            ConfigError::Missing => "配置文件不存在且示例文件也不存在"@,
        }
    }

    pub fn to_string(&self) -> (s: String)
        ensures
            s@ == self.text(),
    {
        match self {
            ConfigError::Missing => "配置文件不存在且示例文件也不存在".to_owned(),
        }
    }
}

/// Where to read the configuration from, given which of the configuration
/// file and the example file exist: the configuration file when it exists,
/// else a copy of the example, else nowhere.
pub fn config_source(config_exists: bool, example_exists: bool) -> (r: Result<ConfigSource, ConfigError>)
    ensures
        config_exists ==> r == Ok::<ConfigSource, ConfigError>(ConfigSource::Existing),
        !config_exists && example_exists ==> r == Ok::<ConfigSource, ConfigError>(ConfigSource::CopiedFromExample),
        !config_exists && !example_exists ==> r == Err::<ConfigSource, ConfigError>(ConfigError::Missing),
{
    if config_exists {
        Ok(ConfigSource::Existing)
    } else if example_exists {
        Ok(ConfigSource::CopiedFromExample)
    } else {
        Err(ConfigError::Missing)
    }
}
} // verus!
