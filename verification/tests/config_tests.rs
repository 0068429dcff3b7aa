use liwin::config::{config_source, AppConfig, ConfigError, ConfigSource};

#[test]
fn default_config_holds_the_built_in_values() {
    let c = AppConfig::get_default();
    assert_eq!(c.app.name, "Liwin");
    assert_eq!(c.app.version, "0.1.0");
    assert_eq!(c.app.description, "A modern web application template");
    assert_eq!(c.server.host, "127.0.0.1");
    assert_eq!(c.server.port, 8080);
    assert!(c.server.debug);
    assert_eq!(c.database.url, "sqlite:./data/app.db");
    assert_eq!(c.database.pool_size, 10);
    assert!(c.features.auth && c.features.api && !c.features.websocket && c.features.caching);
    assert_eq!(c.ui.theme, "light");
    assert_eq!(c.ui.language, "zh-CN");
    assert_eq!(c.ui.timezone, "Asia/Shanghai");
    assert_eq!(c.logging.level, "info");
    assert_eq!(c.logging.file, "./logs/app.log");
    assert_eq!(c.logging.max_size, "10MB");
    assert_eq!(c.logging.max_files, 5);
    assert_eq!(c.security.session_timeout, 3600);
    assert_eq!(c.security.max_login_attempts, 5);
    assert_eq!(c.security.password_min_length, 8);
    assert_eq!(c.email.smtp_host, "smtp.example.com");
    assert_eq!(c.email.smtp_port, 587);
    assert_eq!(c.email.smtp_username, "your-email@example.com");
    assert_eq!(c.email.smtp_password, "your-password");
    assert_eq!(c.email.from_address, "noreply@example.com");
    assert_eq!(c.storage.storage_type, "local");
    assert_eq!(c.storage.path, "./uploads");
    assert_eq!(c.storage.max_file_size, "10MB");
    assert_eq!(c.storage.allowed_types, vec!["jpg", "png", "pdf", "doc"]);
    assert!(!c.analytics.enabled);
    assert_eq!(c.analytics.provider, "google");
    assert_eq!(c.analytics.tracking_id, "");
}

#[test]
fn ui_settings_describe_theme_language_and_timezone() {
    let c = AppConfig::get_default();
    assert_eq!(c.ui.to_string(), "主题: light, 语言: zh-CN, 时区: Asia/Shanghai");
}

#[test]
fn app_settings_describe_name_version_and_description() {
    let c = AppConfig::get_default();
    assert_eq!(
        c.app.to_string(),
        "名称: Liwin, 版本: 0.1.0, 描述: A modern web application template"
    );
}

#[test]
fn server_settings_describe_host_port_and_debug() {
    let mut c = AppConfig::get_default();
    assert_eq!(c.server.to_string(), "主机: 127.0.0.1, 端口: 8080, 调试: 启用");
    c.server.debug = false;
    c.server.port = 0;
    assert_eq!(c.server.to_string(), "主机: 127.0.0.1, 端口: 0, 调试: 禁用");
    c.server.port = 65535;
    assert_eq!(c.server.to_string(), "主机: 127.0.0.1, 端口: 65535, 调试: 禁用");
}

#[test]
fn feature_settings_describe_each_switch() {
    let c = AppConfig::get_default();
    assert_eq!(
        c.features.to_string(),
        "认证: 启用, API: 启用, WebSocket: 禁用, 缓存: 启用"
    );
}

#[test]
fn security_settings_describe_limits() {
    let mut c = AppConfig::get_default();
    assert_eq!(
        c.security.to_string(),
        "会话超时: 3600秒, 最大登录尝试: 5, 密码最小长度: 8"
    );
    c.security.session_timeout = u32::MAX;
    c.security.max_login_attempts = 10;
    c.security.password_min_length = 0;
    assert_eq!(
        c.security.to_string(),
        "会话超时: 4294967295秒, 最大登录尝试: 10, 密码最小长度: 0"
    );
}

#[test]
fn storage_settings_join_allowed_types() {
    let mut c = AppConfig::get_default();
    assert_eq!(
        c.storage.to_string(),
        "类型: local, 路径: ./uploads, 最大文件大小: 10MB, 允许类型: jpg, png, pdf, doc"
    );
    c.storage.allowed_types = vec![];
    assert_eq!(
        c.storage.to_string(),
        "类型: local, 路径: ./uploads, 最大文件大小: 10MB, 允许类型: "
    );
    c.storage.allowed_types = vec!["gif".to_string()];
    assert_eq!(
        c.storage.to_string(),
        "类型: local, 路径: ./uploads, 最大文件大小: 10MB, 允许类型: gif"
    );
}

#[test]
fn configuration_is_read_from_the_file_when_it_exists() {
    assert_eq!(config_source(true, true), Ok(ConfigSource::Existing));
    assert_eq!(config_source(true, false), Ok(ConfigSource::Existing));
}

#[test]
fn missing_configuration_is_copied_from_the_example() {
    assert_eq!(config_source(false, true), Ok(ConfigSource::CopiedFromExample));
}

#[test]
fn missing_configuration_and_example_is_an_error() {
    assert_eq!(config_source(false, false), Err(ConfigError::Missing));
    assert_eq!(ConfigError::Missing.to_string(), "配置文件不存在且示例文件也不存在");
}
