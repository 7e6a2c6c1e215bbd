use borer::cli::{Cli, Commands, LoginArgs, UpArgs};
use borer::config::{load_config, AppConfig, BorerServerConfig, ConfigError, CreateTokenRequest};

#[test]
fn app_config_holds_login() {
    let c = AppConfig::new("tunnel.example:3002".to_string(), "borer_1".to_string());
    assert_eq!(c.host, "tunnel.example:3002");
    assert_eq!(c.token, "borer_1");
}

#[test]
fn server_config_requires_both_settings() {
    assert_eq!(
        load_config(Some("postgres://db".to_string()), Some("m".to_string())),
        Ok(BorerServerConfig { database_url: "postgres://db".to_string(), master_token: "m".to_string() })
    );
    assert_eq!(load_config(None, Some("m".to_string())), Err(ConfigError::MissingDatabaseUrl));
    assert_eq!(load_config(None, None), Err(ConfigError::MissingDatabaseUrl));
    assert_eq!(load_config(Some("d".to_string()), None), Err(ConfigError::MissingMasterToken));
}

#[test]
fn plain_values() {
    let cli = Cli { command: Commands::Up(UpArgs { local_port: 8080, url: None }) };
    assert_eq!(cli.clone(), cli);
    let login = Commands::Login(LoginArgs { token: "t".into(), remote_path: "h".into() });
    assert_ne!(login, Commands::Logout);
    assert_eq!(CreateTokenRequest { name: None }.name, None);
}
