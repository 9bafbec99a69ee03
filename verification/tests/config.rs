use music_bot::config::{ConfigData, Database, General};

#[test]
fn config_holds_its_three_settings() {
    let config = ConfigData {
        general: General { token: "token-of-the-bot".to_string(), prefix: "~".to_string() },
        database: Database { database_url: "postgres://localhost/bot".to_string() },
    };
    assert_eq!(config.general.token, "token-of-the-bot");
    assert_eq!(config.general.prefix, "~");
    assert_eq!(config.database.database_url, "postgres://localhost/bot");
}
