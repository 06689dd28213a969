use sorai::config::app::AppConfig;
use sorai::config::builder::{
    flag_string, join, number_with_unit, or_not_set, push_item, redact_sensitive, Config,
    ConfigItem,
};
use sorai::config::cors::CorsConfig;
use sorai::config::database::DatabaseConfig;
use sorai::config::logging::LoggingConfig;
use sorai::config::mailer::MailerConfig;
use sorai::config::providers::{
    AnthropicConfig, AzureOpenAIConfig, BedrockConfig, CohereConfig, OpenAIConfig, VertexConfig,
};
use sorai::config::session::SessionConfig;
use sorai::config::sorai::SoraiConfig;
use sorai::config::storage::StorageConfig;

fn triples(items: &[ConfigItem]) -> Vec<(&str, &str, &str)> {
    items.iter().map(|i| (i.section.as_str(), i.key.as_str(), i.value.as_str())).collect()
}

#[test]
fn redaction_of_secrets() {
    assert_eq!(redact_sensitive(""), "<not set>");
    assert_eq!(redact_sensitive("a"), "*");
    assert_eq!(redact_sensitive("12345678"), "********");
    assert_eq!(redact_sensitive("123456789"), "1234...6789");
    assert_eq!(redact_sensitive("sk-proj-abcdefghijklmnop"), "sk-p...mnop");
}

#[test]
fn redaction_counts_bytes() {
    assert_eq!(redact_sensitive("éééé"), "********");
    assert_eq!(redact_sensitive("ééééééééé"), "éé...éé");
    assert_eq!(redact_sensitive("日本語日本語"), "*".repeat(18));
    assert_eq!(redact_sensitive("abcd日本語wxyz"), "abcd...wxyz");
}

#[test]
fn display_helpers() {
    assert_eq!(or_not_set(&String::new()), "<not set>");
    assert_eq!(or_not_set(&"x".to_string()), "x");
    assert_eq!(flag_string(true), "true");
    assert_eq!(flag_string(false), "false");
    assert_eq!(number_with_unit(3600, "s"), "3600s");
    assert_eq!(number_with_unit(0, " bytes"), "0 bytes");
    assert_eq!(join(&vec![], ", "), "");
    assert_eq!(join(&vec!["a".to_string()], ", "), "a");
    assert_eq!(join(&vec!["a".to_string(), "".to_string(), "c".to_string()], ", "), "a, , c");
}

#[test]
fn push_item_appends_one_row() {
    let mut items = Vec::new();
    push_item(&mut items, "S", "K", "V".to_string());
    push_item(&mut items, "S2", "K2", "V2".to_string());
    assert_eq!(triples(&items), vec![("S", "K", "V"), ("S2", "K2", "V2")]);
}

#[test]
fn sorai_rows() {
    let mut items = vec![ConfigItem {
        section: "Before".to_string(),
        key: "k".to_string(),
        value: "v".to_string(),
    }];
    SoraiConfig::default().add_to_debug(&mut items);
    assert_eq!(
        triples(&items),
        vec![
            ("Before", "k", "v"),
            ("Sorai", "Host", "0.0.0.0"),
            ("Sorai", "Port", "8000"),
            ("Sorai", "Pool Size", "300"),
            ("Sorai", "Timeout Request", "30s"),
        ]
    );
}

#[test]
fn app_rows() {
    let mut config = AppConfig::default();
    config.secret_key = "0123456789abcdef".to_string();
    config.data_dir = String::new();
    let mut items = Vec::new();
    config.add_to_debug(&mut items);
    assert_eq!(
        triples(&items),
        vec![
            ("App", "Mode", "development"),
            ("App", "Data Directory", "<not set>"),
            ("App", "Secret Key", "0123...cdef"),
            ("JWT", "Secret Key", "<not set>"),
            ("JWT", "Access Token Expiry", "900s"),
            ("JWT", "Refresh Token Expiry", "7200s"),
        ]
    );
}

#[test]
fn cors_rows() {
    let mut items = Vec::new();
    CorsConfig::default().add_to_debug(&mut items);
    assert_eq!(
        triples(&items),
        vec![
            ("CORS", "Enabled", "true"),
            ("CORS", "Allow Origins", "*"),
            ("CORS", "Allow Methods", "GET, POST, PUT, DELETE, HEAD, OPTIONS, PATCH"),
            (
                "CORS",
                "Allow Headers",
                "accept, accept-language, authorization, content-type, user-agent, x-requested-id"
            ),
            ("CORS", "Allow Credentials", "false"),
            ("CORS", "Max Age", "3600s"),
        ]
    );
    assert!(CorsConfig::default().expose_headers.is_empty());
}

#[test]
fn database_rows() {
    let mut items = Vec::new();
    DatabaseConfig::default().add_to_debug(&mut items);
    assert_eq!(
        triples(&items),
        vec![
            ("Database", "URL", "<not set>"),
            ("Database", "Token", "<not set>"),
            ("Database", "Auto Migrate", "false"),
        ]
    );
    let config = DatabaseConfig {
        url: "libsql://db".to_string(),
        token: "secret".to_string(),
        auto_migrate: true,
    };
    let mut items = Vec::new();
    config.add_to_debug(&mut items);
    assert_eq!(
        triples(&items),
        vec![
            ("Database", "URL", "libsql://db"),
            ("Database", "Token", "***"),
            ("Database", "Auto Migrate", "true"),
        ]
    );
}

#[test]
fn logging_mailer_session_rows() {
    let mut items = Vec::new();
    LoggingConfig::default().add_to_debug(&mut items);
    assert_eq!(
        triples(&items),
        vec![
            ("Logging", "Show Timestamp", "true"),
            ("Logging", "Level", "info"),
            ("Logging", "Log Directory", "./logs"),
            ("Logging", "Rotation", "daily"),
        ]
    );
    let mut items = Vec::new();
    let mut mailer = MailerConfig::default();
    mailer.smtp_password = "hunter2hunter2".to_string();
    mailer.add_to_debug(&mut items);
    assert_eq!(
        triples(&items),
        vec![
            ("Mailer", "From Email", "noreply@example.com"),
            ("Mailer", "From Name", "Sorai"),
            ("Mailer", "SMTP Host", "localhost"),
            ("Mailer", "SMTP Port", "587"),
            ("Mailer", "SMTP Username", ""),
            ("Mailer", "SMTP Password", "hunt...ter2"),
            ("Mailer", "SMTP Secure", "true"),
        ]
    );
    let mut items = Vec::new();
    SessionConfig { storage: "memory".to_string() }.add_to_debug(&mut items);
    assert_eq!(triples(&items), vec![("Session", "Storage", "memory")]);
}

#[test]
fn storage_rows() {
    let mut config = StorageConfig::default();
    config.s3_path_prefix = Some("uploads".to_string());
    config.s3_access_key_id = "AKIA".to_string();
    let mut items = Vec::new();
    config.add_to_debug(&mut items);
    assert_eq!(
        triples(&items),
        vec![
            ("Storage", "S3 Access Key ID", "****"),
            ("Storage", "S3 Secret Access Key", "<not set>"),
            ("Storage", "S3 Bucket Default", ""),
            ("Storage", "S3 Force Path Style", "true"),
            ("Storage", "S3 Path Prefix", "uploads"),
            ("Storage", "S3 Endpoint URL", ""),
            ("Storage", "S3 Public URL", ""),
            ("Storage", "S3 Region", "auto"),
            ("Storage", "S3 Signed URL Expires", "3600s"),
            ("Storage", "Max Upload Size", "5242880 bytes"),
        ]
    );
    let mut items = Vec::new();
    StorageConfig::default().add_to_debug(&mut items);
    assert_eq!(items[4].value, "<not set>");
}

#[test]
fn provider_rows() {
    let mut items = Vec::new();
    OpenAIConfig::default().add_to_debug(&mut items);
    AnthropicConfig::default().add_to_debug(&mut items);
    BedrockConfig::default().add_to_debug(&mut items);
    CohereConfig::default().add_to_debug(&mut items);
    AzureOpenAIConfig::default().add_to_debug(&mut items);
    VertexConfig::default().add_to_debug(&mut items);
    assert_eq!(
        triples(&items),
        vec![
            ("OpenAI", "API Key", "<not set>"),
            ("Anthropic", "API Key", "<not set>"),
            ("Anthropic", "Base URL", "<default>"),
            ("AWS Bedrock", "API Key", "<not set>"),
            ("AWS Bedrock", "Access Key", "<not set>"),
            ("Cohere", "API Key", "<not set>"),
            ("Azure OpenAI", "API Key", "<not set>"),
            ("Azure OpenAI", "Endpoint", "<not set>"),
            ("Google Vertex AI", "Project ID", "<not set>"),
            ("Google Vertex AI", "Credentials Path", "<not set>"),
        ]
    );
    let mut items = Vec::new();
    let anthropic = AnthropicConfig {
        api_key: "sk-ant-0123456789".to_string(),
        base_url: "https://example.test".to_string(),
    };
    anthropic.add_to_debug(&mut items);
    assert_eq!(
        triples(&items),
        vec![
            ("Anthropic", "API Key", "sk-a...6789"),
            ("Anthropic", "Base URL", "https://example.test"),
        ]
    );
}

#[test]
fn debug_table_order() {
    let rows = Config::default().display_debug_table();
    let sections: Vec<&str> = rows.iter().map(|r| r.section.as_str()).collect();
    assert_eq!(rows.len(), 4 + 4 + 6 + 10);
    assert_eq!(sections[0], "Sorai");
    assert_eq!(sections[4], "Logging");
    assert_eq!(sections[8], "CORS");
    assert_eq!(sections[14], "OpenAI");
    assert_eq!(sections[15], "Anthropic");
    assert_eq!(sections[17], "AWS Bedrock");
    assert_eq!(sections[19], "Cohere");
    assert_eq!(sections[20], "Azure OpenAI");
    assert_eq!(sections[22], "Google Vertex AI");
}
