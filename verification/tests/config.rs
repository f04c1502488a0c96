use search_bot_rs::config::{
    default_dry_run, load_config, parse_bool, AppConfig, AppEnv, ConfigError, EsConfig,
    MigrationConfig, MigrationEnv, MigrationSettings, MongoDbConfig, NumberField, RequiredVar,
    WebhookConfig,
};

fn no_env() -> AppEnv {
    AppEnv {
        bot_token: None,
        elasticsearch_url: None,
        elasticsearch_index: None,
        indexer_batch_size: None,
        indexer_flush_interval_ms: None,
        search_default_page_size: None,
        search_max_page_size: None,
        webhook_url: None,
        webhook_listen_addr: None,
        webhook_port: None,
    }
}

fn with_token() -> AppEnv {
    AppEnv { bot_token: Some("123:abc".to_string()), ..no_env() }
}

fn some(s: &str) -> Option<String> {
    Some(s.to_string())
}

#[test]
fn webhook_is_enabled_by_a_url() {
    let mut webhook = WebhookConfig::default();
    assert!(!webhook.is_enabled());
    webhook.url = "https://example.com".to_string();
    assert!(webhook.is_enabled());
}

#[test]
fn webhook_default_listens_everywhere_on_8443() {
    let webhook = WebhookConfig::default();
    assert_eq!(webhook.url, "");
    assert_eq!(webhook.listen_addr, "0.0.0.0");
    assert_eq!(webhook.port, 8443);
}

#[test]
fn defaults_are_as_documented() {
    let config = AppConfig::defaults();
    assert_eq!(config.telegram.bot_token, "");
    assert_eq!(config.elasticsearch.url, "http://localhost:9200");
    assert_eq!(config.elasticsearch.index_name, "telegram_messages");
    assert_eq!(config.indexer.batch_size, 50);
    assert_eq!(config.indexer.flush_interval_ms, 5000);
    assert_eq!(config.search.default_page_size, 5);
    assert_eq!(config.search.max_page_size, 20);
    assert!(!config.webhook.is_enabled());
}

#[test]
fn dry_run_is_off_by_default() {
    assert!(!default_dry_run());
}

#[test]
fn defaults_alone_lack_a_token() {
    assert_eq!(AppConfig::load(AppConfig::defaults(), no_env()).unwrap_err(), ConfigError::MissingToken);
}

#[test]
fn placeholder_token_is_no_token() {
    let env = AppEnv { bot_token: some("YOUR_BOT_TOKEN_HERE"), ..no_env() };
    assert_eq!(AppConfig::load(AppConfig::defaults(), env).unwrap_err(), ConfigError::MissingToken);
    let mut base = AppConfig::defaults();
    base.telegram.bot_token = "YOUR_BOT_TOKEN_HERE".to_string();
    assert_eq!(AppConfig::load(base, no_env()).unwrap_err(), ConfigError::MissingToken);
}

#[test]
fn environment_replaces_what_the_file_says() {
    let env = AppEnv {
        bot_token: some("123:abc"),
        elasticsearch_url: some("http://es:9200"),
        elasticsearch_index: some("idx"),
        indexer_batch_size: some("7"),
        indexer_flush_interval_ms: some("250"),
        search_default_page_size: some("3"),
        search_max_page_size: some("9"),
        webhook_url: some("https://bot.example"),
        webhook_listen_addr: some("127.0.0.1"),
        webhook_port: some("8080"),
    };
    let config = AppConfig::load(AppConfig::defaults(), env).unwrap();
    assert_eq!(config.telegram.bot_token, "123:abc");
    assert_eq!(config.elasticsearch.url, "http://es:9200");
    assert_eq!(config.elasticsearch.index_name, "idx");
    assert_eq!(config.indexer.batch_size, 7);
    assert_eq!(config.indexer.flush_interval_ms, 250);
    assert_eq!(config.search.default_page_size, 3);
    assert_eq!(config.search.max_page_size, 9);
    assert_eq!(config.webhook.url, "https://bot.example");
    assert_eq!(config.webhook.listen_addr, "127.0.0.1");
    assert_eq!(config.webhook.port, 8080);
}

#[test]
fn what_the_environment_leaves_out_stays() {
    let config = AppConfig::load(AppConfig::defaults(), with_token()).unwrap();
    assert_eq!(config.telegram.bot_token, "123:abc");
    assert_eq!(config.elasticsearch.index_name, "telegram_messages");
    assert_eq!(config.indexer.batch_size, 50);
    assert_eq!(config.webhook.port, 8443);
}

#[test]
fn a_number_that_is_none_is_refused_by_its_field() {
    let cases = [
        (AppEnv { indexer_batch_size: some("many"), ..with_token() }, NumberField::IndexerBatchSize),
        (AppEnv { indexer_flush_interval_ms: some("-1"), ..with_token() }, NumberField::IndexerFlushIntervalMs),
        (AppEnv { search_default_page_size: some(""), ..with_token() }, NumberField::SearchDefaultPageSize),
        (AppEnv { search_max_page_size: some("1.5"), ..with_token() }, NumberField::SearchMaxPageSize),
        (AppEnv { webhook_port: some("65536"), ..with_token() }, NumberField::WebhookPort),
    ];
    for (env, field) in cases {
        assert_eq!(
            AppConfig::load(AppConfig::defaults(), env).unwrap_err(),
            ConfigError::InvalidNumber(field)
        );
    }
}

#[test]
fn a_bad_number_is_reported_before_a_missing_token() {
    let env = AppEnv { webhook_port: some("x"), indexer_batch_size: some("y"), ..no_env() };
    assert_eq!(
        AppConfig::load(AppConfig::defaults(), env).unwrap_err(),
        ConfigError::InvalidNumber(NumberField::IndexerBatchSize)
    );
}

fn migration_env() -> MigrationEnv {
    MigrationEnv {
        mongodb_uri: some("mongodb://localhost"),
        mongodb_database: some("bot"),
        mongodb_collection: None,
        elasticsearch_url: some("http://localhost:9200"),
        elasticsearch_index: some("telegram_messages"),
        batch_size: None,
        dry_run: None,
    }
}

fn migration_file() -> MigrationConfig {
    MigrationConfig {
        mongodb: MongoDbConfig {
            uri: "mongodb://file".to_string(),
            database: "filedb".to_string(),
            collection: "logs".to_string(),
        },
        elasticsearch: EsConfig { url: "http://file:9200".to_string(), index_name: "fileidx".to_string() },
        migration: MigrationSettings { batch_size: 100, dry_run: true },
    }
}

#[test]
fn truth_values_are_true_and_false() {
    assert_eq!(parse_bool("true"), Some(true));
    assert_eq!(parse_bool("false"), Some(false));
    assert_eq!(parse_bool("True"), None);
    assert_eq!(parse_bool("1"), None);
    assert_eq!(parse_bool(""), None);
}

#[test]
fn backfill_settings_from_the_environment_alone() {
    let config = load_config(None, migration_env()).unwrap();
    assert_eq!(config.mongodb.uri, "mongodb://localhost");
    assert_eq!(config.mongodb.database, "bot");
    assert_eq!(config.mongodb.collection, "messages");
    assert_eq!(config.elasticsearch.url, "http://localhost:9200");
    assert_eq!(config.elasticsearch.index_name, "telegram_messages");
    assert_eq!(config.migration.batch_size, 500);
    assert!(!config.migration.dry_run);
}

#[test]
fn backfill_settings_name_their_collection() {
    let env = MigrationEnv { mongodb_collection: some("botlog"), ..migration_env() };
    assert_eq!(load_config(None, env).unwrap().mongodb.collection, "botlog");
}

#[test]
fn backfill_needs_both_stores_named() {
    let cases = [
        (MigrationEnv { mongodb_uri: None, mongodb_database: None, ..migration_env() }, RequiredVar::MongodbUri),
        (MigrationEnv { mongodb_database: None, ..migration_env() }, RequiredVar::MongodbDatabase),
        (MigrationEnv { elasticsearch_url: None, ..migration_env() }, RequiredVar::ElasticsearchUrl),
        (MigrationEnv { elasticsearch_index: None, ..migration_env() }, RequiredVar::ElasticsearchIndex),
    ];
    for (env, var) in cases {
        assert_eq!(load_config(None, env).unwrap_err(), ConfigError::MissingVar(var));
    }
}

#[test]
fn a_settings_file_needs_no_environment() {
    let env = MigrationEnv {
        mongodb_uri: None,
        mongodb_database: None,
        mongodb_collection: None,
        elasticsearch_url: None,
        elasticsearch_index: None,
        batch_size: None,
        dry_run: None,
    };
    let config = load_config(Some(migration_file()), env).unwrap();
    assert_eq!(config.mongodb.uri, "mongodb://file");
    assert_eq!(config.mongodb.collection, "logs");
    assert_eq!(config.elasticsearch.index_name, "fileidx");
    assert_eq!(config.migration.batch_size, 100);
    assert!(config.migration.dry_run);
}

#[test]
fn environment_has_the_last_word_on_batch_size_and_dry_run() {
    let env = MigrationEnv { batch_size: some("2"), dry_run: some("false"), ..migration_env() };
    let config = load_config(Some(migration_file()), env).unwrap();
    assert_eq!(config.migration.batch_size, 2);
    assert!(!config.migration.dry_run);
    assert_eq!(config.mongodb.uri, "mongodb://file");
    let from_env = MigrationEnv { batch_size: some("2"), dry_run: some("true"), ..migration_env() };
    let config = load_config(None, from_env).unwrap();
    assert_eq!(config.migration.batch_size, 2);
    assert!(config.migration.dry_run);
}

#[test]
fn invalid_overrides_are_passed_over() {
    let env = MigrationEnv { batch_size: some("lots"), dry_run: some("yes"), ..migration_env() };
    let config = load_config(Some(migration_file()), env).unwrap();
    assert_eq!(config.migration.batch_size, 100);
    assert!(config.migration.dry_run);
    let env = MigrationEnv { batch_size: some("lots"), dry_run: some("yes"), ..migration_env() };
    let config = load_config(None, env).unwrap();
    assert_eq!(config.migration.batch_size, 500);
    assert!(!config.migration.dry_run);
}
