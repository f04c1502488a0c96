//! Settings of the bot and of the backfill tool.

use vstd::prelude::*;
use vstd::string::StringExecFns;
use crate::decimal::{parse_nat, parse_u16, parse_u64, parse_usize};
use crate::text::str_eq;

verus! {

/// Settings of the whole bot.
#[derive(Debug, Clone)]
pub struct AppConfig {
    pub telegram: TelegramConfig,
    pub elasticsearch: EsConfig,
    pub indexer: IndexerConfig,
    pub search: SearchConfig,
    pub webhook: WebhookConfig,
}

/// Credentials of the chat transport.
#[derive(Debug, Clone)]
pub struct TelegramConfig {
    pub bot_token: String,
}

/// Where the document store is and which index holds the messages.
#[derive(Debug, Clone)]
pub struct EsConfig {
    pub url: String,
    pub index_name: String,
}

/// Thresholds of the ingestion pipeline.
#[derive(Debug, Clone)]
pub struct IndexerConfig {
    /// A batch is written as soon as it holds this many messages.
    pub batch_size: usize,
    /// A batch that is not empty is written at the latest after this long.
    pub flush_interval_ms: u64,
}

/// Paging of search results.
#[derive(Debug, Clone)]
pub struct SearchConfig {
    pub default_page_size: usize,
    pub max_page_size: usize,
}

/// Webhook listener settings. An empty `url` means long polling.
#[derive(Debug, Clone)]
pub struct WebhookConfig {
    /// Public URL that updates are sent to.
    pub url: String,
    /// Address to bind the webhook listener to.
    pub listen_addr: String,
    /// Port of the webhook listener.
    pub port: u16,
}

impl WebhookConfig {
    /// Webhook mode is on exactly when a public URL is configured.
    pub fn is_enabled(&self) -> (enabled: bool)
        ensures
            enabled == (self.url@.len() > 0),
    {
        !self.url.as_str().is_empty()
    }
}

impl Default for WebhookConfig {
    /// Long polling: no URL, listening on every address, port 8443.
    fn default() -> (config: Self)
        ensures
            config.url@ == Seq::<char>::empty(),
            config.listen_addr@ == "0.0.0.0"@,
            config.port == 8443,
    {
        WebhookConfig { url: String::new(), listen_addr: String::from_str("0.0.0.0"), port: 8443 }
    }
}

impl AppConfig {
    /// The settings used where no file gives any: a local store, the index
    /// `telegram_messages`, batches of 50 written at least every five
    /// seconds, pages of 5 and at most 20 results, long polling, and no
    /// bot token.
    pub fn defaults() -> (config: Self)
        ensures
            config.telegram.bot_token@ == Seq::<char>::empty(),
            config.elasticsearch.url@ == "http://localhost:9200"@,
            config.elasticsearch.index_name@ == "telegram_messages"@,
            config.indexer.batch_size == 50,
            config.indexer.flush_interval_ms == 5000,
            config.search.default_page_size == 5,
            config.search.max_page_size == 20,
            config.webhook.url@ == Seq::<char>::empty(),
            config.webhook.listen_addr@ == "0.0.0.0"@,
            config.webhook.port == 8443,
    {
        AppConfig {
            telegram: TelegramConfig { bot_token: String::new() },
            elasticsearch: EsConfig {
                url: String::from_str("http://localhost:9200"),
                index_name: String::from_str("telegram_messages"),
            },
            indexer: IndexerConfig { batch_size: 50, flush_interval_ms: 5000 },
            search: SearchConfig { default_page_size: 5, max_page_size: 20 },
            webhook: WebhookConfig::default(),
        }
    }
}

/// Whether the backfill runs dry where nothing says so: it does not.
pub fn default_dry_run() -> (dry_run: bool)
    ensures
        !dry_run,
{
    false
}

/// The token that the sample settings hold in place of a real one.
pub open spec fn placeholder_token() -> Seq<char> {
    "YOUR_BOT_TOKEN_HERE"@
}

/// What the environment says about the bot's settings: for each
/// variable its value, if it is set.
#[derive(Debug, Clone)]
pub struct AppEnv {
    /// `TELOXIDE_TOKEN`
    pub bot_token: Option<String>,
    /// `ELASTICSEARCH_URL`
    pub elasticsearch_url: Option<String>,
    /// `ELASTICSEARCH_INDEX`
    pub elasticsearch_index: Option<String>,
    /// `INDEXER_BATCH_SIZE`
    pub indexer_batch_size: Option<String>,
    /// `INDEXER_FLUSH_INTERVAL_MS`
    pub indexer_flush_interval_ms: Option<String>,
    /// `SEARCH_DEFAULT_PAGE_SIZE`
    pub search_default_page_size: Option<String>,
    /// `SEARCH_MAX_PAGE_SIZE`
    pub search_max_page_size: Option<String>,
    /// `WEBHOOK_URL`
    pub webhook_url: Option<String>,
    /// `WEBHOOK_LISTEN_ADDR`
    pub webhook_listen_addr: Option<String>,
    /// `WEBHOOK_PORT`
    pub webhook_port: Option<String>,
}

/// A setting that holds a number.
#[derive(Clone, Copy, Debug, PartialEq, Eq, Structural)]
pub enum NumberField {
    IndexerBatchSize,
    IndexerFlushIntervalMs,
    SearchDefaultPageSize,
    SearchMaxPageSize,
    WebhookPort,
}

/// A variable that the backfill tool cannot do without.
#[derive(Clone, Copy, Debug, PartialEq, Eq, Structural)]
pub enum RequiredVar {
    MongodbUri,
    MongodbDatabase,
    ElasticsearchUrl,
    ElasticsearchIndex,
}

/// Why settings could not be put together.
#[derive(Clone, Copy, Debug, PartialEq, Eq, Structural)]
pub enum ConfigError {
    /// The environment gives a value for the field that is no number
    /// of the field's range.
    InvalidNumber(NumberField),
    /// No bot token is set, or only the placeholder.
    MissingToken,
    /// There is no file and the variable is not set.
    MissingVar(RequiredVar),
}

/// The text of the environment where it gives one, else `base`.
pub open spec fn text_or(over: Option<String>, base: String) -> String {
    match over {
        Some(v) => v,
        None => base,
    }
}

/// The number up to `max` that the environment gives, or `base` where it
/// gives none; `None` where what it gives is no such number.
pub open spec fn number_or(over: Option<String>, base: int, max: int) -> Option<int> {
    match over {
        Some(v) => match parse_nat(v@) {
            Some(n) => if n <= max {
                Some(n as int)
            } else {
                None
            },
            None => None,
        },
        None => Some(base),
    }
}

/// The first number field for which the environment gives a value that
/// is no number of the field's range.
pub open spec fn first_invalid(base: AppConfig, env: AppEnv) -> Option<NumberField> {
    if number_or(env.indexer_batch_size, base.indexer.batch_size as int, usize::MAX as int)
        is None {
        Some(NumberField::IndexerBatchSize)
    } else if number_or(
        env.indexer_flush_interval_ms,
        base.indexer.flush_interval_ms as int,
        u64::MAX as int,
    ) is None {
        Some(NumberField::IndexerFlushIntervalMs)
    } else if number_or(
        env.search_default_page_size,
        base.search.default_page_size as int,
        usize::MAX as int,
    ) is None {
        Some(NumberField::SearchDefaultPageSize)
    } else if number_or(
        env.search_max_page_size,
        base.search.max_page_size as int,
        usize::MAX as int,
    ) is None {
        Some(NumberField::SearchMaxPageSize)
    } else if number_or(env.webhook_port, base.webhook.port as int, u16::MAX as int) is None {
        Some(NumberField::WebhookPort)
    } else {
        None
    }
}

/// The settings `base` with every value replaced that the environment
/// gives; meaningful where every number of the environment is valid.
pub open spec fn overridden(base: AppConfig, env: AppEnv) -> AppConfig {
    AppConfig {
        telegram: TelegramConfig { bot_token: text_or(env.bot_token, base.telegram.bot_token) },
        elasticsearch: EsConfig {
            url: text_or(env.elasticsearch_url, base.elasticsearch.url),
            index_name: text_or(env.elasticsearch_index, base.elasticsearch.index_name),
        },
        indexer: IndexerConfig {
            batch_size: number_or(
                env.indexer_batch_size,
                base.indexer.batch_size as int,
                usize::MAX as int,
            )->0 as usize,
            flush_interval_ms: number_or(
                env.indexer_flush_interval_ms,
                base.indexer.flush_interval_ms as int,
                u64::MAX as int,
            )->0 as u64,
        },
        search: SearchConfig {
            default_page_size: number_or(
                env.search_default_page_size,
                base.search.default_page_size as int,
                usize::MAX as int,
            )->0 as usize,
            max_page_size: number_or(
                env.search_max_page_size,
                base.search.max_page_size as int,
                usize::MAX as int,
            )->0 as usize,
        },
        webhook: WebhookConfig {
            url: text_or(env.webhook_url, base.webhook.url),
            listen_addr: text_or(env.webhook_listen_addr, base.webhook.listen_addr),
            port: number_or(env.webhook_port, base.webhook.port as int, u16::MAX as int)->0 as u16,
        },
    }
}

/// The settings that `base` and the environment give together, or why
/// they give none: a number of the environment that is none, first; a
/// missing bot token, second.
pub open spec fn load_spec(base: AppConfig, env: AppEnv) -> Result<AppConfig, ConfigError> {
    match first_invalid(base, env) {
        Some(field) => Err(ConfigError::InvalidNumber(field)),
        None => {
            let config = overridden(base, env);
            if config.telegram.bot_token@.len() == 0 || config.telegram.bot_token@
                == placeholder_token() {
                Err(ConfigError::MissingToken)
            } else {
                Ok(config)
            }
        },
    }
}

impl AppConfig {
    /// Puts the settings together: `base`, which comes from the
    /// settings file or from `defaults`, with every value replaced that
    /// the environment gives. The bot token must be set in the end.
    pub fn load(base: AppConfig, env: AppEnv) -> (loaded: Result<AppConfig, ConfigError>)
        ensures
            loaded == load_spec(base, env),
    {
        let mut config = base;
        let AppEnv {
            bot_token,
            elasticsearch_url,
            elasticsearch_index,
            indexer_batch_size,
            indexer_flush_interval_ms,
            search_default_page_size,
            search_max_page_size,
            webhook_url,
            webhook_listen_addr,
            webhook_port,
        } = env;
        match bot_token {
            Some(v) => {
                config.telegram.bot_token = v;
            },
            None => {},
        }
        match elasticsearch_url {
            Some(v) => {
                config.elasticsearch.url = v;
            },
            None => {},
        }
        match elasticsearch_index {
            Some(v) => {
                config.elasticsearch.index_name = v;
            },
            None => {},
        }
        match indexer_batch_size {
            Some(v) => match parse_usize(v.as_str()) {
                Some(n) => {
                    config.indexer.batch_size = n;
                },
                None => {
                    return Err(ConfigError::InvalidNumber(NumberField::IndexerBatchSize));
                },
            },
            None => {},
        }
        match indexer_flush_interval_ms {
            Some(v) => match parse_u64(v.as_str()) {
                Some(n) => {
                    config.indexer.flush_interval_ms = n;
                },
                None => {
                    return Err(ConfigError::InvalidNumber(NumberField::IndexerFlushIntervalMs));
                },
            },
            None => {},
        }
        match search_default_page_size {
            Some(v) => match parse_usize(v.as_str()) {
                Some(n) => {
                    config.search.default_page_size = n;
                },
                None => {
                    return Err(ConfigError::InvalidNumber(NumberField::SearchDefaultPageSize));
                },
            },
            None => {},
        }
        match search_max_page_size {
            Some(v) => match parse_usize(v.as_str()) {
                Some(n) => {
                    config.search.max_page_size = n;
                },
                None => {
                    return Err(ConfigError::InvalidNumber(NumberField::SearchMaxPageSize));
                },
            },
            None => {},
        }
        match webhook_url {
            Some(v) => {
                config.webhook.url = v;
            },
            None => {},
        }
        match webhook_listen_addr {
            Some(v) => {
                config.webhook.listen_addr = v;
            },
            None => {},
        }
        match webhook_port {
            Some(v) => match parse_u16(v.as_str()) {
                Some(n) => {
                    config.webhook.port = n;
                },
                None => {
                    return Err(ConfigError::InvalidNumber(NumberField::WebhookPort));
                },
            },
            None => {},
        }
        if config.telegram.bot_token.as_str().is_empty() || str_eq(
            config.telegram.bot_token.as_str(),
            "YOUR_BOT_TOKEN_HERE",
        ) {
            return Err(ConfigError::MissingToken);
        }
        Ok(config)
    }
}

/// Settings of the backfill tool.
#[derive(Debug, Clone)]
pub struct MigrationConfig {
    pub mongodb: MongoDbConfig,
    pub elasticsearch: EsConfig,
    pub migration: MigrationSettings,
}

/// Where the legacy store is and which collection holds the records.
#[derive(Debug, Clone)]
pub struct MongoDbConfig {
    pub uri: String,
    pub database: String,
    pub collection: String,
}

/// How the backfill runs.
#[derive(Debug, Clone)]
pub struct MigrationSettings {
    /// A batch is written as soon as it holds this many messages.
    pub batch_size: usize,
    /// Whether nothing is written.
    pub dry_run: bool,
}

/// What the environment says about the backfill's settings: for each
/// variable its value, if it is set.
#[derive(Debug, Clone)]
pub struct MigrationEnv {
    /// `MONGODB_URI`
    pub mongodb_uri: Option<String>,
    /// `MONGODB_DATABASE`
    pub mongodb_database: Option<String>,
    /// `MONGODB_COLLECTION`
    pub mongodb_collection: Option<String>,
    /// `ELASTICSEARCH_URL`
    pub elasticsearch_url: Option<String>,
    /// `ELASTICSEARCH_INDEX`
    pub elasticsearch_index: Option<String>,
    /// `MIGRATION_BATCH_SIZE`
    pub batch_size: Option<String>,
    /// `MIGRATION_DRY_RUN`
    pub dry_run: Option<String>,
}

/// The batch size of the backfill where nothing says another.
pub const DEFAULT_MIGRATION_BATCH_SIZE: usize = 500;

/// The truth value that a text names: `true` or `false` and no other.
pub open spec fn bool_of(s: Seq<char>) -> Option<bool> {
    if s == "true"@ {
        Some(true)
    } else if s == "false"@ {
        Some(false)
    } else {
        None
    }
}

/// The first variable that is needed without a settings file and that
/// the environment does not set.
pub open spec fn missing_var(env: MigrationEnv) -> Option<RequiredVar> {
    if env.mongodb_uri is None {
        Some(RequiredVar::MongodbUri)
    } else if env.mongodb_database is None {
        Some(RequiredVar::MongodbDatabase)
    } else if env.elasticsearch_url is None {
        Some(RequiredVar::ElasticsearchUrl)
    } else if env.elasticsearch_index is None {
        Some(RequiredVar::ElasticsearchIndex)
    } else {
        None
    }
}

/// The batch size of the backfill: what the environment gives, where
/// that is a number; else what the file gives; else 500.
pub open spec fn batch_size_spec(file: Option<MigrationConfig>, env: MigrationEnv) -> usize {
    let base = match file {
        Some(f) => f.migration.batch_size,
        None => DEFAULT_MIGRATION_BATCH_SIZE,
    };
    match number_or(env.batch_size, base as int, usize::MAX as int) {
        Some(n) => n as usize,
        None => base,
    }
}

/// Whether the backfill runs dry: what the environment says, where that
/// is `true` or `false`; else what the file says; else no.
pub open spec fn dry_run_spec(file: Option<MigrationConfig>, env: MigrationEnv) -> bool {
    let base = match file {
        Some(f) => f.migration.dry_run,
        None => false,
    };
    match env.dry_run {
        Some(v) => match bool_of(v@) {
            Some(b) => b,
            None => base,
        },
        None => base,
    }
}

/// The truth value that a text names: `true` or `false` and no other.
pub fn parse_bool(s: &str) -> (value: Option<bool>)
    ensures
        value == bool_of(s@),
{
    if str_eq(s, "true") {
        Some(true)
    } else if str_eq(s, "false") {
        Some(false)
    } else {
        None
    }
}

/// Puts the backfill's settings together. With a settings file, the
/// file's settings are taken; without one, the environment must name
/// both stores, and the collection is `messages` unless it names
/// another. Either way the environment has the last word on batch size
/// and dry run, where it gives a valid value for them.
pub fn load_config(file: Option<MigrationConfig>, env: MigrationEnv) -> (loaded: Result<
    MigrationConfig,
    ConfigError,
>)
    ensures
        match loaded {
            Err(e) => {
                &&& file is None
                &&& missing_var(env) is Some
                &&& e == ConfigError::MissingVar(missing_var(env)->0)
            },
            Ok(c) => {
                &&& c.migration.batch_size == batch_size_spec(file, env)
                &&& c.migration.dry_run == dry_run_spec(file, env)
                &&& match file {
                    Some(f) => {
                        &&& c.mongodb == f.mongodb
                        &&& c.elasticsearch == f.elasticsearch
                    },
                    None => {
                        &&& missing_var(env) is None
                        &&& Some(c.mongodb.uri) == env.mongodb_uri
                        &&& Some(c.mongodb.database) == env.mongodb_database
                        &&& c.mongodb.collection@ == match env.mongodb_collection {
                            Some(v) => v@,
                            None => "messages"@,
                        }
                        &&& Some(c.elasticsearch.url) == env.elasticsearch_url
                        &&& Some(c.elasticsearch.index_name) == env.elasticsearch_index
                    },
                }
            },
        },
{
    let MigrationEnv {
        mongodb_uri,
        mongodb_database,
        mongodb_collection,
        elasticsearch_url,
        elasticsearch_index,
        batch_size,
        dry_run,
    } = env;
    let given_size = match &batch_size {
        Some(v) => parse_usize(v.as_str()),
        None => None,
    };
    let given_dry = match &dry_run {
        Some(v) => parse_bool(v.as_str()),
        None => None,
    };
    let mut config = match file {
        Some(f) => f,
        None => {
            let uri = match mongodb_uri {
                Some(v) => v,
                None => {
                    return Err(ConfigError::MissingVar(RequiredVar::MongodbUri));
                },
            };
            let database = match mongodb_database {
                Some(v) => v,
                None => {
                    return Err(ConfigError::MissingVar(RequiredVar::MongodbDatabase));
                },
            };
            let collection = match mongodb_collection {
                Some(v) => v,
                None => String::from_str("messages"),
            };
            let url = match elasticsearch_url {
                Some(v) => v,
                None => {
                    return Err(ConfigError::MissingVar(RequiredVar::ElasticsearchUrl));
                },
            };
            let index_name = match elasticsearch_index {
                Some(v) => v,
                None => {
                    return Err(ConfigError::MissingVar(RequiredVar::ElasticsearchIndex));
                },
            };
            MigrationConfig {
                mongodb: MongoDbConfig { uri, database, collection },
                elasticsearch: EsConfig { url, index_name },
                migration: MigrationSettings {
                    batch_size: DEFAULT_MIGRATION_BATCH_SIZE,
                    dry_run: default_dry_run(),
                },
            }
        },
    };
    match given_dry {
        Some(b) => {
            config.migration.dry_run = b;
        },
        None => {},
    }
    match given_size {
        Some(n) => {
            config.migration.batch_size = n;
        },
        None => {},
    }
    Ok(config)
}

} // verus!
