use search_bot_rs::config::WebhookConfig;
use search_bot_rs::handler::{ensure_index, index_created, run_bot, DispatchMode, IndexError};

#[test]
fn no_url_means_long_polling() {
    assert!(matches!(run_bot(&WebhookConfig::default()), DispatchMode::LongPolling));
}

#[test]
fn url_means_webhook_on_the_listen_address() {
    let config = WebhookConfig {
        url: "https://bot.example".to_string(),
        listen_addr: "0.0.0.0".to_string(),
        port: 8443,
    };
    match run_bot(&config) {
        DispatchMode::Webhook { listen, url } => {
            assert_eq!(listen, "0.0.0.0:8443");
            assert_eq!(url, "https://bot.example");
        }
        other => panic!("{:?}", other),
    }
}

#[test]
fn index_is_created_when_it_is_not_found() {
    assert!(ensure_index(404));
    assert!(!ensure_index(200));
    assert!(!ensure_index(500));
}

#[test]
fn creation_must_succeed() {
    assert_eq!(index_created(200), Ok(()));
    assert_eq!(index_created(201), Ok(()));
    assert_eq!(index_created(400), Err(IndexError::CreateFailed { status: 400 }));
    assert_eq!(index_created(199), Err(IndexError::CreateFailed { status: 199 }));
}
