use icmpmolester::notify::{
    build_email_config, build_telegram_config, check_email_addresses, ensure_telegram_size,
    judge_addresses, telegram_outcome, telegram_url, EmailAddressError, EmailConfig,
    NotifyConfigError, NotifyOptions, TelegramConfig, TelegramError, TelegramReply,
};

fn no_options() -> NotifyOptions {
    NotifyOptions {
        email_smtp: None,
        email_username: None,
        email_password: None,
        email_from: None,
        email_to: Vec::new(),
        telegram_token: None,
        telegram_chat_id: None,
    }
}

fn text(s: &str) -> Option<String> {
    Some(s.to_string())
}

#[test]
fn truncates_long_messages() {
    let mut long = "a".repeat(5000);
    ensure_telegram_size(&mut long);
    assert_eq!(long.len(), 4096);
    assert!(long.ends_with("..."));
}

#[test]
fn keeps_short_messages() {
    let mut short = String::from("ok");
    ensure_telegram_size(&mut short);
    assert_eq!(short, "ok");
}

#[test]
fn keeps_messages_of_exactly_the_limit() {
    let mut body = "b".repeat(4096);
    ensure_telegram_size(&mut body);
    assert_eq!(body, "b".repeat(4096));

    let mut body = "b".repeat(4097);
    ensure_telegram_size(&mut body);
    assert_eq!(body, format!("{}...", "b".repeat(4093)));

    let mut body = String::new();
    ensure_telegram_size(&mut body);
    assert_eq!(body, "");
}

#[test]
fn truncates_between_characters() {
    // 4092 bytes of ASCII, then characters of two bytes: byte 4093 falls
    // inside the first of them.
    let mut body = format!("{}{}", "a".repeat(4092), "é".repeat(10));
    ensure_telegram_size(&mut body);
    assert_eq!(body, format!("{}...", "a".repeat(4092)));
    assert!(body.len() <= 4096);

    let mut body = format!("{}{}", "a".repeat(4091), "é".repeat(10));
    ensure_telegram_size(&mut body);
    assert_eq!(body, format!("{}é...", "a".repeat(4091)));
    assert_eq!(body.len(), 4096);

    let mut body = "語".repeat(2000);
    ensure_telegram_size(&mut body);
    assert_eq!(body, format!("{}...", "語".repeat(1364)));
    assert_eq!(body.len(), 4095);

    let mut body = format!("{}{}", "a".repeat(4090), "😀".repeat(3));
    ensure_telegram_size(&mut body);
    assert_eq!(body, format!("{}...", "a".repeat(4090)));
}

#[test]
fn no_notification_without_settings() {
    let options = no_options();
    assert!(matches!(build_email_config(&options), Ok(None)));
    assert!(matches!(build_telegram_config(&options), Ok(None)));
}

#[test]
fn email_settings_complete() {
    let mut options = no_options();
    options.email_smtp = text("smtp.example.com");
    options.email_from = text("probe@example.com");
    options.email_to = vec!["a@example.com".to_string(), "b@example.com".to_string()];
    let config = build_email_config(&options).unwrap().unwrap();
    assert_eq!(config.smtp_server, "smtp.example.com");
    assert_eq!(config.username, None);
    assert_eq!(config.password, None);
    assert_eq!(config.from, "probe@example.com");
    assert_eq!(config.to, vec!["a@example.com", "b@example.com"]);

    options.email_username = text("user");
    options.email_password = text("SECRET-REDACTED");
    let config = build_email_config(&options).unwrap().unwrap();
    assert_eq!(config.username, text("user"));
    assert_eq!(config.password, text("SECRET-REDACTED"));
}

#[test]
fn email_needs_a_server_first() {
    let mut options = no_options();
    options.email_username = text("user");
    assert_eq!(build_email_config(&options).unwrap_err(), NotifyConfigError::MissingSmtpServer);

    let mut options = no_options();
    options.email_password = text("SECRET-REDACTED");
    assert_eq!(build_email_config(&options).unwrap_err(), NotifyConfigError::MissingSmtpServer);

    let mut options = no_options();
    options.email_from = text("probe@example.com");
    options.email_to = vec!["a@example.com".to_string()];
    assert_eq!(build_email_config(&options).unwrap_err(), NotifyConfigError::MissingSmtpServer);

    let mut options = no_options();
    options.email_to = vec!["a@example.com".to_string()];
    assert_eq!(build_email_config(&options).unwrap_err(), NotifyConfigError::MissingSmtpServer);
}

#[test]
fn email_needs_a_sender_then_recipients() {
    let mut options = no_options();
    options.email_smtp = text("smtp.example.com");
    assert_eq!(build_email_config(&options).unwrap_err(), NotifyConfigError::MissingSender);

    options.email_to = vec!["a@example.com".to_string()];
    assert_eq!(build_email_config(&options).unwrap_err(), NotifyConfigError::MissingSender);

    options.email_to = Vec::new();
    options.email_from = text("probe@example.com");
    assert_eq!(build_email_config(&options).unwrap_err(), NotifyConfigError::NoRecipients);
}

#[test]
fn telegram_needs_token_and_chat() {
    let mut options = no_options();
    options.telegram_chat_id = text("42");
    assert_eq!(
        build_telegram_config(&options).unwrap_err(),
        NotifyConfigError::MissingTelegramToken
    );

    let mut options = no_options();
    options.telegram_token = text("123:abc");
    assert_eq!(
        build_telegram_config(&options).unwrap_err(),
        NotifyConfigError::MissingTelegramChatId
    );

    options.telegram_chat_id = text("42");
    let config = build_telegram_config(&options).unwrap().unwrap();
    assert_eq!(config.token, "123:abc");
    assert_eq!(config.chat_id, "42");
}

#[test]
fn settings_do_not_mix() {
    let mut options = no_options();
    options.telegram_token = text("123:abc");
    options.telegram_chat_id = text("42");
    assert!(matches!(build_email_config(&options), Ok(None)));

    let mut options = no_options();
    options.email_smtp = text("smtp.example.com");
    assert!(matches!(build_telegram_config(&options), Ok(None)));
}

#[test]
fn config_error_messages() {
    assert_eq!(
        NotifyConfigError::MissingSmtpServer.message(),
        "Email SMTP server required when enabling email notifications"
    );
    assert_eq!(
        NotifyConfigError::MissingSender.message(),
        "Sender address required when enabling email notifications"
    );
    assert_eq!(
        NotifyConfigError::NoRecipients.message(),
        "At least one --email-to recipient required when enabling email notifications"
    );
    assert_eq!(
        NotifyConfigError::MissingTelegramToken.message(),
        "Telegram bot token required when enabling Telegram notifications"
    );
    assert_eq!(
        NotifyConfigError::MissingTelegramChatId.message(),
        "Telegram chat ID required when enabling Telegram notifications"
    );
}

#[test]
fn telegram_address_trims_the_token() {
    let config = |token: &str| TelegramConfig { token: token.to_string(), chat_id: "42".to_string() };
    assert_eq!(
        telegram_url(&config("123:abc")),
        "https://api.telegram.org/bot123:abc/sendMessage"
    );
    assert_eq!(
        telegram_url(&config("  123:abc\n")),
        "https://api.telegram.org/bot123:abc/sendMessage"
    );
    assert_eq!(
        telegram_url(&config("\t12 3\u{a0}")),
        "https://api.telegram.org/bot12 3/sendMessage"
    );
    assert_eq!(telegram_url(&config("")), "https://api.telegram.org/bot/sendMessage");
    assert_eq!(telegram_url(&config(" \t ")), "https://api.telegram.org/bot/sendMessage");
    for token in ["a", " a", "a ", " a b ", "", "  ", "\u{3000}x\u{2028}"] {
        assert_eq!(
            telegram_url(&config(token)),
            format!("https://api.telegram.org/bot{}/sendMessage", token.trim())
        );
    }
}

#[test]
fn telegram_replies() {
    for status in [200u16, 204, 299] {
        let reply = TelegramReply::Answered { status, body: Some("{}".to_string()) };
        assert!(telegram_outcome(reply).is_ok());
    }
    for status in [0u16, 199, 300, 301, 400, 404, 500, 65535] {
        let reply = TelegramReply::Answered { status, body: Some("denied".to_string()) };
        match telegram_outcome(reply) {
            Err(TelegramError::Rejected { status: told, body }) => {
                assert_eq!(told, status);
                assert_eq!(body, "denied");
            }
            other => panic!("{:?}", other),
        }
    }
    match telegram_outcome(TelegramReply::Answered { status: 502, body: None }) {
        Err(TelegramError::Rejected { status, body }) => {
            assert_eq!(status, 502);
            assert_eq!(body, "<no body>");
        }
        other => panic!("{:?}", other),
    }
    assert!(matches!(
        telegram_outcome(TelegramReply::Unreachable),
        Err(TelegramError::Unreachable)
    ));
}

#[test]
fn email_addresses_are_checked_in_order() {
    let config = |from: &str, to: &[&str]| EmailConfig {
        smtp_server: "smtp.example.com".to_string(),
        username: None,
        password: None,
        from: from.to_string(),
        to: to.iter().map(|s| s.to_string()).collect(),
    };
    assert_eq!(check_email_addresses(&config("probe@example.com", &["a@example.com"])), Ok(()));
    assert_eq!(
        check_email_addresses(&config(
            "Probe <probe@example.com>",
            &["a@example.com", "Ops Team <ops@example.com>"]
        )),
        Ok(())
    );
    assert_eq!(check_email_addresses(&config("probe@example.com", &[])), Ok(()));
    assert_eq!(
        check_email_addresses(&config("not an address", &["a@example.com"])),
        Err(EmailAddressError::InvalidSender)
    );
    assert_eq!(
        check_email_addresses(&config("", &["also bad"])),
        Err(EmailAddressError::InvalidSender)
    );
    assert_eq!(
        check_email_addresses(&config("probe@example.com", &["a@example.com", "b@", "c"])),
        Err(EmailAddressError::InvalidRecipient { index: 1 })
    );
    assert_eq!(
        check_email_addresses(&config("probe@example.com", &["@example.com"])),
        Err(EmailAddressError::InvalidRecipient { index: 0 })
    );
    assert_eq!(EmailAddressError::InvalidSender.message(), "Invalid sender email address");
    assert_eq!(
        EmailAddressError::InvalidRecipient { index: 3 }.message(),
        "Invalid recipient email address"
    );
}

#[test]
fn address_verdicts() {
    assert_eq!(judge_addresses(true, &vec![]), Ok(()));
    assert_eq!(judge_addresses(true, &vec![true, true]), Ok(()));
    assert_eq!(judge_addresses(false, &vec![true]), Err(EmailAddressError::InvalidSender));
    assert_eq!(judge_addresses(false, &vec![false]), Err(EmailAddressError::InvalidSender));
    assert_eq!(
        judge_addresses(true, &vec![true, false, true, false]),
        Err(EmailAddressError::InvalidRecipient { index: 1 })
    );
}
