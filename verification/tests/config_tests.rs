use matrix_bot_ical::config::{should_ignore_user, BotFilteringConfig, Config, ReminderType};

#[test]
fn test_minimal_config_parsing() {
    // Given a minimal TOML configuration with only required fields
    let toml_str = "homeserver = \"https://matrix.example.com\"\n\
                    username = \"@bot:example.com\"\n\
                    access_token = \"secret_token\"\n";

    // When parsing the TOML configuration
    let config = Config::from_toml(toml_str).unwrap();

    // Then all required fields should be parsed correctly and defaults should be applied
    assert_eq!(config.homeserver, "https://matrix.example.com");
    assert_eq!(config.username, "@bot:example.com");
    assert_eq!(config.access_token, "secret_token");
    assert_eq!(config.log_file, "bot.log");
    assert_eq!(config.working_dir, ".");
    assert_eq!(config.webcal, "");
    assert_eq!(config.info_url, None);
    assert!(config.reminders.is_empty());
    // Bot filtering should use defaults when not specified
    assert!(config.bot_filtering.ignore_self);
    assert!(!config.bot_filtering.ignore_bots);
    assert!(config.bot_filtering.ignored_users.is_empty());
}

#[test]
fn test_full_config_parsing() {
    // Given a complete TOML configuration with all optional fields
    let toml_str = "homeserver = \"https://matrix.example.com\"\n\
                    username = \"@bot:example.com\"\n\
                    access_token = \"secret_token\"\n\
                    log_file = \"/var/log/bot.log\"\n\
                    working_directory = \"/app\"\n\
                    webcal = \"https://example.com/calendar.ics\"\n\
                    info_url = \"https://example.com/info\"\n\
                    \n\
                    [[reminders]]\n\
                    cron = \"0 9 * * 1-5\"\n\
                    reminder_type = \"NextMeeting\"\n\
                    matrix_room = \"!roomid:example.com\"\n\
                    \n\
                    [[reminders]]\n\
                    cron = \"0 8 * * 1\"\n\
                    reminder_type = \"AllUpcomingMeetings\"\n\
                    matrix_room = \"!roomid:example.com\"\n\
                    \n\
                    [bot_filtering]\n\
                    ignore_self = false\n\
                    ignore_bots = true\n\
                    ignored_users = [\"@spam-bot:example.com\", \"@announcement-bot:example.com\"]\n";

    // When parsing the TOML configuration
    let config = Config::from_toml(toml_str).unwrap();

    // Then all fields should be parsed with their specified values
    assert_eq!(config.homeserver, "https://matrix.example.com");
    assert_eq!(config.username, "@bot:example.com");
    assert_eq!(config.access_token, "secret_token");
    assert_eq!(config.log_file, "/var/log/bot.log");
    assert_eq!(config.working_dir, "/app");
    assert_eq!(config.webcal, "https://example.com/calendar.ics");
    assert_eq!(config.info_url, Some("https://example.com/info".to_string()));
    assert_eq!(config.reminders.len(), 2);
    assert_eq!(config.reminders[0].cron, "0 9 * * 1-5");
    assert_eq!(config.reminders[0].reminder_type, ReminderType::NextMeeting);
    assert_eq!(config.reminders[0].matrix_room, "!roomid:example.com");
    assert_eq!(config.reminders[1].cron, "0 8 * * 1");
    assert_eq!(config.reminders[1].reminder_type, ReminderType::AllUpcomingMeetings);
    assert_eq!(config.reminders[1].matrix_room, "!roomid:example.com");
    assert!(!config.bot_filtering.ignore_self);
    assert!(config.bot_filtering.ignore_bots);
    assert_eq!(config.bot_filtering.ignored_users.len(), 2);
    assert!(
        config
            .bot_filtering
            .ignored_users
            .contains(&"@spam-bot:example.com".to_string())
    );
    assert!(
        config
            .bot_filtering
            .ignored_users
            .contains(&"@announcement-bot:example.com".to_string())
    );
}

#[test]
fn test_missing_homeserver_error() {
    // Given a TOML configuration missing the homeserver field
    let toml_str = "username = \"@bot:example.com\"\n\
                    access_token = \"secret_token\"\n\
                    help_file = \"help.md\"\n";

    // When parsing the TOML configuration
    let result = Config::from_toml(toml_str);

    // Then it should return an error indicating the missing field
    assert!(result.is_err());
    assert!(result.unwrap_err().to_string().contains("Missing 'homeserver'"));
}

#[test]
fn test_missing_username_error() {
    // Given a TOML configuration missing the username field
    let toml_str = "homeserver = \"https://matrix.example.com\"\n\
                    access_token = \"secret_token\"\n\
                    help_file = \"help.md\"\n";

    // When parsing the TOML configuration
    let result = Config::from_toml(toml_str);

    // Then it should return an error indicating the missing field
    assert!(result.is_err());
    assert!(result.unwrap_err().to_string().contains("Missing 'username'"));
}

#[test]
fn test_missing_access_token_error() {
    // Given a TOML configuration missing the access_token field
    let toml_str = "homeserver = \"https://matrix.example.com\"\n\
                    username = \"@bot:example.com\"\n\
                    help_file = \"help.md\"\n";

    // When parsing the TOML configuration
    let result = Config::from_toml(toml_str);

    // Then it should return an error indicating the missing field
    assert!(result.is_err());
    assert!(result.unwrap_err().to_string().contains("Missing 'access_token'"));
}

#[test]
fn test_should_ignore_user_self_filtering() {
    // Given bot filtering config with ignore_self = true
    let config = BotFilteringConfig {
        ignore_self: true,
        ignore_bots: false,
        ignored_users: vec![],
    };
    let bot_user_id = "@help-bot:example.com";
    let other_user_id = "@user:example.com";

    // When checking if bot should ignore its own messages
    assert!(should_ignore_user(bot_user_id, bot_user_id, &config));
    // When checking if bot should ignore other user's messages
    assert!(!should_ignore_user(other_user_id, bot_user_id, &config));
}

#[test]
fn test_should_ignore_user_bot_pattern() {
    // Given bot filtering config with ignore_bots = true
    let config = BotFilteringConfig {
        ignore_self: false,
        ignore_bots: true,
        ignored_users: vec![],
    };
    let bot_user_id = "@help-bot:example.com";
    let other_bot_id = "@spam-bot:example.com";
    let regular_user_id = "@user:example.com";

    // When checking different user types
    assert!(should_ignore_user(bot_user_id, bot_user_id, &config)); // contains "bot" even though ignore_self is false
    assert!(should_ignore_user(other_bot_id, bot_user_id, &config)); // contains "bot"
    assert!(!should_ignore_user(regular_user_id, bot_user_id, &config)); // doesn't contain "bot"
}

#[test]
fn test_should_ignore_user_specific_list() {
    // Given bot filtering config with specific ignored users
    let config = BotFilteringConfig {
        ignore_self: false,
        ignore_bots: false,
        ignored_users: vec![
            "@spam-bot:example.com".to_string(),
            "@announcement-bot:example.com".to_string(),
        ],
    };
    let bot_user_id = "@help-bot:example.com";
    let spam_bot_id = "@spam-bot:example.com";
    let announcement_bot_id = "@announcement-bot:example.com";
    let regular_user_id = "@user:example.com";

    // When checking different users
    assert!(!should_ignore_user(bot_user_id, bot_user_id, &config));
    assert!(should_ignore_user(spam_bot_id, bot_user_id, &config));
    assert!(should_ignore_user(announcement_bot_id, bot_user_id, &config));
    assert!(!should_ignore_user(regular_user_id, bot_user_id, &config));
}

#[test]
fn test_should_ignore_user_case_insensitive() {
    // Given bot filtering config with ignore_bots = true
    let config = BotFilteringConfig {
        ignore_self: false,
        ignore_bots: true,
        ignored_users: vec![],
    };
    let bot_user_id = "@help-bot:example.com";
    let uppercase_bot_id = "@HELP-BOT:example.com";
    let mixed_case_bot_id = "@Help-Bot:example.com";

    // When checking case-insensitive bot detection
    assert!(should_ignore_user(uppercase_bot_id, bot_user_id, &config));
    assert!(should_ignore_user(mixed_case_bot_id, bot_user_id, &config));
}
