use std::collections::HashMap;

use tgcaptcha::commands::AdminCommands;
use tgcaptcha::commands::Commands;
use tgcaptcha::commands::UserCommands;
use tgcaptcha::config::GroupSettings;
use tgcaptcha::config::GroupsConfig;
use tgcaptcha::messages::JoinCaptchaMessages;
use tgcaptcha::messages::MessagesText;
use tgcaptcha::question::MathQuestion;
use tgcaptcha::question::Operator;

fn config_with(allowed: Vec<i64>) -> GroupsConfig {
    GroupsConfig {
        allowed_groups: allowed,
        fallback_group_settings: GroupSettings::default(),
        groups_settings: HashMap::new(),
    }
}

#[test]
fn empty_allow_list_serves_every_group() {
    let config = config_with(vec![]);
    assert!(config.is_group_allowed(1));
    assert!(config.is_group_allowed(-77));
}

#[test]
fn nonempty_allow_list_serves_only_listed_groups() {
    let config = config_with(vec![-100, 5]);
    assert!(config.is_group_allowed(-100));
    assert!(config.is_group_allowed(5));
    assert!(!config.is_group_allowed(6));
}

#[test]
fn settings_fall_back_where_no_entry_exists() {
    let mut config = config_with(vec![]);
    let mut special = GroupSettings::default();
    special.ban_after_secs = 60;
    special.crates_commands = true;
    config.groups_settings.insert(-5, special);
    assert_eq!(config.get(-5).ban_after_secs, 60);
    assert!(config.get(-5).crates_commands);
    assert_eq!(config.get(-6).ban_after_secs, 300);
    assert!(!config.get(-6).crates_commands);
}

#[test]
fn admin_check_prefers_the_configured_list() {
    let mut settings = GroupSettings::default();
    settings.custom_admins = Some(vec![10, 20]);
    assert!(settings.is_user_admin(10, None));
    assert!(!settings.is_user_admin(30, Some(true)));

    settings.custom_admins = None;
    assert!(settings.is_user_admin(30, Some(true)));
    assert!(!settings.is_user_admin(30, Some(false)));
    assert!(!settings.is_user_admin(30, None));
}

#[test]
fn user_commands_open_to_admins_or_everyone() {
    let mut settings = GroupSettings::default();
    assert!(!settings.user_commands_allowed(false));
    assert!(settings.user_commands_allowed(true));
    settings.crates_commands = true;
    assert!(settings.user_commands_allowed(false));
}

#[test]
fn welcome_message_fills_tag_name_and_question() {
    let messages = MessagesText::default();
    let q = MathQuestion::new(7, Operator::Sub, 3);
    let text = messages.join_captcha.create_welcome_msg(
        "<a href=\"tg://user?id=42\">Ann</a>",
        "Rust <Fans> & Friends",
        &q,
    );
    assert_eq!(
        text,
        "Hello <a href=\"tg://user?id=42\">Ann</a>.\nWelcome to Rust &lt;Fans&gt; &amp; Friends group.\nFor accessing group, please choose the right answer from bellow options.\n<b>7\u{200c} -\u{200c} 3</b>"
    );
}

#[test]
fn welcome_template_can_be_customized() {
    let mut messages = JoinCaptchaMessages::default();
    messages.new_user_template = "{TAGUSER} joined {CHATNAME}: {TAGUSER}".to_owned();
    let q = MathQuestion::new(2, Operator::Add, 2);
    let text = messages.create_welcome_msg("U", "C", &q);
    assert_eq!(text, "U joined C: U\n<b>2\u{200c} +\u{200c} 2</b>");
}

#[test]
fn command_sets_construct_and_match() {
    let general = [Commands::Help, Commands::AdminHelp, Commands::UserHelp];
    assert_eq!(general.len(), 3);
    let admin = [AdminCommands::Status, AdminCommands::Uptime, AdminCommands::SourceCode];
    assert_eq!(admin.len(), 3);
    let user = [
        UserCommands::Crate("serde".to_owned()),
        UserCommands::Doc("serde::Deserialize".to_owned()),
    ];
    assert!(matches!(&user[0], UserCommands::Crate(n) if n == "serde"));
    assert!(matches!(&user[1], UserCommands::Doc(q) if q == "serde::Deserialize"));
}
