use tentacli::config::yaml::{config_from_yaml, config_is_readable, YamlNode};
use tentacli::config::Config;
use tentacli::errors::ConfigError;

const CONFIG_CONTENT: &str = r##"common:
  auto_create_character_for_new_account: false

connection_data:
  127.0.0.1:
    account_name:
        password: "safe_password"
        autoselect:
            realm_name: ".*STRING OR REGEX PATTERN TO FIND REALM NAME.*"
            character_name: ".*STRING OR REGEX PATTERN TO FIND CHARACTER NAME.*"

    another_account_name:
        password: "safe_password"
        autoselect:
            realm_name: ".*STRING OR REGEX PATTERN TO FIND REALM NAME.*"
            character_name: ".*STRING OR REGEX PATTERN TO FIND CHARACTER NAME.*"

  another.server.com:
    account_name:
        password: "safe_password"
        autoselect:
            realm_name: ""
            character_name: ""

channel_labels:
  lfg: "LFG"
  common: "COMMON"
  trade: "TRADE"
"##;

const HOST: &str = "another.server.com";
const ACCOUNT: &str = "account_name";
const PASSWORD: &str = "safe_password";

#[test]
fn test_data_parsing() {
    let config = Config::from_yaml_text(CONFIG_CONTENT, HOST, ACCOUNT).unwrap().unwrap();
    let connection_data = &config.connection_data;
    assert_eq!(connection_data.account, ACCOUNT.to_uppercase());
    assert_eq!(connection_data.password, PASSWORD.to_uppercase());
    assert_eq!(connection_data.autoselect_character_name, "");
    assert_eq!(connection_data.autoselect_realm_name, "");

    let channel_labels = &config.channel_labels;
    assert_eq!(channel_labels.common, "COMMON");
    assert_eq!(channel_labels.lfg, "LFG");
    assert_eq!(channel_labels.trade, "TRADE");

    assert_eq!(config.common.auto_create_character_for_new_account, false);
}

#[test]
fn config_of_another_host_keeps_its_patterns() {
    let config = Config::from_yaml_text(CONFIG_CONTENT, "127.0.0.1", "another_account_name").unwrap().unwrap();
    assert_eq!(config.connection_data.account, "ANOTHER_ACCOUNT_NAME");
    assert_eq!(config.connection_data.autoselect_realm_name, ".*STRING OR REGEX PATTERN TO FIND REALM NAME.*");
    assert_eq!(config.addons.len(), 23);
}

#[test]
fn config_text_that_does_not_scan_is_an_error() {
    let result = Config::from_yaml_text("common: [1, 2", HOST, ACCOUNT);
    assert!(matches!(result, Err(ConfigError::ScanError(_))));
}

#[test]
fn config_without_the_account_gives_nothing() {
    assert!(Config::from_yaml_text(CONFIG_CONTENT, HOST, "nobody").unwrap().is_none());
    let text = CONFIG_CONTENT.replace("  trade: \"TRADE\"\n", "");
    assert!(Config::from_yaml_text(&text, HOST, ACCOUNT).unwrap().is_none());
}

#[test]
fn patterns_that_are_not_strings_are_empty() {
    let text = CONFIG_CONTENT.replace("realm_name: \"\"", "realm_name: 7");
    let config = Config::from_yaml_text(&text, HOST, ACCOUNT).unwrap().unwrap();
    assert_eq!(config.connection_data.autoselect_realm_name, "");
}

#[test]
fn documents_built_by_hand_are_read() {
    let s = |t: &str| YamlNode::Str(t.to_string());
    let doc = YamlNode::Hash(vec![
        (s("common"), YamlNode::Hash(vec![(s("auto_create_character_for_new_account"), YamlNode::Bool(true))])),
        (s("connection_data"), YamlNode::Hash(vec![(s("h"), YamlNode::Hash(vec![(s("a"), YamlNode::Hash(vec![
            (s("password"), s("pw")),
            (s("autoselect"), YamlNode::Hash(vec![(s("realm_name"), s("R")), (s("character_name"), YamlNode::Null)])),
        ]))]))])),
        (s("channel_labels"), YamlNode::Hash(vec![(s("lfg"), s("l")), (s("common"), s("c")), (s("trade"), s("t"))])),
    ]);
    let docs = vec![doc];
    assert!(config_is_readable(&docs, "h", "a"));
    assert!(!config_is_readable(&docs, "h", "b"));
    let config = config_from_yaml(&docs, "h", "a");
    assert!(config.common.auto_create_character_for_new_account);
    assert_eq!(config.connection_data.password, "PW");
    assert_eq!(config.connection_data.autoselect_realm_name, "R");
    assert_eq!(config.connection_data.autoselect_character_name, "");
    assert_eq!(config.channel_labels.trade, "t");
}
