//! The YAML documents of the config file, and the config of one account they give.

use vstd::prelude::*;
use yaml_rust::{ScanError, Yaml, YamlLoader};

use crate::config::types::{uppercase, ChannelLabels, CommonOptions, ConnectionData};
use crate::config::{addon_rows, default_addon_rows, Config};
use crate::errors::ConfigError;

verus! {

#[verifier::external_type_specification]
#[verifier::external_body]
pub struct ExYaml(Yaml);

#[verifier::external_type_specification]
#[verifier::external_body]
pub struct ExScanError(ScanError);

/// A YAML value. A mapping keeps its entries in the order of the document.
#[derive(Debug)]
pub enum YamlNode {
    Real(String),
    Integer(i64),
    Str(String),
    Bool(bool),
    Array(Vec<YamlNode>),
    Hash(Vec<(YamlNode, YamlNode)>),
    Alias(usize),
    Null,
    BadValue,
}

/// The documents `yaml_rust` reads from a text, or `None` where it cannot scan it.
pub uninterp spec fn yaml_load(text: Seq<char>) -> Option<Seq<YamlNode>>;

/// `yaml_rust::Yaml` as a `YamlNode`, each variant to its namesake, the entries of a
/// mapping in the order the mapping iterates them. Used only to convert what
/// `load_yaml` gets back.
#[verifier::external_body]
fn yaml_node_of(y: &Yaml) -> YamlNode {
    match y {
        Yaml::Real(s) => YamlNode::Real(s.clone()),
        Yaml::Integer(i) => YamlNode::Integer(*i),
        Yaml::String(s) => YamlNode::Str(s.clone()),
        Yaml::Boolean(b) => YamlNode::Bool(*b),
        Yaml::Array(a) => YamlNode::Array(a.iter().map(yaml_node_of).collect()),
        Yaml::Hash(h) => YamlNode::Hash(h.iter().map(|(k, v)| (yaml_node_of(k), yaml_node_of(v))).collect()),
        Yaml::Alias(n) => YamlNode::Alias(*n),
        Yaml::Null => YamlNode::Null,
        Yaml::BadValue => YamlNode::BadValue,
    }
}

/// `yaml_rust::YamlLoader::load_from_str`: the documents of the text, or the scan error.
/// Which documents a text holds is a function of the text alone; it is named, not stated.
#[verifier::external_body]
fn load_yaml(text: &str) -> (docs: Result<Vec<YamlNode>, ScanError>)
    ensures
        match yaml_load(text@) {
            Some(d) => docs matches Ok(v) && v@ == d,
            None => docs is Err,
        },
{
    match YamlLoader::load_from_str(text) {
        Ok(docs) => Ok(docs.iter().map(yaml_node_of).collect()),
        Err(e) => Err(e),
    }
}

/// Whether a node is the string `key`.
pub open spec fn is_key(node: YamlNode, key: Seq<char>) -> bool {
    node matches YamlNode::Str(k) && k@ == key
}

/// The value of the first entry whose key is the string `key`.
pub open spec fn entry_value(entries: Seq<(YamlNode, YamlNode)>, key: Seq<char>) -> Option<YamlNode>
    decreases entries.len(),
{
    if entries.len() == 0 {
        None
    } else if is_key(entries[0].0, key) {
        Some(entries[0].1)
    } else {
        entry_value(entries.skip(1), key)
    }
}

/// `node[key]`: the value under the string `key` when the node is a mapping that has it,
/// `None` (the bad value) otherwise.
pub open spec fn lookup(node: Option<YamlNode>, key: Seq<char>) -> Option<YamlNode> {
    match node {
        Some(YamlNode::Hash(entries)) => entry_value(entries@, key),
        _ => None,
    }
}

/// The text of a string node.
pub open spec fn str_of(node: Option<YamlNode>) -> Option<Seq<char>> {
    match node {
        Some(YamlNode::Str(s)) => Some(s@),
        _ => None,
    }
}

/// The value of a boolean node.
pub open spec fn bool_of(node: Option<YamlNode>) -> Option<bool> {
    match node {
        Some(YamlNode::Bool(b)) => Some(b),
        _ => None,
    }
}

/// The text of a string node, and the empty text for any other node.
pub open spec fn text_or_empty(node: YamlNode) -> Seq<char> {
    match node {
        YamlNode::Str(s) => s@,
        _ => Seq::empty(),
    }
}

/// The `common` section of the first document.
pub open spec fn common_node(docs: Seq<YamlNode>) -> Option<YamlNode> {
    lookup(Some(docs[0]), "common"@)
}

/// The `channel_labels` section of the first document.
pub open spec fn labels_node(docs: Seq<YamlNode>) -> Option<YamlNode> {
    lookup(Some(docs[0]), "channel_labels"@)
}

/// The section of an account on a host: `connection_data`, then the host, then the account.
pub open spec fn account_node(docs: Seq<YamlNode>, host: Seq<char>, account: Seq<char>) -> Option<
    YamlNode,
> {
    lookup(lookup(lookup(Some(docs[0]), "connection_data"@), host), account)
}

/// The entries of the account's `autoselect` mapping.
pub open spec fn autoselect_entries(docs: Seq<YamlNode>, host: Seq<char>, account: Seq<char>) -> Option<
    Seq<(YamlNode, YamlNode)>,
> {
    match lookup(account_node(docs, host, account), "autoselect"@) {
        Some(YamlNode::Hash(entries)) => Some(entries@),
        _ => None,
    }
}

/// The documents hold all the config reads: a first document whose `common` section has a
/// boolean `auto_create_character_for_new_account`, whose account section has a string
/// `password` and an `autoselect` mapping with the keys `realm_name` and `character_name`,
/// and whose `channel_labels` has the strings `lfg`, `common` and `trade`.
pub open spec fn config_readable(docs: Seq<YamlNode>, host: Seq<char>, account: Seq<char>) -> bool {
    &&& docs.len() > 0
    &&& bool_of(lookup(common_node(docs), "auto_create_character_for_new_account"@)) is Some
    &&& str_of(lookup(account_node(docs, host, account), "password"@)) is Some
    &&& autoselect_entries(docs, host, account) matches Some(e) && entry_value(e, "realm_name"@)
        is Some && entry_value(e, "character_name"@) is Some
    &&& str_of(lookup(labels_node(docs), "lfg"@)) is Some
    &&& str_of(lookup(labels_node(docs), "common"@)) is Some
    &&& str_of(lookup(labels_node(docs), "trade"@)) is Some
}

/// The config the documents give for an account on a host: the account name and the
/// password upper-cased, each autoselect pattern the string under its key (empty when it is
/// not a string), the channel labels and the common option as they stand, and the default
/// addons.
pub open spec fn config_of(
    config: Config,
    docs: Seq<YamlNode>,
    host: Seq<char>,
    account: Seq<char>,
) -> bool {
    let entries = autoselect_entries(docs, host, account)->Some_0;
    &&& config.common.auto_create_character_for_new_account == bool_of(
        lookup(common_node(docs), "auto_create_character_for_new_account"@),
    )->Some_0
    &&& config.connection_data.account@ == uppercase(account)
    &&& config.connection_data.password@ == uppercase(
        str_of(lookup(account_node(docs, host, account), "password"@))->Some_0,
    )
    &&& config.connection_data.autoselect_realm_name@ == text_or_empty(
        entry_value(entries, "realm_name"@)->Some_0,
    )
    &&& config.connection_data.autoselect_character_name@ == text_or_empty(
        entry_value(entries, "character_name"@)->Some_0,
    )
    &&& config.channel_labels.lfg@ == str_of(lookup(labels_node(docs), "lfg"@))->Some_0
    &&& config.channel_labels.common@ == str_of(lookup(labels_node(docs), "common"@))->Some_0
    &&& config.channel_labels.trade@ == str_of(lookup(labels_node(docs), "trade"@))->Some_0
    &&& addon_rows(config.addons@) == default_addon_rows()
}

/// The value of the first entry whose key is the string `key`.
fn find_entry<'a>(entries: &'a Vec<(YamlNode, YamlNode)>, key: &String) -> (r: Option<&'a YamlNode>)
    ensures
        match entry_value(entries@, key@) {
            Some(v) => r matches Some(x) && *x == v,
            None => r is None,
        },
{
    let mut i: usize = 0;
    assert(entries@.skip(0) =~= entries@);
    while i < entries.len()
        invariant
            i <= entries@.len(),
            entry_value(entries@, key@) == entry_value(entries@.skip(i as int), key@),
        decreases entries@.len() - i,
    {
        assert(entries@.skip(i as int).skip(1) =~= entries@.skip(i + 1));
        if let YamlNode::Str(k) = &entries[i].0 {
            if *k == *key {
                return Some(&entries[i].1);
            }
        }
        i = i + 1;
    }
    None
}

/// `node[key]`, `None` standing for the bad value.
fn lookup_key<'a>(node: Option<&'a YamlNode>, key: &str) -> (r: Option<&'a YamlNode>)
    ensures
        match lookup(
            match node {
                Some(n) => Some(*n),
                None => None,
            },
            key@,
        ) {
            Some(v) => r matches Some(x) && *x == v,
            None => r is None,
        },
{
    let k = key.to_owned();
    match node {
        Some(YamlNode::Hash(entries)) => find_entry(entries, &k),
        _ => None,
    }
}

/// The text of a string node, and the empty text for any other node.
fn pattern_text(node: Option<&YamlNode>) -> (text: String)
    ensures
        match node {
            Some(n) => text@ == text_or_empty(*n),
            None => text@ == Seq::<char>::empty(),
        },
{
    match node {
        Some(YamlNode::Str(s)) => s.clone(),
        _ => String::new(),
    }
}

/// Whether the documents hold all the config reads.
pub fn config_is_readable(docs: &Vec<YamlNode>, host: &str, account: &str) -> (b: bool)
    ensures
        b == config_readable(docs@, host@, account@),
{
    if docs.len() == 0 {
        return false;
    }
    let doc = Some(&docs[0]);
    let common = lookup_key(doc, "common");
    let flag_ok = match lookup_key(common, "auto_create_character_for_new_account") {
        Some(YamlNode::Bool(_)) => true,
        _ => false,
    };
    let section = lookup_key(lookup_key(lookup_key(doc, "connection_data"), host), account);
    let password_ok = match lookup_key(section, "password") {
        Some(YamlNode::Str(_)) => true,
        _ => false,
    };
    let autoselect_ok = match lookup_key(section, "autoselect") {
        Some(YamlNode::Hash(entries)) => {
            let realm_key = "realm_name".to_owned();
            let character_key = "character_name".to_owned();
            find_entry(entries, &realm_key).is_some() && find_entry(entries, &character_key).is_some()
        },
        _ => false,
    };
    let labels = lookup_key(doc, "channel_labels");
    let lfg_ok = match lookup_key(labels, "lfg") {
        Some(YamlNode::Str(_)) => true,
        _ => false,
    };
    let common_ok = match lookup_key(labels, "common") {
        Some(YamlNode::Str(_)) => true,
        _ => false,
    };
    let trade_ok = match lookup_key(labels, "trade") {
        Some(YamlNode::Str(_)) => true,
        _ => false,
    };
    flag_ok && password_ok && autoselect_ok && lfg_ok && common_ok && trade_ok
}

/// The text of a string node that the documents are known to hold.
fn known_text(node: Option<&YamlNode>) -> (text: &str)
    ensures
        match node {
            Some(YamlNode::Str(s)) => text@ == s@,
            _ => true,
        },
{
    match node {
        Some(YamlNode::Str(s)) => s.as_str(),
        _ => "",
    }
}

/// The config of an account on a host, from the documents of the config file.
pub fn config_from_yaml(docs: &Vec<YamlNode>, host: &str, account: &str) -> (config: Config)
    requires
        config_readable(docs@, host@, account@),
    ensures
        config_of(config, docs@, host@, account@),
{
    let doc = Some(&docs[0]);
    let common = lookup_key(doc, "common");
    let auto_create = match lookup_key(common, "auto_create_character_for_new_account") {
        Some(YamlNode::Bool(b)) => *b,
        _ => false,
    };
    let section = lookup_key(lookup_key(lookup_key(doc, "connection_data"), host), account);
    let password = known_text(lookup_key(section, "password"));
    let (realm_pattern, character_pattern) = match lookup_key(section, "autoselect") {
        Some(YamlNode::Hash(entries)) => {
            let realm_key = "realm_name".to_owned();
            let character_key = "character_name".to_owned();
            (
                pattern_text(find_entry(entries, &realm_key)),
                pattern_text(find_entry(entries, &character_key)),
            )
        },
        _ => (String::new(), String::new()),
    };
    let connection_data = ConnectionData::new(account, password, realm_pattern, character_pattern);
    let labels = lookup_key(doc, "channel_labels");
    let channel_labels = ChannelLabels {
        lfg: known_text(lookup_key(labels, "lfg")).to_owned(),
        common: known_text(lookup_key(labels, "common")).to_owned(),
        trade: known_text(lookup_key(labels, "trade")).to_owned(),
    };
    let common_options = CommonOptions { auto_create_character_for_new_account: auto_create };
    Config::from_options(common_options, connection_data, channel_labels)
}

impl Config {
    /// The config of an account on a host, from the text of the config file: the scan
    /// error where `yaml_rust` cannot read the text, `None` where the documents lack a
    /// value the config reads.
    pub fn from_yaml_text(text: &str, host: &str, account: &str) -> (r: Result<
        Option<Config>,
        ConfigError,
    >)
        ensures
            match yaml_load(text@) {
                None => r matches Err(ConfigError::ScanError(_)),
                Some(docs) => if config_readable(docs, host@, account@) {
                    r matches Ok(Some(c)) && config_of(c, docs, host@, account@)
                } else {
                    r matches Ok(None)
                },
            },
    {
        let docs = match load_yaml(text) {
            Ok(d) => d,
            Err(e) => {
                return Err(ConfigError::ScanError(e));
            },
        };
        if !config_is_readable(&docs, host, account) {
            return Ok(None);
        }
        Ok(Some(config_from_yaml(&docs, host, account)))
    }
}

} // verus!
