//! The client configuration: what the config file and the environment give, and the
//! addon list the client announces.

pub mod types;
pub mod yaml;

use vstd::prelude::*;

use crate::config::types::{AddonInfo, ChannelLabels, CommonOptions, ConnectionData};

verus! {

/// Where the config file is and which of its entries to read.
pub struct ConfigParams<'a> {
    pub host: &'a str,
    pub account: &'a str,
    pub config_path: &'a str,
}

/// Where the environment file is.
pub struct EnvConfigParams<'a> {
    pub dotenv_path: &'a str,
}

/// The configuration of one account on one server.
#[derive(Clone, Debug)]
pub struct Config {
    pub common: CommonOptions,
    pub connection_data: ConnectionData,
    pub addons: Vec<AddonInfo>,
    pub channel_labels: ChannelLabels,
}

/// The login server to connect to.
#[derive(Clone, Debug)]
pub struct EnvConfig {
    pub host: String,
    pub port: u16,
}

/// The addons the client announces: name, flags and modulus CRC (the URL CRC is zero).
pub open spec fn default_addon_table() -> Seq<(Seq<char>, u8, u32)> {
    seq![
        ("Blizzard_AchievementUI"@, 0u8, 0u32),
        ("Blizzard_ArenaUI"@, 0u8, 0u32),
        ("Blizzard_AuctionUI"@, 0u8, 0u32),
        ("Blizzard_BarbershopUI"@, 0u8, 0u32),
        ("Blizzard_BattlefieldMinimap"@, 0u8, 0u32),
        ("Blizzard_BindingUI"@, 225u8, 1276933997u32),
        ("Blizzard_Calendar"@, 0u8, 0u32),
        ("Blizzard_CombatLog"@, 0u8, 0u32),
        ("Blizzard_CombatText"@, 0u8, 0u32),
        ("Blizzard_DebugTools"@, 0u8, 0u32),
        ("Blizzard_GlyphUI"@, 0u8, 0u32),
        ("Blizzard_GMChatUI"@, 0u8, 0u32),
        ("Blizzard_GMSurveyUI"@, 0u8, 0u32),
        ("Blizzard_GuildBankUI"@, 0u8, 0u32),
        ("Blizzard_InspectUI"@, 92u8, 1276933997u32),
        ("Blizzard_ItemSocketingUI"@, 0u8, 0u32),
        ("Blizzard_MacroUI"@, 31u8, 1276933997u32),
        ("Blizzard_RaidUI"@, 201u8, 1276933997u32),
        ("Blizzard_TalentUI"@, 0u8, 0u32),
        ("Blizzard_TimeManager"@, 0u8, 0u32),
        ("Blizzard_TokenUI"@, 0u8, 0u32),
        ("Blizzard_TradeSkillUI"@, 0u8, 0u32),
        ("Blizzard_TrainerUI"@, 0u8, 0u32)
    ]
}

/// The addons of a list as (name, flags, modulus CRC, URL CRC).
pub open spec fn addon_rows(addons: Seq<AddonInfo>) -> Seq<(Seq<char>, u8, u32, u32)> {
    addons.map_values(|a: AddonInfo| (a.name@, a.flags, a.modulus_crc, a.urlcrc_crc))
}

/// The default list as rows.
pub open spec fn default_addon_rows() -> Seq<(Seq<char>, u8, u32, u32)> {
    default_addon_table().map_values(|r: (Seq<char>, u8, u32)| (r.0, r.1, r.2, 0u32))
}

fn addon(name: &str, flags: u8, modulus_crc: u32) -> (a: AddonInfo)
    ensures
        a.name@ == name@,
        a.flags == flags,
        a.modulus_crc == modulus_crc,
        a.urlcrc_crc == 0,
{
    AddonInfo { name: name.to_string(), flags, modulus_crc, urlcrc_crc: 0 }
}

/// The addon list of the client, in the order the server expects.
#[verifier::rlimit(50)]
pub fn default_addons() -> (addons: Vec<AddonInfo>)
    ensures
        addon_rows(addons@) == default_addon_rows(),
{
    let mut addons: Vec<AddonInfo> = Vec::new();
    addons.push(addon("Blizzard_AchievementUI", 0, 0));
    addons.push(addon("Blizzard_ArenaUI", 0, 0));
    addons.push(addon("Blizzard_AuctionUI", 0, 0));
    addons.push(addon("Blizzard_BarbershopUI", 0, 0));
    addons.push(addon("Blizzard_BattlefieldMinimap", 0, 0));
    addons.push(addon("Blizzard_BindingUI", 225, 1276933997));
    addons.push(addon("Blizzard_Calendar", 0, 0));
    addons.push(addon("Blizzard_CombatLog", 0, 0));
    addons.push(addon("Blizzard_CombatText", 0, 0));
    addons.push(addon("Blizzard_DebugTools", 0, 0));
    addons.push(addon("Blizzard_GlyphUI", 0, 0));
    addons.push(addon("Blizzard_GMChatUI", 0, 0));
    addons.push(addon("Blizzard_GMSurveyUI", 0, 0));
    addons.push(addon("Blizzard_GuildBankUI", 0, 0));
    addons.push(addon("Blizzard_InspectUI", 92, 1276933997));
    addons.push(addon("Blizzard_ItemSocketingUI", 0, 0));
    addons.push(addon("Blizzard_MacroUI", 31, 1276933997));
    addons.push(addon("Blizzard_RaidUI", 201, 1276933997));
    addons.push(addon("Blizzard_TalentUI", 0, 0));
    addons.push(addon("Blizzard_TimeManager", 0, 0));
    addons.push(addon("Blizzard_TokenUI", 0, 0));
    addons.push(addon("Blizzard_TradeSkillUI", 0, 0));
    addons.push(addon("Blizzard_TrainerUI", 0, 0));
    assert(addon_rows(addons@) =~= default_addon_rows());
    addons
}

impl Config {
    /// A configuration from the options read from the config file, with the default addons.
    pub fn from_options(
        common: CommonOptions,
        connection_data: ConnectionData,
        channel_labels: ChannelLabels,
    ) -> (config: Self)
        ensures
            config.common == common,
            config.connection_data == connection_data,
            config.channel_labels == channel_labels,
            addon_rows(config.addons@) == default_addon_rows(),
    {
        Config { common, connection_data, addons: default_addons(), channel_labels }
    }
}

} // verus!
