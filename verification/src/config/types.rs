//! The parts of the configuration and the addon list sent to the world server.

use vstd::prelude::*;

use vstd::utf8::encode_utf8;
use vstd::string::StringSliceAdditionalSpecFns;

use crate::bytes::{extend_bytes, le_bytes, le_value, u32_le};

verus! {

#[verifier::external_type_specification]
#[verifier::external_body]
pub struct ExIoError(std::io::Error);

#[derive(Clone, Debug)]
pub struct ConnectionData {
    pub account: String,
    pub password: String,
    pub autoselect_realm_name: String,
    pub autoselect_character_name: String,
}

/// What `str::to_uppercase` gives for a text (Unicode upper case, character by character).
pub uninterp spec fn uppercase(text: Seq<char>) -> Seq<char>;

/// Upper-cases a text with `str::to_uppercase`.
/// Trusted: the result is named by `uppercase`, a function of the text alone.
#[verifier::external_body]
fn to_uppercase(text: &str) -> (upper: String)
    ensures
        upper@ == uppercase(text@),
{
    text.to_uppercase()
}

impl ConnectionData {
    /// The credentials of an account as the login handshake uses them: account name and
    /// password upper-cased, with the patterns that pick a realm and a character.
    pub fn new(
        account: &str,
        password: &str,
        autoselect_realm_name: String,
        autoselect_character_name: String,
    ) -> (data: Self)
        ensures
            data.account@ == uppercase(account@),
            data.password@ == uppercase(password@),
            data.autoselect_realm_name@ == autoselect_realm_name@,
            data.autoselect_character_name@ == autoselect_character_name@,
    {
        ConnectionData {
            account: to_uppercase(account),
            password: to_uppercase(password),
            autoselect_realm_name,
            autoselect_character_name,
        }
    }
}

#[derive(Clone, Debug)]
pub struct AddonInfo {
    pub name: String,
    pub flags: u8,
    pub modulus_crc: u32,
    pub urlcrc_crc: u32,
}

#[derive(Clone, Debug)]
pub struct ChannelLabels {
    pub lfg: String,
    pub common: String,
    pub trade: String,
}

#[derive(Clone, Debug)]
pub struct CommonOptions {
    pub auto_create_character_for_new_account: bool,
}

/// The timestamp that closes the addon list.
pub open spec fn addon_list_timestamp() -> nat {
    1636457673
}

/// One addon: its name, a zero byte, its flags, and the two CRCs little-endian.
pub open spec fn addon_entry_bytes(addon: AddonInfo) -> Seq<u8> {
    encode_utf8(addon.name@) + seq![0u8, addon.flags] + le_bytes(addon.modulus_crc as nat, 4)
        + le_bytes(addon.urlcrc_crc as nat, 4)
}

/// The entries of `addons` one after the other.
pub open spec fn addon_entries_bytes(addons: Seq<AddonInfo>) -> Seq<u8>
    decreases addons.len(),
{
    if addons.len() == 0 {
        Seq::empty()
    } else {
        addon_entries_bytes(addons.drop_last()) + addon_entry_bytes(addons.last())
    }
}

/// The addon list: the count (32 bits, little-endian), the entries, and the timestamp.
pub open spec fn addon_info_bytes(addons: Seq<AddonInfo>) -> Seq<u8> {
    le_bytes(addons.len(), 4) + addon_entries_bytes(addons) + le_bytes(addon_list_timestamp(), 4)
}

/// The addon list opens with the number of addons.
pub proof fn lemma_addon_count_field(addons: Seq<AddonInfo>)
    requires
        addons.len() <= u32::MAX,
    ensures
        le_value(addon_info_bytes(addons).take(4)) == addons.len(),
{
    crate::bytes::lemma_le_bytes_len(addons.len(), 4);
    crate::bytes::lemma_le_value_of_le_bytes(addons.len(), 4);
    crate::bytes::lemma_pow256_values();
    assert(addon_info_bytes(addons).take(4) =~= le_bytes(addons.len(), 4));
    assert(addons.len() % 4294967296 == addons.len());
}

impl AddonInfo {
    /// Lays out the addon list the client sends in `CMSG_AUTH_SESSION`.
    pub fn build_addon_info(addons: &Vec<AddonInfo>) -> (info: Result<Vec<u8>, std::io::Error>)
        requires
            addons@.len() <= u32::MAX,
        ensures
            info is Ok,
            info->Ok_0@ == addon_info_bytes(addons@),
    {
        let mut addon_info: Vec<u8> = Vec::new();
        let count = addons.len() as u32;
        let count_bytes = u32_le(count);
        extend_bytes(&mut addon_info, count_bytes.as_slice());
        let ghost head = addon_info@;
        let mut k: usize = 0;
        while k < addons.len()
            invariant
                k <= addons@.len(),
                addon_info@ == head + addon_entries_bytes(addons@.take(k as int)),
            decreases addons@.len() - k,
        {
            let addon = &addons[k];
            let name = addon.name.as_str();
            extend_bytes(&mut addon_info, name.as_bytes());
            addon_info.push(0u8);
            addon_info.push(addon.flags);
            let modulus = u32_le(addon.modulus_crc);
            extend_bytes(&mut addon_info, modulus.as_slice());
            let url = u32_le(addon.urlcrc_crc);
            extend_bytes(&mut addon_info, url.as_slice());
            k = k + 1;
            assert(addons@.take(k as int).drop_last() =~= addons@.take(k as int - 1));
            assert(addon_info@ =~= head + addon_entries_bytes(addons@.take(k as int)));
        }
        let stamp = u32_le(1636457673u32);
        extend_bytes(&mut addon_info, stamp.as_slice());
        assert(addons@.take(k as int) =~= addons@);
        Ok(addon_info)
    }
}

} // verus!
