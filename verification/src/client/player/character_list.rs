//! The character list of the `SMSG_CHAR_ENUM` answer.

use vstd::prelude::*;

use crate::bytes::le_value;
use crate::client::player::types::{Player, PlayerView};
use crate::client::reader::{lemma_until_nul_prefix, until_nul, ByteReader};
use crate::client::realm::types::strip_nul;
use crate::client::session::player_views;
use crate::errors::FieldError;
use crate::text::{lossy_text, text_of};

verus! {

/// The size of what follows the name of a listed character: race, class, gender, five
/// appearance bytes and the level; zone and map (32 bits each); the position (three
/// 32-bit floats); guild, character flags and customisation flags (32 bits each); the
/// first-login byte; the pet's display, level and family (32 bits each); and the 23
/// equipment slots, each a display id (32 bits), an inventory type (one byte) and an
/// enchantment aura (32 bits).
pub open spec fn character_tail_len() -> nat {
    261
}

/// One character at the start of `d`, and how many bytes it takes: the guid (64 bits,
/// little-endian), the name up to a zero byte, then the fixed part.
#[verifier::opaque]
pub open spec fn character_entry(d: Seq<u8>) -> Option<(PlayerView, nat)> {
    if d.len() < 8 {
        None
    } else {
        let r = d.skip(8);
        let name_raw = until_nul(r);
        let t = r.skip(name_raw.len() as int);
        if t.len() < character_tail_len() {
            None
        } else {
            Some(
                (
                    PlayerView {
                        guid: le_value(d.take(8)) as u64,
                        name: text_of(strip_nul(name_raw)),
                        race: t[0],
                        class: t[1],
                        gender: t[2],
                        level: t[8],
                    },
                    (8 + name_raw.len() + character_tail_len()) as nat,
                ),
            )
        }
    }
}

/// `n` characters one after the other at the start of `d`, and how many bytes they take.
pub open spec fn character_entries(d: Seq<u8>, n: nat) -> Option<(Seq<PlayerView>, nat)>
    decreases n,
{
    if n == 0 {
        Some((Seq::empty(), 0))
    } else {
        match character_entries(d, (n - 1) as nat) {
            None => None,
            Some((players, used)) => match character_entry(d.skip(used as int)) {
                None => None,
                Some((player, more)) => Some((players.push(player), used + more)),
            },
        }
    }
}

/// The character list: a count byte, then the characters.
pub open spec fn character_list(d: Seq<u8>) -> Option<Seq<PlayerView>> {
    if d.len() < 1 {
        None
    } else {
        match character_entries(d.skip(1), d[0] as nat) {
            Some((players, _)) => Some(players),
            None => None,
        }
    }
}

proof fn lemma_skip_skip(d: Seq<u8>, a: int, b: int)
    requires
        0 <= a,
        0 <= b,
        a + b <= d.len(),
    ensures
        d.skip(a).skip(b) == d.skip(a + b),
{
    assert(d.skip(a).skip(b) =~= d.skip(a + b));
}

proof fn lemma_entries_fail(d: Seq<u8>, k: nat, n: nat)
    requires
        k < n,
        character_entries(d, k) is Some,
        character_entry(d.skip(character_entries(d, k)->Some_0.1 as int)) is None,
    ensures
        character_entries(d, n) is None,
    decreases n,
{
    if n > k + 1 {
        lemma_entries_fail(d, k, (n - 1) as nat);
    }
}

fn strip_terminator(raw: &Vec<u8>) -> (bytes: Vec<u8>)
    ensures
        bytes@ == strip_nul(raw@),
{
    let mut bytes = raw.clone();
    if bytes.len() > 0 && bytes[bytes.len() - 1] == 0 {
        bytes.pop();
    }
    assert(bytes@ =~= strip_nul(raw@));
    bytes
}

/// Reads one character; `reader` stands where it starts.
fn read_character(reader: &mut ByteReader) -> (player: Result<Player, FieldError>)
    requires
        old(reader).wf(),
    ensures
        final(reader).wf(),
        final(reader).data() == old(reader).data(),
        match character_entry(old(reader).rest()) {
            None => player is Err,
            Some((view, used)) => player is Ok && player->Ok_0@ == view && used <= old(
                reader,
            ).rest().len() && final(reader).rest() == old(reader).rest().skip(used as int),
        },
{
    let ghost d = old(reader).rest();
    proof {
        reveal(character_entry);
    }
    let guid = match reader.read_u64_le() {
        Ok(g) => g,
        Err(e) => {
            return Err(e);
        },
    };
    let name = reader.read_until_nul();
    let ghost t = reader.rest();
    proof {
        lemma_until_nul_prefix(d.skip(8));
        lemma_skip_skip(d, 8, name@.len() as int);
    }
    let tail = match reader.read_bytes(261) {
        Ok(b) => b,
        Err(e) => {
            return Err(e);
        },
    };
    proof {
        lemma_skip_skip(d, 8 + name@.len() as int, 261);
    }
    let name_text = lossy_text(strip_terminator(&name).as_slice());
    Ok(Player::new(guid, name_text, tail[0], tail[1], tail[2], tail[8]))
}

/// Reads the character list of a `SMSG_CHAR_ENUM` answer.
pub fn read_character_list(reader: &mut ByteReader) -> (players: Result<Vec<Player>, FieldError>)
    requires
        old(reader).wf(),
    ensures
        final(reader).wf(),
        final(reader).data() == old(reader).data(),
        match character_list(old(reader).rest()) {
            None => players is Err,
            Some(views) => players is Ok && player_views(players->Ok_0@) == views,
        },
{
    let ghost d = old(reader).rest();
    let count = reader.read_u8()?;
    let ghost body = reader.rest();
    let mut players: Vec<Player> = Vec::new();
    let mut k: u8 = 0;
    let ghost mut used: nat = 0;
    proof {
        assert(body.skip(0) =~= body);
        assert(player_views(players@) =~= Seq::<PlayerView>::empty());
    }
    while k < count
        invariant
            reader.wf(),
            reader.data() == old(reader).data(),
            k <= count,
            d == old(reader).rest(),
            d.len() >= 1,
            count == d[0],
            body == d.skip(1),
            used <= body.len(),
            reader.rest() == body.skip(used as int),
            character_entries(body, k as nat) == Some::<(Seq<PlayerView>, nat)>(
                (player_views(players@), used),
            ),
        decreases count - k,
    {
        let ghost before = players@;
        match read_character(reader) {
            Ok(player) => {
                let ghost view = player@;
                players.push(player);
                proof {
                    let step = character_entry(body.skip(used as int))->Some_0.1;
                    lemma_skip_skip(body, used as int, step as int);
                    used = used + step;
                }
                k = k + 1;
                assert(player_views(players@) =~= player_views(before).push(view));
            },
            Err(e) => {
                proof {
                    lemma_entries_fail(body, k as nat, count as nat);
                }
                return Err(e);
            },
        }
    }
    Ok(players)
}

} // verus!
