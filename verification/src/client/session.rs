//! The state the packet handlers share: the session of the account and what the client
//! knows of other players.

use vstd::prelude::*;

use std::collections::HashMap;

use crate::client::player::types::{Player, PlayerView};
use crate::client::realm::types::Realm;
use crate::config::Config;
use crate::crypto::srp::Srp;

verus! {

/// The session of the account on the servers.
pub struct Session {
    pub config: Option<Config>,
    pub srp: Option<Srp>,
    pub selected_realm: Option<Realm>,
    pub me: Option<Player>,
    /// The spells the character knows.
    pub spells: Vec<u32>,
    /// The character is casting a spell.
    pub is_casting: bool,
    /// The character has entered the world.
    pub in_world: bool,
}

impl Session {
    /// A session before login: nothing is known yet.
    pub fn new() -> (session: Self)
        ensures
            session.wf(),
            session.config is None,
            session.srp is None,
            session.selected_realm is None,
            session.me is None,
            session.spells@.len() == 0,
            !session.is_casting,
            !session.in_world,
    {
        Session {
            config: None,
            srp: None,
            selected_realm: None,
            me: None,
            spells: Vec::new(),
            is_casting: false,
            in_world: false,
        }
    }

    /// The handshake state, when there is one, keeps its invariant.
    pub open spec fn wf(&self) -> bool {
        self.srp is Some ==> self.srp->Some_0.wf()
    }
}

/// The players around the character, each filed under its guid.
pub struct DataStorage {
    pub players: HashMap<u64, Player>,
}

/// The players known, by guid, as values.
pub open spec fn player_map(players: Map<u64, Player>) -> Map<u64, PlayerView> {
    players.map_values(|p: Player| p@)
}

/// Each player is filed under its own guid.
pub open spec fn filed_by_guid(players: Map<u64, PlayerView>) -> bool {
    forall|g: u64| #[trigger] players.contains_key(g) ==> players[g].guid == g
}

impl DataStorage {
    /// Each player is filed under its own guid.
    pub open spec fn wf(&self) -> bool {
        filed_by_guid(player_map(self.players@))
    }

    /// A player with this guid is known.
    pub open spec fn knows(&self, guid: u64) -> bool {
        self.players@.contains_key(guid)
    }

    pub fn new() -> (storage: Self)
        ensures
            storage.wf(),
            storage.players@ == Map::<u64, Player>::empty(),
    {
        DataStorage { players: HashMap::new() }
    }

    /// Whether a player with this guid is known.
    pub fn contains(&self, guid: u64) -> (found: bool)
        ensures
            found == self.knows(guid),
    {
        broadcast use vstd::std_specs::hash::group_hash_axioms;
        self.players.contains_key(&guid)
    }

    /// Files a player under its guid, in place of any player filed there.
    pub fn add(&mut self, player: Player)
        ensures
            final(self).players@ == old(self).players@.insert(player.guid, player),
            old(self).wf() ==> final(self).wf(),
    {
        broadcast use vstd::std_specs::hash::group_hash_axioms;
        let ghost before = self.players@;
        let guid = player.guid;
        let _ = self.players.insert(guid, player);
        assert(player_map(self.players@) =~= player_map(before).insert(guid, player@));
    }
}

/// The players of a list, as values.
pub open spec fn player_views(players: Seq<Player>) -> Seq<PlayerView> {
    players.map_values(|p: Player| p@)
}

/// A copy of a list of players.
pub fn copy_players(players: &Vec<Player>) -> (r: Vec<Player>)
    ensures
        player_views(r@) == player_views(players@),
{
    let mut out: Vec<Player> = Vec::new();
    let mut k: usize = 0;
    while k < players.len()
        invariant
            k <= players@.len(),
            out@.len() == k,
            forall|j: int| 0 <= j < k ==> #[trigger] out@[j]@ == players@[j]@,
        decreases players@.len() - k,
    {
        out.push(players[k].duplicate());
        k = k + 1;
    }
    assert(player_views(out@) =~= player_views(players@));
    out
}

/// The players after a name query answer about `guid`: a known player takes the new
/// name, race, class and gender and keeps its level; an unknown one is added at level 1.
pub open spec fn upserted(
    players: Map<u64, PlayerView>,
    guid: u64,
    name: Seq<char>,
    race: u8,
    class: u8,
    gender: u8,
) -> Map<u64, PlayerView> {
    let level = if players.contains_key(guid) {
        players[guid].level
    } else {
        1
    };
    players.insert(guid, PlayerView { guid, name, race, class, gender, level })
}

/// After a name query answer the player is known with the name, race, class and gender it
/// gave, and every other player is as it was.
pub proof fn lemma_upsert_records(
    players: Map<u64, PlayerView>,
    guid: u64,
    name: Seq<char>,
    race: u8,
    class: u8,
    gender: u8,
)
    ensures
        ({
            let after = upserted(players, guid, name, race, class, gender);
            &&& after.contains_key(guid)
            &&& after[guid].guid == guid && after[guid].name == name && after[guid].race == race
                && after[guid].class == class && after[guid].gender == gender
            &&& after.dom() == players.dom().insert(guid)
            &&& forall|g: u64| g != guid && #[trigger] players.contains_key(g) ==> after[g] == players[g]
        }),
{
    let after = upserted(players, guid, name, race, class, gender);
    assert(after.dom() =~= players.dom().insert(guid));
}

/// Recording a name query answer keeps each player filed under its own guid.
pub proof fn lemma_upsert_keeps_players_filed(
    players: Map<u64, PlayerView>,
    guid: u64,
    name: Seq<char>,
    race: u8,
    class: u8,
    gender: u8,
)
    requires
        filed_by_guid(players),
    ensures
        filed_by_guid(upserted(players, guid, name, race, class, gender)),
{
}

impl DataStorage {
    /// Records what a name query answered about a player.
    pub fn upsert(&mut self, guid: u64, name: String, race: u8, class: u8, gender: u8)
        ensures
            player_map(final(self).players@) == upserted(
                player_map(old(self).players@),
                guid,
                name@,
                race,
                class,
                gender,
            ),
            old(self).wf() ==> final(self).wf(),
    {
        broadcast use vstd::std_specs::hash::group_hash_axioms;
        let ghost before = player_map(self.players@);
        let level: u8 = match self.players.get(&guid) {
            Some(p) => p.level,
            None => 1,
        };
        let ghost name_view = name@;
        self.add(Player::new(guid, name, race, class, gender, level));
        assert(player_map(self.players@) =~= upserted(before, guid, name_view, race, class, gender));
    }
}

/// What a packet handler works with: the incoming packet and the shared state.
pub struct HandlerInput {
    pub session: Session,
    pub data_storage: DataStorage,
    /// The body of the packet.
    pub data: Vec<u8>,
    pub opcode: u16,
}

impl HandlerInput {
    /// The handshake keeps its invariant and each player is known once.
    pub open spec fn wf(&self) -> bool {
        self.session.wf() && self.data_storage.wf()
    }
}

} // verus!
