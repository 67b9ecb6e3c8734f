//! The players on a server. Connections are known by number.

use std::collections::HashMap;
use vstd::prelude::*;

verus! {

broadcast use vstd::std_specs::hash::group_hash_axioms;

/// A player on the server.
#[derive(Debug)]
pub struct PlayerInfo {
    pub player_id: String,
    pub username: String,
}

/// What a [`PlayerInfo`] says.
pub struct PlayerView {
    pub player_id: Seq<char>,
    pub username: Seq<char>,
}

impl View for PlayerInfo {
    type V = PlayerView;

    open spec fn view(&self) -> PlayerView {
        PlayerView { player_id: self.player_id@, username: self.username@ }
    }
}

/// The players on the server, by connection.
#[derive(Debug)]
pub struct PlayerRegistry {
    pub players: HashMap<u64, PlayerInfo>,
}

impl View for PlayerRegistry {
    type V = Map<u64, PlayerView>;

    open spec fn view(&self) -> Map<u64, PlayerView> {
        self.players@.map_values(|p: PlayerInfo| p@)
    }
}

impl PlayerRegistry {
    /// No players.
    pub fn new() -> (registry: PlayerRegistry)
        ensures
            registry@ == Map::<u64, PlayerView>::empty(),
    {
        let registry = PlayerRegistry { players: HashMap::new() };
        assert(registry@ =~= Map::<u64, PlayerView>::empty());
        registry
    }

    /// There are finitely many players.
    pub broadcast proof fn lemma_finite(&self)
        ensures
            #[trigger] self@.dom().finite(),
    {
        assert(self@.dom() =~= self.players@.dom());
    }

    /// How many players there are.
    pub fn len(&self) -> (n: usize)
        ensures
            n == self@.dom().len(),
    {
        assert(self@.dom() =~= self.players@.dom());
        self.players.len()
    }

    /// Whether somebody has joined on the connection.
    pub fn has(&self, conn: u64) -> (has: bool)
        ensures
            has == self@.contains_key(conn),
    {
        self.players.contains_key(&conn)
    }

    /// Puts a player on the server.
    pub fn insert(&mut self, conn: u64, player: PlayerInfo)
        ensures
            final(self)@ == old(self)@.insert(conn, player@),
    {
        self.players.insert(conn, player);
        assert(self@ =~= old(self)@.insert(conn, player@));
    }

    /// Takes the player of the connection off the server.
    pub fn remove(&mut self, conn: u64) -> (player: Option<PlayerInfo>)
        ensures
            final(self)@ == old(self)@.remove(conn),
            match player {
                Some(player) => old(self)@.contains_key(conn) && old(self)@[conn] == player@,
                None => !old(self)@.contains_key(conn),
            },
    {
        let player = self.players.remove(&conn);
        assert(self@ =~= old(self)@.remove(conn));
        player
    }
}

/// The registry has for each connection the player that was put there last, and none once the
/// player was taken off; the other connections are not touched.
pub proof fn law_registry_keeps_players(
    registry: &mut PlayerRegistry,
    conn: u64,
    player: PlayerInfo,
    other: u64,
    pre: PlayerRegistry,
    post: PlayerRegistry,
)
    requires
        *old(registry) == pre,
        *final(registry) == post,
        call_ensures(PlayerRegistry::insert, (registry, conn, player), ()),
    ensures
        post@.contains_key(conn),
        post@[conn].player_id == player.player_id@,
        post@[conn].username == player.username@,
        other != conn ==> post@.contains_key(other) == pre@.contains_key(other),
        other != conn && pre@.contains_key(other) ==> post@[other] == pre@[other],
{
}

/// The same, of a player who is taken off.
pub proof fn law_registry_loses_players(
    registry: &mut PlayerRegistry,
    conn: u64,
    player: Option<PlayerInfo>,
    other: u64,
    pre: PlayerRegistry,
    post: PlayerRegistry,
)
    requires
        *old(registry) == pre,
        *final(registry) == post,
        call_ensures(PlayerRegistry::remove, (registry, conn), player),
    ensures
        !post@.contains_key(conn),
        player is Some <==> pre@.contains_key(conn),
        player matches Some(p) ==> p.player_id@ == pre@[conn].player_id && p.username@
            == pre@[conn].username,
        other != conn ==> post@.contains_key(other) == pre@.contains_key(other),
        other != conn && pre@.contains_key(other) ==> post@[other] == pre@[other],
{
}

} // verus!
