//! From start to shutdown: taking over servers of an earlier run, listening to heartbeats,
//! stopping everything at the end.

use crate::numbers::decimal;
use crate::orchestrator::config::Config;
use crate::orchestrator::local::AdoptedDs;
use crate::orchestrator::registry::heartbeat_write;
use crate::orchestrator::registry::law_heartbeat_fills_entry;
use crate::orchestrator::registry::law_starting_fills_entry;
use crate::orchestrator::registry::starting_write;
use crate::orchestrator::registry::write_heartbeat;
use crate::orchestrator::registry::write_starting;
use crate::orchestrator::registry::Location;
use crate::protocol::Heartbeat;
use crate::store::field;
use crate::store::FieldMap;
use crate::store::HashWrite;
use vstd::prelude::*;

verus! {

/// What is written for a server that was found running: the entry of a server that starts,
/// unless it has an entry already.
pub fn adopt(orphan: &AdoptedDs, has_entry: bool, config: &Config) -> (write: Option<HashWrite>)
    ensures
        match write {
            Some(write) => !has_entry && write@ == starting_write(
                orphan.ds_id@,
                orphan.port,
                orphan.location,
                *config,
            ),
            None => has_entry,
        },
{
    if has_entry {
        None
    } else {
        Some(write_starting(orphan.ds_id.as_str(), orphan.port, &orphan.location, config))
    }
}

/// What the heartbeat listener is told.
#[derive(Debug)]
pub enum ListenerEvent {
    /// A server connected or disconnected, or something else happened on the network.
    Network,
    /// A message came, with the heartbeat that it holds, where it holds one.
    Message(Option<Heartbeat>),
    /// Nothing happened.
    Quiet,
}

/// What the heartbeat listener does.
#[derive(Debug)]
pub enum ListenerAction {
    /// Listen on.
    Listen,
    /// Write the entry of a server.
    Write(HashWrite),
    /// Sleep for so many milliseconds.
    Sleep { ms: u64 },
}

/// What the heartbeat listener does when it is told `event`, where entries live for `ttl`
/// seconds.
pub fn on_listener_event(event: &ListenerEvent, ttl: usize) -> (action: ListenerAction)
    ensures
        match *event {
            ListenerEvent::Message(Some(hb)) => action matches ListenerAction::Write(write)
                && write@ == heartbeat_write(hb, ttl),
            ListenerEvent::Message(None) => action is Listen,
            ListenerEvent::Network => action is Listen,
            ListenerEvent::Quiet => action == (ListenerAction::Sleep { ms: 10 }),
        },
{
    match event {
        ListenerEvent::Message(Some(hb)) => ListenerAction::Write(write_heartbeat(hb, ttl)),
        ListenerEvent::Message(None) => ListenerAction::Listen,
        ListenerEvent::Network => ListenerAction::Listen,
        ListenerEvent::Quiet => ListenerAction::Sleep { ms: 10 },
    }
}

/// The containers to stop at the end: those of all servers that were found, and none where
/// they could not be found.
pub fn kill_all(found: Result<Vec<AdoptedDs>, String>) -> (locations: Vec<Location>)
    ensures
        match found {
            Ok(found) => locations.len() == found.len() && forall|i: int|
                0 <= i < found.len() ==> (#[trigger] locations[i]).host@
                    == found[i].location.host@ && locations[i].container_id@
                    == found[i].location.container_id@,
            Err(_) => locations.len() == 0,
        },
{
    let mut locations: Vec<Location> = Vec::new();
    if let Ok(found) = &found {
        let mut i: usize = 0;
        while i < found.len()
            invariant
                i <= found.len(),
                locations.len() == i,
                forall|j: int|
                    0 <= j < i ==> (#[trigger] locations[j]).host@ == found[j].location.host@
                        && locations[j].container_id@ == found[j].location.container_id@,
            decreases found.len() - i,
        {
            let location = &found[i].location;
            locations.push(
                Location {
                    host: location.host.clone(),
                    container_id: location.container_id.clone(),
                },
            );
            i = i + 1;
        }
    }
    locations
}

// ---- laws ----

/// A server that was found running gets an entry exactly if it has none; the entry is its own,
/// says where it runs, and that it is starting.
pub proof fn law_orphans_are_adopted(
    orphan: AdoptedDs,
    has_entry: bool,
    config: Config,
    write: Option<HashWrite>,
    before: FieldMap,
)
    requires
        call_ensures(adopt, (&orphan, has_entry, &config), write),
    ensures
        write is Some <==> !has_entry,
        write matches Some(write) ==> {
            let after = write@.applied_to(before);
            &&& write.key@ == "server:"@ + orphan.ds_id@
            &&& write.ttl_secs == config.server_ttl_secs as i64
            &&& field(after, "port"@) == Some(decimal(orphan.port as nat))
            &&& field(after, "host"@) == Some(orphan.location.host@)
            &&& field(after, "container_id"@) == Some(orphan.location.container_id@)
            &&& field(after, "status"@) == Some("starting"@)
            &&& field(after, "player_count"@) == Some(decimal(0))
            &&& field(after, "max_players"@) == Some(decimal(config.ds_max_players as nat))
            &&& field(after, "zone"@) == Some(config.ds_zone@)
            &&& field(after, "ip"@) == Some(config.ds_advertise_host@)
        },
{
    law_starting_fills_entry(orphan.ds_id@, orphan.port, orphan.location, config, before);
}

/// Every heartbeat that can be read is written to the entry of its server, and nothing else is
/// written. The listener sleeps only when nothing happened.
pub proof fn law_listener_writes_heartbeats(
    event: ListenerEvent,
    ttl: usize,
    action: ListenerAction,
    before: FieldMap,
)
    requires
        call_ensures(on_listener_event, (&event, ttl), action),
    ensures
        action is Write <==> (event matches ListenerEvent::Message(hb) && hb is Some),
        action is Sleep <==> event is Quiet,
        action matches ListenerAction::Sleep { ms } ==> ms == 10,
        action matches ListenerAction::Write(write) ==> {
            let hb = event->Message_0->0;
            let after = write@.applied_to(before);
            &&& write.key@ == "server:"@ + hb.id@
            &&& write.ttl_secs == ttl as i64
            &&& field(after, "ip"@) == Some(hb.ip@)
            &&& field(after, "port"@) == Some(decimal(hb.port as nat))
            &&& field(after, "zone"@) == Some(hb.zone@)
            &&& field(after, "player_count"@) == Some(decimal(hb.player_count as nat))
            &&& field(after, "max_players"@) == Some(decimal(hb.max_players as nat))
            &&& field(after, "status"@) == Some(
                if hb.player_count < hb.max_players {
                    "available"@
                } else {
                    "full"@
                },
            )
        },
{
    if let ListenerEvent::Message(Some(hb)) = event {
        law_heartbeat_fills_entry(hb, ttl, before);
    }
}

/// At the end every server that was found is stopped, where it runs, and nothing else.
pub proof fn law_everything_found_is_stopped(
    found: Result<Vec<AdoptedDs>, String>,
    locations: Vec<Location>,
    i: int,
)
    requires
        call_ensures(kill_all, (found,), locations),
    ensures
        locations.len() == match found {
            Ok(found) => found.len() as int,
            Err(_) => 0,
        },
        0 <= i < locations.len() ==> locations[i].host@ == found->Ok_0[i].location.host@
            && locations[i].container_id@ == found->Ok_0[i].location.container_id@,
{
}

} // verus!
