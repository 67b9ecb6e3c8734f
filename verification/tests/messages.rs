use mmorpg_fleet::clock::{epoch, epoch_seconds};
use mmorpg_fleet::protocol::{Heartbeat, HostStatus, ServerStatus};

fn beat(player_count: usize, max_players: usize) -> Heartbeat {
    Heartbeat {
        id: "ds".to_string(),
        ip: "1.2.3.4".to_string(),
        port: 7001,
        zone: "zone_A".to_string(),
        player_count,
        max_players,
    }
}

#[test]
fn a_server_is_full_when_no_player_more_has_room() {
    assert_eq!(beat(0, 2).status(), ServerStatus::Available);
    assert_eq!(beat(1, 2).status(), ServerStatus::Available);
    assert_eq!(beat(2, 2).status(), ServerStatus::Full);
    assert_eq!(beat(3, 2).status(), ServerStatus::Full);
    assert_eq!(beat(0, 0).status(), ServerStatus::Full);
}

#[test]
fn statuses_have_lower_case_names() {
    assert_eq!(ServerStatus::Available.as_str(), "available");
    assert_eq!(ServerStatus::Full.as_str(), "full");
    assert_eq!(ServerStatus::Starting.as_str(), "starting");
    assert_eq!(HostStatus::Idle.as_str(), "idle");
    assert_eq!(HostStatus::Running.as_str(), "running");
    assert_eq!(HostStatus::Starting.as_str(), "starting");
    assert_eq!(HostStatus::Stopping.as_str(), "stopping");
}

#[test]
fn host_statuses_are_read_back() {
    for status in [HostStatus::Idle, HostStatus::Running, HostStatus::Starting, HostStatus::Stopping] {
        assert_eq!(HostStatus::from_str(status.as_str()), Some(status));
    }
    assert_eq!(HostStatus::from_str("Idle"), None);
    assert_eq!(HostStatus::from_str(""), None);
}

#[test]
fn time_counts_from_the_epoch() {
    assert_eq!(epoch_seconds(Some(12)), 12);
    assert_eq!(epoch_seconds(None), 0);
    let now = std::time::SystemTime::now()
        .duration_since(std::time::UNIX_EPOCH)
        .unwrap()
        .as_secs() as i64;
    let read = epoch();
    assert!(read >= now && read <= now + 5);
}
