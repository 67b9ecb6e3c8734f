use mmorpg_fleet::containers::CommandOutput;
use mmorpg_fleet::orchestrator::local::LocalDockerSpawner;
use mmorpg_fleet::orchestrator::registry::Location;
use mmorpg_fleet::orchestrator::scaler::SpawnEnv;

fn output(success: bool, stdout: &[u8], stderr: &[u8]) -> CommandOutput {
    CommandOutput {
        success,
        status: "exit status: 125".to_string(),
        stdout: stdout.to_vec(),
        stderr: stderr.to_vec(),
    }
}

#[test]
fn a_container_is_started_with_all_it_needs() {
    let spawner = LocalDockerSpawner { image: "img".to_string(), network: "net".to_string() };
    let env = SpawnEnv {
        ds_zone: "z".to_string(),
        ds_max_players: 20,
        ds_advertise_host: "adv".to_string(),
        orch_host: "orch".to_string(),
        orch_port: 9000,
        redis_url: "redis://r".to_string(),
    };
    assert_eq!(
        spawner.spawn_args("id1", 7002, &env),
        vec![
            "run", "-d", "--rm", "--network", "net", "-p", "7002:7002/udp",
            "--label", "mmorpg.role=ds",
            "--label", "mmorpg.ds_id=id1",
            "--label", "mmorpg.ds_port=7002",
            "-e", "DS_ID=id1",
            "-e", "DS_PORT=7002",
            "-e", "DS_ZONE=z",
            "-e", "DS_MAX_PLAYERS=20",
            "-e", "DS_ADVERTISE_HOST=adv",
            "-e", "ORCH_HOST=orch",
            "-e", "ORCH_PORT=9000",
            "-e", "REDIS_URL=redis://r",
            "img",
        ]
    );
}

#[test]
fn the_identifier_of_a_container_is_what_was_printed() {
    let place = LocalDockerSpawner::spawned(Ok(output(true, b" abc123\n", b""))).unwrap();
    assert_eq!((place.host.as_str(), place.container_id.as_str()), ("localhost", "abc123"));
}

#[test]
fn a_failed_start_says_why() {
    let e = LocalDockerSpawner::spawned(Ok(output(false, b"", b" no \"image\"\n"))).unwrap_err();
    assert_eq!(e, "docker run exit exit status: 125: stderr=\"no \\\"image\\\"\" stdout=\"\"");
    let e = LocalDockerSpawner::spawned(Err("missing".to_string())).unwrap_err();
    assert_eq!(e, "could not invoke docker CLI: missing");
    let bytes = vec![b'a', 0xff];
    let e = LocalDockerSpawner::spawned(Ok(output(true, &bytes, b""))).unwrap_err();
    assert_eq!(e, String::from_utf8(bytes).unwrap_err().to_string());
}

#[test]
fn a_container_is_looked_for_by_its_server() {
    assert_eq!(
        LocalDockerSpawner::locate_args("id1"),
        vec!["ps", "-q", "--filter", "label=mmorpg.ds_id=id1"]
    );
    assert!(LocalDockerSpawner::located(&b" \n".to_vec()).is_none());
    assert_eq!(LocalDockerSpawner::located(&b"abc\n".to_vec()).unwrap().container_id, "abc");
    assert_eq!(LocalDockerSpawner::located(&vec![b'a', 0xff]).unwrap().container_id, "a\u{fffd}");
}

#[test]
fn a_container_is_removed_by_force() {
    let place = Location { host: "localhost".to_string(), container_id: "c".to_string() };
    assert_eq!(LocalDockerSpawner::kill_args(&place), vec!["rm", "-f", "c"]);
}

#[test]
fn containers_are_listed() {
    assert_eq!(
        LocalDockerSpawner::list_args(),
        vec![
            "ps", "--filter", "label=mmorpg.role=ds", "--format",
            "{{.ID}}\t{{.Label \"mmorpg.ds_id\"}}\t{{.Label \"mmorpg.ds_port\"}}",
        ]
    );
    let stdout = b"c1\tid1\t7001\n c2 \t id2 \t 7002 \r\nc3\tid3\nc4\t\t7004\nc5\tid5\tx\n\tid6\t7006\nc7\tid7\t7007\tmore\n";
    let found = LocalDockerSpawner::listed(&output(true, stdout, b"")).unwrap();
    let rows: Vec<(&str, u16, &str, &str)> = found
        .iter()
        .map(|d| (d.ds_id.as_str(), d.port, d.location.host.as_str(), d.location.container_id.as_str()))
        .collect();
    assert_eq!(rows, vec![("id1", 7001, "localhost", "c1"), ("id2", 7002, "localhost", "c2")]);
    let e = LocalDockerSpawner::listed(&output(false, b"", b"down\n")).unwrap_err();
    assert_eq!(e, "docker ps failed: down\n");
}

#[test]
fn started_servers_are_found_again() {
    let stdout = b"3f2a\t1b4e28ba-2fa1-4d3b-883f-0016d3cca427\t7001\nc0de\tid2\t65535\n";
    let found = LocalDockerSpawner::listed(&output(true, stdout, b"")).unwrap();
    assert_eq!(found.len(), 2);
    assert_eq!(found[0].ds_id, "1b4e28ba-2fa1-4d3b-883f-0016d3cca427");
    assert_eq!((found[0].port, found[0].location.container_id.as_str()), (7001, "3f2a"));
    assert_eq!((found[1].port, found[1].location.container_id.as_str()), (65535, "c0de"));
}
