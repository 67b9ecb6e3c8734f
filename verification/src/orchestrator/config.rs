//! The settings of the orchestrator.

use crate::environment::counts;
use crate::environment::first_invalid;
use crate::environment::law_first_invalid_is_named;
use crate::environment::lemma_number_setting;
use crate::environment::number_settings;
use crate::environment::readable;
use crate::environment::says;
use crate::environment::setting;
use crate::environment::text_setting;
use crate::environment::InvalidVariable;
use crate::environment::NumberSetting;
use crate::environment::NumberSettingView;
use crate::numbers::lemma_few_digits;
use crate::numbers::lemma_few_digits_spell;
use crate::numbers::parsed;
use crate::store::FieldMap;
use crate::store::TextMap;
use crate::text::keep_non_empty;
use crate::text::non_empty;
use crate::text::pieces;
use crate::text::same_text;
use crate::text::split;
use crate::text::trim;
use crate::text::trimmed;
use crate::text::Separator;
use crate::text_laws::law_only_empty_texts_are_left_out;
use crate::text_laws::law_splitting_parts_at_each_separator;
use crate::text_laws::lemma_non_empty_append;
use vstd::prelude::*;

verus! {

/// Where dedicated servers run.
#[derive(Debug, Clone, Copy, PartialEq, Eq, Structural)]
pub enum SpawnerKind {
    /// In containers of this host.
    LocalDocker,
    /// In containers of the hosts of a fleet.
    RemoteDocker,
}

impl SpawnerKind {
    /// Remote where `SPAWNER` says `remote-docker`, local otherwise.
    pub open spec fn chosen(env: FieldMap) -> SpawnerKind {
        if setting(env, "SPAWNER"@, ""@) == "remote-docker"@ {
            SpawnerKind::RemoteDocker
        } else {
            SpawnerKind::LocalDocker
        }
    }

    /// Remote where `SPAWNER` says `remote-docker`, local otherwise.
    pub fn from_env(env: &TextMap) -> (kind: Self)
        ensures
            kind == Self::chosen(env@),
    {
        if same_text(text_setting(env, "SPAWNER", "").as_str(), "remote-docker") {
            SpawnerKind::RemoteDocker
        } else {
            SpawnerKind::LocalDocker
        }
    }
}

/// The settings of the orchestrator.
#[derive(Debug, Clone)]
pub struct Config {
    pub orch_listen_ip: String,
    pub orch_port: u16,
    pub orch_advertise_host: String,
    pub redis_url: String,
    pub hot_capacity_min: usize,
    pub evict_buffer: usize,
    pub scaler_interval_secs: u64,
    pub server_ttl_secs: usize,
    pub max_spawn_per_tick: usize,
    pub max_evict_per_tick: usize,
    pub ds_zone: String,
    pub ds_max_players: usize,
    pub ds_advertise_host: String,
    pub ds_port_range_min: u16,
    pub ds_port_range_max: u16,
    pub spawner_kind: SpawnerKind,
    pub ds_docker_image: String,
    pub ds_docker_network: String,
    pub agent_port: u16,
    pub agent_token: String,
    pub ds_hosts: Vec<String>,
    pub ssh_probe_timeout_secs: u64,
}

/// The variables of the orchestrator that spell numbers, in the order in which they are
/// read.
pub open spec fn orchestrator_numbers() -> Seq<NumberSettingView> {
    seq![
        NumberSettingView { name: "ORCH_PORT"@, default: "9000"@, max: u16::MAX as nat },
        NumberSettingView { name: "HOT_CAPACITY_MIN"@, default: "400"@, max: usize::MAX as nat },
        NumberSettingView { name: "EVICT_BUFFER"@, default: "300"@, max: usize::MAX as nat },
        NumberSettingView { name: "MAX_SPAWN_PER_TICK"@, default: "3"@, max: usize::MAX as nat },
        NumberSettingView { name: "MAX_EVICT_PER_TICK"@, default: "1"@, max: usize::MAX as nat },
        NumberSettingView { name: "SCALER_INTERVAL"@, default: "5"@, max: u64::MAX as nat },
        NumberSettingView { name: "SERVER_TTL"@, default: "15"@, max: usize::MAX as nat },
        NumberSettingView { name: "DS_MAX_PLAYERS"@, default: "200"@, max: usize::MAX as nat },
        NumberSettingView { name: "DS_PORT_RANGE_MIN"@, default: "7001"@, max: u16::MAX as nat },
        NumberSettingView { name: "DS_PORT_RANGE_MAX"@, default: "7100"@, max: u16::MAX as nat },
        NumberSettingView { name: "AGENT_PORT"@, default: "8090"@, max: u16::MAX as nat },
        NumberSettingView { name: "AGENT_PROBE_TIMEOUT"@, default: "2"@, max: u64::MAX as nat },
    ]
}

/// The hosts that a list with commas names: trimmed, and the empty ones left out.
pub open spec fn listed_hosts(list: Seq<char>) -> Seq<Seq<char>> {
    non_empty(pieces(list, Separator::Char(',')).map_values(|host: Seq<char>| trimmed(host)))
}

/// The hosts that a list with commas names.
pub fn split_hosts(list: &str) -> (hosts: Vec<String>)
    ensures
        hosts.deep_view() == listed_hosts(list@),
{
    let parts = split(list, Separator::Char(','));
    let ghost all = parts.deep_view();
    let mut names: Vec<String> = Vec::new();
    let mut i: usize = 0;
    while i < parts.len()
        invariant
            i <= parts.len(),
            all == parts.deep_view(),
            names.len() == i,
            forall|j: int| 0 <= j < i ==> #[trigger] names[j]@ == trimmed(all[j]),
        decreases parts.len() - i,
    {
        assert(all[i as int] == parts[i as int]@);
        names.push(trim(parts[i].as_str()));
        i = i + 1;
    }
    assert(names.deep_view() == all.map_values(|host: Seq<char>| trimmed(host)));
    keep_non_empty(&names)
}

impl Config {
    /// Whether these are the settings that `env` gives.
    pub open spec fn read_from(self, env: FieldMap) -> bool {
        let numbers = orchestrator_numbers();
        &&& self.orch_listen_ip@ == setting(env, "ORCH_LISTEN_IP"@, "0.0.0.0"@)
        &&& Some(self.orch_port as nat) == numbers[0].value(env)
        &&& self.orch_advertise_host@ == setting(env, "ORCH_ADVERTISE_HOST"@, "localhost"@)
        &&& self.redis_url@ == setting(env, "REDIS_URL"@, "redis://localhost:6379"@)
        &&& Some(self.hot_capacity_min as nat) == numbers[1].value(env)
        &&& Some(self.evict_buffer as nat) == numbers[2].value(env)
        &&& Some(self.max_spawn_per_tick as nat) == numbers[3].value(env)
        &&& Some(self.max_evict_per_tick as nat) == numbers[4].value(env)
        &&& Some(self.scaler_interval_secs as nat) == numbers[5].value(env)
        &&& Some(self.server_ttl_secs as nat) == numbers[6].value(env)
        &&& self.ds_zone@ == setting(env, "DS_ZONE"@, "zone_A"@)
        &&& Some(self.ds_max_players as nat) == numbers[7].value(env)
        &&& self.ds_advertise_host@ == setting(env, "DS_ADVERTISE_HOST"@, "localhost"@)
        &&& Some(self.ds_port_range_min as nat) == numbers[8].value(env)
        &&& Some(self.ds_port_range_max as nat) == numbers[9].value(env)
        &&& self.spawner_kind == SpawnerKind::chosen(env)
        &&& self.ds_docker_image@ == setting(
            env,
            "DS_DOCKER_IMAGE"@,
            "mmorpg/dedicated_server:latest"@,
        )
        &&& self.ds_docker_network@ == setting(env, "DS_DOCKER_NETWORK"@, "mmorpg"@)
        &&& Some(self.agent_port as nat) == numbers[10].value(env)
        &&& self.agent_token@ == setting(env, "AGENT_TOKEN"@, "change-me"@)
        &&& self.ds_hosts.deep_view() == listed_hosts(setting(env, "DS_HOSTS"@, ""@))
        &&& Some(self.ssh_probe_timeout_secs as nat) == numbers[11].value(env)
    }

    /// The settings that `env` gives, or the first variable that should spell a number
    /// and does not.
    pub fn from_env(env: &TextMap) -> (config: Result<Self, InvalidVariable>)
        ensures
            match config {
                Ok(config) => config.read_from(env@) && first_invalid(
                    env@,
                    orchestrator_numbers(),
                ) is None,
                Err(e) => first_invalid(env@, orchestrator_numbers()) == Some(e.name@),
            },
    {
        let port = u16::MAX as u64;
        let size = usize::MAX as u64;
        let settings: Vec<NumberSetting> = vec![
            NumberSetting { name: "ORCH_PORT", default: "9000", max: port },
            NumberSetting { name: "HOT_CAPACITY_MIN", default: "400", max: size },
            NumberSetting { name: "EVICT_BUFFER", default: "300", max: size },
            NumberSetting { name: "MAX_SPAWN_PER_TICK", default: "3", max: size },
            NumberSetting { name: "MAX_EVICT_PER_TICK", default: "1", max: size },
            NumberSetting { name: "SCALER_INTERVAL", default: "5", max: u64::MAX },
            NumberSetting { name: "SERVER_TTL", default: "15", max: size },
            NumberSetting { name: "DS_MAX_PLAYERS", default: "200", max: size },
            NumberSetting { name: "DS_PORT_RANGE_MIN", default: "7001", max: port },
            NumberSetting { name: "DS_PORT_RANGE_MAX", default: "7100", max: port },
            NumberSetting { name: "AGENT_PORT", default: "8090", max: port },
            NumberSetting { name: "AGENT_PROBE_TIMEOUT", default: "2", max: u64::MAX },
        ];
        assert(settings.deep_view() == orchestrator_numbers());
        let n = match number_settings(env, &settings) {
            Ok(n) => n,
            Err(e) => {
                return Err(e);
            },
        };
        assert forall|i: int| 0 <= i < 12 implies #[trigger] orchestrator_numbers()[i].value(env@)
            == Some(n[i] as nat) by {
            assert(settings.deep_view()[i] == settings[i]@);
        }
        Ok(
            Config {
                orch_listen_ip: text_setting(env, "ORCH_LISTEN_IP", "0.0.0.0"),
                orch_port: n[0] as u16,
                orch_advertise_host: text_setting(env, "ORCH_ADVERTISE_HOST", "localhost"),
                redis_url: text_setting(env, "REDIS_URL", "redis://localhost:6379"),
                hot_capacity_min: n[1] as usize,
                evict_buffer: n[2] as usize,
                max_spawn_per_tick: n[3] as usize,
                max_evict_per_tick: n[4] as usize,
                scaler_interval_secs: n[5],
                server_ttl_secs: n[6] as usize,
                ds_zone: text_setting(env, "DS_ZONE", "zone_A"),
                ds_max_players: n[7] as usize,
                ds_advertise_host: text_setting(env, "DS_ADVERTISE_HOST", "localhost"),
                ds_port_range_min: n[8] as u16,
                ds_port_range_max: n[9] as u16,
                spawner_kind: SpawnerKind::from_env(env),
                ds_docker_image: text_setting(
                    env,
                    "DS_DOCKER_IMAGE",
                    "mmorpg/dedicated_server:latest",
                ),
                ds_docker_network: text_setting(env, "DS_DOCKER_NETWORK", "mmorpg"),
                agent_port: n[10] as u16,
                agent_token: text_setting(env, "AGENT_TOKEN", "change-me"),
                ds_hosts: split_hosts(text_setting(env, "DS_HOSTS", "").as_str()),
                ssh_probe_timeout_secs: n[11],
            },
        )
    }
}

proof fn lemma_defaults_orchestrator_numbers(env: FieldMap)
    ensures
        orchestrator_numbers()[0].value(env) is Some <==> readable(env, "ORCH_PORT"@, u16::MAX as nat),
        orchestrator_numbers()[0].value(env) matches Some(value) ==> counts(
            env,
            "ORCH_PORT"@,
            9000,
            u16::MAX as nat,
            value,
        ),
        orchestrator_numbers()[1].value(env) is Some <==> readable(env, "HOT_CAPACITY_MIN"@, usize::MAX as nat),
        orchestrator_numbers()[1].value(env) matches Some(value) ==> counts(
            env,
            "HOT_CAPACITY_MIN"@,
            400,
            usize::MAX as nat,
            value,
        ),
        orchestrator_numbers()[2].value(env) is Some <==> readable(env, "EVICT_BUFFER"@, usize::MAX as nat),
        orchestrator_numbers()[2].value(env) matches Some(value) ==> counts(
            env,
            "EVICT_BUFFER"@,
            300,
            usize::MAX as nat,
            value,
        ),
        orchestrator_numbers()[3].value(env) is Some <==> readable(env, "MAX_SPAWN_PER_TICK"@, usize::MAX as nat),
        orchestrator_numbers()[3].value(env) matches Some(value) ==> counts(
            env,
            "MAX_SPAWN_PER_TICK"@,
            3,
            usize::MAX as nat,
            value,
        ),
        orchestrator_numbers()[4].value(env) is Some <==> readable(env, "MAX_EVICT_PER_TICK"@, usize::MAX as nat),
        orchestrator_numbers()[4].value(env) matches Some(value) ==> counts(
            env,
            "MAX_EVICT_PER_TICK"@,
            1,
            usize::MAX as nat,
            value,
        ),
        orchestrator_numbers()[5].value(env) is Some <==> readable(env, "SCALER_INTERVAL"@, u64::MAX as nat),
        orchestrator_numbers()[5].value(env) matches Some(value) ==> counts(
            env,
            "SCALER_INTERVAL"@,
            5,
            u64::MAX as nat,
            value,
        ),
        orchestrator_numbers()[6].value(env) is Some <==> readable(env, "SERVER_TTL"@, usize::MAX as nat),
        orchestrator_numbers()[6].value(env) matches Some(value) ==> counts(
            env,
            "SERVER_TTL"@,
            15,
            usize::MAX as nat,
            value,
        ),
        orchestrator_numbers()[7].value(env) is Some <==> readable(env, "DS_MAX_PLAYERS"@, usize::MAX as nat),
        orchestrator_numbers()[7].value(env) matches Some(value) ==> counts(
            env,
            "DS_MAX_PLAYERS"@,
            200,
            usize::MAX as nat,
            value,
        ),
        orchestrator_numbers()[8].value(env) is Some <==> readable(env, "DS_PORT_RANGE_MIN"@, u16::MAX as nat),
        orchestrator_numbers()[8].value(env) matches Some(value) ==> counts(
            env,
            "DS_PORT_RANGE_MIN"@,
            7001,
            u16::MAX as nat,
            value,
        ),
        orchestrator_numbers()[9].value(env) is Some <==> readable(env, "DS_PORT_RANGE_MAX"@, u16::MAX as nat),
        orchestrator_numbers()[9].value(env) matches Some(value) ==> counts(
            env,
            "DS_PORT_RANGE_MAX"@,
            7100,
            u16::MAX as nat,
            value,
        ),
        orchestrator_numbers()[10].value(env) is Some <==> readable(env, "AGENT_PORT"@, u16::MAX as nat),
        orchestrator_numbers()[10].value(env) matches Some(value) ==> counts(
            env,
            "AGENT_PORT"@,
            8090,
            u16::MAX as nat,
            value,
        ),
        orchestrator_numbers()[11].value(env) is Some <==> readable(env, "AGENT_PROBE_TIMEOUT"@, u64::MAX as nat),
        orchestrator_numbers()[11].value(env) matches Some(value) ==> counts(
            env,
            "AGENT_PROBE_TIMEOUT"@,
            2,
            u64::MAX as nat,
            value,
        ),
{
    reveal_strlit("1");
    lemma_few_digits("1"@);
    reveal_strlit("15");
    lemma_few_digits("15"@);
    reveal_strlit("2");
    lemma_few_digits("2"@);
    reveal_strlit("200");
    lemma_few_digits("200"@);
    reveal_strlit("3");
    lemma_few_digits("3"@);
    reveal_strlit("300");
    lemma_few_digits("300"@);
    reveal_strlit("400");
    lemma_few_digits("400"@);
    reveal_strlit("5");
    lemma_few_digits("5"@);
    reveal_strlit("7001");
    lemma_few_digits("7001"@);
    reveal_strlit("7100");
    lemma_few_digits("7100"@);
    reveal_strlit("8090");
    lemma_few_digits("8090"@);
    reveal_strlit("9000");
    lemma_few_digits("9000"@);
    lemma_few_digits_spell("9000"@, 9000, u16::MAX as nat);
    lemma_number_setting(orchestrator_numbers()[0], env, 9000);
    lemma_few_digits_spell("400"@, 400, usize::MAX as nat);
    lemma_number_setting(orchestrator_numbers()[1], env, 400);
    lemma_few_digits_spell("300"@, 300, usize::MAX as nat);
    lemma_number_setting(orchestrator_numbers()[2], env, 300);
    lemma_few_digits_spell("3"@, 3, usize::MAX as nat);
    lemma_number_setting(orchestrator_numbers()[3], env, 3);
    lemma_few_digits_spell("1"@, 1, usize::MAX as nat);
    lemma_number_setting(orchestrator_numbers()[4], env, 1);
    lemma_few_digits_spell("5"@, 5, u64::MAX as nat);
    lemma_number_setting(orchestrator_numbers()[5], env, 5);
    lemma_few_digits_spell("15"@, 15, usize::MAX as nat);
    lemma_number_setting(orchestrator_numbers()[6], env, 15);
    lemma_few_digits_spell("200"@, 200, usize::MAX as nat);
    lemma_number_setting(orchestrator_numbers()[7], env, 200);
    lemma_few_digits_spell("7001"@, 7001, u16::MAX as nat);
    lemma_number_setting(orchestrator_numbers()[8], env, 7001);
    lemma_few_digits_spell("7100"@, 7100, u16::MAX as nat);
    lemma_number_setting(orchestrator_numbers()[9], env, 7100);
    lemma_few_digits_spell("8090"@, 8090, u16::MAX as nat);
    lemma_number_setting(orchestrator_numbers()[10], env, 8090);
    lemma_few_digits_spell("2"@, 2, u64::MAX as nat);
    lemma_number_setting(orchestrator_numbers()[11], env, 2);
}

/// Each setting of the orchestrator is what its variable says, or its default. Servers run on
/// the hosts of a fleet exactly if `SPAWNER` says so.
pub proof fn law_orchestrator_settings(config: Config, env: FieldMap)
    requires
        config.read_from(env),
    ensures
        says(env, "ORCH_LISTEN_IP"@, "0.0.0.0"@, config.orch_listen_ip@),
        says(env, "ORCH_ADVERTISE_HOST"@, "localhost"@, config.orch_advertise_host@),
        says(env, "REDIS_URL"@, "redis://localhost:6379"@, config.redis_url@),
        says(env, "DS_ZONE"@, "zone_A"@, config.ds_zone@),
        says(env, "DS_ADVERTISE_HOST"@, "localhost"@, config.ds_advertise_host@),
        says(env, "DS_DOCKER_IMAGE"@, "mmorpg/dedicated_server:latest"@, config.ds_docker_image@),
        says(env, "DS_DOCKER_NETWORK"@, "mmorpg"@, config.ds_docker_network@),
        says(env, "AGENT_TOKEN"@, "change-me"@, config.agent_token@),
        counts(env, "ORCH_PORT"@, 9000, u16::MAX as nat, config.orch_port as nat),
        counts(env, "HOT_CAPACITY_MIN"@, 400, usize::MAX as nat, config.hot_capacity_min as nat),
        counts(env, "EVICT_BUFFER"@, 300, usize::MAX as nat, config.evict_buffer as nat),
        counts(env, "MAX_SPAWN_PER_TICK"@, 3, usize::MAX as nat, config.max_spawn_per_tick as nat),
        counts(env, "MAX_EVICT_PER_TICK"@, 1, usize::MAX as nat, config.max_evict_per_tick as nat),
        counts(env, "SCALER_INTERVAL"@, 5, u64::MAX as nat, config.scaler_interval_secs as nat),
        counts(env, "SERVER_TTL"@, 15, usize::MAX as nat, config.server_ttl_secs as nat),
        counts(env, "DS_MAX_PLAYERS"@, 200, usize::MAX as nat, config.ds_max_players as nat),
        counts(env, "DS_PORT_RANGE_MIN"@, 7001, u16::MAX as nat, config.ds_port_range_min as nat),
        counts(env, "DS_PORT_RANGE_MAX"@, 7100, u16::MAX as nat, config.ds_port_range_max as nat),
        counts(env, "AGENT_PORT"@, 8090, u16::MAX as nat, config.agent_port as nat),
        counts(env, "AGENT_PROBE_TIMEOUT"@, 2, u64::MAX as nat, config.ssh_probe_timeout_secs as nat),
        config.spawner_kind == SpawnerKind::RemoteDocker <==> env.contains_key("SPAWNER"@)
            && env["SPAWNER"@] == "remote-docker"@,
        env.contains_key("DS_HOSTS"@) ==> config.ds_hosts.deep_view() == listed_hosts(
            env["DS_HOSTS"@],
        ),
        !env.contains_key("DS_HOSTS"@) ==> config.ds_hosts.len() == 0,
{
    lemma_defaults_orchestrator_numbers(env);
    reveal_strlit("");
    reveal_strlit("remote-docker");
    assert(""@.len() != "remote-docker"@.len());
    law_listing_hosts(""@, ""@);
    assert(trimmed(""@) == ""@);
    if !env.contains_key("DS_HOSTS"@) {
        assert(config.ds_hosts.deep_view().len() == 0);
    }
}

/// The settings are refused exactly if a variable that is set should spell a number and does
/// not, and such a variable is named.
pub proof fn law_orchestrator_needs_numbers(env: FieldMap)
    ensures
        first_invalid(env, orchestrator_numbers()) is None <==> {
            &&& readable(env, "ORCH_PORT"@, u16::MAX as nat)
            &&& readable(env, "HOT_CAPACITY_MIN"@, usize::MAX as nat)
            &&& readable(env, "EVICT_BUFFER"@, usize::MAX as nat)
            &&& readable(env, "MAX_SPAWN_PER_TICK"@, usize::MAX as nat)
            &&& readable(env, "MAX_EVICT_PER_TICK"@, usize::MAX as nat)
            &&& readable(env, "SCALER_INTERVAL"@, u64::MAX as nat)
            &&& readable(env, "SERVER_TTL"@, usize::MAX as nat)
            &&& readable(env, "DS_MAX_PLAYERS"@, usize::MAX as nat)
            &&& readable(env, "DS_PORT_RANGE_MIN"@, u16::MAX as nat)
            &&& readable(env, "DS_PORT_RANGE_MAX"@, u16::MAX as nat)
            &&& readable(env, "AGENT_PORT"@, u16::MAX as nat)
            &&& readable(env, "AGENT_PROBE_TIMEOUT"@, u64::MAX as nat)
        },
        first_invalid(env, orchestrator_numbers()) matches Some(name) ==> env.contains_key(name),
{
    lemma_defaults_orchestrator_numbers(env);
    law_first_invalid_is_named(env, orchestrator_numbers());
    let all = orchestrator_numbers();
    assert(all[0].value(env) == parsed(
        setting(env, all[0].name, all[0].default),
        all[0].max,
    ));
    assert(all[1].value(env) == parsed(
        setting(env, all[1].name, all[1].default),
        all[1].max,
    ));
    assert(all[2].value(env) == parsed(
        setting(env, all[2].name, all[2].default),
        all[2].max,
    ));
    assert(all[3].value(env) == parsed(
        setting(env, all[3].name, all[3].default),
        all[3].max,
    ));
    assert(all[4].value(env) == parsed(
        setting(env, all[4].name, all[4].default),
        all[4].max,
    ));
    assert(all[5].value(env) == parsed(
        setting(env, all[5].name, all[5].default),
        all[5].max,
    ));
    assert(all[6].value(env) == parsed(
        setting(env, all[6].name, all[6].default),
        all[6].max,
    ));
    assert(all[7].value(env) == parsed(
        setting(env, all[7].name, all[7].default),
        all[7].max,
    ));
    assert(all[8].value(env) == parsed(
        setting(env, all[8].name, all[8].default),
        all[8].max,
    ));
    assert(all[9].value(env) == parsed(
        setting(env, all[9].name, all[9].default),
        all[9].max,
    ));
    assert(all[10].value(env) == parsed(
        setting(env, all[10].name, all[10].default),
        all[10].max,
    ));
    assert(all[11].value(env) == parsed(
        setting(env, all[11].name, all[11].default),
        all[11].max,
    ));
}

proof fn lemma_mapped(a: Seq<Seq<char>>, b: Seq<Seq<char>>)
    ensures
        (a + b).map_values(|host: Seq<char>| trimmed(host)) == a.map_values(
            |host: Seq<char>| trimmed(host),
        ) + b.map_values(|host: Seq<char>| trimmed(host)),
{
    assert((a + b).map_values(|host: Seq<char>| trimmed(host)) =~= a.map_values(
        |host: Seq<char>| trimmed(host),
    ) + b.map_values(|host: Seq<char>| trimmed(host)));
}

/// A comma parts the hosts before it from those behind it; between commas stands one host, in
/// white space or not, or none where there is nothing but white space.
pub proof fn law_listing_hosts(s: Seq<char>, t: Seq<char>)
    ensures
        listed_hosts(s.push(',') + t) == listed_hosts(s) + listed_hosts(t),
        !s.contains(',') ==> listed_hosts(s) == if trimmed(s).len() == 0 {
            Seq::<Seq<char>>::empty()
        } else {
            seq![trimmed(s)]
        },
{
    let sep = Separator::Char(',');
    let f = |host: Seq<char>| trimmed(host);
    law_splitting_parts_at_each_separator(s, ',', t);
    lemma_mapped(pieces(s, sep), pieces(t, sep));
    lemma_non_empty_append(pieces(s, sep).map_values(f), pieces(t, sep).map_values(f));
    if !s.contains(',') {
        let empty = Seq::<Seq<char>>::empty();
        assert(seq![s].map_values(f) == empty.push(trimmed(s)) + empty);
        law_only_empty_texts_are_left_out(empty, trimmed(s), empty);
        assert(empty.push(trimmed(s)) + empty == seq![trimmed(s)]);
        assert(empty + empty == empty);
    }
}

/// The settings that are read are those of the variables, and where a variable is not a number
/// it is named.
pub proof fn law_orchestrator_settings_are_read(
    env: TextMap,
    config: Result<Config, InvalidVariable>,
    kind: SpawnerKind,
    list: &str,
    hosts: Vec<String>,
)
    requires
        call_ensures(Config::from_env, (&env,), config),
        call_ensures(SpawnerKind::from_env, (&env,), kind),
        call_ensures(split_hosts, (list,), hosts),
    ensures
        config matches Ok(c) ==> c.read_from(env@),
        config is Ok <==> first_invalid(env@, orchestrator_numbers()) is None,
        config matches Err(e) ==> first_invalid(env@, orchestrator_numbers()) == Some(e.name@),
        kind == SpawnerKind::RemoteDocker <==> env@.contains_key("SPAWNER"@) && env@["SPAWNER"@]
            == "remote-docker"@,
        hosts.deep_view() == listed_hosts(list@),
{
    reveal_strlit("");
    reveal_strlit("remote-docker");
    assert(""@.len() != "remote-docker"@.len());
}

} // verus!
