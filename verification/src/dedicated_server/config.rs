//! The settings of a dedicated server.

use crate::boundary::is_random_uuid;
use crate::boundary::random_uuid;
use crate::environment::counts;
use crate::environment::first_invalid;
use crate::environment::law_first_invalid_is_named;
use crate::environment::lemma_number_setting;
use crate::environment::number_settings;
use crate::environment::readable;
use crate::environment::says;
use crate::environment::setting;
use crate::environment::text_setting;
use crate::environment::InvalidVariable;
use crate::environment::NumberSetting;
use crate::environment::NumberSettingView;
use crate::numbers::lemma_few_digits;
use crate::numbers::lemma_few_digits_spell;
use crate::numbers::parsed;
use crate::store::field;
use crate::store::FieldMap;
use crate::store::TextMap;
use vstd::prelude::*;

verus! {

/// The settings of a dedicated server.
#[derive(Debug, Clone)]
pub struct ServerConfig {
    pub id: String,
    pub listen_ip: String,
    pub port: u16,
    pub advertise_host: String,
    pub zone: String,
    pub max_players: usize,
    pub orchestrator_host: String,
    pub orchestrator_port: u16,
    pub redis_url: String,
}

/// The variables of a dedicated server that spell numbers, in the order in which they are
/// read.
pub open spec fn server_numbers() -> Seq<NumberSettingView> {
    seq![
        NumberSettingView { name: "DS_PORT"@, default: "7001"@, max: u16::MAX as nat },
        NumberSettingView { name: "DS_MAX_PLAYERS"@, default: "200"@, max: usize::MAX as nat },
        NumberSettingView { name: "ORCH_PORT"@, default: "9000"@, max: u16::MAX as nat },
    ]
}

impl ServerConfig {
    /// Whether these are the settings that `env` gives, but for the identifier.
    pub open spec fn read_from(self, env: FieldMap) -> bool {
        let numbers = server_numbers();
        &&& self.listen_ip@ == setting(env, "DS_LISTEN_IP"@, "0.0.0.0"@)
        &&& Some(self.port as nat) == numbers[0].value(env)
        &&& self.advertise_host@ == setting(env, "DS_ADVERTISE_HOST"@, "localhost"@)
        &&& self.zone@ == setting(env, "DS_ZONE"@, "zone_A"@)
        &&& Some(self.max_players as nat) == numbers[1].value(env)
        &&& self.orchestrator_host@ == setting(env, "ORCH_HOST"@, "localhost"@)
        &&& Some(self.orchestrator_port as nat) == numbers[2].value(env)
        &&& self.redis_url@ == setting(env, "REDIS_URL"@, "redis://localhost:6379"@)
    }

    /// The settings that `env` gives to a server that is to be called `fresh_id` where `env`
    /// does not say otherwise.
    pub fn with_fresh_id(env: &TextMap, fresh_id: &str) -> (config: Result<Self, InvalidVariable>)
        ensures
            match config {
                Ok(config) => config.read_from(env@) && config.id@ == setting(
                    env@,
                    "DS_ID"@,
                    fresh_id@,
                ) && first_invalid(env@, server_numbers()) is None,
                Err(e) => first_invalid(env@, server_numbers()) == Some(e.name@),
            },
    {
        let settings: Vec<NumberSetting> = vec![
            NumberSetting { name: "DS_PORT", default: "7001", max: u16::MAX as u64 },
            NumberSetting { name: "DS_MAX_PLAYERS", default: "200", max: usize::MAX as u64 },
            NumberSetting { name: "ORCH_PORT", default: "9000", max: u16::MAX as u64 },
        ];
        assert(settings.deep_view() == server_numbers());
        let n = match number_settings(env, &settings) {
            Ok(n) => n,
            Err(e) => {
                return Err(e);
            },
        };
        assert forall|i: int| 0 <= i < 3 implies #[trigger] server_numbers()[i].value(env@) == Some(
            n[i] as nat,
        ) by {
            assert(settings.deep_view()[i] == settings[i]@);
        }
        Ok(
            ServerConfig {
                id: text_setting(env, "DS_ID", fresh_id),
                listen_ip: text_setting(env, "DS_LISTEN_IP", "0.0.0.0"),
                port: n[0] as u16,
                advertise_host: text_setting(env, "DS_ADVERTISE_HOST", "localhost"),
                zone: text_setting(env, "DS_ZONE", "zone_A"),
                max_players: n[1] as usize,
                orchestrator_host: text_setting(env, "ORCH_HOST", "localhost"),
                orchestrator_port: n[2] as u16,
                redis_url: text_setting(env, "REDIS_URL", "redis://localhost:6379"),
            },
        )
    }

    /// The settings that `env` gives. A server that is not named gets a random identifier.
    pub fn from_env(env: &TextMap) -> (config: Result<Self, InvalidVariable>)
        ensures
            match config {
                Ok(config) => {
                    &&& config.read_from(env@)
                    &&& first_invalid(env@, server_numbers()) is None
                    &&& match field(env@, "DS_ID"@) {
                        Some(id) => config.id@ == id,
                        None => is_random_uuid(config.id@),
                    }
                },
                Err(e) => first_invalid(env@, server_numbers()) == Some(e.name@),
            },
    {
        let fresh_id = random_uuid();
        Self::with_fresh_id(env, fresh_id.as_str())
    }
}

proof fn lemma_defaults_server_numbers(env: FieldMap)
    ensures
        server_numbers()[0].value(env) is Some <==> readable(env, "DS_PORT"@, u16::MAX as nat),
        server_numbers()[0].value(env) matches Some(value) ==> counts(
            env,
            "DS_PORT"@,
            7001,
            u16::MAX as nat,
            value,
        ),
        server_numbers()[1].value(env) is Some <==> readable(env, "DS_MAX_PLAYERS"@, usize::MAX as nat),
        server_numbers()[1].value(env) matches Some(value) ==> counts(
            env,
            "DS_MAX_PLAYERS"@,
            200,
            usize::MAX as nat,
            value,
        ),
        server_numbers()[2].value(env) is Some <==> readable(env, "ORCH_PORT"@, u16::MAX as nat),
        server_numbers()[2].value(env) matches Some(value) ==> counts(
            env,
            "ORCH_PORT"@,
            9000,
            u16::MAX as nat,
            value,
        ),
{
    reveal_strlit("200");
    lemma_few_digits("200"@);
    reveal_strlit("7001");
    lemma_few_digits("7001"@);
    reveal_strlit("9000");
    lemma_few_digits("9000"@);
    lemma_few_digits_spell("7001"@, 7001, u16::MAX as nat);
    lemma_number_setting(server_numbers()[0], env, 7001);
    lemma_few_digits_spell("200"@, 200, usize::MAX as nat);
    lemma_number_setting(server_numbers()[1], env, 200);
    lemma_few_digits_spell("9000"@, 9000, u16::MAX as nat);
    lemma_number_setting(server_numbers()[2], env, 9000);
}

/// Each setting of a dedicated server is what its variable says, or its default.
pub proof fn law_server_settings(config: ServerConfig, env: FieldMap)
    requires
        config.read_from(env),
    ensures
        says(env, "DS_LISTEN_IP"@, "0.0.0.0"@, config.listen_ip@),
        says(env, "DS_ADVERTISE_HOST"@, "localhost"@, config.advertise_host@),
        says(env, "DS_ZONE"@, "zone_A"@, config.zone@),
        says(env, "ORCH_HOST"@, "localhost"@, config.orchestrator_host@),
        says(env, "REDIS_URL"@, "redis://localhost:6379"@, config.redis_url@),
        counts(env, "DS_PORT"@, 7001, u16::MAX as nat, config.port as nat),
        counts(env, "DS_MAX_PLAYERS"@, 200, usize::MAX as nat, config.max_players as nat),
        counts(env, "ORCH_PORT"@, 9000, u16::MAX as nat, config.orchestrator_port as nat),
{
    lemma_defaults_server_numbers(env);
}

/// The settings are refused exactly if a variable that is set should spell a number and does
/// not, and such a variable is named.
pub proof fn law_server_needs_numbers(env: FieldMap)
    ensures
        first_invalid(env, server_numbers()) is None <==> {
            &&& readable(env, "DS_PORT"@, u16::MAX as nat)
            &&& readable(env, "DS_MAX_PLAYERS"@, usize::MAX as nat)
            &&& readable(env, "ORCH_PORT"@, u16::MAX as nat)
        },
        first_invalid(env, server_numbers()) matches Some(name) ==> env.contains_key(name),
{
    lemma_defaults_server_numbers(env);
    law_first_invalid_is_named(env, server_numbers());
    let all = server_numbers();
    assert(all[0].value(env) == parsed(
        setting(env, all[0].name, all[0].default),
        all[0].max,
    ));
    assert(all[1].value(env) == parsed(
        setting(env, all[1].name, all[1].default),
        all[1].max,
    ));
    assert(all[2].value(env) == parsed(
        setting(env, all[2].name, all[2].default),
        all[2].max,
    ));
}

/// The settings that are read are those of the variables, and where a variable is not a number
/// it is named. A server without a name gets the one that it is given, or a random one.
pub proof fn law_server_settings_are_read(
    env: TextMap,
    fresh_id: &str,
    named: Result<ServerConfig, InvalidVariable>,
    config: Result<ServerConfig, InvalidVariable>,
)
    requires
        call_ensures(ServerConfig::with_fresh_id, (&env, fresh_id), named),
        call_ensures(ServerConfig::from_env, (&env,), config),
    ensures
        named matches Ok(c) ==> c.read_from(env@) && says(env@, "DS_ID"@, fresh_id@, c.id@),
        config matches Ok(c) ==> c.read_from(env@),
        config matches Ok(c) ==> (env@.contains_key("DS_ID"@) ==> c.id@ == env@["DS_ID"@]),
        config matches Ok(c) ==> (!env@.contains_key("DS_ID"@) ==> is_random_uuid(c.id@)),
        named is Ok <==> first_invalid(env@, server_numbers()) is None,
        config is Ok <==> first_invalid(env@, server_numbers()) is None,
        named matches Err(e) ==> first_invalid(env@, server_numbers()) == Some(e.name@),
        config matches Err(e) ==> first_invalid(env@, server_numbers()) == Some(e.name@),
{
}

} // verus!
