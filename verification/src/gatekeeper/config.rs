//! The settings of the gatekeeper.

use crate::environment::counts;
use crate::environment::first_invalid;
use crate::environment::law_first_invalid_is_named;
use crate::environment::lemma_number_setting;
use crate::environment::number_settings;
use crate::environment::readable;
use crate::environment::says;
use crate::environment::setting;
use crate::environment::text_setting;
use crate::environment::InvalidVariable;
use crate::environment::NumberSetting;
use crate::environment::NumberSettingView;
use crate::numbers::lemma_few_digits;
use crate::numbers::lemma_few_digits_spell;
use crate::numbers::parsed;
use crate::store::FieldMap;
use crate::store::TextMap;
use vstd::prelude::*;

verus! {

/// The settings of the gatekeeper.
#[derive(Debug, Clone)]
pub struct Config {
    pub listen_ip: String,
    pub port: u16,
    pub redis_url: String,
    pub session_ttl_secs: usize,
    pub password: String,
    pub login_wait_secs: u64,
    pub login_poll_ms: u64,
    pub waiting_ping_secs: u64,
}

/// The variables of the gatekeeper that spell numbers, in the order in which they are read.
pub open spec fn gatekeeper_numbers() -> Seq<NumberSettingView> {
    seq![
        NumberSettingView { name: "GK_PORT"@, default: "3000"@, max: u16::MAX as nat },
        NumberSettingView { name: "SESSION_TTL"@, default: "30"@, max: usize::MAX as nat },
        NumberSettingView { name: "LOGIN_WAIT_SECS"@, default: "60"@, max: u64::MAX as nat },
        NumberSettingView { name: "LOGIN_POLL_MS"@, default: "500"@, max: u64::MAX as nat },
        NumberSettingView { name: "LOGIN_PING_SECS"@, default: "2"@, max: u64::MAX as nat },
    ]
}

impl Config {
    /// Whether these are the settings that `env` gives.
    pub open spec fn read_from(self, env: FieldMap) -> bool {
        let numbers = gatekeeper_numbers();
        &&& self.listen_ip@ == setting(env, "GK_LISTEN_IP"@, "0.0.0.0"@)
        &&& Some(self.port as nat) == numbers[0].value(env)
        &&& self.redis_url@ == setting(env, "REDIS_URL"@, "redis://localhost:6379"@)
        &&& Some(self.session_ttl_secs as nat) == numbers[1].value(env)
        &&& self.password@ == setting(env, "GK_PASSWORD"@, "1234"@)
        &&& Some(self.login_wait_secs as nat) == numbers[2].value(env)
        &&& Some(self.login_poll_ms as nat) == numbers[3].value(env)
        &&& Some(self.waiting_ping_secs as nat) == numbers[4].value(env)
    }

    /// The settings that `env` gives, or the first variable that should spell a number
    /// and does not.
    pub fn from_env(env: &TextMap) -> (config: Result<Self, InvalidVariable>)
        ensures
            match config {
                Ok(config) => config.read_from(env@) && first_invalid(
                    env@,
                    gatekeeper_numbers(),
                ) is None,
                Err(e) => first_invalid(env@, gatekeeper_numbers()) == Some(e.name@),
            },
    {
        let settings: Vec<NumberSetting> = vec![
            NumberSetting { name: "GK_PORT", default: "3000", max: u16::MAX as u64 },
            NumberSetting { name: "SESSION_TTL", default: "30", max: usize::MAX as u64 },
            NumberSetting { name: "LOGIN_WAIT_SECS", default: "60", max: u64::MAX },
            NumberSetting { name: "LOGIN_POLL_MS", default: "500", max: u64::MAX },
            NumberSetting { name: "LOGIN_PING_SECS", default: "2", max: u64::MAX },
        ];
        assert(settings.deep_view() == gatekeeper_numbers());
        let n = match number_settings(env, &settings) {
            Ok(n) => n,
            Err(e) => {
                return Err(e);
            },
        };
        assert forall|i: int| 0 <= i < 5 implies #[trigger] gatekeeper_numbers()[i].value(env@)
            == Some(n[i] as nat) by {
            assert(settings.deep_view()[i] == settings[i]@);
        }
        Ok(
            Config {
                listen_ip: text_setting(env, "GK_LISTEN_IP", "0.0.0.0"),
                port: n[0] as u16,
                redis_url: text_setting(env, "REDIS_URL", "redis://localhost:6379"),
                session_ttl_secs: n[1] as usize,
                password: text_setting(env, "GK_PASSWORD", "1234"),
                login_wait_secs: n[2],
                login_poll_ms: n[3],
                waiting_ping_secs: n[4],
            },
        )
    }
}

proof fn lemma_defaults_gatekeeper_numbers(env: FieldMap)
    ensures
        gatekeeper_numbers()[0].value(env) is Some <==> readable(env, "GK_PORT"@, u16::MAX as nat),
        gatekeeper_numbers()[0].value(env) matches Some(value) ==> counts(
            env,
            "GK_PORT"@,
            3000,
            u16::MAX as nat,
            value,
        ),
        gatekeeper_numbers()[1].value(env) is Some <==> readable(env, "SESSION_TTL"@, usize::MAX as nat),
        gatekeeper_numbers()[1].value(env) matches Some(value) ==> counts(
            env,
            "SESSION_TTL"@,
            30,
            usize::MAX as nat,
            value,
        ),
        gatekeeper_numbers()[2].value(env) is Some <==> readable(env, "LOGIN_WAIT_SECS"@, u64::MAX as nat),
        gatekeeper_numbers()[2].value(env) matches Some(value) ==> counts(
            env,
            "LOGIN_WAIT_SECS"@,
            60,
            u64::MAX as nat,
            value,
        ),
        gatekeeper_numbers()[3].value(env) is Some <==> readable(env, "LOGIN_POLL_MS"@, u64::MAX as nat),
        gatekeeper_numbers()[3].value(env) matches Some(value) ==> counts(
            env,
            "LOGIN_POLL_MS"@,
            500,
            u64::MAX as nat,
            value,
        ),
        gatekeeper_numbers()[4].value(env) is Some <==> readable(env, "LOGIN_PING_SECS"@, u64::MAX as nat),
        gatekeeper_numbers()[4].value(env) matches Some(value) ==> counts(
            env,
            "LOGIN_PING_SECS"@,
            2,
            u64::MAX as nat,
            value,
        ),
{
    reveal_strlit("2");
    lemma_few_digits("2"@);
    reveal_strlit("30");
    lemma_few_digits("30"@);
    reveal_strlit("3000");
    lemma_few_digits("3000"@);
    reveal_strlit("500");
    lemma_few_digits("500"@);
    reveal_strlit("60");
    lemma_few_digits("60"@);
    lemma_few_digits_spell("3000"@, 3000, u16::MAX as nat);
    lemma_number_setting(gatekeeper_numbers()[0], env, 3000);
    lemma_few_digits_spell("30"@, 30, usize::MAX as nat);
    lemma_number_setting(gatekeeper_numbers()[1], env, 30);
    lemma_few_digits_spell("60"@, 60, u64::MAX as nat);
    lemma_number_setting(gatekeeper_numbers()[2], env, 60);
    lemma_few_digits_spell("500"@, 500, u64::MAX as nat);
    lemma_number_setting(gatekeeper_numbers()[3], env, 500);
    lemma_few_digits_spell("2"@, 2, u64::MAX as nat);
    lemma_number_setting(gatekeeper_numbers()[4], env, 2);
}

/// Each setting of the gatekeeper is what its variable says, or its default.
pub proof fn law_gatekeeper_settings(config: Config, env: FieldMap)
    requires
        config.read_from(env),
    ensures
        says(env, "GK_LISTEN_IP"@, "0.0.0.0"@, config.listen_ip@),
        says(env, "REDIS_URL"@, "redis://localhost:6379"@, config.redis_url@),
        says(env, "GK_PASSWORD"@, "1234"@, config.password@),
        counts(env, "GK_PORT"@, 3000, u16::MAX as nat, config.port as nat),
        counts(env, "SESSION_TTL"@, 30, usize::MAX as nat, config.session_ttl_secs as nat),
        counts(env, "LOGIN_WAIT_SECS"@, 60, u64::MAX as nat, config.login_wait_secs as nat),
        counts(env, "LOGIN_POLL_MS"@, 500, u64::MAX as nat, config.login_poll_ms as nat),
        counts(env, "LOGIN_PING_SECS"@, 2, u64::MAX as nat, config.waiting_ping_secs as nat),
{
    lemma_defaults_gatekeeper_numbers(env);
}

/// The settings are refused exactly if a variable that is set should spell a number and does
/// not, and such a variable is named.
pub proof fn law_gatekeeper_needs_numbers(env: FieldMap)
    ensures
        first_invalid(env, gatekeeper_numbers()) is None <==> {
            &&& readable(env, "GK_PORT"@, u16::MAX as nat)
            &&& readable(env, "SESSION_TTL"@, usize::MAX as nat)
            &&& readable(env, "LOGIN_WAIT_SECS"@, u64::MAX as nat)
            &&& readable(env, "LOGIN_POLL_MS"@, u64::MAX as nat)
            &&& readable(env, "LOGIN_PING_SECS"@, u64::MAX as nat)
        },
        first_invalid(env, gatekeeper_numbers()) matches Some(name) ==> env.contains_key(name),
{
    lemma_defaults_gatekeeper_numbers(env);
    law_first_invalid_is_named(env, gatekeeper_numbers());
    let all = gatekeeper_numbers();
    assert(all[0].value(env) == parsed(
        setting(env, all[0].name, all[0].default),
        all[0].max,
    ));
    assert(all[1].value(env) == parsed(
        setting(env, all[1].name, all[1].default),
        all[1].max,
    ));
    assert(all[2].value(env) == parsed(
        setting(env, all[2].name, all[2].default),
        all[2].max,
    ));
    assert(all[3].value(env) == parsed(
        setting(env, all[3].name, all[3].default),
        all[3].max,
    ));
    assert(all[4].value(env) == parsed(
        setting(env, all[4].name, all[4].default),
        all[4].max,
    ));
}

/// The settings that are read are those of the variables, and where a variable is not a number
/// it is named.
pub proof fn law_gatekeeper_settings_are_read(
    env: TextMap,
    config: Result<Config, InvalidVariable>,
)
    requires
        call_ensures(Config::from_env, (&env,), config),
    ensures
        config matches Ok(c) ==> c.read_from(env@),
        config is Ok <==> first_invalid(env@, gatekeeper_numbers()) is None,
        config matches Err(e) ==> first_invalid(env@, gatekeeper_numbers()) == Some(e.name@),
{
}

} // verus!
