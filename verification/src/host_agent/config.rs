//! The settings of the agent.

use crate::environment::counts;
use crate::environment::first_invalid;
use crate::environment::law_first_invalid_is_named;
use crate::environment::lemma_number_setting;
use crate::environment::number_settings;
use crate::environment::readable;
use crate::environment::says;
use crate::environment::setting;
use crate::environment::text_setting;
use crate::environment::InvalidVariable;
use crate::environment::NumberSetting;
use crate::environment::NumberSettingView;
use crate::numbers::lemma_few_digits;
use crate::numbers::lemma_few_digits_spell;
use crate::numbers::parsed;
use crate::store::field;
use crate::store::FieldMap;
use crate::store::TextMap;
use crate::text::before_first;
use crate::text::behind_first;
use crate::text::strip_prefixes;
use crate::text::text_before;
use crate::text::text_behind;
use crate::text::without_prefixes;
use crate::text_laws::law_first_occurrence_parts_the_text;
use crate::text_laws::law_repeated_prefixes_come_off;
use vstd::prelude::*;

verus! {

/// The settings of the agent.
#[derive(Debug, Clone)]
pub struct Config {
    pub listen_ip: String,
    pub port: u16,
    pub hostname: String,
    pub redis_url: String,
    pub agent_token: String,
    pub heartbeat_interval_secs: u64,
    pub heartbeat_ttl_secs: usize,
    pub redis_timeout_secs: u64,
    pub ds_image_label: String,
}

/// The variables of the agent that spell numbers, in the order in which they are read.
pub open spec fn agent_numbers() -> Seq<NumberSettingView> {
    seq![
        NumberSettingView { name: "AGENT_PORT"@, default: "8090"@, max: u16::MAX as nat },
        NumberSettingView { name: "HEARTBEAT_INTERVAL"@, default: "30"@, max: u64::MAX as nat },
        NumberSettingView { name: "HEARTBEAT_TTL"@, default: "60"@, max: usize::MAX as nat },
        NumberSettingView { name: "REDIS_TIMEOUT"@, default: "2"@, max: u64::MAX as nat },
    ]
}

/// The name of the host: the one that is set, else the address by which it reaches the
/// store, else the name that the system gives it.
pub open spec fn chosen_hostname(
    env: FieldMap,
    local_ip: Option<Seq<char>>,
    system_name: Option<Seq<char>>,
) -> Seq<char> {
    match (field(env, "AGENT_HOSTNAME"@), local_ip, system_name) {
        (Some(name), _, _) => name,
        (None, Some(ip), _) => ip,
        (None, None, Some(name)) => name,
        (None, None, None) => "unknown"@,
    }
}

/// The host in the address of the store: without the scheme, without what stands before an
/// at sign, without path and port.
pub open spec fn host_in_url(url: Seq<char>) -> Seq<char> {
    let rest = without_prefixes(without_prefixes(url, "redis://"@), "rediss://"@);
    before_first(before_first(behind_first(rest, '@'), '/'), ':')
}

/// The host in the address of the store.
pub fn redis_host(url: &str) -> (host: String)
    ensures
        host@ == host_in_url(url@),
{
    proof {
        reveal_strlit("redis://");
        reveal_strlit("rediss://");
    }
    let plain = strip_prefixes(url, "redis://");
    let rest = strip_prefixes(plain.as_str(), "rediss://");
    let after_auth = text_behind(rest.as_str(), '@');
    text_before(text_before(after_auth.as_str(), '/').as_str(), ':')
}

/// The address of the store.
pub fn redis_url(env: &TextMap) -> (url: String)
    ensures
        url@ == setting(env@, "REDIS_URL"@, "redis://localhost:6379"@),
{
    text_setting(env, "REDIS_URL", "redis://localhost:6379")
}

/// The image that dedicated servers are started from.
pub fn docker_image(env: &TextMap) -> (image: String)
    ensures
        image@ == setting(env@, "DS_DOCKER_IMAGE"@, "mmorpg/dedicated_server:latest"@),
{
    text_setting(env, "DS_DOCKER_IMAGE", "mmorpg/dedicated_server:latest")
}

impl Config {
    /// Whether these are the settings that `env` gives, on a host with this address and name.
    pub open spec fn read_from(
        self,
        env: FieldMap,
        local_ip: Option<Seq<char>>,
        system_name: Option<Seq<char>>,
    ) -> bool {
        let numbers = agent_numbers();
        &&& self.listen_ip@ == setting(env, "AGENT_LISTEN_IP"@, "0.0.0.0"@)
        &&& Some(self.port as nat) == numbers[0].value(env)
        &&& self.hostname@ == chosen_hostname(env, local_ip, system_name)
        &&& self.redis_url@ == setting(env, "REDIS_URL"@, "redis://localhost:6379"@)
        &&& self.agent_token@ == setting(env, "AGENT_TOKEN"@, "change-me"@)
        &&& Some(self.heartbeat_interval_secs as nat) == numbers[1].value(env)
        &&& Some(self.heartbeat_ttl_secs as nat) == numbers[2].value(env)
        &&& Some(self.redis_timeout_secs as nat) == numbers[3].value(env)
        &&& self.ds_image_label@ == setting(env, "DS_IMAGE_LABEL"@, "mmorpg.role=ds"@)
    }

    /// The settings that `env` gives on a host with this address and name, or the first
    /// variable that should spell a number and does not.
    pub fn from_env(
        env: &TextMap,
        local_ip: Option<String>,
        system_name: Option<String>,
    ) -> (config: Result<Self, InvalidVariable>)
        ensures
            match config {
                Ok(config) => config.read_from(
                    env@,
                    local_ip.deep_view(),
                    system_name.deep_view(),
                ) && first_invalid(env@, agent_numbers()) is None,
                Err(e) => first_invalid(env@, agent_numbers()) == Some(e.name@),
            },
    {
        let settings: Vec<NumberSetting> = vec![
            NumberSetting { name: "AGENT_PORT", default: "8090", max: u16::MAX as u64 },
            NumberSetting { name: "HEARTBEAT_INTERVAL", default: "30", max: u64::MAX },
            NumberSetting { name: "HEARTBEAT_TTL", default: "60", max: usize::MAX as u64 },
            NumberSetting { name: "REDIS_TIMEOUT", default: "2", max: u64::MAX },
        ];
        assert(settings.deep_view() == agent_numbers());
        let n = match number_settings(env, &settings) {
            Ok(n) => n,
            Err(e) => {
                return Err(e);
            },
        };
        assert forall|i: int| 0 <= i < 4 implies #[trigger] agent_numbers()[i].value(env@) == Some(
            n[i] as nat,
        ) by {
            assert(settings.deep_view()[i] == settings[i]@);
        }
        let hostname = match (env.get("AGENT_HOSTNAME"), local_ip, system_name) {
            (Some(name), _, _) => name,
            (None, Some(ip), _) => ip,
            (None, None, Some(name)) => name,
            (None, None, None) => "unknown".to_owned(),
        };
        Ok(
            Config {
                listen_ip: text_setting(env, "AGENT_LISTEN_IP", "0.0.0.0"),
                port: n[0] as u16,
                hostname,
                redis_url: redis_url(env),
                agent_token: text_setting(env, "AGENT_TOKEN", "change-me"),
                heartbeat_interval_secs: n[1],
                heartbeat_ttl_secs: n[2] as usize,
                redis_timeout_secs: n[3],
                ds_image_label: text_setting(env, "DS_IMAGE_LABEL", "mmorpg.role=ds"),
            },
        )
    }
}

proof fn lemma_defaults_agent_numbers(env: FieldMap)
    ensures
        agent_numbers()[0].value(env) is Some <==> readable(env, "AGENT_PORT"@, u16::MAX as nat),
        agent_numbers()[0].value(env) matches Some(value) ==> counts(
            env,
            "AGENT_PORT"@,
            8090,
            u16::MAX as nat,
            value,
        ),
        agent_numbers()[1].value(env) is Some <==> readable(env, "HEARTBEAT_INTERVAL"@, u64::MAX as nat),
        agent_numbers()[1].value(env) matches Some(value) ==> counts(
            env,
            "HEARTBEAT_INTERVAL"@,
            30,
            u64::MAX as nat,
            value,
        ),
        agent_numbers()[2].value(env) is Some <==> readable(env, "HEARTBEAT_TTL"@, usize::MAX as nat),
        agent_numbers()[2].value(env) matches Some(value) ==> counts(
            env,
            "HEARTBEAT_TTL"@,
            60,
            usize::MAX as nat,
            value,
        ),
        agent_numbers()[3].value(env) is Some <==> readable(env, "REDIS_TIMEOUT"@, u64::MAX as nat),
        agent_numbers()[3].value(env) matches Some(value) ==> counts(
            env,
            "REDIS_TIMEOUT"@,
            2,
            u64::MAX as nat,
            value,
        ),
{
    reveal_strlit("2");
    lemma_few_digits("2"@);
    reveal_strlit("30");
    lemma_few_digits("30"@);
    reveal_strlit("60");
    lemma_few_digits("60"@);
    reveal_strlit("8090");
    lemma_few_digits("8090"@);
    lemma_few_digits_spell("8090"@, 8090, u16::MAX as nat);
    lemma_number_setting(agent_numbers()[0], env, 8090);
    lemma_few_digits_spell("30"@, 30, u64::MAX as nat);
    lemma_number_setting(agent_numbers()[1], env, 30);
    lemma_few_digits_spell("60"@, 60, usize::MAX as nat);
    lemma_number_setting(agent_numbers()[2], env, 60);
    lemma_few_digits_spell("2"@, 2, u64::MAX as nat);
    lemma_number_setting(agent_numbers()[3], env, 2);
}

/// Each setting of the agent is what its variable says, or its default. The host is called by
/// the name that is set, else by its address, else by the name of the system.
pub proof fn law_agent_settings(config: Config, env: FieldMap, local_ip: Option<Seq<char>>, system_name: Option<Seq<char>>)
    requires
        config.read_from(env, local_ip, system_name),
    ensures
        says(env, "AGENT_LISTEN_IP"@, "0.0.0.0"@, config.listen_ip@),
        says(env, "REDIS_URL"@, "redis://localhost:6379"@, config.redis_url@),
        says(env, "AGENT_TOKEN"@, "change-me"@, config.agent_token@),
        says(env, "DS_IMAGE_LABEL"@, "mmorpg.role=ds"@, config.ds_image_label@),
        counts(env, "AGENT_PORT"@, 8090, u16::MAX as nat, config.port as nat),
        counts(env, "HEARTBEAT_INTERVAL"@, 30, u64::MAX as nat, config.heartbeat_interval_secs as nat),
        counts(env, "HEARTBEAT_TTL"@, 60, usize::MAX as nat, config.heartbeat_ttl_secs as nat),
        counts(env, "REDIS_TIMEOUT"@, 2, u64::MAX as nat, config.redis_timeout_secs as nat),
        env.contains_key("AGENT_HOSTNAME"@) ==> config.hostname@ == env["AGENT_HOSTNAME"@],
        !env.contains_key("AGENT_HOSTNAME"@) && local_ip is Some ==> Some(config.hostname@) == local_ip,
        !env.contains_key("AGENT_HOSTNAME"@) && local_ip is None && system_name is Some ==> Some(
            config.hostname@,
        ) == system_name,
        !env.contains_key("AGENT_HOSTNAME"@) && local_ip is None && system_name is None
            ==> config.hostname@ == "unknown"@,
{
    lemma_defaults_agent_numbers(env);
}

/// The settings are refused exactly if a variable that is set should spell a number and does
/// not, and such a variable is named.
pub proof fn law_agent_needs_numbers(env: FieldMap)
    ensures
        first_invalid(env, agent_numbers()) is None <==> {
            &&& readable(env, "AGENT_PORT"@, u16::MAX as nat)
            &&& readable(env, "HEARTBEAT_INTERVAL"@, u64::MAX as nat)
            &&& readable(env, "HEARTBEAT_TTL"@, usize::MAX as nat)
            &&& readable(env, "REDIS_TIMEOUT"@, u64::MAX as nat)
        },
        first_invalid(env, agent_numbers()) matches Some(name) ==> env.contains_key(name),
{
    lemma_defaults_agent_numbers(env);
    law_first_invalid_is_named(env, agent_numbers());
    let all = agent_numbers();
    assert(all[0].value(env) == parsed(
        setting(env, all[0].name, all[0].default),
        all[0].max,
    ));
    assert(all[1].value(env) == parsed(
        setting(env, all[1].name, all[1].default),
        all[1].max,
    ));
    assert(all[2].value(env) == parsed(
        setting(env, all[2].name, all[2].default),
        all[2].max,
    ));
    assert(all[3].value(env) == parsed(
        setting(env, all[3].name, all[3].default),
        all[3].max,
    ));
}

proof fn lemma_cut(a: Seq<char>, c: char, b: Seq<char>)
    requires
        !a.contains(c),
    ensures
        before_first(a.push(c) + b, c) == a,
        behind_first(a.push(c) + b, c) == b,
{
    let s = a.push(c) + b;
    law_first_occurrence_parts_the_text(s, c);
    assert(s[a.len() as int] == c);
    assert(s.contains(c));
    let front = before_first(s, c);
    let back = behind_first(s, c);
    assert(s == front.push(c) + back);
    if front.len() < a.len() {
        assert(s[front.len() as int] == c);
        assert(a[front.len() as int] == c);
        assert(a.contains(c));
    }
    if front.len() > a.len() {
        assert(front[a.len() as int] == c);
        assert(front.contains(c));
    }
    assert(front == a) by {
        assert forall|i: int| 0 <= i < a.len() implies #[trigger] front[i] == a[i] by {
            assert(s[i] == front[i]);
        }
    }
    assert(back == b) by {
        assert forall|i: int| 0 <= i < b.len() implies #[trigger] back[i] == b[i] by {
            assert(s[a.len() + 1 + i] == b[i]);
        }
    }
}

/// Whether `host` holds none of the characters that end a host in an address.
pub open spec fn is_plain_host(host: Seq<char>) -> bool {
    !host.contains('@') && !host.contains('/') && !host.contains(':')
}

/// In an address of the store, the scheme, whatever stands before an at sign, the port and
/// the path are passed over, and the host is left.
pub proof fn law_host_is_found_in_address(
    scheme: Seq<char>,
    auth: Option<Seq<char>>,
    host: Seq<char>,
    tail: Seq<char>,
)
    requires
        scheme == "redis://"@ || scheme == "rediss://"@ || scheme == Seq::<char>::empty(),
        auth matches Some(a) ==> !a.contains('@'),
        is_plain_host(host),
        tail.len() > 0 ==> tail[0] == ':' || tail[0] == '/',
        auth is None ==> !tail.contains('@'),
        ({
            let rest = (match auth {
                Some(a) => a.push('@'),
                None => Seq::empty(),
            }) + host + tail;
            forall|r: Seq<char>| #![trigger "redis://"@ + r]
                rest != "redis://"@ + r && rest != "rediss://"@ + r
        }),
    ensures
        host_in_url(
            scheme + ((match auth {
                Some(a) => a.push('@'),
                None => Seq::empty(),
            }) + host + tail),
        ) == host,
{
    let front = match auth {
        Some(a) => a.push('@'),
        None => Seq::empty(),
    };
    let rest = front + host + tail;
    reveal_strlit("redis://");
    reveal_strlit("rediss://");
    let one = "redis://"@;
    let two = "rediss://"@;
    law_repeated_prefixes_come_off(rest, one);
    law_repeated_prefixes_come_off(rest, two);
    assert(forall|r: Seq<char>| rest != #[trigger] (one + r));
    assert forall|r: Seq<char>| rest != #[trigger] (two + r) by {
        assert(one + r == one + r);
    }
    if scheme == two {
        assert(two[5] == 's' && one[5] == ':');
        assert forall|r: Seq<char>| two + rest != #[trigger] (one + r) by {
            assert((two + rest)[5] == 's');
            assert((one + r)[5] == ':');
        }
        law_repeated_prefixes_come_off(two + rest, one);
    } else if scheme.len() == 0 {
        assert(scheme + rest == rest);
    }
    let plain = without_prefixes(without_prefixes(scheme + rest, one), two);
    assert(plain == rest);
    let place = host + tail;
    match auth {
        Some(a) => {
            assert(rest == a.push('@') + place);
            lemma_cut(a, '@', place);
        },
        None => {
            assert(rest == place);
            assert(!place.contains('@')) by {
                if place.contains('@') {
                    let i = choose|i: int| 0 <= i < place.len() && place[i] == '@';
                    if i < host.len() {
                        assert(host.contains(host[i]));
                    } else {
                        assert(tail.contains(tail[i - host.len()]));
                    }
                }
            }
            law_first_occurrence_parts_the_text(rest, '@');
        },
    }
    assert(behind_first(plain, '@') == place);
    lemma_host_before_tail(host, tail);
}

proof fn lemma_host_before_tail(host: Seq<char>, tail: Seq<char>)
    requires
        is_plain_host(host),
        tail.len() > 0 ==> tail[0] == ':' || tail[0] == '/',
    ensures
        before_first(before_first(host + tail, '/'), ':') == host,
{
    let place = host + tail;
    law_first_occurrence_parts_the_text(place, '/');
    let kept = before_first(place, '/');
    // What is kept is the host, or the host and something that begins with a colon.
    if !tail.contains('/') {
        assert(!place.contains('/')) by {
            if place.contains('/') {
                let i = choose|i: int| 0 <= i < place.len() && place[i] == '/';
                if i < host.len() {
                    assert(host.contains(host[i]));
                } else {
                    assert(tail.contains(tail[i - host.len()]));
                }
            }
        }
        assert(kept == place);
        if tail.len() > 0 {
            assert(tail[0] == ':') by {
                assert(tail.contains(tail[0]));
            }
            assert(place == host.push(':') + tail.skip(1));
            lemma_cut(host, ':', tail.skip(1));
        } else {
            assert(place == host);
            law_first_occurrence_parts_the_text(host, ':');
        }
    } else {
        law_first_occurrence_parts_the_text(tail, '/');
        let port = before_first(tail, '/');
        let path = behind_first(tail, '/');
        let name = host + port;
        assert(place == name.push('/') + path);
        assert(!name.contains('/')) by {
            if name.contains('/') {
                let i = choose|i: int| 0 <= i < name.len() && name[i] == '/';
                if i < host.len() {
                    assert(host.contains(host[i]));
                } else {
                    assert(port.contains(port[i - host.len()]));
                }
            }
        }
        lemma_cut(name, '/', path);
        assert(kept == name);
        if port.len() > 0 {
            assert(port[0] == tail[0]);
            assert(tail[0] == ':') by {
                assert(port.contains(port[0]));
            }
            assert(name == host.push(':') + port.skip(1));
            lemma_cut(host, ':', port.skip(1));
        } else {
            assert(name == host);
            law_first_occurrence_parts_the_text(host, ':');
        }
    }
}

/// The settings that are read are those of the variables, and where a variable is not a number
/// it is named.
pub proof fn law_agent_settings_are_read(
    env: TextMap,
    local_ip: Option<String>,
    system_name: Option<String>,
    config: Result<Config, InvalidVariable>,
    url: String,
    image: String,
    address: &str,
    host: String,
)
    requires
        call_ensures(Config::from_env, (&env, local_ip, system_name), config),
        call_ensures(redis_url, (&env,), url),
        call_ensures(docker_image, (&env,), image),
        call_ensures(redis_host, (address,), host),
    ensures
        config matches Ok(c) ==> c.read_from(env@, local_ip.deep_view(), system_name.deep_view()),
        config is Ok <==> first_invalid(env@, agent_numbers()) is None,
        config matches Err(e) ==> first_invalid(env@, agent_numbers()) == Some(e.name@),
        says(env@, "REDIS_URL"@, "redis://localhost:6379"@, url@),
        says(env@, "DS_DOCKER_IMAGE"@, "mmorpg/dedicated_server:latest"@, image@),
        host@ == host_in_url(address@),
{
}

} // verus!
