//! Settings read from environment variables.

use crate::numbers::parse_up_to;
use crate::numbers::parsed;
use crate::store::field;
use crate::store::FieldMap;
use crate::store::TextMap;
use vstd::prelude::*;

verus! {

/// A variable that should spell a number and does not.
#[derive(Debug, Clone)]
pub struct InvalidVariable {
    pub name: String,
}

/// The value of the variable `name`, or `default` where it is not set.
pub open spec fn setting(env: FieldMap, name: Seq<char>, default: Seq<char>) -> Seq<char> {
    match field(env, name) {
        Some(value) => value,
        None => default,
    }
}

/// The value of the variable `name`, or `default` where it is not set.
pub fn text_setting(env: &TextMap, name: &str, default: &str) -> (value: String)
    ensures
        value@ == setting(env@, name@, default@),
{
    match env.get(name) {
        Some(value) => value,
        None => default.to_owned(),
    }
}

/// A variable that spells a number.
pub struct NumberSetting {
    pub name: &'static str,
    pub default: &'static str,
    pub max: u64,
}

/// What a [`NumberSetting`] says.
pub struct NumberSettingView {
    pub name: Seq<char>,
    pub default: Seq<char>,
    pub max: nat,
}

impl View for NumberSetting {
    type V = NumberSettingView;

    open spec fn view(&self) -> NumberSettingView {
        NumberSettingView { name: self.name@, default: self.default@, max: self.max as nat }
    }
}

impl DeepView for NumberSetting {
    type V = NumberSettingView;

    open spec fn deep_view(&self) -> NumberSettingView {
        self@
    }
}

impl NumberSettingView {
    /// The number that the environment gives the variable.
    pub open spec fn value(self, env: FieldMap) -> Option<nat> {
        parsed(setting(env, self.name, self.default), self.max)
    }
}

/// The first of `settings` that spells no number.
pub open spec fn first_invalid(env: FieldMap, settings: Seq<NumberSettingView>) -> Option<Seq<char>>
    decreases settings.len(),
{
    if settings.len() == 0 {
        None
    } else {
        match first_invalid(env, settings.drop_last()) {
            Some(name) => Some(name),
            None => if settings.last().value(env) is None {
                Some(settings.last().name)
            } else {
                None
            },
        }
    }
}

proof fn lemma_first_invalid_stays(env: FieldMap, settings: Seq<NumberSettingView>, n: int)
    requires
        0 <= n <= settings.len(),
        first_invalid(env, settings.take(n)) is Some,
    ensures
        first_invalid(env, settings) == first_invalid(env, settings.take(n)),
    decreases settings.len(),
{
    if n == settings.len() {
        assert(settings.take(n) == settings);
    } else {
        assert(settings.drop_last().take(n) == settings.take(n));
        lemma_first_invalid_stays(env, settings.drop_last(), n);
    }
}

/// The numbers that the environment gives `settings`, or the first of them that spells
/// none.
pub fn number_settings(env: &TextMap, settings: &Vec<NumberSetting>) -> (numbers: Result<
    Vec<u64>,
    InvalidVariable,
>)
    ensures
        match numbers {
            Ok(numbers) => {
                &&& first_invalid(env@, settings.deep_view()) is None
                &&& numbers.len() == settings.len()
                &&& forall|i: int|
                    0 <= i < settings.len() ==> #[trigger] settings[i]@.value(env@) == Some(
                        numbers[i] as nat,
                    )
            },
            Err(e) => first_invalid(env@, settings.deep_view()) == Some(e.name@),
        },
{
    let mut numbers: Vec<u64> = Vec::new();
    let ghost all = settings.deep_view();
    let mut i: usize = 0;
    assert(all.take(0) == Seq::<NumberSettingView>::empty());
    while i < settings.len()
        invariant
            i <= settings.len(),
            all == settings.deep_view(),
            numbers.len() == i,
            first_invalid(env@, all.take(i as int)) is None,
            forall|j: int|
                0 <= j < i ==> #[trigger] settings[j]@.value(env@) == Some(numbers[j] as nat),
        decreases settings.len() - i,
    {
        let s = &settings[i];
        let text = text_setting(env, s.name, s.default);
        assert(all[i as int] == settings[i as int]@);
        assert(all.take(i as int + 1).drop_last() == all.take(i as int));
        assert(all.take(i as int + 1).last() == settings[i as int]@);
        match parse_up_to(text.as_str(), s.max) {
            Some(n) => {
                numbers.push(n);
            },
            None => {
                proof {
                    lemma_first_invalid_stays(env@, all, i as int + 1);
                }
                return Err(InvalidVariable { name: s.name.to_owned() });
            },
        }
        i = i + 1;
    }
    assert(all.take(all.len() as int) == all);
    Ok(numbers)
}

/// A variable that is set counts, and the default where it is not.
pub proof fn law_variable_beats_default(
    env: FieldMap,
    name: Seq<char>,
    default: Seq<char>,
    max: nat,
)
    ensures
        env.contains_key(name) ==> setting(env, name, default) == env[name],
        !env.contains_key(name) ==> setting(env, name, default) == default,
        (NumberSettingView { name, default, max }).value(env) == parsed(
            setting(env, name, default),
            max,
        ),
{
}

/// All settings spell numbers where none is named as the first that does not; the one that is
/// named does not, and all before it do.
pub proof fn law_first_invalid_is_named(env: FieldMap, settings: Seq<NumberSettingView>)
    ensures
        match first_invalid(env, settings) {
            None => forall|i: int| 0 <= i < settings.len() ==> parsed(
                setting(env, (#[trigger] settings[i]).name, settings[i].default),
                settings[i].max,
            ) is Some,
            Some(name) => exists|at: int|
                {
                    &&& 0 <= at < settings.len()
                    &&& (#[trigger] settings[at]).name == name
                    &&& parsed(setting(env, name, settings[at].default), settings[at].max) is None
                    &&& forall|i: int| 0 <= i < at ==> parsed(
                        setting(env, (#[trigger] settings[i]).name, settings[i].default),
                        settings[i].max,
                    ) is Some
                },
        },
    decreases settings.len(),
{
    if settings.len() > 0 {
        let before = settings.drop_last();
        law_first_invalid_is_named(env, before);
        let n = settings.len() - 1;
        assert(forall|i: int| 0 <= i < before.len() ==> before[i] == #[trigger] settings[i]);
        match first_invalid(env, before) {
            Some(name) => {
                let at = choose|at: int|
                    {
                        &&& 0 <= at < before.len()
                        &&& (#[trigger] before[at]).name == name
                        &&& parsed(setting(env, name, before[at].default), before[at].max) is None
                        &&& forall|i: int| 0 <= i < at ==> parsed(
                            setting(env, (#[trigger] before[i]).name, before[i].default),
                            before[i].max,
                        ) is Some
                    };
                assert(settings[at] == before[at]);
                assert forall|i: int| 0 <= i < at implies parsed(
                    setting(env, (#[trigger] settings[i]).name, settings[i].default),
                    settings[i].max,
                ) is Some by {
                    assert(before[i] == settings[i]);
                }
            },
            None => {
                assert forall|i: int| 0 <= i < n implies parsed(
                    setting(env, (#[trigger] settings[i]).name, settings[i].default),
                    settings[i].max,
                ) is Some by {
                    assert(before[i] == settings[i]);
                }
                assert(settings[n] == settings.last());
            },
        }
    }
}

/// Whether `value` is what the variable `name` says where it is set, and `default` where it is
/// not.
pub open spec fn says(
    env: FieldMap,
    name: Seq<char>,
    default: Seq<char>,
    value: Seq<char>,
) -> bool {
    if env.contains_key(name) {
        value == env[name]
    } else {
        value == default
    }
}

/// Whether `n` is the number that the variable `name` spells where it is set, and `default`
/// where it is not.
pub open spec fn counts(env: FieldMap, name: Seq<char>, default: nat, max: nat, n: nat) -> bool {
    if env.contains_key(name) {
        parsed(env[name], max) == Some(n)
    } else {
        n == default
    }
}

/// Whether the variable `name` spells a number, where it is set.
pub open spec fn readable(env: FieldMap, name: Seq<char>, max: nat) -> bool {
    env.contains_key(name) ==> parsed(env[name], max) is Some
}

/// A setting whose default spells `n` is `n` where the variable is not set, what the variable
/// spells where it is set, and none where the variable spells no number.
pub proof fn lemma_number_setting(one: NumberSettingView, env: FieldMap, n: nat)
    requires
        parsed(one.default, one.max) == Some(n),
    ensures
        one.value(env) is Some <==> readable(env, one.name, one.max),
        one.value(env) matches Some(value) ==> counts(env, one.name, n, one.max, value),
{
}

/// A text setting is what the variable says, or the default.
pub proof fn law_text_setting(env: TextMap, name: &str, default: &str, value: String)
    requires
        call_ensures(text_setting, (&env, name, default), value),
    ensures
        says(env@, name@, default@, value@),
{
}

/// Number settings are read all, each as its variable or its default spells it, or not at all;
/// then the first one that spells no number is named.
pub proof fn law_number_settings(
    env: TextMap,
    settings: Vec<NumberSetting>,
    numbers: Result<Vec<u64>, InvalidVariable>,
    i: int,
)
    requires
        call_ensures(number_settings, (&env, &settings), numbers),
    ensures
        numbers is Ok <==> first_invalid(env@, settings.deep_view()) is None,
        numbers matches Ok(n) ==> n.len() == settings.len(),
        numbers matches Ok(n) ==> (0 <= i < settings.len() ==> parsed(
            setting(env@, settings[i].name@, settings[i].default@),
            settings[i].max as nat,
        ) == Some(n[i] as nat)),
        numbers matches Err(e) ==> first_invalid(env@, settings.deep_view()) == Some(e.name@),
{
    if let Ok(n) = numbers {
        if 0 <= i < settings.len() {
            assert(settings[i]@.value(env@) == Some(n[i] as nat));
        }
    }
}

} // verus!
