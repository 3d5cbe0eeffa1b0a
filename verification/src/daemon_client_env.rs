//! The environment that a client may hand to its session: an allowlist of keys.

use vstd::prelude::*;

use crate::text;
use crate::text_map::TextMap;

verus! {

/// An environment.
pub type EnvMap = TextMap<String>;

/// The key is among the keys of the allowlist.
pub open spec fn is_allowed(keys: Seq<String>, key: Seq<char>) -> bool {
    text::holds_text(keys, key)
}

/// The part of an environment that the allowlist lets through.
pub open spec fn allowed_part(env: Map<Seq<char>, String>, keys: Seq<String>) -> Map<
    Seq<char>,
    String,
> {
    env.restrict(Set::new(|key: Seq<char>| is_allowed(keys, key)))
}

/// What a client sent, filtered to the allowlist; nothing where nothing is left.
pub fn filter_client_env(env: Option<&EnvMap>, keys: &Vec<String>) -> (r: Option<EnvMap>)
    requires
        env is Some ==> env->0.wf(),
    ensures
        match r {
            Some(filtered) => {
                &&& filtered.wf()
                &&& env is Some
                &&& filtered@ == allowed_part(env->0@, keys@)
                &&& filtered@ != Map::<Seq<char>, String>::empty()
            },
            None => env is None || allowed_part(env->0@, keys@) == Map::<
                Seq<char>,
                String,
            >::empty(),
        },
{
    let env = match env {
        Some(env) => env,
        None => return None,
    };
    let mut filtered: EnvMap = TextMap::new();
    let mut i: usize = 0;
    assert(allowed_part(env@, keys@.take(0)) =~= Map::<Seq<char>, String>::empty()) by {
        assert forall|key: Seq<char>| !is_allowed(keys@.take(0), key) by {}
    }
    while i < keys.len()
        invariant
            i <= keys.len(),
            env.wf(),
            filtered.wf(),
            filtered@ == allowed_part(env@, keys@.take(i as int)),
        decreases keys.len() - i,
    {
        let ghost before = filtered@;
        proof {
            one_more_key(keys@, i as int);
        }
        let value = env.get(&keys[i]);
        if let Some(value) = value {
            filtered.insert(keys[i].clone(), value.clone());
            assert(filtered@ =~= allowed_part(env@, keys@.take(i + 1)));
        } else {
            assert(filtered@ =~= allowed_part(env@, keys@.take(i + 1)));
        }
        i += 1;
    }
    assert(keys@.take(i as int) =~= keys@);
    if filtered.is_empty() {
        None
    } else {
        Some(filtered)
    }
}

proof fn one_more_key(keys: Seq<String>, i: int)
    requires
        0 <= i < keys.len(),
    ensures
        forall|key: Seq<char>|
            #[trigger] is_allowed(keys.take(i + 1), key) == (is_allowed(keys.take(i), key) || key
                == keys[i]@),
{
    assert forall|key: Seq<char>|
        #[trigger] is_allowed(keys.take(i + 1), key) == (is_allowed(keys.take(i), key) || key
            == keys[i]@) by {
        if is_allowed(keys.take(i + 1), key) {
            let j = choose|j: int|
                0 <= j < keys.take(i + 1).len() && (#[trigger] keys.take(i + 1)[j])@ == key;
            if j < i {
                assert(keys.take(i)[j]@ == key);
            }
        }
        if is_allowed(keys.take(i), key) {
            let j = choose|j: int| 0 <= j < keys.take(i).len() && (#[trigger] keys.take(i)[j])@ == key;
            assert(keys.take(i + 1)[j]@ == key);
        }
        if key == keys[i]@ {
            assert(keys.take(i + 1)[i]@ == key);
        }
    }
}

/// The value that a session's subprocess sees under a key: what the client sent,
/// or, where the session has no environment of its own, what the daemon was
/// started with.
pub open spec fn pinned_value(
    client_env: Option<Map<Seq<char>, String>>,
    base: Map<Seq<char>, String>,
    key: Seq<char>,
) -> Option<String> {
    let env = match client_env {
        Some(env) => env,
        None => base,
    };
    if env.contains_key(key) {
        Some(env[key])
    } else {
        None
    }
}

/// The environment of a session's subprocesses: every key of the allowlist has a
/// value or is to be unset.
pub fn exec_env_for_session(
    client_env: Option<&EnvMap>,
    base: &EnvMap,
    keys: &Vec<String>,
) -> (r: TextMap<Option<String>>)
    requires
        client_env is Some ==> client_env->0.wf(),
        base.wf(),
    ensures
        r.wf(),
        forall|key: Seq<char>| #[trigger] r@.contains_key(key) == is_allowed(keys@, key),
        forall|key: Seq<char>| #[trigger]
            r@.contains_key(key) ==> r@[key] == pinned_value(
                match client_env {
                    Some(env) => Some(env@),
                    None => None,
                },
                base@,
                key,
            ),
{
    let mut pinned: TextMap<Option<String>> = TextMap::new();
    let ghost sent = match client_env {
        Some(env) => Some(env@),
        None => None,
    };
    let mut i: usize = 0;
    assert forall|key: Seq<char>| !is_allowed(keys@.take(0), key) by {}
    while i < keys.len()
        invariant
            i <= keys.len(),
            client_env is Some ==> client_env->0.wf(),
            base.wf(),
            pinned.wf(),
            sent == match client_env {
                Some(env) => Some(env@),
                None => None,
            },
            forall|key: Seq<char>| #[trigger]
                pinned@.contains_key(key) == is_allowed(keys@.take(i as int), key),
            forall|key: Seq<char>| #[trigger]
                pinned@.contains_key(key) ==> pinned@[key] == pinned_value(sent, base@, key),
        decreases keys.len() - i,
    {
        proof {
            one_more_key(keys@, i as int);
        }
        let env: &EnvMap = match client_env {
            Some(env) => env,
            None => base,
        };
        let value: Option<String> = match env.get(&keys[i]) {
            Some(value) => Some(value.clone()),
            None => None,
        };
        pinned.insert(keys[i].clone(), value);
        i += 1;
    }
    assert(keys@.take(i as int) =~= keys@);
    pinned
}

/// A client can set only what the allowlist names, and an environment that was
/// filtered once passes as it is.
pub proof fn filtering_is_stable(env: Map<Seq<char>, String>, keys: Seq<String>)
    ensures
        allowed_part(allowed_part(env, keys), keys) == allowed_part(env, keys),
        forall|key: Seq<char>| #[trigger]
            allowed_part(env, keys).contains_key(key) ==> is_allowed(keys, key),
{
    assert(allowed_part(allowed_part(env, keys), keys) =~= allowed_part(env, keys));
}

/// The value under a key, where there is one.
pub open spec fn value_at(env: Map<Seq<char>, String>, key: Seq<char>) -> Option<String> {
    if env.contains_key(key) {
        Some(env[key])
    } else {
        None
    }
}

/// An environment with a key set or unset.
pub open spec fn with_value(
    env: Map<Seq<char>, String>,
    key: Seq<char>,
    value: Option<String>,
) -> Map<Seq<char>, String> {
    match value {
        Some(value) => env.insert(key, value),
        None => env.remove(key),
    }
}

/// The environment of the process while a client's environment is in force: every
/// key of the allowlist is what the client sent, or unset.
pub open spec fn in_force(
    env: Map<Seq<char>, String>,
    client: Map<Seq<char>, String>,
    keys: Seq<String>,
) -> Map<Seq<char>, String>
    decreases keys.len(),
{
    if keys.len() == 0 {
        env
    } else {
        with_value(
            in_force(env, client, keys.drop_last()),
            keys.last()@,
            value_at(client, keys.last()@),
        )
    }
}

/// What was there before, key by key.
pub open spec fn noted(
    env: Map<Seq<char>, String>,
    client: Map<Seq<char>, String>,
    keys: Seq<String>,
    previous: Seq<(String, Option<String>)>,
) -> bool {
    &&& previous.len() == keys.len()
    &&& forall|i: int|
        0 <= i < keys.len() ==> (#[trigger] previous[i]).0@ == keys[i]@ && previous[i].1
            == value_at(in_force(env, client, keys.take(i)), keys[i]@)
}

/// An environment after values were put back, one after the other.
pub open spec fn put_back(
    env: Map<Seq<char>, String>,
    previous: Seq<(String, Option<String>)>,
) -> Map<Seq<char>, String>
    decreases previous.len(),
{
    if previous.len() == 0 {
        env
    } else {
        with_value(
            put_back(env, previous.drop_last()),
            previous.last().0@,
            previous.last().1,
        )
    }
}

fn assign(env: &mut EnvMap, key: &str, value: Option<String>)
    requires
        old(env).wf(),
    ensures
        final(env).wf(),
        final(env)@ == with_value(old(env)@, key@, value),
{
    match value {
        Some(value) => {
            env.insert(key.to_owned(), value);
        },
        None => {
            env.remove(key);
        },
    }
}

fn look_up(env: &EnvMap, key: &str) -> (r: Option<String>)
    requires
        env.wf(),
    ensures
        r == value_at(env@, key@),
{
    match env.get(key) {
        Some(value) => Some(value.clone()),
        None => None,
    }
}

/// Puts a client's environment in force: the whole allowlist is pinned, so that
/// what the client did not send cannot mix with what the daemon was started with.
/// What was there before.
pub fn enter_client_env(environment: &mut EnvMap, client: &EnvMap, keys: &Vec<String>) -> (r: Vec<
    (String, Option<String>),
>)
    requires
        old(environment).wf(),
        client.wf(),
    ensures
        final(environment).wf(),
        final(environment)@ == in_force(old(environment)@, client@, keys@),
        noted(old(environment)@, client@, keys@, r@),
{
    let ghost base = environment@;
    let mut previous: Vec<(String, Option<String>)> = Vec::new();
    let mut i: usize = 0;
    assert(keys@.take(0) =~= Seq::empty());
    while i < keys.len()
        invariant
            i <= keys.len(),
            environment.wf(),
            client.wf(),
            environment@ == in_force(base, client@, keys@.take(i as int)),
            previous@.len() == i,
            forall|j: int|
                0 <= j < i ==> (#[trigger] previous@[j]).0@ == keys@[j]@ && previous@[j].1
                    == value_at(in_force(base, client@, keys@.take(j)), keys@[j]@),
        decreases keys.len() - i,
    {
        assert(keys@.take(i + 1).drop_last() =~= keys@.take(i as int));
        assert(keys@.take(i + 1).last() == keys@[i as int]);
        let before = look_up(environment, &keys[i]);
        previous.push((keys[i].clone(), before));
        let value = look_up(client, &keys[i]);
        assign(environment, &keys[i], value);
        i += 1;
    }
    assert(keys@.take(i as int) =~= keys@);
    previous
}

/// Puts back what was there before a client's environment was in force.
pub fn leave_client_env(environment: &mut EnvMap, previous: &Vec<(String, Option<String>)>)
    requires
        old(environment).wf(),
    ensures
        final(environment).wf(),
        final(environment)@ == put_back(old(environment)@, previous@),
{
    let ghost base = environment@;
    let mut i: usize = 0;
    assert(previous@.take(0) =~= Seq::empty());
    while i < previous.len()
        invariant
            i <= previous.len(),
            environment.wf(),
            environment@ == put_back(base, previous@.take(i as int)),
        decreases previous.len() - i,
    {
        assert(previous@.take(i + 1).drop_last() =~= previous@.take(i as int));
        assert(previous@.take(i + 1).last() == previous@[i as int]);
        assign(environment, &previous[i].0, previous[i].1.clone());
        i += 1;
    }
    assert(previous@.take(i as int) =~= previous@);
}

/// No key stands twice in the allowlist.
pub open spec fn distinct(keys: Seq<String>) -> bool {
    forall|i: int, j: int|
        0 <= i < j < keys.len() ==> (#[trigger] keys[i])@ != (#[trigger] keys[j])@
}

proof fn in_force_at(
    env: Map<Seq<char>, String>,
    client: Map<Seq<char>, String>,
    keys: Seq<String>,
    key: Seq<char>,
)
    ensures
        value_at(in_force(env, client, keys), key) == if is_allowed(keys, key) {
            value_at(client, key)
        } else {
            value_at(env, key)
        },
    decreases keys.len(),
{
    if keys.len() > 0 {
        let rest = keys.drop_last();
        in_force_at(env, client, rest, key);
        if is_allowed(keys, key) {
            let i = choose|i: int| 0 <= i < keys.len() && (#[trigger] keys[i])@ == key;
            if i < rest.len() {
                assert(rest[i]@ == key);
            }
        }
        if is_allowed(rest, key) {
            let i = choose|i: int| 0 <= i < rest.len() && (#[trigger] rest[i])@ == key;
            assert(keys[i]@ == key);
        }
        if keys.last()@ == key {
            assert(keys[keys.len() - 1]@ == key);
        }
    }
}

/// The key stands among what is put back.
pub open spec fn put_back_has(previous: Seq<(String, Option<String>)>, key: Seq<char>) -> bool {
    exists|i: int| 0 <= i < previous.len() && (#[trigger] previous[i]).0@ == key
}

proof fn put_back_elsewhere(
    env: Map<Seq<char>, String>,
    previous: Seq<(String, Option<String>)>,
    key: Seq<char>,
)
    requires
        !put_back_has(previous, key),
    ensures
        value_at(put_back(env, previous), key) == value_at(env, key),
    decreases previous.len(),
{
    if previous.len() > 0 {
        let rest = previous.drop_last();
        assert(previous[previous.len() - 1].0@ != key);
        assert(!put_back_has(rest, key)) by {
            if put_back_has(rest, key) {
                let i = choose|i: int| 0 <= i < rest.len() && (#[trigger] rest[i]).0@ == key;
                assert(previous[i].0@ == key);
            }
        }
        put_back_elsewhere(env, rest, key);
    }
}

proof fn put_back_there(
    env: Map<Seq<char>, String>,
    previous: Seq<(String, Option<String>)>,
    i: int,
)
    requires
        0 <= i < previous.len(),
        forall|j: int| i < j < previous.len() ==> (#[trigger] previous[j]).0@ != previous[i].0@,
    ensures
        value_at(put_back(env, previous), previous[i].0@) == previous[i].1,
    decreases previous.len(),
{
    let rest = previous.drop_last();
    if i < rest.len() {
        assert(previous[previous.len() - 1].0@ != previous[i].0@);
        assert forall|j: int| i < j < rest.len() implies (#[trigger] rest[j]).0@ != rest[i].0@ by {
            assert(rest[j] == previous[j]);
        }
        put_back_there(env, rest, i);
    }
}

/// While a client's environment is in force, every key of the allowlist is what
/// the client sent, or unset; afterwards the environment is what it was before.
pub proof fn environment_is_restored(
    env: Map<Seq<char>, String>,
    client: Map<Seq<char>, String>,
    keys: Seq<String>,
    previous: Seq<(String, Option<String>)>,
)
    requires
        distinct(keys),
        noted(env, client, keys, previous),
    ensures
        forall|key: Seq<char>| #[trigger]
            value_at(in_force(env, client, keys), key) == if is_allowed(keys, key) {
                value_at(client, key)
            } else {
                value_at(env, key)
            },
        put_back(in_force(env, client, keys), previous) == env,
{
    let pinned = in_force(env, client, keys);
    let after = put_back(pinned, previous);
    assert forall|key: Seq<char>| #[trigger] value_at(pinned, key) == if is_allowed(keys, key) {
        value_at(client, key)
    } else {
        value_at(env, key)
    } by {
        in_force_at(env, client, keys, key);
    }
    assert forall|key: Seq<char>| value_at(after, key) == value_at(env, key) by {
        in_force_at(env, client, keys, key);
        if is_allowed(keys, key) {
            let i = choose|i: int| 0 <= i < keys.len() && (#[trigger] keys[i])@ == key;
            assert(previous[i].0@ == key);
            assert forall|j: int| i < j < previous.len() implies (#[trigger] previous[j]).0@ != key by {
                assert(previous[j].0@ == keys[j]@);
                assert(keys[i]@ != keys[j]@);
            }
            put_back_there(pinned, previous, i);
            in_force_at(env, client, keys.take(i), key);
            if is_allowed(keys.take(i), key) {
                let j = choose|j: int| 0 <= j < i && (#[trigger] keys.take(i)[j])@ == key;
                assert(keys[j]@ == key && keys[j]@ != keys[i]@);
            }
        } else {
            if put_back_has(previous, key) {
                let i = choose|i: int|
                    0 <= i < previous.len() && (#[trigger] previous[i]).0@ == key;
                assert(keys[i]@ == key);
            }
            put_back_elsewhere(pinned, previous, key);
        }
    }
    assert forall|key: Seq<char>| #[trigger] after.contains_key(key) == env.contains_key(key) by {
        assert(value_at(after, key) == value_at(env, key));
    }
    assert forall|key: Seq<char>| #[trigger] env.contains_key(key) implies after[key] == env[key] by {
        assert(value_at(after, key) == value_at(env, key));
    }
    assert(after.dom() =~= env.dom());
    assert(after =~= env);
}

/// Who may load under which environment: those that share the daemon's own run
/// beside each other, one with a client's environment runs alone.
#[derive(Debug, Clone, Copy, PartialEq, Eq, Structural)]
pub struct ClientEnvGate {
    /// How many loads share the daemon's environment.
    pub shared: u64,
    /// A load with a client's environment has begun, and waits or runs.
    pub claimed: bool,
    /// A client's environment is in force.
    pub pinned: bool,
}

impl ClientEnvGate {
    /// A client's environment is in force only for the load that has claimed it, and
    /// only while nobody shares the daemon's.
    pub open spec fn wf(self) -> bool {
        self.pinned ==> self.claimed && self.shared == 0
    }

    pub fn new() -> (r: Self)
        ensures
            r.wf(),
            r == (ClientEnvGate { shared: 0, claimed: false, pinned: false }),
    {
        ClientEnvGate { shared: 0, claimed: false, pinned: false }
    }

    /// A load that shares the daemon's environment may begin, unless a client's is
    /// claimed.
    pub fn begin_shared(&mut self) -> (r: bool)
        requires
            old(self).wf(),
            old(self).shared < u64::MAX,
        ensures
            final(self).wf(),
            r == !old(self).claimed,
            *final(self) == if r {
                ClientEnvGate { shared: (old(self).shared + 1) as u64, ..*old(self) }
            } else {
                *old(self)
            },
    {
        if self.claimed {
            return false;
        }
        self.shared = self.shared + 1;
        true
    }

    /// A load that shared the daemon's environment is over.
    pub fn end_shared(&mut self)
        requires
            old(self).wf(),
            old(self).shared > 0,
        ensures
            final(self).wf(),
            *final(self) == (ClientEnvGate { shared: (old(self).shared - 1) as u64, ..*old(self) }),
    {
        self.shared = self.shared - 1;
    }

    /// Claims the environment of the process for a client, unless it is claimed.
    pub fn claim(&mut self) -> (r: bool)
        requires
            old(self).wf(),
        ensures
            final(self).wf(),
            r == !old(self).claimed,
            *final(self) == (ClientEnvGate { claimed: true, ..*old(self) }),
    {
        if self.claimed {
            return false;
        }
        self.claimed = true;
        true
    }

    /// Begins to run with the client's environment once nobody shares the daemon's.
    pub fn begin_pinned(&mut self) -> (r: bool)
        requires
            old(self).wf(),
            old(self).claimed,
        ensures
            final(self).wf(),
            r == (old(self).shared == 0),
            *final(self) == if r {
                ClientEnvGate { pinned: true, ..*old(self) }
            } else {
                *old(self)
            },
    {
        if self.shared > 0 {
            return false;
        }
        self.pinned = true;
        true
    }

    /// The load with a client's environment is over.
    pub fn end_pinned(&mut self)
        requires
            old(self).wf(),
        ensures
            final(self).wf(),
            *final(self) == (ClientEnvGate { claimed: false, pinned: false, ..*old(self) }),
    {
        self.claimed = false;
        self.pinned = false;
    }
}

} // verus!
