use vstd::prelude::*;

use crate::config::{Config, Model, ModelConfig, ModelConfigView, ModelIdentity};
use crate::provider::{provider_from, Provider};
use crate::text::same_text;

verus! {

/// The registry as plain values: the configured parameters of each
/// (provider, model name) pair, and the default pair with its own parameters.
pub struct RegistryView {
    pub models: Map<(Provider, Seq<char>), ModelConfigView>,
    pub default: Option<((Provider, Seq<char>), ModelConfigView)>,
}

/// The key under which a persisted entry is filed: its provider name read
/// leniently, and its model name as written.
pub open spec fn entry_key(m: Model) -> (Provider, Seq<char>) {
    (provider_from(m.provider@), m.model@)
}

/// The parameters that a list of persisted entries gives each pair. Entries
/// with an empty model name name no model and are passed over; where two
/// entries share a key, the later one stands.
pub open spec fn entries_map(s: Seq<Model>) -> Map<(Provider, Seq<char>), ModelConfigView>
    decreases s.len(),
{
    if s.len() == 0 {
        Map::empty()
    } else {
        let earlier = entries_map(s.drop_last());
        if s.last().model@.len() == 0 {
            earlier
        } else {
            earlier.insert(entry_key(s.last()), s.last().config@)
        }
    }
}

/// The default pair that a persisted default entry gives.
pub open spec fn default_entry(d: Option<Model>) -> Option<
    ((Provider, Seq<char>), ModelConfigView),
> {
    match d {
        Some(m) => if m.model@.len() == 0 {
            None
        } else {
            Some((entry_key(m), m.config@))
        },
        None => None,
    }
}

struct Entry {
    identity: ModelIdentity,
    config: ModelConfig,
}

/// The entries hold the keys of `m` once each, with `m`'s parameters.
spec fn entries_inv(e: Seq<Entry>, m: Map<(Provider, Seq<char>), ModelConfigView>) -> bool {
    &&& forall|i: int|
        0 <= i < e.len() ==> m.contains_key(#[trigger] e[i].identity@) && m[e[i].identity@]
            == e[i].config@
    &&& forall|k: (Provider, Seq<char>)| #[trigger]
        m.contains_key(k) ==> exists|i: int| 0 <= i < e.len() && #[trigger] e[i].identity@ == k
    &&& forall|i: int, j: int|
        0 <= i < j < e.len() ==> #[trigger] e[i].identity@ != #[trigger] e[j].identity@
}

/// Files `config` under `identity`, replacing what was filed there before.
fn upsert(
    entries: &mut Vec<Entry>,
    Ghost(m): Ghost<Map<(Provider, Seq<char>), ModelConfigView>>,
    identity: ModelIdentity,
    config: ModelConfig,
)
    requires
        entries_inv(old(entries)@, m),
    ensures
        entries_inv(final(entries)@, m.insert(identity@, config@)),
{
    let ghost key = identity@;
    let ghost m2 = m.insert(key, config@);
    let n: usize = entries.len();
    let mut i: usize = 0;
    while i < n
        invariant
            n == entries.len(),
            0 <= i <= n,
            entries_inv(entries@, m),
            key == identity@,
            m2 == m.insert(key, config@),
            forall|j: int| 0 <= j < i ==> entries@[j].identity@ != key,
        decreases n - i,
    {
        if entries[i].identity.provider() == identity.provider() && same_text(
            entries[i].identity.model_name(),
            identity.model_name(),
        ) {
            let ghost before = entries@;
            entries.set(i, Entry { identity, config });
            proof {
                assert forall|k: (Provider, Seq<char>)| #[trigger]
                    m2.contains_key(k) implies exists|j: int|
                    0 <= j < entries@.len() && #[trigger] entries@[j].identity@ == k by {
                    if k == key {
                        assert(entries@[i as int].identity@ == k);
                    } else {
                        let j = choose|j: int| 0 <= j < before.len() && #[trigger] before[j].identity@ == k;
                        assert(entries@[j].identity@ == k);
                    }
                }
            }
            return;
        }
        i = i + 1;
    }
    let ghost before = entries@;
    entries.push(Entry { identity, config });
    proof {
        assert forall|k: (Provider, Seq<char>)| #[trigger]
            m2.contains_key(k) implies exists|j: int|
            0 <= j < entries@.len() && #[trigger] entries@[j].identity@ == k by {
            if k == key {
                assert(entries@[n as int].identity@ == k);
            } else {
                let j = choose|j: int| 0 <= j < before.len() && #[trigger] before[j].identity@ == k;
                assert(entries@[j].identity@ == k);
            }
        }
    }
}

/// The loaded configuration: for each provider, the parameters of each of its
/// models, and an optional default model that carries its own parameters.
/// It is built once and only read afterwards.
pub struct ProviderRegistry {
    entries: Vec<Entry>,
    default: Option<Entry>,
    models: Ghost<Map<(Provider, Seq<char>), ModelConfigView>>,
}

impl View for ProviderRegistry {
    type V = RegistryView;

    closed spec fn view(&self) -> RegistryView {
        RegistryView {
            models: self.models@,
            default: match self.default {
                Some(e) => Some((e.identity@, e.config@)),
                None => None,
            },
        }
    }
}

impl ProviderRegistry {
    #[verifier::type_invariant]
    closed spec fn inv(&self) -> bool {
        entries_inv(self.entries@, self.models@)
    }

    /// Builds the registry from the persisted configuration. Provider names
    /// are read leniently (see `Provider::from`).
    pub fn load(config: &Config) -> (r: ProviderRegistry)
        ensures
            r@.models == entries_map(config.models@),
            r@.default == default_entry(config.default_model),
    {
        let mut entries: Vec<Entry> = Vec::new();
        let ghost mut m: Map<(Provider, Seq<char>), ModelConfigView> = Map::empty();
        let n: usize = config.models.len();
        let mut i: usize = 0;
        while i < n
            invariant
                n == config.models@.len(),
                0 <= i <= n,
                m == entries_map(config.models@.subrange(0, i as int)),
                entries_inv(entries@, m),
            decreases n - i,
        {
            let model = &config.models[i];
            proof {
                let s = config.models@.subrange(0, i as int + 1);
                assert(s.drop_last() =~= config.models@.subrange(0, i as int));
                assert(s.last() == *model);
            }
            let provider = Provider::from(model.provider.as_str());
            if model.model.unicode_len() != 0 {
                match ModelIdentity::new(provider, model.model.clone()) {
                    Ok(identity) => {
                        upsert(&mut entries, Ghost(m), identity, model.config.clone());
                        proof {
                            m = m.insert(entry_key(*model), model.config@);
                        }
                    },
                    Err(_) => {},
                }
            }
            i = i + 1;
        }
        proof {
            assert(config.models@.subrange(0, n as int) =~= config.models@);
        }
        let default = match &config.default_model {
            Some(d) => {
                let provider = Provider::from(d.provider.as_str());
                match ModelIdentity::new(provider, d.model.clone()) {
                    Ok(identity) => Some(Entry { identity, config: d.config.clone() }),
                    Err(_) => None,
                }
            },
            None => None,
        };
        ProviderRegistry { entries, default, models: Ghost(m) }
    }

    /// The parameters configured for `model_name` of `provider`, or `None`
    /// when the configuration has no such pair.
    pub fn lookup(&self, provider: Provider, model_name: &str) -> (r: Option<&ModelConfig>)
        ensures
            match r {
                Some(c) => self@.models.contains_key((provider, model_name@)) && c@
                    == self@.models[(provider, model_name@)],
                None => !self@.models.contains_key((provider, model_name@)),
            },
    {
        proof {
            use_type_invariant(self);
        }
        let n: usize = self.entries.len();
        let mut i: usize = 0;
        while i < n
            invariant
                n == self.entries@.len(),
                0 <= i <= n,
                entries_inv(self.entries@, self.models@),
                forall|j: int| 0 <= j < i ==> self.entries@[j].identity@ != (provider, model_name@),
            decreases n - i,
        {
            let e = &self.entries[i];
            if e.identity.provider() == provider && same_text(e.identity.model_name(), model_name) {
                return Some(&e.config);
            }
            i = i + 1;
        }
        None
    }

    /// The default model and its parameters, when the configuration sets one.
    pub fn default_identity(&self) -> (r: Option<(&ModelIdentity, &ModelConfig)>)
        ensures
            match r {
                Some((id, c)) => self@.default == Some((id@, c@)),
                None => self@.default.is_none(),
            },
    {
        match &self.default {
            Some(e) => Some((&e.identity, &e.config)),
            None => None,
        }
    }
}

/// A persisted entry that names a model, once loaded, is found again under
/// its key with every parameter equal, unless a later entry has the same key.
pub proof fn loaded_entry_found(models: Seq<Model>, i: int)
    requires
        0 <= i < models.len(),
        models[i].model@.len() > 0,
        forall|j: int|
            i < j < models.len() && #[trigger] models[j].model@.len() > 0 ==> entry_key(models[j])
                != entry_key(models[i]),
    ensures
        entries_map(models).contains_key(entry_key(models[i])),
        entries_map(models)[entry_key(models[i])] == models[i].config@,
    decreases models.len(),
{
    if i < models.len() - 1 {
        let earlier = models.drop_last();
        assert forall|j: int|
            i < j < earlier.len() && #[trigger] earlier[j].model@.len() > 0 implies entry_key(
            earlier[j],
        ) != entry_key(earlier[i]) by {
            assert(earlier[j] == models[j]);
        }
        loaded_entry_found(earlier, i);
    }
}

} // verus!
