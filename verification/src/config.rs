//! Agent configuration: the resolved options of one agent (model name,
//! sampling settings, input concurrency, model aliases), parsing from an
//! options document, and the copy-on-write merge used for per-input
//! overrides.
use vstd::prelude::*;

use crate::text::str_eq;
use crate::value::{DataValue, NumVal, ValView, kv_dv, lemma_kv_dv, lemma_obj_get_skip, obj_get};

verus! {

// region: ModelAliases

/// An alias table mapping short model names to full model names.
/// Later insertions override earlier ones.
#[derive(Debug)]
pub struct ModelAliases {
    entries: Vec<(String, String)>,
}

/// No two entries bind the same alias.
pub open spec fn keys_unique(s: Seq<(String, String)>) -> bool {
    forall|i: int, j: int| 0 <= i < j < s.len() ==> s[i].0@ != s[j].0@
}

/// The mapping an entry list denotes: later entries win.
pub open spec fn alias_map(s: Seq<(String, String)>) -> Map<Seq<char>, Seq<char>>
    decreases s.len(),
{
    if s.len() == 0 {
        Map::empty()
    } else {
        alias_map(s.drop_last()).insert(s.last().0@, s.last().1@)
    }
}

impl View for ModelAliases {
    type V = Map<Seq<char>, Seq<char>>;

    closed spec fn view(&self) -> Map<Seq<char>, Seq<char>> {
        alias_map(self.entries@)
    }
}

proof fn lemma_alias_map_keys(s: Seq<(String, String)>)
    ensures
        forall|k: Seq<char>|
            #[trigger] alias_map(s).contains_key(k) <==> exists|i: int|
                0 <= i < s.len() && s[i].0@ == k,
    decreases s.len(),
{
    if s.len() > 0 {
        lemma_alias_map_keys(s.drop_last());
        assert forall|k: Seq<char>| #[trigger]
            alias_map(s).contains_key(k) implies exists|i: int| 0 <= i < s.len() && s[i].0@ == k by {
            if s.last().0@ == k {
                assert(s[s.len() - 1].0@ == k);
            } else {
                assert(alias_map(s.drop_last()).contains_key(k));
                let i = choose|i: int| 0 <= i < s.len() - 1 && s.drop_last()[i].0@ == k;
                assert(s.drop_last()[i] == s[i]);
                assert(s[i].0@ == k);
            }
        }
        assert forall|k: Seq<char>| (exists|i: int| 0 <= i < s.len() && s[i].0@ == k) implies #[trigger]
            alias_map(s).contains_key(k) by {
            let i = choose|i: int| 0 <= i < s.len() && s[i].0@ == k;
            if i < s.len() - 1 {
                assert(s.drop_last()[i] == s[i]);
                assert(s.drop_last()[i].0@ == k);
                assert(alias_map(s.drop_last()).contains_key(k));
            }
        }
    }
}

proof fn lemma_alias_map_unique_get(s: Seq<(String, String)>, i: int)
    requires
        keys_unique(s),
        0 <= i < s.len(),
    ensures
        alias_map(s).contains_key(s[i].0@),
        alias_map(s)[s[i].0@] == s[i].1@,
    decreases s.len(),
{
    if i == s.len() - 1 {
    } else {
        assert(s.drop_last()[i] == s[i]);
        lemma_alias_map_unique_get(s.drop_last(), i);
        assert(s[i].0@ != s[s.len() - 1].0@);
    }
}

impl ModelAliases {
    /// The representation every operation preserves.
    pub closed spec fn wf(self) -> bool {
        keys_unique(self.entries@)
    }

    /// An empty alias table.
    pub fn new() -> (r: ModelAliases)
        ensures
            r.wf(),
            r@ == Map::<Seq<char>, Seq<char>>::empty(),
    {
        ModelAliases { entries: Vec::new() }
    }

    /// Binds `name` to `model`, replacing any earlier binding of `name`.
    pub fn set(&mut self, name: String, model: String)
        requires
            old(self).wf(),
        ensures
            final(self).wf(),
            final(self)@ == old(self)@.insert(name@, model@),
    {
        proof {
            lemma_alias_map_keys(self.entries@);
        }
        let ghost s0 = self.entries@;
        let mut i: usize = 0;
        while i < self.entries.len()
            invariant
                0 <= i <= self.entries@.len(),
                self.entries@ == s0,
                forall|k: int| 0 <= k < i ==> s0[k].0@ != name@,
            decreases self.entries@.len() - i,
        {
            if str_eq(self.entries[i].0.as_str(), name.as_str()) {
                let prev = self.entries.remove(i);
                self.entries.insert(i, (name, model));
                proof {
                    let s1 = self.entries@;
                    assert(s1 =~= s0.update(i as int, (
                        self.entries@[i as int].0,
                        self.entries@[i as int].1,
                    )));
                    lemma_alias_map_update(s0, i as int, s1);
                }
                return ;
            }
            i = i + 1;
        }
        self.entries.push((name, model));
        proof {
            assert(self.entries@.drop_last() =~= s0);
        }
    }

    /// The model bound to `name`, if any.
    pub fn get(&self, name: &str) -> (r: Option<&String>)
        requires
            self.wf(),
        ensures
            match r {
                Some(m) => self@.contains_key(name@) && self@[name@] == m@,
                None => !self@.contains_key(name@),
            },
    {
        proof {
            lemma_alias_map_keys(self.entries@);
        }
        let mut i: usize = 0;
        while i < self.entries.len()
            invariant
                0 <= i <= self.entries@.len(),
                forall|k: int| 0 <= k < i ==> self.entries@[k].0@ != name@,
            decreases self.entries@.len() - i,
        {
            if str_eq(self.entries[i].0.as_str(), name) {
                proof {
                    lemma_alias_map_unique_get(self.entries@, i as int);
                }
                return Some(&self.entries[i].1);
            }
            i = i + 1;
        }
        None
    }

    /// A structurally equal copy.
    pub fn duplicate(&self) -> (r: ModelAliases)
        ensures
            r@ == self@,
            r.wf() == self.wf(),
    {
        let mut out: Vec<(String, String)> = Vec::new();
        let mut i: usize = 0;
        while i < self.entries.len()
            invariant
                0 <= i <= self.entries@.len(),
                out@.len() == i,
                forall|k: int| 0 <= k < i ==> out@[k].0@ == self.entries@[k].0@ && out@[k].1@
                    == self.entries@[k].1@,
            decreases self.entries@.len() - i,
        {
            let k = self.entries[i].0.clone();
            let v = self.entries[i].1.clone();
            out.push((k, v));
            i = i + 1;
        }
        let r = ModelAliases { entries: out };
        proof {
            lemma_alias_map_congruent(r.entries@, self.entries@);
        }
        r
    }

    /// Merges an optional override table into this one; bindings of the
    /// override win. Consumes both.
    pub fn merge(self, aliases_ov: Option<ModelAliases>) -> (r: ModelAliases)
        requires
            self.wf(),
            aliases_ov is Some ==> aliases_ov->0.wf(),
        ensures
            r.wf(),
            r@ == spec_merge_aliases(Some(self@), match aliases_ov {
                Some(a) => Some(a@),
                None => None,
            })->0,
    {
        match aliases_ov {
            None => self,
            Some(ov) => {
                let mut base = self;
                let ghost m0 = base@;
                let ghost ove = ov.entries@;
                proof {
                    assert(alias_map(ove.take(0)) =~= Map::<Seq<char>, Seq<char>>::empty());
                    assert(m0.union_prefer_right(alias_map(ove.take(0))) =~= m0);
                }
                let mut j: usize = 0;
                while j < ov.entries.len()
                    invariant
                        0 <= j <= ove.len(),
                        ov.entries@ == ove,
                        base.wf(),
                        base@ == m0.union_prefer_right(alias_map(ove.take(j as int))),
                    decreases ove.len() - j,
                {
                    let name = ov.entries[j].0.clone();
                    let model = ov.entries[j].1.clone();
                    base.set(name, model);
                    proof {
                        assert(ove.take(j + 1).drop_last() =~= ove.take(j as int));
                        assert(base@ =~= m0.union_prefer_right(alias_map(ove.take(j + 1))));
                    }
                    j = j + 1;
                }
                proof {
                    assert(ove.take(ove.len() as int) =~= ove);
                }
                base
            },
        }
    }

    /// As [`ModelAliases::merge`], without consuming this table.
    pub fn merge_new(&self, aliases_ov: Option<ModelAliases>) -> (r: ModelAliases)
        requires
            self.wf(),
            aliases_ov is Some ==> aliases_ov->0.wf(),
        ensures
            r.wf(),
            r@ == spec_merge_aliases(Some(self@), match aliases_ov {
                Some(a) => Some(a@),
                None => None,
            })->0,
    {
        let copy = self.duplicate();
        copy.merge(aliases_ov)
    }
}

proof fn lemma_alias_map_congruent(a: Seq<(String, String)>, b: Seq<(String, String)>)
    requires
        a.len() == b.len(),
        forall|i: int| 0 <= i < a.len() ==> a[i].0@ == b[i].0@ && a[i].1@ == b[i].1@,
    ensures
        alias_map(a) == alias_map(b),
        keys_unique(a) == keys_unique(b),
    decreases a.len(),
{
    if a.len() > 0 {
        assert(forall|i: int| 0 <= i < a.len() - 1 ==> #[trigger] a.drop_last()[i] == a[i]);
        assert(forall|i: int| 0 <= i < b.len() - 1 ==> #[trigger] b.drop_last()[i] == b[i]);
        lemma_alias_map_congruent(a.drop_last(), b.drop_last());
        assert(alias_map(a) =~= alias_map(b));
    }
    assert(keys_unique(a) == keys_unique(b));
}

proof fn lemma_alias_map_update(s0: Seq<(String, String)>, i: int, s1: Seq<(String, String)>)
    requires
        keys_unique(s0),
        0 <= i < s0.len(),
        s1.len() == s0.len(),
        forall|k: int| 0 <= k < s0.len() && k != i ==> s1[k] == s0[k],
        s1[i].0@ == s0[i].0@,
    ensures
        keys_unique(s1),
        alias_map(s1) == alias_map(s0).insert(s1[i].0@, s1[i].1@),
    decreases s0.len(),
{
    assert(keys_unique(s1));
    if i == s0.len() - 1 {
        assert(s1.drop_last() =~= s0.drop_last());
        assert(alias_map(s1) =~= alias_map(s0).insert(s1[i].0@, s1[i].1@));
    } else {
        assert(forall|k: int| 0 <= k < s0.len() - 1 ==> #[trigger] s0.drop_last()[k] == s0[k]);
        assert(forall|k: int| 0 <= k < s1.len() - 1 && k != i ==> #[trigger] s1.drop_last()[k]
            == s0.drop_last()[k]);
        assert(s1.drop_last()[i] == s1[i]);
        lemma_alias_map_update(s0.drop_last(), i, s1.drop_last());
        assert(s1.last() == s0.last());
        assert(s0[i].0@ != s0.last().0@);
        assert(alias_map(s1) =~= alias_map(s0).insert(s1[i].0@, s1[i].1@));
    }
}

/// The alias table after an override: override bindings win.
pub open spec fn spec_merge_aliases(
    base: Option<Map<Seq<char>, Seq<char>>>,
    ov: Option<Map<Seq<char>, Seq<char>>>,
) -> Option<Map<Seq<char>, Seq<char>>> {
    match (base, ov) {
        (Some(b), Some(o)) => Some(b.union_prefer_right(o)),
        (Some(b), None) => Some(b),
        (None, o) => o,
    }
}

// endregion: ModelAliases

// region: AgentOptions

/// Why an options document was rejected.
#[derive(Debug, Clone, Copy, PartialEq, Eq, Structural)]
pub enum ConfigError {
    /// The configuration used the dashed `default-options` key.
    LegacyDashKey,
    /// A field had the wrong shape.
    BadOptions,
}

/// Chat-call options handed to the chat client.
#[derive(Debug, Clone, Copy, PartialEq, Eq, Structural)]
pub struct ChatOptions {
    pub temperature: Option<NumVal>,
    pub top_p: Option<NumVal>,
}

impl Default for ChatOptions {
    fn default() -> (r: ChatOptions)
        ensures
            r.temperature is None,
            r.top_p is None,
    {
        ChatOptions { temperature: None, top_p: None }
    }
}

/// Resolved configuration of one agent. The raw model name is kept as
/// given; resolution through the alias table happens on read.
#[derive(Debug)]
pub struct AgentOptions {
    pub model: Option<String>,
    pub temperature: Option<NumVal>,
    pub top_p: Option<NumVal>,
    pub input_concurrency: Option<usize>,
    pub model_aliases: Option<ModelAliases>,
}

/// The alias-resolved model for a raw model name: the alias table's
/// binding when one applies, the raw name otherwise.
pub open spec fn spec_resolve_model(
    model: Option<Seq<char>>,
    aliases: Option<Map<Seq<char>, Seq<char>>>,
) -> Option<Seq<char>> {
    match model {
        None => None,
        Some(m) => match aliases {
            None => Some(m),
            Some(a) => if a.contains_key(m) {
                Some(a[m])
            } else {
                Some(m)
            },
        },
    }
}

impl AgentOptions {
    pub open spec fn wf(self) -> bool {
        &&& match self.model_aliases {
            Some(a) => a.wf(),
            None => true,
        }
        &&& match self.temperature {
            Some(t) => t.wf(),
            None => true,
        }
        &&& match self.top_p {
            Some(t) => t.wf(),
            None => true,
        }
        &&& match self.input_concurrency {
            Some(c) => c as int <= 0x7fff_ffff_ffff_ffff,
            None => true,
        }
    }

    pub open spec fn model_view(self) -> Option<Seq<char>> {
        match self.model {
            Some(m) => Some(m@),
            None => None,
        }
    }

    pub open spec fn aliases_view(self) -> Option<Map<Seq<char>, Seq<char>>> {
        match self.model_aliases {
            Some(a) => Some(a@),
            None => None,
        }
    }

    pub open spec fn resolved_model_view(self) -> Option<Seq<char>> {
        spec_resolve_model(self.model_view(), self.aliases_view())
    }

    /// An options value with only the model name set.
    pub fn new(model_name: String) -> (r: AgentOptions)
        ensures
            r.model_view() == Some(model_name@),
            r.temperature is None,
            r.top_p is None,
            r.input_concurrency is None,
            r.aliases_view() is None,
            r.wf(),
    {
        AgentOptions {
            model: Some(model_name),
            temperature: None,
            top_p: None,
            input_concurrency: None,
            model_aliases: None,
        }
    }

    /// The raw model name, not resolved through the alias table.
    pub fn model(&self) -> (r: Option<&String>)
        ensures
            match r {
                Some(m) => self.model_view() == Some(m@),
                None => self.model_view() is None,
            },
    {
        self.model.as_ref()
    }

    /// The model name after alias resolution.
    pub fn resolve_model(&self) -> (r: Option<&String>)
        requires
            self.wf(),
        ensures
            match r {
                Some(m) => self.resolved_model_view() == Some(m@),
                None => self.resolved_model_view() is None,
            },
    {
        match &self.model {
            None => None,
            Some(m) => match &self.model_aliases {
                None => Some(m),
                Some(aliases) => match aliases.get(m.as_str()) {
                    Some(resolved) => Some(resolved),
                    None => Some(m),
                },
            },
        }
    }

    pub fn temperature(&self) -> (r: Option<NumVal>)
        ensures
            r == self.temperature,
    {
        self.temperature
    }

    pub fn top_p(&self) -> (r: Option<NumVal>)
        ensures
            r == self.top_p,
    {
        self.top_p
    }

    pub fn input_concurrency(&self) -> (r: Option<usize>)
        ensures
            r == self.input_concurrency,
    {
        self.input_concurrency
    }

    /// Chat options for the call: this agent's temperature and top_p laid
    /// over the caller's base options.
    pub fn to_genai_options(&self, chat_options: Option<&ChatOptions>) -> (r: ChatOptions)
        ensures
            r.temperature == (if self.temperature is Some {
                self.temperature
            } else {
                match chat_options {
                    Some(b) => b.temperature,
                    None => None,
                }
            }),
            r.top_p == (if self.top_p is Some {
                self.top_p
            } else {
                match chat_options {
                    Some(b) => b.top_p,
                    None => None,
                }
            }),
    {
        let mut base = match chat_options {
            Some(opts) => *opts,
            None => ChatOptions::default(),
        };
        if let Some(t) = self.temperature {
            base.temperature = Some(t);
        }
        if let Some(p) = self.top_p {
            base.top_p = Some(p);
        }
        base
    }
}

impl Default for AgentOptions {
    fn default() -> (r: AgentOptions)
        ensures
            r.model is None,
            r.temperature is None,
            r.top_p is None,
            r.input_concurrency is None,
            r.model_aliases is None,
            r.wf(),
    {
        AgentOptions {
            model: None,
            temperature: None,
            top_p: None,
            input_concurrency: None,
            model_aliases: None,
        }
    }
}

/// What the fields of a merged options value must be.
pub open spec fn merged_options_ok(r: AgentOptions, base: AgentOptions, ov: AgentOptions) -> bool {
    &&& r.model_view() == (if ov.model is Some {
        ov.model_view()
    } else {
        base.model_view()
    })
    &&& r.temperature == (if ov.temperature is Some {
        ov.temperature
    } else {
        base.temperature
    })
    &&& r.top_p == (if ov.top_p is Some {
        ov.top_p
    } else {
        base.top_p
    })
    &&& r.input_concurrency == (if ov.input_concurrency is Some {
        ov.input_concurrency
    } else {
        base.input_concurrency
    })
    &&& r.aliases_view() == spec_merge_aliases(base.aliases_view(), ov.aliases_view())
}

impl AgentOptions {
    /// The options with `options_ov` laid over them: override fields win;
    /// alias tables are merged binding-wise. Consumes both.
    pub fn merge(self, options_ov: AgentOptions) -> (r: Result<AgentOptions, ConfigError>)
        requires
            self.wf(),
            options_ov.wf(),
        ensures
            r is Ok,
            merged_options_ok(r->Ok_0, self, options_ov),
            r->Ok_0.wf(),
    {
        let model_aliases = match self.model_aliases {
            Some(aliases) => Some(aliases.merge(options_ov.model_aliases)),
            None => options_ov.model_aliases,
        };
        Ok(
            AgentOptions {
                model: match options_ov.model {
                    Some(m) => Some(m),
                    None => self.model,
                },
                temperature: match options_ov.temperature {
                    Some(t) => Some(t),
                    None => self.temperature,
                },
                top_p: match options_ov.top_p {
                    Some(t) => Some(t),
                    None => self.top_p,
                },
                input_concurrency: match options_ov.input_concurrency {
                    Some(c) => Some(c),
                    None => self.input_concurrency,
                },
                model_aliases,
            },
        )
    }

    /// As [`AgentOptions::merge`], without consuming the base options:
    /// the base is read only and a fresh value is returned.
    pub fn merge_new(&self, options_ov: AgentOptions) -> (r: Result<AgentOptions, ConfigError>)
        requires
            self.wf(),
            options_ov.wf(),
        ensures
            r is Ok,
            merged_options_ok(r->Ok_0, *self, options_ov),
            r->Ok_0.wf(),
    {
        let base = AgentOptions {
            model: match &self.model {
                Some(m) => Some(m.clone()),
                None => None,
            },
            temperature: self.temperature,
            top_p: self.top_p,
            input_concurrency: self.input_concurrency,
            model_aliases: match &self.model_aliases {
                Some(a) => Some(a.duplicate()),
                None => None,
            },
        };
        base.merge(options_ov)
    }
}

// endregion: AgentOptions

// region: parsing options documents

/// Reads an optional string field: `None` when absent, the content for a
/// string, rejection (outer `None`) for any other shape.
pub open spec fn want_str_field(o: Option<ValView>) -> Option<Option<Seq<char>>> {
    match o {
        None => Some(None),
        Some(v) => match v {
            ValView::Str(s) => Some(Some(s)),
            _ => None,
        },
    }
}

/// Reads an optional number field; numbers beyond the renderable scale
/// are rejected.
pub open spec fn want_num_field(o: Option<ValView>) -> Option<Option<NumVal>> {
    match o {
        None => Some(None),
        Some(v) => match v {
            ValView::Num(n) => if n.wf() {
                Some(Some(n))
            } else {
                None
            },
            _ => None,
        },
    }
}

/// Reads an optional nonnegative integer field that fits a `usize`.
pub open spec fn want_count_field(o: Option<ValView>) -> Option<Option<usize>> {
    match o {
        None => Some(None),
        Some(v) => match v {
            ValView::Num(n) => if n.scale == 0 && 0 <= n.mantissa <= usize::MAX {
                Some(Some(n.mantissa as usize))
            } else {
                None
            },
            _ => None,
        },
    }
}

/// Every binding's value is a string.
pub open spec fn all_str_fields(fs: Seq<(Seq<char>, ValView)>) -> bool {
    forall|i: int| 0 <= i < fs.len() ==> fs[i].1 is Str
}

/// The mapping denoted by an object of string fields: later bindings win.
pub open spec fn str_fields_map(fs: Seq<(Seq<char>, ValView)>) -> Map<Seq<char>, Seq<char>>
    decreases fs.len(),
{
    if fs.len() == 0 {
        Map::empty()
    } else {
        str_fields_map(fs.drop_last()).insert(fs.last().0, fs.last().1->Str_0)
    }
}

/// Reads an optional alias-table field: an object whose values are all
/// strings.
pub open spec fn want_aliases_field(o: Option<ValView>) -> Option<
    Option<Map<Seq<char>, Seq<char>>>,
> {
    match o {
        None => Some(None),
        Some(v) => match v {
            ValView::Obj(fs) => if all_str_fields(fs) {
                Some(Some(str_fields_map(fs)))
            } else {
                None
            },
            _ => None,
        },
    }
}

/// What an options document parses to: the five recognized fields, or
/// `None` when the document or one of its fields has the wrong shape.
/// Unrecognized fields are ignored.
pub open spec fn spec_parse_options(v: ValView) -> Option<
    (
        Option<Seq<char>>,
        Option<NumVal>,
        Option<NumVal>,
        Option<usize>,
        Option<Map<Seq<char>, Seq<char>>>,
    ),
> {
    if !(v is Obj) {
        None
    } else {
        let m = want_str_field(v.get_key("model"@));
        let t = want_num_field(v.get_key("temperature"@));
        let p = want_num_field(v.get_key("top_p"@));
        let c = want_count_field(v.get_key("input_concurrency"@));
        let a = want_aliases_field(v.get_key("model_aliases"@));
        if m is Some && t is Some && p is Some && c is Some && a is Some {
            Some((m->0, t->0, p->0, c->0, a->0))
        } else {
            None
        }
    }
}

/// The parsed fields of an options value, against [`spec_parse_options`].
pub open spec fn parsed_options_ok(o: AgentOptions, v: ValView) -> bool {
    spec_parse_options(v) == Some(
        (o.model_view(), o.temperature, o.top_p, o.input_concurrency, o.aliases_view()),
    )
}

impl AgentOptions {
    /// Parses the flattened options document (`model`, `temperature`,
    /// `top_p`, `input_concurrency`, `model_aliases`); any field of the
    /// wrong shape rejects the document.
    pub fn from_options_value(value: &DataValue) -> (r: Result<AgentOptions, ConfigError>)
        ensures
            match r {
                Ok(o) => parsed_options_ok(o, value@) && o.wf(),
                Err(e) => spec_parse_options(value@) is None && e == ConfigError::BadOptions,
            },
    {
        match value {
            DataValue::Obj(_) => (),
            _ => {
                return Err(ConfigError::BadOptions);
            },
        }
        let model: Option<String> = match value.get("model") {
            None => None,
            Some(field) => match field {
                DataValue::Str(s) => Some(s.clone()),
                _ => {
                    return Err(ConfigError::BadOptions);
                },
            },
        };
        let temperature: Option<NumVal> = match value.get("temperature") {
            None => None,
            Some(field) => match field {
                DataValue::Num(n) => if n.scale <= 18 {
                    Some(*n)
                } else {
                    return Err(ConfigError::BadOptions);
                },
                _ => {
                    return Err(ConfigError::BadOptions);
                },
            },
        };
        let top_p: Option<NumVal> = match value.get("top_p") {
            None => None,
            Some(field) => match field {
                DataValue::Num(n) => if n.scale <= 18 {
                    Some(*n)
                } else {
                    return Err(ConfigError::BadOptions);
                },
                _ => {
                    return Err(ConfigError::BadOptions);
                },
            },
        };
        let input_concurrency: Option<usize> = match value.get("input_concurrency") {
            None => None,
            Some(field) => match field {
                DataValue::Num(n) => if n.scale == 0 && n.mantissa >= 0 && n.mantissa as u128
                    <= usize::MAX as u128 {
                    Some(n.mantissa as usize)
                } else {
                    return Err(ConfigError::BadOptions);
                },
                _ => {
                    return Err(ConfigError::BadOptions);
                },
            },
        };
        let model_aliases: Option<ModelAliases> = match value.get("model_aliases") {
            None => None,
            Some(field) => match field {
                DataValue::Obj(fs) => Some(build_aliases(fs)?),
                _ => {
                    return Err(ConfigError::BadOptions);
                },
            },
        };
        Ok(AgentOptions { model, temperature, top_p, input_concurrency, model_aliases })
    }

    /// Parses a whole configuration document: the options live under
    /// `options` (or the older `default_options`); a missing section
    /// yields the default options; the dashed `default-options` key is
    /// rejected outright.
    pub fn from_config_value(value: &DataValue) -> (r: Result<AgentOptions, ConfigError>)
        ensures
            value@.get_key("default-options"@) is Some ==> r == Err::<
                AgentOptions,
                ConfigError,
            >(ConfigError::LegacyDashKey),
            value@.get_key("default-options"@) is None ==> {
                let section = if value@.get_key("options"@) is Some {
                    value@.get_key("options"@)
                } else {
                    value@.get_key("default_options"@)
                };
                match section {
                    None => r is Ok && r->Ok_0.model is None && r->Ok_0.temperature is None
                        && r->Ok_0.top_p is None && r->Ok_0.input_concurrency is None
                        && r->Ok_0.model_aliases is None,
                    Some(section_v) => match r {
                        Ok(o) => parsed_options_ok(o, section_v) && o.wf(),
                        Err(e) => spec_parse_options(section_v) is None && e
                            == ConfigError::BadOptions,
                    },
                }
            },
    {
        if value.get("default-options").is_some() {
            return Err(ConfigError::LegacyDashKey);
        }
        let section = match value.get("options") {
            Some(section) => Some(section),
            None => value.get("default_options"),
        };
        match section {
            None => Ok(AgentOptions::default()),
            Some(section) => AgentOptions::from_options_value(section),
        }
    }
}

/// Builds the alias table from an object's bindings; any non-string
/// value rejects the table.
fn build_aliases(fs: &Vec<(String, DataValue)>) -> (r: Result<ModelAliases, ConfigError>)
    ensures
        match r {
            Ok(a) => all_str_fields(kv_dv(fs@)) && a@ == str_fields_map(kv_dv(fs@)) && a.wf(),
            Err(e) => !all_str_fields(kv_dv(fs@)) && e == ConfigError::BadOptions,
        },
{
    proof {
        lemma_kv_dv(fs@);
    }
    let ghost fv = kv_dv(fs@);
    let mut aliases = ModelAliases::new();
    let mut j: usize = 0;
    proof {
        assert(str_fields_map(fv.take(0)) =~= Map::<Seq<char>, Seq<char>>::empty());
    }
    while j < fs.len()
        invariant
            0 <= j <= fs@.len(),
            aliases.wf(),
            aliases@ == str_fields_map(fv.take(j as int)),
            forall|k: int| 0 <= k < j ==> fv[k].1 is Str,
        decreases fs@.len() - j,
    {
        let name = fs[j].0.clone();
        match &fs[j].1 {
            DataValue::Str(s) => {
                aliases.set(name, s.clone());
                proof {
                    assert(fv.take(j + 1).drop_last() =~= fv.take(j as int));
                    assert(fv.take(j + 1).last() == fv[j as int]);
                }
            },
            _ => {
                proof {
                    assert(!(fv[j as int].1 is Str));
                }
                return Err(ConfigError::BadOptions);
            },
        }
        j = j + 1;
    }
    proof {
        assert(fv.take(fs@.len() as int) =~= fv);
    }
    Ok(aliases)
}

// endregion: parsing options documents

// region: options as a scope value

/// What the options value handed to scripts must hold, field by field.
pub open spec fn options_value_ok(o: AgentOptions, v: ValView) -> bool {
    &&& v is Obj
    &&& v.get_key("model"@) == Some(
        match o.model_view() {
            Some(m) => ValView::Str(m),
            None => ValView::Null,
        },
    )
    &&& v.get_key("resolved_model"@) == Some(
        match o.resolved_model_view() {
            Some(m) => ValView::Str(m),
            None => ValView::Null,
        },
    )
    &&& v.get_key("temperature"@) == Some(
        match o.temperature {
            Some(t) => ValView::Num(t),
            None => ValView::Null,
        },
    )
    &&& v.get_key("top_p"@) == Some(
        match o.top_p {
            Some(t) => ValView::Num(t),
            None => ValView::Null,
        },
    )
    &&& v.get_key("input_concurrency"@) == Some(
        match o.input_concurrency {
            Some(c) => ValView::Num(NumVal { mantissa: c as i64, scale: 0u32 }),
            None => ValView::Null,
        },
    )
    &&& match v.get_key("model_aliases"@) {
        Some(ValView::Obj(fs)) => o.aliases_view() is Some && all_str_fields(fs) && str_fields_map(
            fs,
        ) == o.aliases_view()->0,
        Some(ValView::Null) => o.aliases_view() is None,
        _ => false,
    }
}

proof fn lemma_str_fields_of_aliases(entries: Seq<(String, String)>, out: Seq<(String, DataValue)>)
    requires
        out.len() == entries.len(),
        forall|i: int|
            0 <= i < out.len() ==> #[trigger] out[i].0@ == entries[i].0@ && out[i].1
                == DataValue::Str(entries[i].1),
    ensures
        all_str_fields(kv_dv(out)),
        str_fields_map(kv_dv(out)) == alias_map(entries),
    decreases out.len(),
{
    lemma_kv_dv(out);
    if out.len() > 0 {
        assert(forall|i: int|
            0 <= i < out.len() - 1 ==> #[trigger] out.drop_last()[i] == out[i]);
        assert(forall|i: int|
            0 <= i < entries.len() - 1 ==> #[trigger] entries.drop_last()[i] == entries[i]);
        lemma_str_fields_of_aliases(entries.drop_last(), out.drop_last());
        lemma_kv_dv(out.drop_last());
        assert(kv_dv(out).drop_last() =~= kv_dv(out.drop_last())) by {
            lemma_kv_dv(out);
            lemma_kv_dv(out.drop_last());
        }
        assert(kv_dv(out).last() == (out.last().0@, out.last().1.dv()));
        assert(out.last().1.dv() == ValView::Str(entries.last().1@));
        assert(all_str_fields(kv_dv(out))) by {
            lemma_kv_dv(out);
        }
        assert(str_fields_map(kv_dv(out)) == alias_map(entries));
    } else {
        assert(kv_dv(out) =~= Seq::<(Seq<char>, ValView)>::empty());
    }
}

impl ModelAliases {
    /// The alias table as an object value for script scopes.
    pub fn to_value(&self) -> (r: DataValue)
        ensures
            r@ is Obj,
            all_str_fields(r@->Obj_0),
            str_fields_map(r@->Obj_0) == self@,
    {
        let mut out: Vec<(String, DataValue)> = Vec::new();
        let mut i: usize = 0;
        while i < self.entries.len()
            invariant
                0 <= i <= self.entries@.len(),
                out@.len() == i,
                forall|k: int|
                    0 <= k < i ==> #[trigger] out@[k].0@ == self.entries@[k].0@ && out@[k].1
                        == DataValue::Str(self.entries@[k].1),
            decreases self.entries@.len() - i,
        {
            let name = self.entries[i].0.clone();
            let val = self.entries[i].1.clone();
            out.push((name, DataValue::Str(val)));
            i = i + 1;
        }
        proof {
            lemma_str_fields_of_aliases(self.entries@, out@);
        }
        DataValue::Obj(out)
    }
}

impl AgentOptions {
    /// The options as an object value, as scripts see them: the raw and
    /// resolved model names, the sampling settings, the input
    /// concurrency, and the alias table; absent settings are null.
    pub fn to_value(&self) -> (r: DataValue)
        requires
            self.wf(),
        ensures
            options_value_ok(*self, r@),
    {
        let model_field: DataValue = match &self.model {
            Some(m) => DataValue::Str(m.clone()),
            None => DataValue::Null,
        };
        let resolved_field: DataValue = match self.resolve_model() {
            Some(m) => DataValue::Str(m.clone()),
            None => DataValue::Null,
        };
        let temperature_field: DataValue = match self.temperature {
            Some(t) => DataValue::Num(t),
            None => DataValue::Null,
        };
        let top_p_field: DataValue = match self.top_p {
            Some(t) => DataValue::Num(t),
            None => DataValue::Null,
        };
        let conc_field: DataValue = match self.input_concurrency {
            Some(c) => DataValue::Num(NumVal { mantissa: c as i64, scale: 0 }),
            None => DataValue::Null,
        };
        let aliases_field: DataValue = match &self.model_aliases {
            Some(a) => a.to_value(),
            None => DataValue::Null,
        };
        let mut fields: Vec<(String, DataValue)> = Vec::new();
        fields.push(("model".to_owned(), model_field));
        fields.push(("resolved_model".to_owned(), resolved_field));
        fields.push(("temperature".to_owned(), temperature_field));
        fields.push(("top_p".to_owned(), top_p_field));
        fields.push(("input_concurrency".to_owned(), conc_field));
        fields.push(("model_aliases".to_owned(), aliases_field));
        let r = DataValue::Obj(fields);
        proof {
            lemma_kv_dv(fields@);
            let fv = kv_dv(fields@);
            reveal_strlit("model");
            reveal_strlit("resolved_model");
            reveal_strlit("temperature");
            reveal_strlit("top_p");
            reveal_strlit("input_concurrency");
            reveal_strlit("model_aliases");
            assert(fv[0].0 == "model"@);
            assert(fv[1].0 == "resolved_model"@);
            assert(fv[2].0 == "temperature"@);
            assert(fv[3].0 == "top_p"@);
            assert(fv[4].0 == "input_concurrency"@);
            assert(fv[5].0 == "model_aliases"@);
            assert(obj_get(fv, "model"@) == Some(fv[0].1));
            lemma_obj_get_skip(fv, "resolved_model"@, 1);
            assert(fv.skip(1)[0] == fv[1]);
            assert(obj_get(fv, "resolved_model"@) == Some(fv[1].1));
            lemma_obj_get_skip(fv, "temperature"@, 2);
            assert(fv.skip(2)[0] == fv[2]);
            assert(obj_get(fv, "temperature"@) == Some(fv[2].1));
            assert("top_p"@ != "model"@) by {
                assert(("top_p"@)[0] == 't');
                assert(("model"@)[0] == 'm');
            }
            lemma_obj_get_skip(fv, "top_p"@, 3);
            assert(fv.skip(3)[0] == fv[3]);
            assert(obj_get(fv, "top_p"@) == Some(fv[3].1));
            lemma_obj_get_skip(fv, "input_concurrency"@, 4);
            assert(fv.skip(4)[0] == fv[4]);
            assert(obj_get(fv, "input_concurrency"@) == Some(fv[4].1));
            lemma_obj_get_skip(fv, "model_aliases"@, 5);
            assert(fv.skip(5)[0] == fv[5]);
            assert(obj_get(fv, "model_aliases"@) == Some(fv[5].1));
        }
        r
    }
}

// endregion: options as a scope value

} // verus!
