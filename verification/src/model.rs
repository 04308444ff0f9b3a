//! Accounts and program settings, as far as the interface reads them.

use vstd::prelude::*;

use crate::text;

verus! {

/// How the last usage reading was had.
#[derive(Debug, Clone, Copy, PartialEq, Eq, Structural)]
pub enum FetchStatus {
    Fresh,
    Cached,
    RateLimited,
    Failed,
}

/// What to do with a login that does not match the active account.
#[derive(Debug, Clone, Copy, PartialEq, Eq, Structural)]
pub enum DivergenceChoice {
    Overwrite,
    NewProfile,
    Discard,
}

/// Color depth.
#[derive(Debug, Clone, Copy, PartialEq, Eq, Structural)]
pub enum Tier {
    Full,
    Compatible,
}

/// Model choices of an account.
pub struct ModelSettings {
    pub default: Option<String>,
    pub opus: Option<String>,
    pub sonnet: Option<String>,
    pub haiku: Option<String>,
    pub subagent: Option<String>,
}

/// What a [`ModelSettings`] holds.
pub struct ModelSettingsView {
    pub default: Option<Seq<char>>,
    pub opus: Option<Seq<char>>,
    pub sonnet: Option<Seq<char>>,
    pub haiku: Option<Seq<char>>,
    pub subagent: Option<Seq<char>>,
}

impl View for ModelSettings {
    type V = ModelSettingsView;

    open spec fn view(&self) -> ModelSettingsView {
        ModelSettingsView {
            default: text::opt_view(self.default),
            opus: text::opt_view(self.opus),
            sonnet: text::opt_view(self.sonnet),
            haiku: text::opt_view(self.haiku),
            subagent: text::opt_view(self.subagent),
        }
    }
}

impl ModelSettings {
    /// A copy.
    pub fn duplicate(&self) -> (r: ModelSettings)
        ensures
            r@ == self@,
    {
        ModelSettings {
            default: text::clone_opt(&self.default),
            opus: text::clone_opt(&self.opus),
            sonnet: text::clone_opt(&self.sonnet),
            haiku: text::clone_opt(&self.haiku),
            subagent: text::clone_opt(&self.subagent),
        }
    }
}

/// One custom environment entry.
pub struct EnvVar {
    pub key: String,
    pub value: String,
}

/// What a [`EnvVar`] holds.
pub struct EnvVarView {
    pub key: Seq<char>,
    pub value: Seq<char>,
}

impl View for EnvVar {
    type V = EnvVarView;

    open spec fn view(&self) -> EnvVarView {
        EnvVarView {
            key: self.key@,
            value: self.value@,
        }
    }
}

impl EnvVar {
    /// A copy.
    pub fn duplicate(&self) -> (r: EnvVar)
        ensures
            r@ == self@,
    {
        EnvVar {
            key: self.key.clone(),
            value: self.value.clone(),
        }
    }
}

/// The views of a list.
pub open spec fn env_var_views(v: Seq<EnvVar>) -> Seq<EnvVarView> {
    v.map_values(|x: EnvVar| x@)
}

/// A copy of a list.
pub fn clone_env_vars(v: &Vec<EnvVar>) -> (r: Vec<EnvVar>)
    ensures
        env_var_views(r@) == env_var_views(v@),
{
    let mut out: Vec<EnvVar> = Vec::new();
    let mut i: usize = 0;
    while i < v.len()
        invariant
            i <= v@.len(),
            out@.len() == i,
            forall|j: int| 0 <= j < i ==> (#[trigger] out@[j])@ == v@[j]@,
        decreases v@.len() - i,
    {
        out.push(v[i].duplicate());
        i = i + 1;
    }
    assert(env_var_views(out@) =~= env_var_views(v@));
    out
}

/// What is known of an account.
#[derive(Debug, Clone, Copy, PartialEq, Eq, Structural)]
pub struct ProfileFacts {
    /// Requests go to the default endpoint.
    pub is_oauth: bool,
    /// The stored login is a token pair.
    pub login_is_oauth: bool,
    pub is_third_party: bool,
    pub has_credentials: bool,
    /// A rotation threshold was set.
    pub has_threshold: bool,
    /// A hard usage cap is reached.
    pub exhausted: bool,
}

/// Settings that are on or off.
#[derive(Debug, Clone, Copy, PartialEq, Eq, Structural)]
pub struct Toggles {
    /// Switch everything off once the chain is spent.
    pub wrap_off: bool,
    pub burn_aware_switching: bool,
    pub preemptive_rotation: bool,
    pub show_estimates: bool,
    pub count_cache: bool,
    pub show_pace: bool,
}

/// An account.
pub struct Profile {
    pub name: String,
    pub base_url: Option<String>,
    pub api_key: Option<String>,
    pub models: ModelSettings,
    /// Custom environment, sorted by key.
    pub env: Vec<EnvVar>,
    pub auto_start: bool,
    pub last_resort: bool,
    pub facts: ProfileFacts,
    /// The effective rotation threshold, in words.
    pub threshold_text: String,
    pub fetch_status: Option<FetchStatus>,
}

/// What a [`Profile`] holds.
pub struct ProfileView {
    pub name: Seq<char>,
    pub base_url: Option<Seq<char>>,
    pub api_key: Option<Seq<char>>,
    pub models: ModelSettingsView,
    pub env: Seq<EnvVarView>,
    pub auto_start: bool,
    pub last_resort: bool,
    pub facts: ProfileFacts,
    pub threshold_text: Seq<char>,
    pub fetch_status: Option<FetchStatus>,
}

impl View for Profile {
    type V = ProfileView;

    open spec fn view(&self) -> ProfileView {
        ProfileView {
            name: self.name@,
            base_url: text::opt_view(self.base_url),
            api_key: text::opt_view(self.api_key),
            models: self.models@,
            env: env_var_views(self.env@),
            auto_start: self.auto_start,
            last_resort: self.last_resort,
            facts: self.facts,
            threshold_text: self.threshold_text@,
            fetch_status: self.fetch_status,
        }
    }
}

impl Profile {
    /// A copy.
    pub fn duplicate(&self) -> (r: Profile)
        ensures
            r@ == self@,
    {
        Profile {
            name: self.name.clone(),
            base_url: text::clone_opt(&self.base_url),
            api_key: text::clone_opt(&self.api_key),
            models: self.models.duplicate(),
            env: clone_env_vars(&self.env),
            auto_start: self.auto_start,
            last_resort: self.last_resort,
            facts: self.facts,
            threshold_text: self.threshold_text.clone(),
            fetch_status: self.fetch_status,
        }
    }
}

/// The views of a list.
pub open spec fn profile_views(v: Seq<Profile>) -> Seq<ProfileView> {
    v.map_values(|x: Profile| x@)
}

/// A copy of a list.
pub fn clone_profiles(v: &Vec<Profile>) -> (r: Vec<Profile>)
    ensures
        profile_views(r@) == profile_views(v@),
{
    let mut out: Vec<Profile> = Vec::new();
    let mut i: usize = 0;
    while i < v.len()
        invariant
            i <= v@.len(),
            out@.len() == i,
            forall|j: int| 0 <= j < i ==> (#[trigger] out@[j])@ == v@[j]@,
        decreases v@.len() - i,
    {
        out.push(v[i].duplicate());
        i = i + 1;
    }
    assert(profile_views(out@) =~= profile_views(v@));
    out
}

/// Program-wide settings.
pub struct AppState {
    pub active_profile: Option<String>,
    pub fallback_chain: Vec<String>,
    pub theme: Option<Tier>,
    pub default_divergence: Option<DivergenceChoice>,
    pub toggles: Toggles,
    pub refresh_interval_ms: u64,
    /// The weekly line, in words.
    pub weekly_text: String,
}

/// What a [`AppState`] holds.
pub struct AppStateView {
    pub active_profile: Option<Seq<char>>,
    pub fallback_chain: Seq<Seq<char>>,
    pub theme: Option<Tier>,
    pub default_divergence: Option<DivergenceChoice>,
    pub toggles: Toggles,
    pub refresh_interval_ms: u64,
    pub weekly_text: Seq<char>,
}

impl View for AppState {
    type V = AppStateView;

    open spec fn view(&self) -> AppStateView {
        AppStateView {
            active_profile: text::opt_view(self.active_profile),
            fallback_chain: text::views(self.fallback_chain@),
            theme: self.theme,
            default_divergence: self.default_divergence,
            toggles: self.toggles,
            refresh_interval_ms: self.refresh_interval_ms,
            weekly_text: self.weekly_text@,
        }
    }
}

impl AppState {
    /// A copy.
    pub fn duplicate(&self) -> (r: AppState)
        ensures
            r@ == self@,
    {
        AppState {
            active_profile: text::clone_opt(&self.active_profile),
            fallback_chain: text::clone_texts(&self.fallback_chain),
            theme: self.theme,
            default_divergence: self.default_divergence,
            toggles: self.toggles,
            refresh_interval_ms: self.refresh_interval_ms,
            weekly_text: self.weekly_text.clone(),
        }
    }
}

/// Accounts and settings together.
pub struct AppConfig {
    pub profiles: Vec<Profile>,
    pub state: AppState,
}

/// What a [`AppConfig`] holds.
pub struct AppConfigView {
    pub profiles: Seq<ProfileView>,
    pub state: AppStateView,
}

impl View for AppConfig {
    type V = AppConfigView;

    open spec fn view(&self) -> AppConfigView {
        AppConfigView {
            profiles: profile_views(self.profiles@),
            state: self.state@,
        }
    }
}

impl AppConfig {
    /// A copy.
    pub fn duplicate(&self) -> (r: AppConfig)
        ensures
            r@ == self@,
    {
        AppConfig {
            profiles: clone_profiles(&self.profiles),
            state: self.state.duplicate(),
        }
    }
}

// ── lookup ──────────────────────────────────────────────────────────────────

/// The names of a list of accounts.
pub open spec fn profile_names(ps: Seq<ProfileView>) -> Seq<Seq<char>> {
    ps.map_values(|p: ProfileView| p.name)
}

impl AppConfigView {
    pub open spec fn names(self) -> Seq<Seq<char>> {
        profile_names(self.profiles)
    }

    /// Place of the account called `name`.
    pub open spec fn index_of(self, name: Seq<char>) -> Option<int> {
        text::position(self.names(), name)
    }

    /// The account called `name`.
    pub open spec fn find(self, name: Seq<char>) -> Option<ProfileView> {
        match self.index_of(name) {
            Some(i) => Some(self.profiles[i]),
            None => None,
        }
    }

    pub open spec fn is_active(self, name: Seq<char>) -> bool {
        self.state.active_profile == Some(name)
    }

    pub open spec fn in_chain(self, name: Seq<char>) -> bool {
        self.state.fallback_chain.contains(name)
    }
}

impl AppConfig {
    /// Place of the account called `name`.
    pub fn index_of(&self, name: &str) -> (r: Option<usize>)
        ensures
            match r {
                Some(i) => i < self.profiles@.len() && self@.index_of(name@) == Some(i as int),
                None => self@.index_of(name@) is None,
            },
    {
        let mut i: usize = 0;
        while i < self.profiles.len()
            invariant
                i <= self.profiles@.len(),
                forall|j: int| 0 <= j < i ==> self@.names()[j] != name@,
            decreases self.profiles@.len() - i,
        {
            assert(self@.names()[i as int] == self.profiles@[i as int]@.name);
            if text::same_text(self.profiles[i].name.as_str(), name) {
                proof {
                    text::lemma_position_is(self@.names(), name@, i as int);
                }
                return Some(i);
            }
            i = i + 1;
        }
        proof {
            text::lemma_position(self@.names(), name@);
        }
        None
    }

    /// The account called `name`.
    pub fn find(&self, name: &str) -> (r: Option<&Profile>)
        ensures
            (match r {
                Some(p) => Some(p@),
                None => None,
            }) == self@.find(name@),
    {
        match self.index_of(name) {
            Some(i) => Some(&self.profiles[i]),
            None => None,
        }
    }

    /// Whether `name` is the active account.
    pub fn is_active(&self, name: &str) -> (r: bool)
        ensures
            r == self@.is_active(name@),
    {
        match &self.state.active_profile {
            Some(a) => text::same_text(a.as_str(), name),
            None => false,
        }
    }

    /// Whether `name` is a member of the fallback chain.
    pub fn in_chain(&self, name: &str) -> (r: bool)
        ensures
            r == self@.in_chain(name@),
    {
        proof {
            text::lemma_position(text::views(self.state.fallback_chain@), name@);
        }
        text::position_of(&self.state.fallback_chain, name).is_some()
    }
}

// ── environment ─────────────────────────────────────────────────────────────

/// Order of texts, by their first differing character.
pub open spec fn text_before(a: Seq<char>, b: Seq<char>) -> bool
    decreases a.len(),
{
    if b.len() == 0 {
        false
    } else if a.len() == 0 {
        true
    } else if a[0] == b[0] {
        text_before(a.drop_first(), b.drop_first())
    } else {
        a[0] < b[0]
    }
}

proof fn lemma_text_before_at(a: Seq<char>, b: Seq<char>, k: int)
    requires
        0 <= k <= a.len(),
        k <= b.len(),
        forall|i: int| 0 <= i < k ==> a[i] == b[i],
    ensures
        text_before(a, b) == text_before(a.skip(k), b.skip(k)),
    decreases k,
{
    if k == 0 {
        assert(a.skip(0) =~= a);
        assert(b.skip(0) =~= b);
    } else {
        lemma_text_before_at(a.drop_first(), b.drop_first(), k - 1);
        assert(a.drop_first().skip(k - 1) =~= a.skip(k));
        assert(b.drop_first().skip(k - 1) =~= b.skip(k));
    }
}

/// Of two different texts exactly one comes first.
pub proof fn text_order_is_total(a: Seq<char>, b: Seq<char>)
    ensures
        a != b ==> (text_before(a, b) <==> !text_before(b, a)),
        !text_before(a, a),
    decreases a.len(),
{
    if a.len() > 0 {
        text_order_is_total(a.drop_first(), a.drop_first());
    }
    if a.len() > 0 && b.len() > 0 && a[0] == b[0] {
        text_order_is_total(a.drop_first(), b.drop_first());
        if a.drop_first() == b.drop_first() {
            assert(a =~= seq![a[0]] + a.drop_first());
            assert(b =~= seq![b[0]] + b.drop_first());
        }
    } else if a.len() == 0 && b.len() == 0 {
        assert(a =~= b);
    }
}

/// The order of texts is transitive.
pub proof fn text_order_is_transitive(a: Seq<char>, b: Seq<char>, c: Seq<char>)
    requires
        text_before(a, b),
        text_before(b, c),
    ensures
        text_before(a, c),
    decreases a.len(),
{
    if a.len() > 0 && a[0] == b[0] && b[0] == c[0] {
        text_order_is_transitive(a.drop_first(), b.drop_first(), c.drop_first());
    }
}

/// Whether `a` comes before `b`.
pub fn comes_before(a: &str, b: &str) -> (r: bool)
    ensures
        r == text_before(a@, b@),
{
    let m: usize = a.unicode_len();
    let n: usize = b.unicode_len();
    let mut k: usize = 0;
    while k < m && k < n && a.get_char(k) == b.get_char(k)
        invariant
            k <= m,
            k <= n,
            m == a@.len(),
            n == b@.len(),
            forall|i: int| 0 <= i < k ==> a@[i] == b@[i],
        decreases m - k,
    {
        k = k + 1;
    }
    proof {
        lemma_text_before_at(a@, b@, k as int);
    }
    if k >= n {
        false
    } else if k >= m {
        true
    } else {
        a.get_char(k) < b.get_char(k)
    }
}

/// Entries in the order of their keys, no key twice.
pub open spec fn env_sorted(env: Seq<EnvVarView>) -> bool {
    forall|i: int, j: int|
        0 <= i < j < env.len() ==> text_before(#[trigger] env[i].key, #[trigger] env[j].key)
}

/// The keys of an environment.
pub open spec fn env_keys(env: Seq<EnvVarView>) -> Seq<Seq<char>> {
    env.map_values(|e: EnvVarView| e.key)
}

/// `env` with `key` set to `value`, an unknown key entering in order.
pub open spec fn env_put(
    env: Seq<EnvVarView>,
    key: Seq<char>,
    value: Seq<char>,
) -> Seq<EnvVarView>
    decreases env.len(),
{
    let e = EnvVarView { key, value };
    if env.len() == 0 {
        seq![e]
    } else if env[0].key == key {
        seq![e] + env.drop_first()
    } else if text_before(key, env[0].key) {
        seq![e] + env
    } else {
        seq![env[0]] + env_put(env.drop_first(), key, value)
    }
}

/// What `env_put` does, at the place `k` where the key is or belongs.
proof fn lemma_env_put_at(env: Seq<EnvVarView>, key: Seq<char>, value: Seq<char>, k: int)
    requires
        0 <= k <= env.len(),
        forall|i: int| 0 <= i < k ==> env[i].key != key && !text_before(key, env[i].key),
        k < env.len() ==> env[k].key == key || text_before(key, env[k].key),
    ensures
        env_put(env, key, value) == (if k < env.len() && env[k].key == key {
            env.update(k, EnvVarView { key, value })
        } else {
            env.insert(k, EnvVarView { key, value })
        }),
    decreases k,
{
    let e = EnvVarView { key, value };
    if k == 0 {
        if env.len() == 0 {
            assert(seq![e] =~= env.insert(0, e));
        } else if env[0].key == key {
            assert(seq![e] + env.drop_first() =~= env.update(0, e));
        } else {
            assert(seq![e] + env =~= env.insert(0, e));
        }
    } else {
        let rest = env.drop_first();
        lemma_env_put_at(rest, key, value, k - 1);
        if k < env.len() && env[k].key == key {
            assert(seq![env[0]] + rest.update(k - 1, e) =~= env.update(k, e));
        } else {
            assert(seq![env[0]] + rest.insert(k - 1, e) =~= env.insert(k, e));
        }
    }
}

/// Setting a key keeps the order, gives the key its value, keeps every other entry, and
/// adds at most one.
pub proof fn env_put_is_map_insert(env: Seq<EnvVarView>, key: Seq<char>, value: Seq<char>)
    requires
        env_sorted(env),
    ensures
        env_sorted(env_put(env, key, value)),
        env_put(env, key, value).contains(EnvVarView { key, value }),
        forall|e: EnvVarView|
            e.key != key ==> (env_put(env, key, value).contains(e) <==> env.contains(e)),
        env.len() <= env_put(env, key, value).len() <= env.len() + 1,
{
    let e = EnvVarView { key, value };
    let k = env_slot(env, key, 0);
    lemma_env_slot(env, key, 0);
    lemma_env_put_at(env, key, value, k);
    let out = env_put(env, key, value);
    if k < env.len() && env[k].key == key {
        assert(out[k] == e);
        assert forall|i: int, j: int| 0 <= i < j < out.len() implies text_before(
            #[trigger] out[i].key,
            #[trigger] out[j].key,
        ) by {
            assert(out[i].key == env[i].key);
            assert(out[j].key == env[j].key);
        }
        assert forall|x: EnvVarView| x.key != key implies (out.contains(x) <==> env.contains(
            x,
        )) by {
            if out.contains(x) {
                let i = choose|i: int| 0 <= i < out.len() && out[i] == x;
                assert(env[i] == x);
            }
            if env.contains(x) {
                let i = choose|i: int| 0 <= i < env.len() && env[i] == x;
                assert(out[i] == x);
            }
        }
    } else {
        assert(out[k] == e);
        assert forall|i: int| 0 <= i < k implies text_before(#[trigger] env[i].key, key) by {
            text_order_is_total(env[i].key, key);
        }
        assert forall|j: int| k <= j < env.len() implies text_before(
            key,
            #[trigger] env[j].key,
        ) by {
            if j > k {
                text_order_is_transitive(key, env[k].key, env[j].key);
            }
        }
        assert forall|i: int, j: int| 0 <= i < j < out.len() implies text_before(
            #[trigger] out[i].key,
            #[trigger] out[j].key,
        ) by {
            let a = if i < k {
                i
            } else {
                i - 1
            };
            let b = if j < k {
                j
            } else {
                j - 1
            };
            if i != k {
                assert(out[i] == env[a]);
            }
            if j != k {
                assert(out[j] == env[b]);
            }
        }
        assert forall|x: EnvVarView| x.key != key implies (out.contains(x) <==> env.contains(
            x,
        )) by {
            if out.contains(x) {
                let i = choose|i: int| 0 <= i < out.len() && out[i] == x;
                assert(i != k);
                assert(env[if i < k {
                    i
                } else {
                    i - 1
                }] == x);
            }
            if env.contains(x) {
                let i = choose|i: int| 0 <= i < env.len() && env[i] == x;
                assert(out[if i < k {
                    i
                } else {
                    i + 1
                }] == x);
            }
        }
    }
}

/// The place, at or after `k`, where `key` is or belongs.
spec fn env_slot(env: Seq<EnvVarView>, key: Seq<char>, k: int) -> int
    decreases env.len() - k,
{
    if k >= env.len() || env[k].key == key || text_before(key, env[k].key) {
        k
    } else {
        env_slot(env, key, k + 1)
    }
}

proof fn lemma_env_slot(env: Seq<EnvVarView>, key: Seq<char>, k: int)
    requires
        0 <= k <= env.len(),
        forall|i: int| 0 <= i < k ==> env[i].key != key && !text_before(key, env[i].key),
    ensures
        ({
            let s = env_slot(env, key, k);
            &&& k <= s <= env.len()
            &&& forall|i: int|
                0 <= i < s ==> env[i].key != key && !text_before(key, env[i].key)
            &&& s < env.len() ==> env[s].key == key || text_before(key, env[s].key)
        }),
    decreases env.len() - k,
{
    if !(k >= env.len() || env[k].key == key || text_before(key, env[k].key)) {
        lemma_env_slot(env, key, k + 1);
    }
}

/// A copy of `env` with `key` set to `value`.
pub fn env_with(env: &Vec<EnvVar>, key: &str, value: &str) -> (r: Vec<EnvVar>)
    ensures
        env_var_views(r@) == env_put(env_var_views(env@), key@, value@),
{
    let ghost ev = env_var_views(env@);
    let mut out = clone_env_vars(env);
    assert(env_var_views(out@).len() == out@.len());
    let mut k: usize = 0;
    while k < out.len() && !text::same_text(out[k].key.as_str(), key) && !comes_before(
        key,
        out[k].key.as_str(),
    )
        invariant
            k <= out@.len(),
            env_var_views(out@) == ev,
            out@.len() == ev.len(),
            forall|i: int| 0 <= i < k ==> ev[i].key != key@ && !text_before(key@, ev[i].key),
        decreases out@.len() - k,
    {
        assert(ev[k as int] == out@[k as int]@);
        k = k + 1;
    }
    let ghost before = out@;
    let entry = EnvVar { key: key.to_string(), value: value.to_string() };
    proof {
        if k < out@.len() {
            assert(ev[k as int] == out@[k as int]@);
        }
        lemma_env_put_at(ev, key@, value@, k as int);
    }
    if k < out.len() && text::same_text(out[k].key.as_str(), key) {
        out.set(k, entry);
        assert(env_var_views(out@) =~= ev.update(k as int, entry@));
    } else {
        out.insert(k, entry);
        assert(env_var_views(out@) =~= ev.insert(k as int, entry@));
    }
    out
}

/// A copy of `env` without the entry at `i`.
pub fn env_without(env: &Vec<EnvVar>, i: usize) -> (r: Vec<EnvVar>)
    requires
        i < env@.len(),
    ensures
        env_var_views(r@) == env_var_views(env@).remove(i as int),
{
    let mut out = clone_env_vars(env);
    assert(env_var_views(out@).len() == out@.len());
    assert(env_var_views(env@).len() == env@.len());
    let ghost before = out@;
    out.remove(i);
    assert(env_var_views(out@) =~= env_var_views(before).remove(i as int));
    out
}

/// Place of the entry with `key`.
pub fn env_position(env: &Vec<EnvVar>, key: &str) -> (r: Option<usize>)
    ensures
        match r {
            Some(i) => i < env@.len() && text::position(env_keys(env_var_views(env@)), key@)
                == Some(i as int),
            None => text::position(env_keys(env_var_views(env@)), key@) is None,
        },
{
    let ghost keys = env_keys(env_var_views(env@));
    let mut i: usize = 0;
    while i < env.len()
        invariant
            i <= env@.len(),
            keys == env_keys(env_var_views(env@)),
            forall|j: int| 0 <= j < i ==> keys[j] != key@,
        decreases env@.len() - i,
    {
        assert(keys[i as int] == env@[i as int].key@);
        if text::same_text(env[i].key.as_str(), key) {
            proof {
                text::lemma_position_is(keys, key@, i as int);
            }
            return Some(i);
        }
        i = i + 1;
    }
    proof {
        text::lemma_position(keys, key@);
    }
    None
}

// ── cycles ──────────────────────────────────────────────────────────────────

/// The next default for diverged logins: ask, overwrite, new profile, discard, ask.
pub open spec fn divergence_successor(c: Option<DivergenceChoice>) -> Option<DivergenceChoice> {
    match c {
        None => Some(DivergenceChoice::Overwrite),
        Some(DivergenceChoice::Overwrite) => Some(DivergenceChoice::NewProfile),
        Some(DivergenceChoice::NewProfile) => Some(DivergenceChoice::Discard),
        Some(DivergenceChoice::Discard) => None,
    }
}

/// The next default for diverged logins.
pub fn next_divergence_default(current: Option<DivergenceChoice>) -> (r: Option<DivergenceChoice>)
    ensures
        r == divergence_successor(current),
{
    match current {
        None => Some(DivergenceChoice::Overwrite),
        Some(DivergenceChoice::Overwrite) => Some(DivergenceChoice::NewProfile),
        Some(DivergenceChoice::NewProfile) => Some(DivergenceChoice::Discard),
        Some(DivergenceChoice::Discard) => None,
    }
}

/// The defaults form one cycle of four.
pub proof fn divergence_defaults_cycle(c: Option<DivergenceChoice>)
    ensures
        divergence_successor(c) != c,
        divergence_successor(divergence_successor(c)) != c,
        divergence_successor(divergence_successor(divergence_successor(c))) != c,
        divergence_successor(divergence_successor(divergence_successor(divergence_successor(c))))
            == c,
{
}

/// The model alias after `current`: none, opus, sonnet, haiku, opusplan, none. Any other
/// value falls back to none.
pub open spec fn preset_successor(current: Option<Seq<char>>) -> Option<Seq<char>> {
    match current {
        None => Some("opus"@),
        Some(c) => if c == "opus"@ {
            Some("sonnet"@)
        } else if c == "sonnet"@ {
            Some("haiku"@)
        } else if c == "haiku"@ {
            Some("opusplan"@)
        } else {
            None
        },
    }
}

/// The next model alias in the cycle.
pub fn next_model_preset(current: Option<&str>) -> (r: Option<String>)
    ensures
        text::opt_view(r) == preset_successor(
            match current {
                Some(c) => Some(c@),
                None => None,
            },
        ),
{
    match current {
        None => Some("opus".to_string()),
        Some(c) => if text::same_text(c, "opus") {
            Some("sonnet".to_string())
        } else if text::same_text(c, "sonnet") {
            Some("haiku".to_string())
        } else if text::same_text(c, "haiku") {
            Some("opusplan".to_string())
        } else {
            None
        },
    }
}

/// Starting from no alias, five steps come back to none, and the four aliases in between
/// are passed in order.
pub proof fn model_presets_cycle()
    ensures
        ({
            let a = preset_successor(None);
            let b = preset_successor(a);
            let c = preset_successor(b);
            let d = preset_successor(c);
            &&& a == Some("opus"@)
            &&& b == Some("sonnet"@)
            &&& c == Some("haiku"@)
            &&& d == Some("opusplan"@)
            &&& preset_successor(d) is None
        }),
{
    reveal_strlit("opus");
    reveal_strlit("sonnet");
    reveal_strlit("haiku");
    reveal_strlit("opusplan");
    assert("sonnet"@.len() == 6 && "haiku"@.len() == 5 && "opusplan"@.len() == 8);
}

} // verus!
