//! The Setup tab on screen: the account's settings, their hints and their editors.

use vstd::prelude::*;

use crate::forms;
use crate::forms::{ConfigDraft, ConfigDraftView, ConfigRow};
use crate::host::{Host, HostView};
use crate::input::{InputState, InputView};
use crate::layout;
use crate::layout::{Glyphs, GlyphsView};
use crate::model;
use crate::model::{EnvVar, EnvVarView};
use crate::paint;
use crate::paint::{Fill, Line, LineView, Role, Span, SpanView, Style};
use crate::state::{App, AppView};
use crate::text;

verus! {

/// Width of the key column.
pub const KEY_W: usize = 11;

/// Blanks between the key column and the values.
pub const KEY_GUTTER: usize = 2;

/// What a long-lived session token is good for.
#[derive(Clone, Copy, Debug, PartialEq, Eq, Structural)]
pub enum SessionTokenStatus {
    /// Long-lived, up to the given moment in milliseconds where one is recorded.
    LongLived(Option<i64>),
    /// It holds a rotating pair, so it is not in use.
    NotLongLived,
}

/// What a token file holds.
#[derive(Clone, Copy, Debug, PartialEq, Eq, Structural)]
pub enum SidecarKind {
    /// A token minted once.
    Minted,
    /// A token that is stamped anew.
    Rolling,
    /// A rotating pair.
    Misfilled,
}

/// What is known of the account from outside its own record.
pub struct OutsideFacts {
    pub flags: OutsideFlags,
    /// Display name of a recognised provider.
    pub provider: Option<String>,
    /// The address the stored login belongs to.
    pub account_email: Option<String>,
    /// The token file, with its recorded end.
    pub sidecar: Option<(SidecarKind, Option<i64>)>,
    /// The override of the fable model.
    pub fable: Option<String>,
}

/// Facts that hold or do not.
#[derive(Clone, Copy, Debug, PartialEq, Eq, Structural)]
pub struct OutsideFlags {
    pub disabled: bool,
    pub has_live_session: bool,
    /// Its login is the console's.
    pub console_login: bool,
    /// A console session is stored.
    pub console_stored: bool,
    pub rolling_armed: bool,
    pub has_static_backup: bool,
    /// The new-account form holds the live login.
    pub live_stash: bool,
}

/// What [`OutsideFacts`] holds.
pub struct OutsideFactsView {
    pub flags: OutsideFlags,
    pub provider: Option<Seq<char>>,
    pub account_email: Option<Seq<char>>,
    pub sidecar: Option<(SidecarKind, Option<i64>)>,
    pub fable: Option<Seq<char>>,
}

impl View for OutsideFacts {
    type V = OutsideFactsView;

    open spec fn view(&self) -> OutsideFactsView {
        OutsideFactsView {
            flags: self.flags,
            provider: text::opt_view(self.provider),
            account_email: text::opt_view(self.account_email),
            sidecar: self.sidecar,
            fable: text::opt_view(self.fable),
        }
    }
}

/// Flags of the shown account.
#[derive(Clone, Copy, Debug, PartialEq, Eq, Structural)]
pub struct SnapFlags {
    pub auto_start: bool,
    pub disabled: bool,
    pub is_active: bool,
    pub has_live_session: bool,
    pub logged_in: bool,
    pub login_is_oauth: bool,
    /// A login is stored besides the long-lived token.
    pub has_other_login: bool,
    /// Clearing the token falls back to a login, not to an api key.
    pub clear_falls_back_to_oauth: bool,
    /// The new-account form holds a fresh login.
    pub captured: bool,
    /// The new-account form holds the live login.
    pub captured_live: bool,
    pub console_login: bool,
    /// The token file holds a token that is stamped anew.
    pub rolling_token: bool,
    /// The account is set up to have its token stamped anew.
    pub rolling_armed: bool,
    pub has_static_backup: bool,
}

/// The shown account, read once.
pub struct Snap {
    pub title: String,
    pub name: String,
    pub base_url: String,
    pub api_key: String,
    pub model: String,
    pub opus: String,
    pub sonnet: String,
    pub haiku: String,
    pub fable: String,
    pub subagent: String,
    pub env: Vec<EnvVar>,
    pub flags: SnapFlags,
    pub provider: Option<String>,
    pub account_email: Option<String>,
    pub session_token: Option<SessionTokenStatus>,
}

/// What a [`Snap`] holds.
pub struct SnapView {
    pub title: Seq<char>,
    pub name: Seq<char>,
    pub base_url: Seq<char>,
    pub api_key: Seq<char>,
    pub model: Seq<char>,
    pub opus: Seq<char>,
    pub sonnet: Seq<char>,
    pub haiku: Seq<char>,
    pub fable: Seq<char>,
    pub subagent: Seq<char>,
    pub env: Seq<EnvVarView>,
    pub flags: SnapFlags,
    pub provider: Option<Seq<char>>,
    pub account_email: Option<Seq<char>>,
    pub session_token: Option<SessionTokenStatus>,
}

impl View for Snap {
    type V = SnapView;

    open spec fn view(&self) -> SnapView {
        SnapView {
            title: self.title@,
            name: self.name@,
            base_url: self.base_url@,
            api_key: self.api_key@,
            model: self.model@,
            opus: self.opus@,
            sonnet: self.sonnet@,
            haiku: self.haiku@,
            fable: self.fable@,
            subagent: self.subagent@,
            env: model::env_var_views(self.env@),
            flags: self.flags,
            provider: text::opt_view(self.provider),
            account_email: text::opt_view(self.account_email),
            session_token: self.session_token,
        }
    }
}

/// Flags of an account that does not exist yet.
#[verifier::allow_in_spec]
pub fn blank_flags() -> (r: SnapFlags)
    returns
        (SnapFlags {
            auto_start: false,
            disabled: false,
            is_active: false,
            has_live_session: false,
            logged_in: false,
            login_is_oauth: true,
            has_other_login: false,
            clear_falls_back_to_oauth: false,
            captured: false,
            captured_live: false,
            console_login: false,
            rolling_token: false,
            rolling_armed: false,
            has_static_backup: false,
        }),
{
    SnapFlags {
        auto_start: false,
        disabled: false,
        is_active: false,
        has_live_session: false,
        logged_in: false,
        login_is_oauth: true,
        has_other_login: false,
        clear_falls_back_to_oauth: false,
        captured: false,
        captured_live: false,
        console_login: false,
        rolling_token: false,
        rolling_armed: false,
        has_static_backup: false,
    }
}

impl SnapView {
    /// Nothing known yet under a title.
    pub open spec fn empty(title: Seq<char>) -> SnapView {
        SnapView {
            title,
            name: Seq::empty(),
            base_url: Seq::empty(),
            api_key: Seq::empty(),
            model: Seq::empty(),
            opus: Seq::empty(),
            sonnet: Seq::empty(),
            haiku: Seq::empty(),
            fable: Seq::empty(),
            subagent: Seq::empty(),
            env: Seq::empty(),
            flags: blank_flags(),
            provider: None,
            account_email: None,
            session_token: None,
        }
    }

    /// Whether the long-lived token must stay: a piece is stored, the token or the mint kept
    /// beside it, and no other login stands behind it.
    pub open spec fn clear_is_gated(self) -> bool {
        !self.flags.has_other_login && (self.session_token is Some || self.flags.has_static_backup)
    }

    /// The text behind a row.
    pub open spec fn value(self, row: ConfigRow) -> Seq<char> {
        match row {
            ConfigRow::Name => self.name,
            ConfigRow::BaseUrl => self.base_url,
            ConfigRow::ApiKey => self.api_key,
            ConfigRow::Model => self.model,
            ConfigRow::OpusModel => self.opus,
            ConfigRow::SonnetModel => self.sonnet,
            ConfigRow::HaikuModel => self.haiku,
            ConfigRow::FableModel => self.fable,
            ConfigRow::SubagentModel => self.subagent,
            ConfigRow::EnvEntry(i) => if i < self.env.len() {
                self.env[i as int].value
            } else {
                ""@
            },
            _ => ""@,
        }
    }

    /// The key of a custom environment entry.
    pub open spec fn env_key(self, i: usize) -> Seq<char> {
        if i < self.env.len() {
            self.env[i as int].key
        } else {
            ""@
        }
    }
}

fn no_text() -> (r: String)
    ensures
        r@ == Seq::<char>::empty(),
{
    let s = String::new();
    assert(s@ =~= Seq::<char>::empty());
    s
}

impl Snap {
    /// Nothing known yet under a title.
    pub fn blank(title: &str) -> (r: Snap)
        ensures
            r@ == SnapView::empty(title@),
    {
        let env: Vec<EnvVar> = Vec::new();
        assert(model::env_var_views(env@) =~= Seq::<EnvVarView>::empty());
        Snap {
            title: title.to_string(),
            name: no_text(),
            base_url: no_text(),
            api_key: no_text(),
            model: no_text(),
            opus: no_text(),
            sonnet: no_text(),
            haiku: no_text(),
            fable: no_text(),
            subagent: no_text(),
            env,
            flags: blank_flags(),
            provider: None,
            account_email: None,
            session_token: None,
        }
    }

    /// Whether the long-lived token must stay.
    pub fn clear_gated(&self) -> (r: bool)
        ensures
            r == self@.clear_is_gated(),
    {
        !self.flags.has_other_login && (self.session_token.is_some()
            || self.flags.has_static_backup)
    }
}

/// Whether a text is nothing but white space.
pub open spec fn is_blank(s: Seq<char>) -> bool {
    text::trim(s).len() == 0
}

fn blank_text(s: &str) -> (r: bool)
    ensures
        r == is_blank(s@),
{
    text::trim_text(s).unicode_len() == 0
}

/// A text, or nothing where it is not to be read.
pub open spec fn read_text(s: Option<Seq<char>>, with_text: bool) -> Seq<char> {
    match s {
        Some(t) => if with_text {
            t
        } else {
            Seq::empty()
        },
        None => Seq::empty(),
    }
}

fn read(s: &Option<String>, with_text: bool) -> (r: String)
    ensures
        r@ == read_text(text::opt_view(*s), with_text),
{
    match s {
        Some(t) => if with_text {
            t.clone()
        } else {
            no_text()
        },
        None => no_text(),
    }
}

/// Whether the row that logs in shows its done state: by the console session, by the stored
/// pair, or by the api key.
pub open spec fn is_logged_in(p: model::ProfileView, f: OutsideFlags) -> bool {
    if f.console_login {
        f.console_stored
    } else if p.facts.login_is_oauth {
        p.facts.has_credentials
    } else {
        match p.api_key {
            Some(k) => !is_blank(k),
            None => false,
        }
    }
}

/// What the token file is good for.
pub open spec fn token_status(sidecar: Option<(SidecarKind, Option<i64>)>) -> Option<
    SessionTokenStatus,
> {
    match sidecar {
        Some((SidecarKind::Misfilled, _)) => Some(SessionTokenStatus::NotLongLived),
        Some((_, end)) => Some(SessionTokenStatus::LongLived(end)),
        None => None,
    }
}

impl AppView {
    /// The shown account; its text fields are left out where a draft owns them.
    pub open spec fn snap(self, facts: OutsideFactsView, with_text: bool) -> SnapView {
        if self.ui.profile_cursor >= self.config.profiles.len() {
            let base = SnapView::empty("+ new account"@);
            SnapView {
                flags: SnapFlags {
                    captured: (match self.config_draft {
                        Some(d) => is_blank(d.base_url.text) && d.captured_login is Some,
                        None => false,
                    }),
                    captured_live: self.config_draft is Some && facts.flags.live_stash,
                    ..base.flags
                },
                ..base
            }
        } else {
            let p = self.config.profiles[self.ui.profile_cursor as int];
            SnapView {
                title: p.name,
                name: read_text(Some(p.name), with_text),
                base_url: read_text(p.base_url, with_text),
                api_key: read_text(p.api_key, with_text),
                model: read_text(p.models.default, with_text),
                opus: read_text(p.models.opus, with_text),
                sonnet: read_text(p.models.sonnet, with_text),
                haiku: read_text(p.models.haiku, with_text),
                fable: read_text(facts.fable, with_text),
                subagent: read_text(p.models.subagent, with_text),
                env: p.env,
                flags: SnapFlags {
                    auto_start: p.auto_start,
                    disabled: facts.flags.disabled,
                    is_active: self.config.is_active(p.name),
                    has_live_session: facts.flags.has_live_session,
                    logged_in: is_logged_in(p, facts.flags),
                    login_is_oauth: p.facts.login_is_oauth,
                    has_other_login: p.facts.has_credentials || p.api_key is Some,
                    clear_falls_back_to_oauth: p.facts.has_credentials,
                    captured: false,
                    captured_live: false,
                    console_login: facts.flags.console_login,
                    rolling_token: (match facts.sidecar {
                        Some((SidecarKind::Rolling, _)) => true,
                        _ => false,
                    }),
                    rolling_armed: facts.flags.rolling_armed,
                    has_static_backup: facts.flags.has_static_backup,
                },
                provider: facts.provider,
                account_email: facts.account_email,
                session_token: token_status(facts.sidecar),
            }
        }
    }
}

/// The shown account.
pub fn build_snap(app: &App, facts: &OutsideFacts, with_text: bool) -> (r: Snap)
    ensures
        r@ == app@.snap(facts@, with_text),
{
    let at: usize = app.ui.profile_cursor;
    if at >= app.config.profiles.len() {
        let mut snap = Snap::blank("+ new account");
        let (captured, live) = match &app.config_draft {
            Some(d) => (
                blank_text(d.base_url.value()) && d.captured_login.is_some(),
                facts.flags.live_stash,
            ),
            None => (false, false),
        };
        snap.flags = SnapFlags { captured, captured_live: live, ..snap.flags };
        return snap;
    }
    let p = &app.config.profiles[at];
    assert(app@.config.profiles[at as int] == p@);
    let logged_in = if facts.flags.console_login {
        facts.flags.console_stored
    } else if p.facts.login_is_oauth {
        p.facts.has_credentials
    } else {
        match &p.api_key {
            Some(k) => !blank_text(k),
            None => false,
        }
    };
    Snap {
        title: p.name.clone(),
        name: if with_text {
            p.name.clone()
        } else {
            no_text()
        },
        base_url: read(&p.base_url, with_text),
        api_key: read(&p.api_key, with_text),
        model: read(&p.models.default, with_text),
        opus: read(&p.models.opus, with_text),
        sonnet: read(&p.models.sonnet, with_text),
        haiku: read(&p.models.haiku, with_text),
        fable: read(&facts.fable, with_text),
        subagent: read(&p.models.subagent, with_text),
        env: model::clone_env_vars(&p.env),
        flags: SnapFlags {
            auto_start: p.auto_start,
            disabled: facts.flags.disabled,
            is_active: app.config.is_active(&p.name),
            has_live_session: facts.flags.has_live_session,
            logged_in,
            login_is_oauth: p.facts.login_is_oauth,
            has_other_login: p.facts.has_credentials || p.api_key.is_some(),
            clear_falls_back_to_oauth: p.facts.has_credentials,
            captured: false,
            captured_live: false,
            console_login: facts.flags.console_login,
            rolling_token: match facts.sidecar {
                Some((SidecarKind::Rolling, _)) => true,
                _ => false,
            },
            rolling_armed: facts.flags.rolling_armed,
            has_static_backup: facts.flags.has_static_backup,
        },
        provider: text::clone_opt(&facts.provider),
        account_email: text::clone_opt(&facts.account_email),
        session_token: match facts.sidecar {
            Some((SidecarKind::Misfilled, _)) => Some(SessionTokenStatus::NotLongLived),
            Some((_, end)) => Some(SessionTokenStatus::LongLived(end)),
            None => None,
        },
    }
}

/// The text behind a row.
pub fn snap_value<'a>(snap: &'a Snap, row: ConfigRow) -> (r: &'a str)
    ensures
        r@ == snap@.value(row),
{
    match row {
        ConfigRow::Name => snap.name.as_str(),
        ConfigRow::BaseUrl => snap.base_url.as_str(),
        ConfigRow::ApiKey => snap.api_key.as_str(),
        ConfigRow::Model => snap.model.as_str(),
        ConfigRow::OpusModel => snap.opus.as_str(),
        ConfigRow::SonnetModel => snap.sonnet.as_str(),
        ConfigRow::HaikuModel => snap.haiku.as_str(),
        ConfigRow::FableModel => snap.fable.as_str(),
        ConfigRow::SubagentModel => snap.subagent.as_str(),
        ConfigRow::EnvEntry(i) => if i < snap.env.len() {
            snap.env[i].value.as_str()
        } else {
            ""
        },
        _ => "",
    }
}

/// The buffer behind a row: the draft's where it has one, else the stored text.
pub open spec fn buffer_of(draft: Option<ConfigDraftView>, snap: SnapView, row: ConfigRow) ->
    InputView {
    match draft {
        Some(d) => match d.field(row) {
            Some(f) => f,
            None => InputView::of(snap.value(row)),
        },
        None => InputView::of(snap.value(row)),
    }
}

/// The buffer behind a row.
pub fn row_input(draft: &Option<ConfigDraft>, snap: &Snap, row: ConfigRow) -> (r: InputState)
    ensures
        r@ == buffer_of(forms::opt_config_draft(*draft), snap@, row),
{
    if let Some(d) = draft {
        if let Some(f) = d.field(row) {
            return f.duplicate();
        }
    }
    InputState::new(snap_value(snap, row))
}

/// Cells of a row's label.
pub open spec fn label_cells(row: ConfigRow, snap: SnapView) -> int {
    match row {
        ConfigRow::EnvEntry(i) => text::min_int(
            text::max_int(KEY_W as int, snap.env_key(i).len() as int) + KEY_GUTTER,
            usize::MAX as int,
        ),
        _ => KEY_W + KEY_GUTTER,
    }
}

/// Cells of a row's label.
pub fn row_label_cols(row: ConfigRow, snap: &Snap) -> (r: usize)
    ensures
        r == label_cells(row, snap@),
{
    match row {
        ConfigRow::EnvEntry(i) => {
            let len: usize = if i < snap.env.len() {
                snap.env[i].key.as_str().unicode_len()
            } else {
                proof {
                    reveal_strlit("");
                }
                0
            };
            text::max_usize(KEY_W, len).saturating_add(KEY_GUTTER)
        },
        _ => KEY_W + KEY_GUTTER,
    }
}

/// What the row that clears the long-lived token would do.
pub open spec fn clear_hint(host: HostView, snap: SnapView) -> Seq<char> {
    let f = snap.flags;
    if snap.clear_is_gated() {
        "cannot clear with no other login stored"@
    } else if !f.has_other_login && f.is_active {
        "stops the daemon re-stamping this account · signs "@ + host.product
            + " out · nothing is stored behind it"@
    } else if !f.has_other_login {
        "stops the daemon re-stamping this account · nothing else is stored"@
    } else {
        let base = if f.is_active && f.clear_falls_back_to_oauth {
            "relinks this account's own login now · running sessions follow"@
        } else if f.is_active {
            "signs "@ + host.product + " out now · this account runs on its API key"@
        } else if f.clear_falls_back_to_oauth {
            "the next switch installs this account's own login again"@
        } else {
            "the next switch runs this account on its API key"@
        };
        base + (if f.rolling_armed || f.rolling_token {
            " · re-stamping stops"@
        } else {
            ""@
        }) + (if f.has_static_backup {
            " · the preserved mint goes too"@
        } else {
            ""@
        })
    }
}

/// Help for the rows whose labels do not explain themselves, worded for their current value.
pub open spec fn config_hint(host: HostView, row: ConfigRow, snap: SnapView) -> Option<Seq<char>> {
    let f = snap.flags;
    match row {
        ConfigRow::BaseUrl => Some(
            if is_blank(snap.base_url) {
                "leave empty for a "@ + host.brand + " account, or set an API endpoint"@
            } else {
                "the API endpoint this account calls instead of "@ + host.site
            },
        ),
        ConfigRow::ApiKey => Some(
            "provided to "@ + host.product + " via \"apiKeyHelper\" field"@,
        ),
        ConfigRow::SubagentModel => Some("default subagent model in this account"@),
        ConfigRow::Disabled => Some(
            if f.is_active {
                "cannot disable the global active account"@
            } else if f.has_live_session {
                "cannot disable an account with a live session"@
            } else if f.disabled {
                "excluded from auto-switch, usage polling, and status until re-enabled"@
            } else {
                "excludes this account from auto-switch, usage polling, and status until re-enabled"@
            },
        ),
        ConfigRow::AutoStart => Some(
            if f.auto_start {
                "sends a 1-token request to Haiku at every 5h usage reset"@
            } else {
                "5h usage window stays closed after reset"@
            },
        ),
        ConfigRow::ModelOverrideAdd => Some("set custom model names on this account"@),
        ConfigRow::Login => Some(
            if f.console_login {
                "log into alibaba console to see this account's usage"@
            } else if !f.login_is_oauth {
                "re-enter the base URL + API key for this account"@
            } else {
                "browser OAuth login"@
            },
        ),
        ConfigRow::CaptureLogin => Some(
            "save the current global credentials into a new account"@,
        ),
        ConfigRow::DeleteCreds => Some(
            if !f.login_is_oauth {
                "clears the stored API key"@
            } else {
                "clears the stored OAuth login"@
            },
        ),
        ConfigRow::ClearSessionToken => Some(clear_hint(host, snap)),
        ConfigRow::Delete => Some(
            "deletes the account and everything stored for it, usage history included"@,
        ),
        _ => None,
    }
}

fn clear_hint_text(host: &Host, snap: &Snap) -> (r: String)
    ensures
        r@ == clear_hint(host@, snap@),
{
    let f = snap.flags;
    if snap.clear_gated() {
        return "cannot clear with no other login stored".to_string();
    }
    if !f.has_other_login && f.is_active {
        return text::joined3(
            "stops the daemon re-stamping this account · signs ",
            &host.product,
            " out · nothing is stored behind it",
        );
    }
    if !f.has_other_login {
        return "stops the daemon re-stamping this account · nothing else is stored".to_string();
    }
    let base = if f.is_active && f.clear_falls_back_to_oauth {
        "relinks this account's own login now · running sessions follow".to_string()
    } else if f.is_active {
        text::joined3("signs ", &host.product, " out now · this account runs on its API key")
    } else if f.clear_falls_back_to_oauth {
        "the next switch installs this account's own login again".to_string()
    } else {
        "the next switch runs this account on its API key".to_string()
    };
    let stamping = if f.rolling_armed || f.rolling_token {
        " · re-stamping stops"
    } else {
        ""
    };
    let mint = if f.has_static_backup {
        " · the preserved mint goes too"
    } else {
        ""
    };
    text::joined3(&base, stamping, mint)
}

/// Help for the rows whose labels do not explain themselves.
pub fn row_hint(host: &Host, row: ConfigRow, snap: &Snap) -> (r: Option<String>)
    ensures
        text::opt_view(r) == config_hint(host@, row, snap@),
{
    let f = snap.flags;
    match row {
        ConfigRow::BaseUrl => if blank_text(&snap.base_url) {
            Some(
                text::joined3(
                    "leave empty for a ",
                    &host.brand,
                    " account, or set an API endpoint",
                ),
            )
        } else {
            Some(
                text::joined(
                    "the API endpoint this account calls instead of ",
                    &host.site,
                ),
            )
        },
        ConfigRow::ApiKey => Some(
            text::joined3("provided to ", &host.product, " via \"apiKeyHelper\" field"),
        ),
        ConfigRow::SubagentModel => Some("default subagent model in this account".to_string()),
        ConfigRow::Disabled => if f.is_active {
            Some("cannot disable the global active account".to_string())
        } else if f.has_live_session {
            Some("cannot disable an account with a live session".to_string())
        } else if f.disabled {
            Some(
                "excluded from auto-switch, usage polling, and status until re-enabled".to_string(),
            )
        } else {
            Some(
                "excludes this account from auto-switch, usage polling, and status until re-enabled".to_string(),
            )
        },
        ConfigRow::AutoStart => if f.auto_start {
            Some("sends a 1-token request to Haiku at every 5h usage reset".to_string())
        } else {
            Some("5h usage window stays closed after reset".to_string())
        },
        ConfigRow::ModelOverrideAdd => Some("set custom model names on this account".to_string()),
        ConfigRow::Login => if f.console_login {
            Some("log into alibaba console to see this account's usage".to_string())
        } else if !f.login_is_oauth {
            Some("re-enter the base URL + API key for this account".to_string())
        } else {
            Some("browser OAuth login".to_string())
        },
        ConfigRow::CaptureLogin => Some(
            "save the current global credentials into a new account".to_string(),
        ),
        ConfigRow::DeleteCreds => if !f.login_is_oauth {
            Some("clears the stored API key".to_string())
        } else {
            Some("clears the stored OAuth login".to_string())
        },
        ConfigRow::ClearSessionToken => Some(clear_hint_text(host, snap)),
        ConfigRow::Delete => Some(
            "deletes the account and everything stored for it, usage history included".to_string(),
        ),
        _ => None,
    }
}

/// Whether a text stands somewhere in another, whatever the case of ASCII letters.
pub open spec fn holds_ignoring_case(s: Seq<char>, needle: Seq<char>) -> bool {
    exists|i: int|
        0 <= i <= s.len() - needle.len() && text::same_ignoring_case(
            #[trigger] s.subrange(i, i + needle.len()),
            needle,
        )
}

/// Whether an environment key names a credential.
pub open spec fn names_secret(key: Seq<char>) -> bool {
    holds_ignoring_case(key, "KEY"@) || holds_ignoring_case(key, "TOKEN"@) || holds_ignoring_case(
        key,
        "SECRET"@,
    ) || holds_ignoring_case(key, "AUTH"@)
}

fn holds(s: &str, needle: &str) -> (r: bool)
    ensures
        r == holds_ignoring_case(s@, needle@),
{
    let n: usize = s.unicode_len();
    let m: usize = needle.unicode_len();
    if m > n {
        return false;
    }
    let mut i: usize = 0;
    while i <= n - m
        invariant
            n == s@.len(),
            m == needle@.len(),
            m <= n,
            i <= n - m + 1,
            forall|j: int|
                0 <= j < i ==> !text::same_ignoring_case(
                    #[trigger] s@.subrange(j, j + needle@.len()),
                    needle@,
                ),
        decreases n - m + 1 - i,
    {
        let here = s.substring_char(i, i + m);
        if text::eq_ignoring_case(here, needle) {
            assert(text::same_ignoring_case(
                s@.subrange(i as int, i + needle@.len()),
                needle@,
            ));
            return true;
        }
        if i == n - m {
            return false;
        }
        i = i + 1;
    }
    false
}

/// Whether an environment key names a credential.
pub fn env_key_is_secret(key: &str) -> (r: bool)
    ensures
        r == names_secret(key@),
{
    holds(key, "KEY") || holds(key, "TOKEN") || holds(key, "SECRET") || holds(key, "AUTH")
}

/// The value of a field: the open buffer, a dash, a mask, or the text.
pub open spec fn value_span(value: InputView, editing: bool, mask: bool) -> SpanView {
    if editing {
        paint::span_of(value.text, paint::ink(Role::Text).on(Fill::Sunken))
    } else if value.text.len() == 0 {
        paint::span_of("—"@, paint::ink(Role::Faint))
    } else if mask {
        paint::span_of("••••••••"@, paint::ink(Role::Accent))
    } else {
        paint::span_of(value.text, paint::ink(Role::Accent))
    }
}

fn put_value(v: &mut Vec<Span>, value: &InputState, editing: bool, mask: bool)
    ensures
        paint::spans_view(final(v)@) == paint::spans_view(old(v)@).push(
            value_span(value@, editing, mask),
        ),
{
    let s = value.value();
    if editing {
        paint::put(v, s, paint::ink(Role::Text).on(Fill::Sunken));
    } else if s.unicode_len() == 0 {
        paint::put(v, "—", paint::ink(Role::Faint));
    } else if mask {
        paint::put(v, "••••••••", paint::ink(Role::Accent));
    } else {
        paint::put(v, s, paint::ink(Role::Accent));
    }
}

/// A field row: gutter, key, value.
pub open spec fn field_line(
    arrow: SpanView,
    key: Seq<char>,
    value: InputView,
    editing: bool,
    focused: bool,
    mask: bool,
) -> LineView {
    paint::line_of(
        Seq::empty().push(arrow).push(
            paint::span_of(
                layout::key_text(key, KEY_W as nat, KEY_GUTTER as nat),
                layout::label_style(focused),
            ),
        ).push(value_span(value, editing, mask)),
    )
}

/// A field row.
pub fn kv_field(arrow: Span, key: &str, value: &InputState, editing: bool, focused: bool, mask: bool)
    -> (r: Line)
    ensures
        r@ == field_line(arrow@, key@, value@, editing, focused, mask),
{
    let mut v = paint::no_spans();
    paint::put_span(&mut v, arrow);
    let k = layout::key_cell(key, KEY_W, KEY_GUTTER);
    paint::put(&mut v, &k, layout::label_style(focused));
    put_value(&mut v, value, editing, mask);
    paint::line(v)
}

/// A row with a value that is not typed.
pub open spec fn static_line(
    arrow: SpanView,
    key: Seq<char>,
    value: Seq<char>,
    style: Style,
    focused: bool,
) -> LineView {
    paint::line_of(
        Seq::empty().push(arrow).push(
            paint::span_of(
                layout::key_text(key, KEY_W as nat, KEY_GUTTER as nat),
                layout::label_style(focused),
            ),
        ).push(paint::span_of(value, style)),
    )
}

/// A row with a value that is not typed.
pub fn kv_static(arrow: Span, key: &str, value: &str, style: Style, focused: bool) -> (r: Line)
    ensures
        r@ == static_line(arrow@, key@, value@, style, focused),
{
    let mut v = paint::no_spans();
    paint::put_span(&mut v, arrow);
    let k = layout::key_cell(key, KEY_W, KEY_GUTTER);
    paint::put(&mut v, &k, layout::label_style(focused));
    paint::put(&mut v, value, style);
    paint::line(v)
}

/// A row that is one word.
pub open spec fn word_line(arrow: SpanView, label: Seq<char>, style: Style) -> LineView {
    paint::line_of(Seq::empty().push(arrow).push(paint::span_of(label, style)))
}

fn word_row(arrow: Span, label: &str, style: Style) -> (r: Line)
    ensures
        r@ == word_line(arrow@, label@, style),
{
    let mut v = paint::no_spans();
    paint::put_span(&mut v, arrow);
    paint::put(&mut v, label, style);
    paint::line(v)
}

/// The choices of the model row.
pub open spec fn model_choices(current: Seq<char>) -> Seq<layout::ChoiceView> {
    Seq::empty().push(layout::choice_of("default"@, current.len() == 0)).push(
        layout::choice_of("opus"@, current == "opus"@),
    ).push(layout::choice_of("sonnet"@, current == "sonnet"@)).push(
        layout::choice_of("haiku"@, current == "haiku"@),
    ).push(layout::choice_of("opusplan"@, current == "opusplan"@))
}

/// Whether a model name is one of the aliases.
pub open spec fn is_preset(s: Seq<char>) -> bool {
    s == "opus"@ || s == "sonnet"@ || s == "haiku"@ || s == "opusplan"@
}

/// The model row at rest: the aliases, and a custom name after them.
pub open spec fn model_line(arrow: SpanView, current: Seq<char>, selected: bool) -> LineView {
    let head = Seq::empty().push(arrow).push(
        paint::span_of(
            layout::key_text("model"@, KEY_W as nat, KEY_GUTTER as nat),
            layout::label_style(selected),
        ),
    );
    let listed = layout::choices_spans(head, model_choices(current), selected, 5);
    paint::line_of(
        if current.len() > 0 && !is_preset(current) {
            listed.push(paint::span_of("   "@ + current, paint::ink(Role::Accent)))
        } else {
            listed
        },
    )
}

/// The model row at rest.
pub fn model_cycle_line(arrow: Span, current: &str, selected: bool) -> (r: Line)
    ensures
        r@ == model_line(arrow@, current@, selected),
{
    let mut v = paint::no_spans();
    paint::put_span(&mut v, arrow);
    let k = layout::key_cell("model", KEY_W, KEY_GUTTER);
    paint::put(&mut v, &k, layout::label_style(selected));
    let none = current.unicode_len() == 0;
    let opus = text::same_text(current, "opus");
    let sonnet = text::same_text(current, "sonnet");
    let haiku = text::same_text(current, "haiku");
    let plan = text::same_text(current, "opusplan");
    let mut c = layout::no_choices();
    layout::offer_choice(&mut c, "default", none);
    layout::offer_choice(&mut c, "opus", opus);
    layout::offer_choice(&mut c, "sonnet", sonnet);
    layout::offer_choice(&mut c, "haiku", haiku);
    layout::offer_choice(&mut c, "opusplan", plan);
    assert(layout::choice_views(c@).len() == c@.len());
    layout::put_choices(&mut v, &c, selected);
    if !none && !(opus || sonnet || haiku || plan) {
        let t = text::joined("   ", current);
        paint::put(&mut v, &t, paint::ink(Role::Accent));
    }
    paint::line(v)
}

/// The row that disables or enables the account.
pub open spec fn disabled_line(
    arrow: SpanView,
    selected: bool,
    armed: bool,
    f: SnapFlags,
) -> LineView {
    let gated = f.is_active || f.has_live_session;
    word_line(
        if gated && selected {
            layout::inert_caret(true)
        } else {
            arrow
        },
        if f.disabled {
            "enable account"@
        } else if armed && !gated {
            "press again to disable"@
        } else {
            "disable account"@
        },
        if gated {
            paint::ink(Role::Faint)
        } else if f.disabled {
            paint::bold_when(paint::ink(Role::Accent), selected)
        } else {
            paint::ink(Role::Danger).strong()
        },
    )
}

/// The row that clears the long-lived token.
pub open spec fn clear_line(arrow: SpanView, selected: bool, armed: bool, gated: bool) -> LineView {
    word_line(
        if gated && selected {
            layout::inert_caret(true)
        } else {
            arrow
        },
        if armed && !gated {
            "press again to clear"@
        } else {
            "clear long-lived token"@
        },
        if gated {
            paint::ink(Role::Faint)
        } else {
            paint::ink(Role::Danger).strong()
        },
    )
}

/// A row of the Setup pane.
pub open spec fn config_line(
    glyphs: GlyphsView,
    row: ConfigRow,
    selected: bool,
    editing: bool,
    armed: Option<ConfigRow>,
    snap: SnapView,
    value: InputView,
) -> LineView {
    let arrow = layout::gutter_span(glyphs, editing, selected);
    let accent = paint::bold_when(paint::ink(Role::Accent), selected);
    let done = paint::bold_when(paint::ink(Role::Success), selected);
    let danger = paint::ink(Role::Danger).strong();
    let f = snap.flags;
    match row {
        ConfigRow::Name => field_line(arrow, "name"@, value, editing, selected, false),
        ConfigRow::BaseUrl => field_line(arrow, "base url"@, value, editing, selected, false),
        ConfigRow::ApiKey => field_line(arrow, "api key"@, value, editing, selected, true),
        ConfigRow::Model => if editing {
            field_line(arrow, "model"@, value, editing, selected, false)
        } else {
            model_line(arrow, value.text, selected)
        },
        ConfigRow::OpusModel => field_line(arrow, "opus"@, value, editing, selected, false),
        ConfigRow::SonnetModel => field_line(arrow, "sonnet"@, value, editing, selected, false),
        ConfigRow::HaikuModel => field_line(arrow, "haiku"@, value, editing, selected, false),
        ConfigRow::FableModel => field_line(arrow, "fable"@, value, editing, selected, false),
        ConfigRow::SubagentModel => field_line(
            arrow,
            "subagent"@,
            value,
            editing,
            selected,
            false,
        ),
        ConfigRow::EnvEntry(i) => field_line(
            arrow,
            snap.env_key(i),
            value,
            editing,
            selected,
            names_secret(snap.env_key(i)),
        ),
        ConfigRow::EnvAdd => if editing {
            field_line(arrow, "key"@, value, editing, selected, false)
        } else {
            word_line(arrow, "+ add env"@, accent)
        },
        ConfigRow::ModelOverrideAdd => word_line(arrow, "+ model override"@, accent),
        ConfigRow::Disabled => disabled_line(
            arrow,
            selected,
            armed == Some(ConfigRow::Disabled),
            f,
        ),
        ConfigRow::AutoStart => if f.auto_start {
            static_line(arrow, "auto-start"@, glyphs.on, paint::ink(Role::Accent), selected)
        } else {
            static_line(arrow, "auto-start"@, glyphs.off, paint::ink(Role::Faint), selected)
        },
        ConfigRow::Delete => word_line(
            arrow,
            if armed == Some(ConfigRow::Delete) {
                "press again to delete"@
            } else {
                "delete account"@
            },
            danger,
        ),
        ConfigRow::Create => word_line(arrow, "create account"@, accent),
        ConfigRow::CaptureLogin => if f.captured_live {
            word_line(arrow, "✓ captured current login"@, done)
        } else {
            word_line(arrow, "+ capture current login"@, accent)
        },
        ConfigRow::Login => if f.captured {
            word_line(arrow, "✓ logged in"@, done)
        } else if f.logged_in {
            word_line(arrow, "re-login"@, accent)
        } else {
            word_line(arrow, "+ login"@, accent)
        },
        ConfigRow::DeleteCreds => word_line(arrow, "log out"@, danger),
        ConfigRow::ClearSessionToken => clear_line(
            arrow,
            selected,
            armed == Some(ConfigRow::ClearSessionToken),
            snap.clear_is_gated(),
        ),
    }
}

fn disabled_row(arrow: Span, selected: bool, armed: bool, f: SnapFlags) -> (r: Line)
    ensures
        r@ == disabled_line(arrow@, selected, armed, f),
{
    let gated = f.is_active || f.has_live_session;
    let lead = if gated && selected {
        layout::faint_caret(true)
    } else {
        arrow
    };
    let label = if f.disabled {
        "enable account"
    } else if armed && !gated {
        "press again to disable"
    } else {
        "disable account"
    };
    let style = if gated {
        paint::ink(Role::Faint)
    } else if f.disabled {
        paint::bold_when(paint::ink(Role::Accent), selected)
    } else {
        paint::ink(Role::Danger).strong()
    };
    word_row(lead, label, style)
}

fn clear_row(arrow: Span, selected: bool, armed: bool, gated: bool) -> (r: Line)
    ensures
        r@ == clear_line(arrow@, selected, armed, gated),
{
    let lead = if gated && selected {
        layout::faint_caret(true)
    } else {
        arrow
    };
    let label = if armed && !gated {
        "press again to clear"
    } else {
        "clear long-lived token"
    };
    let style = if gated {
        paint::ink(Role::Faint)
    } else {
        paint::ink(Role::Danger).strong()
    };
    word_row(lead, label, style)
}

/// A row of the Setup pane.
pub fn detail_row(
    glyphs: &Glyphs,
    row: ConfigRow,
    selected: bool,
    editing: bool,
    armed: Option<ConfigRow>,
    snap: &Snap,
    value: &InputState,
) -> (r: Line)
    ensures
        r@ == config_line(glyphs@, row, selected, editing, armed, snap@, value@),
{
    let arrow = layout::gutter(glyphs, editing, selected);
    let accent = paint::bold_when(paint::ink(Role::Accent), selected);
    let done = paint::bold_when(paint::ink(Role::Success), selected);
    let danger = paint::ink(Role::Danger).strong();
    let f = snap.flags;
    match row {
        ConfigRow::Name => kv_field(arrow, "name", value, editing, selected, false),
        ConfigRow::BaseUrl => kv_field(arrow, "base url", value, editing, selected, false),
        ConfigRow::ApiKey => kv_field(arrow, "api key", value, editing, selected, true),
        ConfigRow::Model => if editing {
            kv_field(arrow, "model", value, editing, selected, false)
        } else {
            model_cycle_line(arrow, value.value(), selected)
        },
        ConfigRow::OpusModel => kv_field(arrow, "opus", value, editing, selected, false),
        ConfigRow::SonnetModel => kv_field(arrow, "sonnet", value, editing, selected, false),
        ConfigRow::HaikuModel => kv_field(arrow, "haiku", value, editing, selected, false),
        ConfigRow::FableModel => kv_field(arrow, "fable", value, editing, selected, false),
        ConfigRow::SubagentModel => kv_field(arrow, "subagent", value, editing, selected, false),
        ConfigRow::EnvEntry(i) => {
            let key = if i < snap.env.len() {
                snap.env[i].key.as_str()
            } else {
                ""
            };
            kv_field(arrow, key, value, editing, selected, env_key_is_secret(key))
        },
        ConfigRow::EnvAdd => if editing {
            kv_field(arrow, "key", value, editing, selected, false)
        } else {
            word_row(arrow, "+ add env", accent)
        },
        ConfigRow::ModelOverrideAdd => word_row(arrow, "+ model override", accent),
        ConfigRow::Disabled => disabled_row(arrow, selected, armed == Some(ConfigRow::Disabled), f),
        ConfigRow::AutoStart => if f.auto_start {
            kv_static(arrow, "auto-start", &glyphs.on, paint::ink(Role::Accent), selected)
        } else {
            kv_static(arrow, "auto-start", &glyphs.off, paint::ink(Role::Faint), selected)
        },
        ConfigRow::Delete => if armed == Some(ConfigRow::Delete) {
            word_row(arrow, "press again to delete", danger)
        } else {
            word_row(arrow, "delete account", danger)
        },
        ConfigRow::Create => word_row(arrow, "create account", accent),
        ConfigRow::CaptureLogin => if f.captured_live {
            word_row(arrow, "✓ captured current login", done)
        } else {
            word_row(arrow, "+ capture current login", accent)
        },
        ConfigRow::Login => if f.captured {
            word_row(arrow, "✓ logged in", done)
        } else if f.logged_in {
            word_row(arrow, "re-login", accent)
        } else {
            word_row(arrow, "+ login", accent)
        },
        ConfigRow::DeleteCreds => word_row(arrow, "log out", danger),
        ConfigRow::ClearSessionToken => clear_row(
            arrow,
            selected,
            armed == Some(ConfigRow::ClearSessionToken),
            snap.clear_gated(),
        ),
    }
}

/// A stored credential is never written out: at rest the api key and every environment entry
/// whose key names a credential show a mask or a dash.
pub proof fn secrets_are_masked(
    glyphs: GlyphsView,
    row: ConfigRow,
    selected: bool,
    armed: Option<ConfigRow>,
    snap: SnapView,
    value: InputView,
)
    requires
        row == ConfigRow::ApiKey || (row matches ConfigRow::EnvEntry(i) && names_secret(
            snap.env_key(i),
        )),
    ensures
        ({
            let spans = config_line(glyphs, row, selected, false, armed, snap, value).spans;
            spans.len() == 3 && (spans[2].text == "••••••••"@ || spans[2].text == "—"@)
        }),
{
}

/// Clearing the long-lived token is refused only where it would take the last login: never with
/// another login stored, and never where nothing is stored. The row that clears it is dimmed, and
/// its hint says no, exactly where it is refused.
pub proof fn the_last_login_stays(
    host: HostView,
    glyphs: GlyphsView,
    selected: bool,
    armed: Option<ConfigRow>,
    snap: SnapView,
    value: InputView,
)
    ensures
        snap.flags.has_other_login ==> !snap.clear_is_gated(),
        snap.session_token is None && !snap.flags.has_static_backup ==> !snap.clear_is_gated(),
        ({
            let row = config_line(
                glyphs,
                ConfigRow::ClearSessionToken,
                selected,
                false,
                armed,
                snap,
                value,
            );
            row.spans[1].style.role == Role::Faint <==> snap.clear_is_gated()
        }),
        config_hint(host, ConfigRow::ClearSessionToken, snap) == Some(
            "cannot clear with no other login stored"@,
        ) <==> snap.clear_is_gated(),
{
    reveal_strlit("cannot clear with no other login stored");
    reveal_strlit("stops the daemon re-stamping this account · signs ");
    reveal_strlit("stops the daemon re-stamping this account · nothing else is stored");
    reveal_strlit("relinks this account's own login now · running sessions follow");
    reveal_strlit("signs ");
    reveal_strlit("the next switch installs this account's own login again");
    reveal_strlit("the next switch runs this account on its API key");
    let no = "cannot clear with no other login stored"@;
    let hint = clear_hint(host, snap);
    assert(no[0] == 'c');
    if !snap.clear_is_gated() {
        assert(hint[0] == 's' || hint[0] == 'r' || hint[0] == 't');
    }
}

/// A key of the block above the rows.
pub open spec fn head_key(key: Seq<char>) -> SpanView {
    paint::span_of(
        layout::key_text(key, KEY_W as nat, KEY_GUTTER as nat),
        paint::ink(Role::Label),
    )
}

fn put_head_key(v: &mut Vec<Span>, key: &str)
    ensures
        paint::spans_view(final(v)@) == paint::spans_view(old(v)@).push(head_key(key@)),
{
    let k = layout::key_cell(key, KEY_W, KEY_GUTTER);
    paint::put(v, &k, paint::ink(Role::Label));
}

/// A key and its value above the rows.
pub open spec fn head_line(key: Seq<char>, value: Seq<char>, style: Style) -> LineView {
    paint::line_of(Seq::empty().push(head_key(key)).push(paint::span_of(value, style)))
}

fn head_row(key: &str, value: &str, style: Style) -> (r: Line)
    ensures
        r@ == head_line(key@, value@, style),
{
    let mut v = paint::no_spans();
    put_head_key(&mut v, key);
    paint::put(&mut v, value, style);
    paint::line(v)
}

/// A key and a bracketed word above the rows.
pub open spec fn head_pill(key: Seq<char>, label: Seq<char>, style: Style) -> LineView {
    paint::line_of(layout::pill_spans(Seq::empty().push(head_key(key)), label, style))
}

fn head_pill_row(key: &str, label: &str, style: Style) -> (r: Line)
    ensures
        r@ == head_pill(key@, label@, style),
{
    let mut v = paint::no_spans();
    put_head_key(&mut v, key);
    layout::put_pill(&mut v, label, style);
    paint::line(v)
}

/// Milliseconds of an hour.
pub const HOUR_MS: i128 = 3600000;

/// Milliseconds of a day.
pub const DAY_MS: i128 = 86400000;

/// A token state that needs acting on: a pill, and what to do below it.
pub open spec fn charged(label: Seq<char>, fix: Seq<char>, width: int) -> Seq<LineView> {
    Seq::empty().push(head_pill("token"@, label, paint::ink(Role::Danger).strong()))
        + layout::help_note(fix, width)
}

/// Hours until a rolling token is stamped anew: the stamping comes `horizon_ms` before the end.
pub open spec fn restamp_label(end_ms: int, horizon_ms: int, now_ms: int) -> Seq<char> {
    let until = text::max_int(end_ms - horizon_ms - now_ms, 0);
    if until < HOUR_MS {
        "rolling · re-stamp due"@
    } else {
        "rolling · re-stamps in ~"@ + text::decimal((until / HOUR_MS as int) as nat) + "h"@
    }
}

/// The long-lived token: comfortable, about to end, ended, or not in use.
pub open spec fn token_lines(
    host: HostView,
    status: SessionTokenStatus,
    rolling: bool,
    name: Seq<char>,
    now_ms: int,
    horizon_ms: int,
    width: int,
) -> Seq<LineView> {
    let accent = paint::ink(Role::Accent);
    match status {
        SessionTokenStatus::LongLived(Some(end)) => if now_ms >= end {
            if rolling {
                charged(
                    "rolling token stalled"@,
                    "nothing re-stamped it before expiry · clauth rolling-token "@ + name
                        + " re-arms"@,
                    width,
                )
            } else {
                charged("expired"@, "re-mint with "@ + host.command + " setup-token"@, width)
            }
        } else if rolling {
            Seq::empty().push(
                head_line("token"@, restamp_label(end as int, horizon_ms, now_ms), accent),
            )
        } else {
            let days = (end - now_ms) / DAY_MS as int;
            if days <= 30 {
                Seq::empty().push(
                    head_pill(
                        "token"@,
                        "expires in ~"@ + text::decimal(days as nat) + "d"@,
                        paint::ink(Role::Warning).strong(),
                    ),
                )
            } else {
                Seq::empty().push(
                    head_line(
                        "token"@,
                        "long-lived · ~"@ + text::decimal(days as nat) + "d left"@,
                        accent,
                    ),
                )
            }
        },
        SessionTokenStatus::LongLived(None) => Seq::empty().push(
            head_line(
                "token"@,
                if rolling {
                    "rolling · no recorded expiry"@
                } else {
                    "long-lived · no recorded expiry"@
                },
                accent,
            ),
        ),
        SessionTokenStatus::NotLongLived => charged(
            "mis-filled"@,
            "sidecar has a refresh token, split is off"@,
            width,
        ),
    }
}

fn charged_lines(label: &str, fix: &str, width: usize) -> (r: Vec<Line>)
    ensures
        paint::lines_view(r@) == charged(label@, fix@, width as int),
{
    let mut out = paint::no_lines();
    paint::add_line(&mut out, head_pill_row("token", label, paint::ink(Role::Danger).strong()));
    let note = layout::help_tooltip_lines(fix, width);
    paint::add_lines(&mut out, &note);
    out
}

fn one_line(l: Line) -> (r: Vec<Line>)
    ensures
        paint::lines_view(r@) == Seq::empty().push(l@),
{
    let mut out = paint::no_lines();
    paint::add_line(&mut out, l);
    out
}

fn restamp_text(end_ms: i64, horizon_ms: i64, now_ms: i64) -> (r: String)
    ensures
        r@ == restamp_label(end_ms as int, horizon_ms as int, now_ms as int),
{
    let left: i128 = end_ms as i128 - horizon_ms as i128 - now_ms as i128;
    if left < HOUR_MS {
        return "rolling · re-stamp due".to_string();
    }
    let hours: i128 = left / HOUR_MS;
    let n = text::decimal_text(hours as u64);
    text::joined3("rolling · re-stamps in ~", &n, "h")
}

/// The long-lived token, in the block above the rows.
pub fn session_token_lines(
    host: &Host,
    status: SessionTokenStatus,
    rolling: bool,
    name: &str,
    now_ms: i64,
    horizon_ms: i64,
    width: usize,
) -> (r: Vec<Line>)
    ensures
        paint::lines_view(r@) == token_lines(
            host@,
            status,
            rolling,
            name@,
            now_ms as int,
            horizon_ms as int,
            width as int,
        ),
{
    let accent = paint::ink(Role::Accent);
    match status {
        SessionTokenStatus::LongLived(Some(end)) => if now_ms >= end {
            if rolling {
                let fix = text::joined3(
                    "nothing re-stamped it before expiry · clauth rolling-token ",
                    name,
                    " re-arms",
                );
                charged_lines("rolling token stalled", &fix, width)
            } else {
                let fix = text::joined3("re-mint with ", &host.command, " setup-token");
                charged_lines("expired", &fix, width)
            }
        } else if rolling {
            let label = restamp_text(end, horizon_ms, now_ms);
            one_line(head_row("token", &label, accent))
        } else {
            let left: i128 = end as i128 - now_ms as i128;
            let days: i128 = left / DAY_MS;
            let n = text::decimal_text(days as u64);
            if days <= 30 {
                let label = text::joined3("expires in ~", &n, "d");
                one_line(head_pill_row("token", &label, paint::ink(Role::Warning).strong()))
            } else {
                let label = text::joined3("long-lived · ~", &n, "d left");
                one_line(head_row("token", &label, accent))
            }
        },
        SessionTokenStatus::LongLived(None) => if rolling {
            one_line(head_row("token", "rolling · no recorded expiry", accent))
        } else {
            one_line(head_row("token", "long-lived · no recorded expiry", accent))
        },
        SessionTokenStatus::NotLongLived => charged_lines(
            "mis-filled",
            "sidecar has a refresh token, split is off",
            width,
        ),
    }
}

/// Everything the Setup pane is drawn from.
pub struct SetupScene {
    pub rows: Vec<ConfigRow>,
    pub cursor: usize,
    /// The pane has the focus.
    pub focused: bool,
    /// The row that waits for a second press.
    pub armed: Option<ConfigRow>,
    pub now_ms: i64,
    /// How long before its end a rolling token is stamped anew.
    pub horizon_ms: i64,
    pub width: usize,
}

/// What a [`SetupScene`] holds.
pub struct SetupSceneView {
    pub rows: Seq<ConfigRow>,
    pub cursor: int,
    pub focused: bool,
    pub armed: Option<ConfigRow>,
    pub now_ms: int,
    pub horizon_ms: int,
    pub width: int,
}

impl View for SetupScene {
    type V = SetupSceneView;

    open spec fn view(&self) -> SetupSceneView {
        SetupSceneView {
            rows: self.rows@,
            cursor: self.cursor as int,
            focused: self.focused,
            armed: self.armed,
            now_ms: self.now_ms as int,
            horizon_ms: self.horizon_ms as int,
            width: self.width as int,
        }
    }
}

/// A pane of lines with the focused block and the text cursor.
pub struct Pane {
    pub lines: Vec<Line>,
    /// First line of the focused block.
    pub from: usize,
    /// First line past the focused block.
    pub to: usize,
    /// Line and column of the text cursor.
    pub caret: Option<(usize, usize)>,
}

/// What a [`Pane`] holds.
pub struct PaneView {
    pub lines: Seq<LineView>,
    pub from: int,
    pub to: int,
    pub caret: Option<(int, int)>,
}

impl View for Pane {
    type V = PaneView;

    open spec fn view(&self) -> PaneView {
        PaneView {
            lines: paint::lines_view(self.lines@),
            from: self.from as int,
            to: self.to as int,
            caret: match self.caret {
                Some((y, x)) => Some((y as int, x as int)),
                None => None,
            },
        }
    }
}

/// Whether the account calls an endpoint, as the form stands.
pub open spec fn calls_endpoint(draft: Option<ConfigDraftView>, snap: SnapView) -> bool {
    !is_blank(buffer_of(draft, snap, ConfigRow::BaseUrl).text)
}

/// The block above the rows: state, type, provider or account, and the long-lived token.
pub open spec fn head_block(
    host: HostView,
    snap: SnapView,
    is_api: bool,
    now_ms: int,
    horizon_ms: int,
    width: int,
) -> Seq<LineView> {
    let accent = paint::ink(Role::Accent);
    let state = if snap.flags.disabled {
        Seq::empty().push(head_pill("status"@, "disabled"@, paint::ink(Role::Dim).strong()))
    } else {
        Seq::empty()
    };
    let typed = state.push(
        head_line(
            "type"@,
            if is_api {
                "api"@
            } else {
                "oauth"@
            },
            accent,
        ),
    );
    let provided = match snap.provider {
        Some(p) => if is_api {
            typed.push(head_line("provider"@, p, accent))
        } else {
            typed
        },
        None => typed,
    };
    let owned = match snap.account_email {
        Some(e) => if is_api {
            provided
        } else {
            provided.push(
                paint::line_of(
                    Seq::empty().push(
                        paint::span_of(
                            layout::key_text("account"@, KEY_W as nat, 0),
                            paint::ink(Role::Label),
                        ),
                    ).push(paint::span_of(e, paint::ink(Role::Dim))),
                ),
            )
        },
        None => provided,
    };
    let tokened = match snap.session_token {
        Some(st) => owned + token_lines(
            host,
            st,
            snap.flags.rolling_token,
            snap.title,
            now_ms,
            horizon_ms,
            width,
        ),
        None => owned,
    };
    tokened.push(paint::blank_of())
}

/// The row being edited.
pub open spec fn edited_row(draft: Option<ConfigDraftView>) -> Option<ConfigRow> {
    match draft {
        Some(d) => d.active,
        None => None,
    }
}

/// The block above the rows and the first `n` rows, each with its help while it is selected.
pub open spec fn setup_pane(
    host: HostView,
    glyphs: GlyphsView,
    scene: SetupSceneView,
    draft: Option<ConfigDraftView>,
    snap: SnapView,
    n: nat,
) -> PaneView
    decreases n,
{
    if n == 0 {
        PaneView {
            lines: head_block(
                host,
                snap,
                calls_endpoint(draft, snap),
                scene.now_ms,
                scene.horizon_ms,
                scene.width,
            ),
            from: 0,
            to: 1,
            caret: None,
        }
    } else {
        let before = setup_pane(host, glyphs, scene, draft, snap, (n - 1) as nat);
        let row = scene.rows[n - 1];
        let selected = scene.focused && n - 1 == scene.cursor;
        let editing = edited_row(draft) == Some(row);
        let value = buffer_of(draft, snap, row);
        let at = before.lines.len() as int;
        let shown = config_line(glyphs, row, selected, editing, scene.armed, snap, value);
        let listed = before.lines.push(
            if selected {
                layout::barred(shown, scene.width, paint::ink(Role::Plain))
            } else {
                shown
            },
        );
        let lines = match config_hint(host, row, snap) {
            Some(h) => if selected && !editing {
                listed + layout::help_note(h, scene.width)
            } else {
                listed
            },
            None => listed,
        };
        PaneView {
            lines,
            from: if selected || editing {
                at
            } else {
                before.from
            },
            to: if selected || editing {
                lines.len() as int
            } else {
                before.to
            },
            caret: if editing {
                Some(
                    (
                        at,
                        text::min_int(
                            2 + label_cells(row, snap) + value.before().len(),
                            usize::MAX as int,
                        ),
                    ),
                )
            } else {
                before.caret
            },
        }
    }
}

fn head_lines(
    host: &Host,
    snap: &Snap,
    is_api: bool,
    now_ms: i64,
    horizon_ms: i64,
    width: usize,
) -> (r: Vec<Line>)
    ensures
        paint::lines_view(r@) == head_block(
            host@,
            snap@,
            is_api,
            now_ms as int,
            horizon_ms as int,
            width as int,
        ),
{
    let accent = paint::ink(Role::Accent);
    let mut out = paint::no_lines();
    if snap.flags.disabled {
        paint::add_line(
            &mut out,
            head_pill_row("status", "disabled", paint::ink(Role::Dim).strong()),
        );
    }
    let kind = if is_api {
        "api"
    } else {
        "oauth"
    };
    paint::add_line(&mut out, head_row("type", kind, accent));
    if is_api {
        if let Some(p) = &snap.provider {
            paint::add_line(&mut out, head_row("provider", p, accent));
        }
    } else {
        if let Some(e) = &snap.account_email {
            let mut v = paint::no_spans();
            let k = layout::key_cell("account", KEY_W, 0);
            paint::put(&mut v, &k, paint::ink(Role::Label));
            paint::put(&mut v, e, paint::ink(Role::Dim));
            paint::add_line(&mut out, paint::line(v));
        }
    }
    if let Some(st) = snap.session_token {
        let token = session_token_lines(
            host,
            st,
            snap.flags.rolling_token,
            &snap.title,
            now_ms,
            horizon_ms,
            width,
        );
        paint::add_lines(&mut out, &token);
    }
    paint::add_line(&mut out, paint::blank());
    out
}

/// The Setup pane: every line, the focused block, and where the text cursor stands.
pub fn settings_rows(
    host: &Host,
    glyphs: &Glyphs,
    scene: &SetupScene,
    draft: &Option<ConfigDraft>,
    snap: &Snap,
) -> (r: Pane)
    ensures
        r@ == setup_pane(
            host@,
            glyphs@,
            scene@,
            forms::opt_config_draft(*draft),
            snap@,
            scene@.rows.len(),
        ),
{
    let ghost d = forms::opt_config_draft(*draft);
    let base = row_input(draft, snap, ConfigRow::BaseUrl);
    let is_api = !blank_text(base.value());
    let editing_row = match draft {
        Some(x) => x.active,
        None => None,
    };
    let mut pane = Pane {
        lines: head_lines(host, snap, is_api, scene.now_ms, scene.horizon_ms, scene.width),
        from: 0,
        to: 1,
        caret: None,
    };
    let mut i: usize = 0;
    while i < scene.rows.len()
        invariant
            i <= scene.rows@.len(),
            d == forms::opt_config_draft(*draft),
            editing_row == edited_row(d),
            pane@ == setup_pane(host@, glyphs@, scene@, d, snap@, i as nat),
        decreases scene.rows@.len() - i,
    {
        let row = scene.rows[i];
        let selected = scene.focused && i == scene.cursor;
        let editing = editing_row == Some(row);
        let value = row_input(draft, snap, row);
        let at: usize = pane.lines.len();
        assert(paint::lines_view(pane.lines@).len() == at);
        let shown = detail_row(glyphs, row, selected, editing, scene.armed, snap, &value);
        if selected {
            paint::add_line(&mut pane.lines, layout::highlight_row(shown, scene.width));
        } else {
            paint::add_line(&mut pane.lines, shown);
        }
        if selected && !editing {
            if let Some(h) = row_hint(host, row, snap) {
                let note = layout::help_tooltip_lines(&h, scene.width);
                paint::add_lines(&mut pane.lines, &note);
            }
        }
        assert(paint::lines_view(pane.lines@).len() == pane.lines@.len());
        if editing {
            let col: usize = row_label_cols(row, snap).saturating_add(2).saturating_add(
                layout::head_cols(&value),
            );
            pane.caret = Some((at, col));
        }
        if selected || editing {
            pane.from = at;
            pane.to = pane.lines.len();
        }
        i = i + 1;
    }
    pane
}

/// Where the text cursor stands on a pane scrolled by `offset`; none where its line is not on
/// screen.
pub fn caret_on_screen(caret: Option<(usize, usize)>, offset: usize, height: u16) -> (r: Option<
    (usize, usize),
>)
    ensures
        r == match caret {
            Some((y, x)) => if offset <= y && y - offset < height {
                Some(((y - offset) as usize, x))
            } else {
                None
            },
            None => None,
        },
{
    match caret {
        Some((y, x)) => if offset <= y && y - offset < height as usize {
            Some((y - offset, x))
        } else {
            None
        },
        None => None,
    }
}

} // verus!
