//! The settings record and the rules by which it is read and written: a read
//! for display hides the stored digest behind a fixed sentinel, and a write
//! keeps, clears or replaces the digest according to the secret it is given.

use crate::digest::{hash_secret, hashed, is_digest_text, is_hex_char};
use uuid::Uuid;
use vstd::prelude::*;
use vstd::string::*;

verus! {

/// Why no settings record could be had from, or brought to, durable storage.
/// Each kind carries the cause as the collaborator that failed gave it.
#[derive(Debug, PartialEq, Eq)]
pub enum ConfigError {
    /// The settings file is missing or cannot be read.
    NotFound(String),
    /// The settings file does not hold a settings record.
    Parse(String),
    /// The settings file could not be written.
    Io(String),
}

impl Clone for ConfigError {
    fn clone(&self) -> (r: Self)
        ensures
            r == *self,
    {
        match self {
            ConfigError::NotFound(cause) => ConfigError::NotFound(cause.clone()),
            ConfigError::Parse(cause) => ConfigError::Parse(cause.clone()),
            ConfigError::Io(cause) => ConfigError::Io(cause.clone()),
        }
    }
}

/// The user-editable configuration of one installation.
#[derive(Debug)]
pub struct Settings {
    /// Stable identifier of this installation, generated once.
    pub id: String,
    /// Endpoint address used by the monitoring loop.
    pub remote: String,
    /// Optional display label.
    pub name: Option<String>,
    /// Whether the agent should be launched on login.
    pub autostart: bool,
    /// The secret: a digest at rest, the sentinel on display, plaintext on its
    /// way in.
    pub password: Option<String>,
}

/// A settings record as plain values.
pub struct SettingsView {
    pub id: Seq<char>,
    pub remote: Seq<char>,
    pub name: Option<Seq<char>>,
    pub autostart: bool,
    pub password: Option<Seq<char>>,
}

/// An optional string as an optional sequence of characters.
pub open spec fn text_of(o: Option<String>) -> Option<Seq<char>> {
    match o {
        Some(s) => Some(s@),
        None => None,
    }
}

impl View for Settings {
    type V = SettingsView;

    open spec fn view(&self) -> SettingsView {
        SettingsView {
            id: self.id@,
            remote: self.remote@,
            name: text_of(self.name),
            autostart: self.autostart,
            password: text_of(self.password),
        }
    }
}

/// The outcome of reading the settings file, as plain values.
pub open spec fn outcome_view(r: Result<Settings, ConfigError>) -> Result<SettingsView, ConfigError> {
    match r {
        Ok(s) => Ok(s@),
        Err(e) => Err(e),
    }
}

/// The text shown in place of a secret that is set.
pub open spec fn sentinel() -> Seq<char> {
    "(unchanged)"@
}

/// The endpoint address of a fresh installation.
pub open spec fn default_remote() -> Seq<char> {
    "https://lan.pein-gera.de"@
}

/// The settings of a fresh installation with the given identifier.
pub open spec fn default_with(id: Seq<char>) -> SettingsView {
    SettingsView { id, remote: default_remote(), name: None, autostart: true, password: None }
}

/// A record as it is handed out: with `censor`, a secret that is set shows as
/// the sentinel.
pub open spec fn censored(v: SettingsView, censor: bool) -> SettingsView {
    if censor && v.password is Some {
        SettingsView { password: Some(sentinel()), ..v }
    } else {
        v
    }
}

/// What a read hands out, given what storage held.
pub open spec fn loaded(stored: Result<SettingsView, ConfigError>, censor: bool) -> Result<
    SettingsView,
    ConfigError,
> {
    match stored {
        Ok(v) => Ok(censored(v, censor)),
        Err(e) => Err(e),
    }
}

/// The secret that goes to storage for an incoming one: none for an absent or
/// empty secret, the stored one for the sentinel, else the digest of the
/// incoming text.
pub open spec fn resolved_secret(
    incoming: Option<Seq<char>>,
    current: Result<SettingsView, ConfigError>,
) -> Result<Option<Seq<char>>, ConfigError> {
    match incoming {
        None => Ok(None),
        Some(s) => if s.len() == 0 {
            Ok(None)
        } else if s == sentinel() {
            match current {
                Ok(c) => Ok(c.password),
                Err(e) => Err(e),
            }
        } else {
            Ok(Some(hashed(s)))
        },
    }
}

/// The identifier under which a write goes to storage. An identifier never
/// changes once it is stored: where storage holds a record, it is that
/// record's, whatever the incoming settings carry; where storage holds none,
/// the incoming one is stored for the first time.
pub open spec fn kept_id(incoming: Seq<char>, current: Result<SettingsView, ConfigError>) -> Seq<
    char,
> {
    match current {
        Ok(c) => c.id,
        Err(_) => incoming,
    }
}

/// The record that goes to storage when `v` is written over `current`: the
/// fields of `v`, but for the identifier, which is the kept one, and the
/// secret, which is the resolved one.
pub open spec fn persisted(v: SettingsView, current: Result<SettingsView, ConfigError>) -> Result<
    SettingsView,
    ConfigError,
> {
    match resolved_secret(v.password, current) {
        Ok(p) => Ok(SettingsView { id: kept_id(v.id, current), password: p, ..v }),
        Err(e) => Err(e),
    }
}

/// Whether a record is fit to rest in storage: its secret is absent or has the
/// shape of a digest.
pub open spec fn at_rest(v: SettingsView) -> bool {
    match v.password {
        None => true,
        Some(p) => is_digest_text(p),
    }
}

/// Whether what storage holds, if it holds a record, is fit to rest there.
pub open spec fn outcome_at_rest(r: Result<SettingsView, ConfigError>) -> bool {
    match r {
        Ok(v) => at_rest(v),
        Err(_) => true,
    }
}

/// Whether a text has the shape of a random identifier in its hyphenated
/// form: 36 characters, hyphens after the 8th, 12th, 16th and 20th digit,
/// lower-case hexadecimal digits elsewhere, and the version digit `4`.
pub open spec fn is_uuid_text(s: Seq<char>) -> bool {
    &&& s.len() == 36
    &&& forall|i: int|
        0 <= i < 36 ==> if i == 8 || i == 13 || i == 18 || i == 23 {
            #[trigger] s[i] == '-'
        } else {
            is_hex_char(s[i])
        }
    &&& s[14] == '4'
}

/// Calls `uuid::Uuid::new_v4` and writes the identifier with `to_string`.
/// Trusted: the text is the hyphenated lower-case form of a version 4
/// identifier, which is 36 characters long. Nothing is said of which
/// identifier it is: it is drawn at random, from the operating system's
/// source of random bytes.
#[verifier::external_body]
fn fresh_id() -> (id: String)
    ensures
        id@.len() == 36,
        is_uuid_text(id@),
{
    Uuid::new_v4().to_string()
}

/// The sentinel as a string.
pub fn placeholder() -> (s: String)
    ensures
        s@ == sentinel(),
{
    "(unchanged)".to_owned()
}

fn copy_text(o: &Option<String>) -> (r: Option<String>)
    ensures
        text_of(r) == text_of(*o),
{
    match o {
        Some(s) => Some(s.clone()),
        None => None,
    }
}

impl Clone for Settings {
    fn clone(&self) -> (r: Self)
        ensures
            r@ == self@,
    {
        Settings {
            id: self.id.clone(),
            remote: self.remote.clone(),
            name: copy_text(&self.name),
            autostart: self.autostart,
            password: copy_text(&self.password),
        }
    }
}

impl Default for Settings {
    /// The settings of a fresh installation, under a newly drawn identifier.
    fn default() -> (r: Self)
        ensures
            r@ == default_with(r@.id),
            r@.id.len() == 36,
            is_uuid_text(r@.id),
    {
        Settings::with_id(fresh_id())
    }
}

/// What failed, in words.
pub open spec fn headline_of(e: ConfigError) -> Seq<char> {
    match e {
        ConfigError::NotFound(_) => "Failed to read config file"@,
        ConfigError::Parse(_) => "Failed to parse config file"@,
        ConfigError::Io(_) => "Failed to write config file"@,
    }
}

/// The cause that a storage failure carries.
pub open spec fn cause_of(e: ConfigError) -> Seq<char> {
    match e {
        ConfigError::NotFound(cause) => cause@,
        ConfigError::Parse(cause) => cause@,
        ConfigError::Io(cause) => cause@,
    }
}

/// The text that tells the user of a storage failure: what failed, a colon
/// and a space, and the cause.
pub open spec fn message_of(e: ConfigError) -> Seq<char> {
    headline_of(e) + ": "@ + cause_of(e)
}

impl ConfigError {
    /// The text that tells the user of this failure.
    pub fn message(&self) -> (s: String)
        ensures
            s@ == message_of(*self),
    {
        let mut s = match self {
            ConfigError::NotFound(_) => "Failed to read config file".to_owned(),
            ConfigError::Parse(_) => "Failed to parse config file".to_owned(),
            ConfigError::Io(_) => "Failed to write config file".to_owned(),
        };
        s.append(": ");
        match self {
            ConfigError::NotFound(cause) => s.append(cause.as_str()),
            ConfigError::Parse(cause) => s.append(cause.as_str()),
            ConfigError::Io(cause) => s.append(cause.as_str()),
        }
        s
    }
}

impl Settings {
    /// Path of the settings file, relative to the folder of the executable.
    pub const CONFIG_PATH: &'static str = "config.toml";

    /// The settings of a fresh installation with the given identifier: the
    /// default endpoint, no label, launch on login enabled, no secret.
    pub fn with_id(id: String) -> (r: Settings)
        ensures
            r@ == default_with(id@),
    {
        Settings {
            id,
            remote: "https://lan.pein-gera.de".to_owned(),
            name: None,
            autostart: true,
            password: None,
        }
    }

    /// This record as it is handed out: with `censor`, a secret that is set
    /// shows as the sentinel. Every other field is kept.
    pub fn censor(self, censor: bool) -> (r: Settings)
        ensures
            r@ == censored(self@, censor),
    {
        let hidden: Option<String> = match self.password {
            Some(p) => if censor {
                Some(placeholder())
            } else {
                Some(p)
            },
            None => None,
        };
        Settings {
            id: self.id,
            remote: self.remote,
            name: self.name,
            autostart: self.autostart,
            password: hidden,
        }
    }

    /// Turns what was read from the settings file into what the caller gets:
    /// a record that was read is handed out, censored if asked; a failed read
    /// is passed on as it is.
    pub fn load(stored: Result<Settings, ConfigError>, censor: bool) -> (r: Result<
        Settings,
        ConfigError,
    >)
        ensures
            outcome_view(r) == loaded(outcome_view(stored), censor),
    {
        match stored {
            Ok(s) => Ok(s.censor(censor)),
            Err(e) => Err(e),
        }
    }

    /// Whether the secret of these settings is the sentinel, so that storing
    /// them needs the record that storage holds.
    pub fn keeps_secret(&self) -> (b: bool)
        ensures
            b == (self@.password == Some(sentinel())),
    {
        match &self.password {
            Some(p) => *p == placeholder(),
            None => false,
        }
    }

    /// The record to write when these settings are stored over `held`, the
    /// uncensored record that storage holds. The identifier stays the one
    /// that `held` has: an identifier that these settings carry is not
    /// stored. An absent or empty secret clears the stored one, the sentinel
    /// keeps it, and any other text is stored as its digest. The remaining
    /// fields go to storage as they are. The record holds no plaintext,
    /// unless the sentinel kept one that `held` had.
    pub fn store_over(&self, held: &Settings) -> (r: Settings)
        ensures
            persisted(self@, Ok(held@)) == Ok::<SettingsView, ConfigError>(r@),
            r@.id == held@.id,
            at_rest(held@) || self@.password != Some(sentinel()) ==> at_rest(r@),
    {
        let secret: Option<String> = match &self.password {
            None => None,
            Some(p) => {
                if p.as_str().is_empty() {
                    None
                } else if *p == placeholder() {
                    copy_text(&held.password)
                } else {
                    Some(hash_secret(p.as_str()))
                }
            },
        };
        Settings {
            id: held.id.clone(),
            remote: self.remote.clone(),
            name: copy_text(&self.name),
            autostart: self.autostart,
            password: secret,
        }
    }

    /// The record to write when these settings are stored, given `current`,
    /// the uncensored outcome of reading the settings file. Over a record that
    /// was read the result is that of `store_over`. After a failed read, the
    /// sentinel cannot be resolved and the read's error is returned; any other
    /// secret is resolved as before, since it does not depend on what storage
    /// held.
    pub fn store(&self, current: &Result<Settings, ConfigError>) -> (r: Result<
        Settings,
        ConfigError,
    >)
        ensures
            outcome_view(r) == persisted(self@, outcome_view(*current)),
            outcome_at_rest(outcome_view(*current)) ==> outcome_at_rest(outcome_view(r)),
            self@.password != Some(sentinel()) ==> outcome_at_rest(outcome_view(r)),
    {
        proof {
            reveal_strlit("(unchanged)");
        }
        match current {
            Ok(held) => Ok(self.store_over(held)),
            Err(e) => {
                if self.keeps_secret() {
                    Err(e.clone())
                } else {
                    Ok(self.store_over(self))
                }
            },
        }
    }

    /// The settings of a fresh installation, under a newly drawn identifier.
    /// They are made where no record could be read, and the caller writes
    /// them to the settings file as they are: having no secret, they are
    /// their own stored form after any failed read.
    pub fn create_default() -> (r: Settings)
        ensures
            r@ == default_with(r@.id),
            r@.id.len() == 36,
            is_uuid_text(r@.id),
            at_rest(r@),
            forall|e: ConfigError| #[trigger]
                persisted(r@, Err::<SettingsView, ConfigError>(e)) == Ok::<
                    SettingsView,
                    ConfigError,
                >(r@),
    {
        let r = Settings::default();
        proof {
            assert forall|e: ConfigError| #[trigger]
                persisted(r@, Err::<SettingsView, ConfigError>(e)) == Ok::<
                    SettingsView,
                    ConfigError,
                >(r@) by {
                assert(resolved_secret(r@.password, Err::<SettingsView, ConfigError>(e)) == Ok::<
                    Option<Seq<char>>,
                    ConfigError,
                >(None));
            }
        }
        r
    }

    /// Reads the settings, falling back to those of a fresh installation. A
    /// record that was read is handed out, censored if asked, and nothing is
    /// to be written. After a failed read of any kind the result holds fresh
    /// default settings, and the same record as the one to write.
    pub fn load_or_create(stored: Result<Settings, ConfigError>, censor: bool) -> (r: Loaded)
        ensures
            match stored {
                Ok(s) => r.settings@ == censored(s@, censor) && r.persist is None,
                Err(_) => {
                    &&& r.settings@ == default_with(r.settings@.id)
                    &&& r.settings@.id.len() == 36
                    &&& is_uuid_text(r.settings@.id)
                    &&& r.persist is Some
                    &&& r.persist.unwrap()@ == r.settings@
                },
            },
    {
        match Settings::load(stored, censor) {
            Ok(s) => Loaded { settings: s, persist: None },
            Err(_) => {
                let fresh = Settings::create_default();
                let record = fresh.clone();
                Loaded { settings: fresh, persist: Some(record) }
            },
        }
    }
}

/// Settings for the caller, and the record to write first, if any.
#[derive(Debug)]
pub struct Loaded {
    /// The settings to hand out.
    pub settings: Settings,
    /// The record to write to the settings file, where none could be read.
    pub persist: Option<Settings>,
}

/// Storing and then reading back without censoring gives the stored record:
/// the settings that were written, but for the identifier, which is the kept
/// one, and the secret, which is the one resolved against what storage held
/// before. So settings that carry the stored identifier, or are the first to
/// be stored, come back as they were written but for the secret, and a
/// plaintext secret comes back as its digest.
pub proof fn lemma_store_then_load(s: SettingsView, current: Result<SettingsView, ConfigError>)
    ensures
        loaded(persisted(s, current), false) == persisted(s, current),
        match resolved_secret(s.password, current) {
            Ok(p) => loaded(persisted(s, current), false) == Ok::<SettingsView, ConfigError>(
                SettingsView { id: kept_id(s.id, current), password: p, ..s },
            ),
            Err(e) => loaded(persisted(s, current), false) == Err::<SettingsView, ConfigError>(e),
        },
        kept_id(s.id, current) == s.id && s.password is Some && s.password.unwrap().len() > 0
            && s.password.unwrap() != sentinel() ==> loaded(persisted(s, current), false) == Ok::<
            SettingsView,
            ConfigError,
        >(SettingsView { password: Some(hashed(s.password.unwrap())), ..s }),
{
}

/// Storing settings whose secret is the sentinel keeps the secret that
/// storage held, as it keeps the identifier, and changes the other fields to
/// the new ones.
pub proof fn lemma_sentinel_keeps_secret(s: SettingsView, held: SettingsView)
    requires
        s.password == Some(sentinel()),
    ensures
        persisted(s, Ok(held)) == Ok::<SettingsView, ConfigError>(
            SettingsView { id: held.id, password: held.password, ..s },
        ),
{
    reveal_strlit("(unchanged)");
}

/// Storing settings whose secret is absent or empty leaves no secret in
/// storage, whatever storage held.
pub proof fn lemma_empty_clears_secret(s: SettingsView, current: Result<SettingsView, ConfigError>)
    requires
        s.password is None || s.password.unwrap().len() == 0,
    ensures
        persisted(s, current) == Ok::<SettingsView, ConfigError>(
            SettingsView { id: kept_id(s.id, current), password: None, ..s },
        ),
{
}

/// A censored read never shows a digest: the secret it hands out is absent or
/// the sentinel, and the sentinel does not have the shape of a digest.
pub proof fn lemma_censored_hides_digest(v: SettingsView)
    ensures
        censored(v, true).password == if v.password is Some {
            Some(sentinel())
        } else {
            None
        },
        !is_digest_text(sentinel()),
        censored(v, true).password is Some ==> !is_digest_text(
            censored(v, true).password.unwrap(),
        ),
{
    reveal_strlit("(unchanged)");
}

/// The identifier is immutable once it is stored: a write over a record
/// that storage holds always succeeds and stores that record's identifier,
/// whatever identifier the written settings carry, and a read hands out the
/// stored identifier, censored or not.
pub proof fn lemma_id_is_kept(s: SettingsView, held: SettingsView, censor: bool)
    ensures
        persisted(s, Ok(held)) is Ok,
        persisted(s, Ok(held)).unwrap().id == held.id,
        loaded(Ok(held), censor) is Ok,
        loaded(Ok(held), censor).unwrap().id == held.id,
{
}

} // verus!
