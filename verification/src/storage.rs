//! What the host stores: the sources and the settings, without their
//! secrets. Secrets live in the system's keyring, which belongs to the
//! caller: each operation here says which secrets are to be stored or
//! deleted, and takes the secrets that were read.

use vstd::prelude::*;
use vstd::string::*;
use crate::json::{
    bool_of,
    items_of,
    json_bool,
    json_items,
    json_member,
    json_parsed,
    json_text,
    json_u32_list,
    json_u64,
    member,
    parse,
    text_of,
    u32_list_of,
    u64_of,
};
use crate::text::{join2, text_eq};

verus! {

/// A source of channels as the frontend knows it, password included.
#[derive(Debug)]
pub struct Source {
    pub id: String,
    pub name: String,
    pub source_type: String,
    pub url: String,
    pub enabled: bool,
    pub epg_url: Option<String>,
    pub auto_load_epg: Option<bool>,
    pub username: Option<String>,
    pub password: Option<String>,
}

/// A source as it is stored: without its password.
#[derive(Debug)]
pub struct StoredSource {
    pub id: String,
    pub name: String,
    pub source_type: String,
    pub url: String,
    pub enabled: bool,
    pub epg_url: Option<String>,
    pub auto_load_epg: Option<bool>,
    pub username: Option<String>,
}

/// What a source holds, as mathematical values.
pub struct SourceModel {
    pub id: Seq<char>,
    pub name: Seq<char>,
    pub source_type: Seq<char>,
    pub url: Seq<char>,
    pub enabled: bool,
    pub epg_url: Option<Seq<char>>,
    pub auto_load_epg: Option<bool>,
    pub username: Option<Seq<char>>,
    pub password: Option<Seq<char>>,
}

/// The characters of an optional string.
pub open spec fn text_of_option(text: Option<String>) -> Option<Seq<char>> {
    match text {
        Some(t) => Some(t@),
        None => None,
    }
}

impl View for Source {
    type V = SourceModel;

    open spec fn view(&self) -> SourceModel {
        SourceModel {
            id: self.id@,
            name: self.name@,
            source_type: self.source_type@,
            url: self.url@,
            enabled: self.enabled,
            epg_url: text_of_option(self.epg_url),
            auto_load_epg: self.auto_load_epg,
            username: text_of_option(self.username),
            password: text_of_option(self.password),
        }
    }
}

impl View for StoredSource {
    type V = SourceModel;

    open spec fn view(&self) -> SourceModel {
        SourceModel {
            id: self.id@,
            name: self.name@,
            source_type: self.source_type@,
            url: self.url@,
            enabled: self.enabled,
            epg_url: text_of_option(self.epg_url),
            auto_load_epg: self.auto_load_epg,
            username: text_of_option(self.username),
            password: None,
        }
    }
}

/// What each of a list of stored sources holds.
pub open spec fn source_models(sources: Seq<StoredSource>) -> Seq<SourceModel> {
    Seq::new(sources.len(), |i: int| sources[i]@)
}

/// The name of a secret in the keyring: the id of its owner and the field,
/// with a colon between.
pub open spec fn keyring_key_of(id: Seq<char>, field: Seq<char>) -> Seq<char> {
    id + ":"@ + field
}

/// The name of a secret in the keyring.
pub fn keyring_key(id: &str, field: &str) -> (key: String)
    ensures
        key@ == keyring_key_of(id@, field@),
{
    let mut key = join2(id, ":");
    key.append(field);
    key
}

/// What is to be done to a secret in the keyring.
#[derive(Debug)]
pub enum SecretAction {
    /// Store the value under the key.
    Store { key: String, value: String },
    /// Delete what is under the key.
    Delete { key: String },
}

pub enum SecretActionModel {
    Store { key: Seq<char>, value: Seq<char> },
    Delete { key: Seq<char> },
}

impl View for SecretAction {
    type V = SecretActionModel;

    open spec fn view(&self) -> SecretActionModel {
        match self {
            SecretAction::Store { key, value } => SecretActionModel::Store { key: key@, value: value@ },
            SecretAction::Delete { key } => SecretActionModel::Delete { key: key@ },
        }
    }
}

/// The view of an action that may be missing.
pub open spec fn action_model(action: Option<SecretAction>) -> Option<SecretActionModel> {
    match action {
        Some(a) => Some(a@),
        None => None,
    }
}

/// Whether a source has a password in the keyring: the sources of type
/// `xtream` do.
pub open spec fn keeps_password(source: SourceModel) -> bool {
    source.source_type == "xtream"@
}

fn copy_text(text: &Option<String>) -> (out: Option<String>)
    ensures
        text_of_option(out) == text_of_option(*text),
{
    match text {
        Some(t) => Some(t.clone()),
        None => None,
    }
}

impl StoredSource {
    /// The name of the source's password in the keyring, if it has one
    /// there.
    pub fn password_key(&self) -> (key: Option<String>)
        ensures
            text_of_option(key) == (if keeps_password(self@) {
                Some(keyring_key_of(self.id@, "password"@))
            } else {
                None
            }),
    {
        if text_eq(self.source_type.as_str(), "xtream") {
            Some(keyring_key(self.id.as_str(), "password"))
        } else {
            None
        }
    }

    /// The source as the frontend knows it, with the password that was
    /// read from the keyring. A source that keeps none there has none.
    pub fn to_source(&self, password: Option<String>) -> (source: Source)
        ensures
            source@ == (SourceModel {
                password: if keeps_password(self@) {
                    text_of_option(password)
                } else {
                    None
                },
                ..self@
            }),
    {
        let password = if text_eq(self.source_type.as_str(), "xtream") {
            password
        } else {
            None
        };
        Source {
            id: self.id.clone(),
            name: self.name.clone(),
            source_type: self.source_type.clone(),
            url: self.url.clone(),
            enabled: self.enabled,
            epg_url: copy_text(&self.epg_url),
            auto_load_epg: self.auto_load_epg,
            username: copy_text(&self.username),
            password,
        }
    }
}

/// The settings as the frontend knows them, keys included.
#[derive(Debug)]
pub struct AppSettings {
    pub theme: String,
    pub last_source_id: Option<String>,
    pub tmdb_api_key: Option<String>,
    pub vod_refresh_hours: Option<u32>,
    pub epg_refresh_hours: Option<u32>,
    pub movie_genres_enabled: Option<Vec<u32>>,
    pub series_genres_enabled: Option<Vec<u32>>,
    pub poster_db_api_key: Option<String>,
    pub rpdb_backdrops_enabled: Option<bool>,
    pub allow_lan_sources: Option<bool>,
}

/// The settings as they are stored: without the keys.
#[derive(Debug)]
pub struct StoredSettings {
    pub theme: String,
    pub last_source_id: Option<String>,
    pub vod_refresh_hours: Option<u32>,
    pub epg_refresh_hours: Option<u32>,
    pub movie_genres_enabled: Option<Vec<u32>>,
    pub series_genres_enabled: Option<Vec<u32>>,
    pub rpdb_backdrops_enabled: Option<bool>,
    pub allow_lan_sources: Option<bool>,
}

/// What the settings hold, as mathematical values.
pub struct SettingsModel {
    pub theme: Seq<char>,
    pub last_source_id: Option<Seq<char>>,
    pub tmdb_api_key: Option<Seq<char>>,
    pub vod_refresh_hours: Option<u32>,
    pub epg_refresh_hours: Option<u32>,
    pub movie_genres_enabled: Option<Seq<u32>>,
    pub series_genres_enabled: Option<Seq<u32>>,
    pub poster_db_api_key: Option<Seq<char>>,
    pub rpdb_backdrops_enabled: Option<bool>,
    pub allow_lan_sources: Option<bool>,
}

/// The numbers of an optional list.
pub open spec fn list_of_option(list: Option<Vec<u32>>) -> Option<Seq<u32>> {
    match list {
        Some(l) => Some(l@),
        None => None,
    }
}

impl View for AppSettings {
    type V = SettingsModel;

    open spec fn view(&self) -> SettingsModel {
        SettingsModel {
            theme: self.theme@,
            last_source_id: text_of_option(self.last_source_id),
            tmdb_api_key: text_of_option(self.tmdb_api_key),
            vod_refresh_hours: self.vod_refresh_hours,
            epg_refresh_hours: self.epg_refresh_hours,
            movie_genres_enabled: list_of_option(self.movie_genres_enabled),
            series_genres_enabled: list_of_option(self.series_genres_enabled),
            poster_db_api_key: text_of_option(self.poster_db_api_key),
            rpdb_backdrops_enabled: self.rpdb_backdrops_enabled,
            allow_lan_sources: self.allow_lan_sources,
        }
    }
}

impl View for StoredSettings {
    type V = SettingsModel;

    open spec fn view(&self) -> SettingsModel {
        SettingsModel {
            theme: self.theme@,
            last_source_id: text_of_option(self.last_source_id),
            tmdb_api_key: None,
            vod_refresh_hours: self.vod_refresh_hours,
            epg_refresh_hours: self.epg_refresh_hours,
            movie_genres_enabled: list_of_option(self.movie_genres_enabled),
            series_genres_enabled: list_of_option(self.series_genres_enabled),
            poster_db_api_key: None,
            rpdb_backdrops_enabled: self.rpdb_backdrops_enabled,
            allow_lan_sources: self.allow_lan_sources,
        }
    }
}

/// The settings of a fresh installation: the dark theme, media lists
/// refreshed daily and the guide every six hours, backdrops and local
/// network access off, and nothing else set.
pub open spec fn default_settings() -> SettingsModel {
    SettingsModel {
        theme: "dark"@,
        last_source_id: None,
        tmdb_api_key: None,
        vod_refresh_hours: Some(24),
        epg_refresh_hours: Some(6),
        movie_genres_enabled: None,
        series_genres_enabled: None,
        poster_db_api_key: None,
        rpdb_backdrops_enabled: Some(false),
        allow_lan_sources: Some(false),
    }
}

impl Default for AppSettings {
    fn default() -> (out: Self)
        ensures
            out@ == default_settings(),
    {
        AppSettings {
            theme: String::from_str("dark"),
            last_source_id: None,
            tmdb_api_key: None,
            vod_refresh_hours: Some(24),
            epg_refresh_hours: Some(6),
            movie_genres_enabled: None,
            series_genres_enabled: None,
            poster_db_api_key: None,
            rpdb_backdrops_enabled: Some(false),
            allow_lan_sources: Some(false),
        }
    }
}

impl Default for StoredSettings {
    fn default() -> (out: Self)
        ensures
            out@ == default_settings(),
    {
        StoredSettings {
            theme: String::from_str("dark"),
            last_source_id: None,
            vod_refresh_hours: Some(24),
            epg_refresh_hours: Some(6),
            movie_genres_enabled: None,
            series_genres_enabled: None,
            rpdb_backdrops_enabled: Some(false),
            allow_lan_sources: Some(false),
        }
    }
}

fn copy_list(list: &Option<Vec<u32>>) -> (out: Option<Vec<u32>>)
    ensures
        list_of_option(out) == list_of_option(*list),
{
    match list {
        Some(l) => {
            let copy = l.clone();
            assert(copy@ =~= l@);
            Some(copy)
        },
        None => None,
    }
}

/// What is stored: the sources in the order they were added, and the
/// settings.
#[derive(Debug)]
pub struct StoreData {
    pub sources: Vec<StoredSource>,
    pub settings: StoredSettings,
}

impl Default for StoreData {
    fn default() -> (out: Self)
        ensures
            out.sources@.len() == 0,
            out.settings@ == default_settings(),
    {
        StoreData { sources: Vec::new(), settings: StoredSettings::default() }
    }
}

/// The store of the host: where its data is kept on disk, and the data.
#[derive(Debug)]
pub struct StorageState {
    pub data_path: String,
    pub data: StoreData,
}

/// Whether `i` is the place of the first source with this id.
pub open spec fn first_with_id(sources: Seq<SourceModel>, id: Seq<char>, i: int) -> bool {
    &&& 0 <= i < sources.len()
    &&& sources[i].id == id
    &&& forall|j: int| 0 <= j < i ==> (#[trigger] sources[j]).id != id
}

/// Whether no source has this id.
pub open spec fn no_source_with_id(sources: Seq<SourceModel>, id: Seq<char>) -> bool {
    forall|j: int| 0 <= j < sources.len() ==> (#[trigger] sources[j]).id != id
}

/// The sources that have another id than this, in their order.
pub open spec fn sources_without(sources: Seq<SourceModel>, id: Seq<char>) -> Seq<SourceModel> {
    sources.filter(|s: SourceModel| s.id != id)
}

/// A source as it is stored: what it holds but the password.
pub open spec fn stored_model(source: SourceModel) -> SourceModel {
    SourceModel { password: None, ..source }
}

/// What is to be done to the keyring when a source is saved: the password
/// of a source that keeps one there is stored.
pub open spec fn password_to_store(source: SourceModel) -> Option<SecretActionModel> {
    if keeps_password(source) && source.password is Some {
        Some(
            SecretActionModel::Store {
                key: keyring_key_of(source.id, "password"@),
                value: source.password.unwrap(),
            },
        )
    } else {
        None
    }
}

/// The settings after a change. Each member of the change that is there
/// and of the right kind sets its setting; every other setting stays. The
/// last source is set by whatever stands under its name, and to nothing
/// where that is no string; so are the genre lists, and to nothing where
/// their member is no list of numbers. Hours above 32 bits keep their low
/// 32 bits.
pub open spec fn changed_settings(old: SettingsModel, change: serde_json::Value) -> SettingsModel {
    SettingsModel {
        theme: match json_member(change, "theme"@) {
            Some(v) => match json_text(v) {
                Some(theme) => theme,
                None => old.theme,
            },
            None => old.theme,
        },
        last_source_id: match json_member(change, "lastSourceId"@) {
            Some(v) => json_text(v),
            None => old.last_source_id,
        },
        tmdb_api_key: None,
        vod_refresh_hours: hours_in(old.vod_refresh_hours, json_member(change, "vodRefreshHours"@)),
        epg_refresh_hours: hours_in(old.epg_refresh_hours, json_member(change, "epgRefreshHours"@)),
        movie_genres_enabled: match json_member(change, "movieGenresEnabled"@) {
            Some(v) => json_u32_list(v),
            None => old.movie_genres_enabled,
        },
        series_genres_enabled: match json_member(change, "seriesGenresEnabled"@) {
            Some(v) => json_u32_list(v),
            None => old.series_genres_enabled,
        },
        poster_db_api_key: None,
        rpdb_backdrops_enabled: flag_in(
            old.rpdb_backdrops_enabled,
            json_member(change, "rpdbBackdropsEnabled"@),
        ),
        allow_lan_sources: flag_in(old.allow_lan_sources, json_member(change, "allowLanSources"@)),
    }
}

/// A number of hours after a change: the low 32 bits of the member where
/// it is a number that fits `u64`, else what it was.
pub open spec fn hours_in(old: Option<u32>, member: Option<serde_json::Value>) -> Option<u32> {
    match member {
        Some(v) => match json_u64(v) {
            Some(hours) => Some((hours % 0x1_0000_0000) as u32),
            None => old,
        },
        None => old,
    }
}

/// A flag after a change: the member where it is a boolean, else what it
/// was.
pub open spec fn flag_in(old: Option<bool>, member: Option<serde_json::Value>) -> Option<bool> {
    match member {
        Some(v) => match json_bool(v) {
            Some(flag) => Some(flag),
            None => old,
        },
        None => old,
    }
}

/// What a change does to a key in the keyring: nothing where the change
/// has no member of that name; the member's text is stored where it is a
/// string that is not empty; the key is deleted otherwise.
pub open spec fn key_change(change: serde_json::Value, member: Seq<char>, key: Seq<char>) -> Option<
    SecretActionModel,
> {
    match json_member(change, member) {
        None => None,
        Some(v) => match json_text(v) {
            Some(text) => if text.len() > 0 {
                Some(SecretActionModel::Store { key, value: text })
            } else {
                Some(SecretActionModel::Delete { key })
            },
            None => Some(SecretActionModel::Delete { key }),
        },
    }
}

fn low_u32(hours: u64) -> (out: u32)
    ensures
        out == (hours % 0x1_0000_0000) as u32,
{
    (hours % 0x1_0000_0000) as u32
}

fn changed_hours(old: Option<u32>, change: &serde_json::Value, name: &str) -> (out: Option<u32>)
    ensures
        out == hours_in(old, json_member(*change, name@)),
{
    match member(change, name) {
        Some(v) => match u64_of(v) {
            Some(hours) => Some(low_u32(hours)),
            None => old,
        },
        None => old,
    }
}

fn changed_flag(old: Option<bool>, change: &serde_json::Value, name: &str) -> (out: Option<bool>)
    ensures
        out == flag_in(old, json_member(*change, name@)),
{
    match member(change, name) {
        Some(v) => match bool_of(v) {
            Some(flag) => Some(flag),
            None => old,
        },
        None => old,
    }
}

fn changed_key(change: &serde_json::Value, name: &str, key: &str) -> (out: Option<SecretAction>)
    ensures
        action_model(out) == key_change(*change, name@, key@),
{
    match member(change, name) {
        None => None,
        Some(v) => match text_of(v) {
            Some(text) => {
                if text.unicode_len() > 0 {
                    Some(SecretAction::Store { key: String::from_str(key), value: String::from_str(text) })
                } else {
                    Some(SecretAction::Delete { key: String::from_str(key) })
                }
            },
            None => Some(SecretAction::Delete { key: String::from_str(key) }),
        },
    }
}

/// The text of a member, and a default where the member is missing or no
/// string.
pub open spec fn text_or(member: Option<serde_json::Value>, default: Seq<char>) -> Seq<char> {
    match member {
        Some(v) => match json_text(v) {
            Some(text) => text,
            None => default,
        },
        None => default,
    }
}

/// The text of a member, if it is there and a string.
pub open spec fn text_in(member: Option<serde_json::Value>) -> Option<Seq<char>> {
    match member {
        Some(v) => json_text(v),
        None => None,
    }
}

/// The flag of a member, if it is there and a boolean.
pub open spec fn bool_in(member: Option<serde_json::Value>) -> Option<bool> {
    match member {
        Some(v) => json_bool(v),
        None => None,
    }
}

/// The source that an item of an earlier installation's list stands for.
/// What is missing is empty, but the type, which is then `m3u`, and the
/// source is enabled unless the item says otherwise. Passwords do not come
/// over.
pub open spec fn migrated_source(item: serde_json::Value) -> SourceModel {
    SourceModel {
        id: text_or(json_member(item, "id"@), Seq::empty()),
        name: text_or(json_member(item, "name"@), Seq::empty()),
        source_type: text_or(json_member(item, "type"@), "m3u"@),
        url: text_or(json_member(item, "url"@), Seq::empty()),
        enabled: match bool_in(json_member(item, "enabled"@)) {
            Some(flag) => flag,
            None => true,
        },
        epg_url: text_in(json_member(item, "epg_url"@)),
        auto_load_epg: bool_in(json_member(item, "auto_load_epg"@)),
        username: text_in(json_member(item, "username"@)),
        password: None,
    }
}

/// The sources of an earlier installation's configuration: one for each
/// item of the list under `sources`, in order, and none where there is no
/// such list.
pub open spec fn migrated_sources(config: serde_json::Value) -> Seq<SourceModel> {
    match json_member(config, "sources"@) {
        Some(list) => match json_items(list) {
            Some(items) => Seq::new(items.len(), |i: int| migrated_source(items[i])),
            None => Seq::empty(),
        },
        None => Seq::empty(),
    }
}

/// The settings of an earlier installation's configuration: the defaults
/// where it has none; else what stands under `settings`, where the theme
/// defaults to dark, every other setting that is missing or of the wrong
/// kind is unset, and the genre lists and the keys do not come over.
pub open spec fn migrated_settings(config: serde_json::Value) -> SettingsModel {
    match json_member(config, "settings"@) {
        None => default_settings(),
        Some(s) => SettingsModel {
            theme: text_or(json_member(s, "theme"@), "dark"@),
            last_source_id: text_in(json_member(s, "lastSourceId"@)),
            tmdb_api_key: None,
            vod_refresh_hours: hours_in(None, json_member(s, "vodRefreshHours"@)),
            epg_refresh_hours: hours_in(None, json_member(s, "epgRefreshHours"@)),
            movie_genres_enabled: None,
            series_genres_enabled: None,
            poster_db_api_key: None,
            rpdb_backdrops_enabled: bool_in(json_member(s, "rpdbBackdropsEnabled"@)),
            allow_lan_sources: bool_in(json_member(s, "allowLanSources"@)),
        },
    }
}

fn member_text_or(value: &serde_json::Value, name: &str, default: &str) -> (out: String)
    ensures
        out@ == text_or(json_member(*value, name@), default@),
{
    match member(value, name) {
        Some(v) => match text_of(v) {
            Some(text) => String::from_str(text),
            None => String::from_str(default),
        },
        None => String::from_str(default),
    }
}

fn member_text(value: &serde_json::Value, name: &str) -> (out: Option<String>)
    ensures
        text_of_option(out) == text_in(json_member(*value, name@)),
{
    match member(value, name) {
        Some(v) => match text_of(v) {
            Some(text) => Some(String::from_str(text)),
            None => None,
        },
        None => None,
    }
}

fn member_bool(value: &serde_json::Value, name: &str) -> (out: Option<bool>)
    ensures
        out == bool_in(json_member(*value, name@)),
{
    match member(value, name) {
        Some(v) => bool_of(v),
        None => None,
    }
}

fn migrate_source(item: &serde_json::Value) -> (out: StoredSource)
    ensures
        out@ == migrated_source(*item),
{
    let empty = String::new();
    let enabled = match member_bool(item, "enabled") {
        Some(flag) => flag,
        None => true,
    };
    StoredSource {
        id: member_text_or(item, "id", empty.as_str()),
        name: member_text_or(item, "name", empty.as_str()),
        source_type: member_text_or(item, "type", "m3u"),
        url: member_text_or(item, "url", empty.as_str()),
        enabled,
        epg_url: member_text(item, "epg_url"),
        auto_load_epg: member_bool(item, "auto_load_epg"),
        username: member_text(item, "username"),
    }
}

fn migrate_sources(config: &serde_json::Value) -> (out: Vec<StoredSource>)
    ensures
        source_models(out@) == migrated_sources(*config),
{
    let mut out: Vec<StoredSource> = Vec::new();
    let items = match member(config, "sources") {
        Some(list) => match items_of(list) {
            Some(items) => items,
            None => {
                assert(source_models(out@) =~= migrated_sources(*config));
                return out;
            },
        },
        None => {
            assert(source_models(out@) =~= migrated_sources(*config));
            return out;
        },
    };
    let mut i: usize = 0;
    while i < items.len()
        invariant
            i <= items.len(),
            out@.len() == i,
            forall|j: int| 0 <= j < i ==> (#[trigger] out@[j])@ == migrated_source(items@[j]),
        decreases items.len() - i,
    {
        out.push(migrate_source(&items[i]));
        i += 1;
    }
    assert(source_models(out@) =~= Seq::new(items@.len(), |i: int| migrated_source(items@[i])));
    out
}

fn migrate_settings(config: &serde_json::Value) -> (out: StoredSettings)
    ensures
        out@ == migrated_settings(*config),
{
    match member(config, "settings") {
        None => StoredSettings::default(),
        Some(s) => StoredSettings {
            theme: member_text_or(s, "theme", "dark"),
            last_source_id: member_text(s, "lastSourceId"),
            vod_refresh_hours: changed_hours(None, s, "vodRefreshHours"),
            epg_refresh_hours: changed_hours(None, s, "epgRefreshHours"),
            movie_genres_enabled: None,
            series_genres_enabled: None,
            rpdb_backdrops_enabled: member_bool(s, "rpdbBackdropsEnabled"),
            allow_lan_sources: member_bool(s, "allowLanSources"),
        },
    }
}

/// The data of an earlier installation, from the text of its
/// configuration: nothing where the text is no JSON, else its sources and
/// its settings as far as they come over.
pub fn try_migrate_electron_data(content: &str) -> (out: Option<StoreData>)
    ensures
        match (out, json_parsed(content@)) {
            (Some(data), Some(config)) => {
                &&& source_models(data.sources@) == migrated_sources(config)
                &&& data.settings@ == migrated_settings(config)
            },
            (None, None) => true,
            _ => false,
        },
{
    match parse(content) {
        Some(config) => Some(
            StoreData { sources: migrate_sources(&config), settings: migrate_settings(&config) },
        ),
        None => None,
    }
}

/// The store at startup. Data that was read from the store's own file is
/// taken as it is, and the defaults where the file held none that could be
/// read (`Some(None)`). Where there was no such file (`None`), the data of
/// an earlier installation is taken, if there is any, and is then to be
/// written to the store's file; else the defaults.
pub fn init(data_path: String, existing: Option<Option<StoreData>>, legacy: Option<StoreData>) -> (out: (
    StorageState,
    bool,
))
    ensures
        out.0.data_path == data_path,
        match existing {
            Some(Some(data)) => out.0.data == data && !out.1,
            Some(None) => {
                &&& out.0.data.sources@.len() == 0
                &&& out.0.data.settings@ == default_settings()
                &&& !out.1
            },
            None => match legacy {
                Some(data) => out.0.data == data && out.1,
                None => {
                    &&& out.0.data.sources@.len() == 0
                    &&& out.0.data.settings@ == default_settings()
                    &&& !out.1
                },
            },
        },
{
    match existing {
        Some(Some(data)) => (StorageState { data_path, data }, false),
        Some(None) => (StorageState { data_path, data: StoreData::default() }, false),
        None => match legacy {
            Some(data) => (StorageState { data_path, data }, true),
            None => (StorageState { data_path, data: StoreData::default() }, false),
        },
    }
}

/// Whether secrets can be kept in the keyring, from a trial: an entry
/// could be made, and what was stored in it could be read back.
pub fn is_encryption_available(entry_made: bool, read_back: bool) -> (available: bool)
    ensures
        available == (entry_made && read_back),
{
    entry_made && read_back
}

/// The outcome of an operation on the store as the frontend gets it.
#[derive(Debug)]
pub struct StorageResult<T> {
    pub success: Option<bool>,
    pub error: Option<String>,
    pub data: Option<T>,
    pub canceled: Option<bool>,
}

impl<T> StorageResult<T> {
    /// The outcome of an operation that went through, with its data.
    pub fn ok(data: T) -> (out: Self)
        ensures
            out.success == Some(true),
            out.error is None,
            out.data == Some(data),
            out.canceled is None,
    {
        StorageResult { success: Some(true), error: None, data: Some(data), canceled: None }
    }

    /// The outcome of an operation that went through and has no data.
    pub fn ok_void() -> (out: Self)
        ensures
            out.success == Some(true),
            out.error is None,
            out.data is None,
            out.canceled is None,
    {
        StorageResult { success: Some(true), error: None, data: None, canceled: None }
    }

    /// The outcome of an operation that failed.
    pub fn err(msg: String) -> (out: Self)
        ensures
            out.success == Some(false),
            out.error == Some(msg),
            out.data is None,
            out.canceled is None,
    {
        StorageResult { success: Some(false), error: Some(msg), data: None, canceled: None }
    }

    /// The outcome of an operation that the user called off.
    pub fn canceled() -> (out: Self)
        ensures
            out.success == Some(false),
            out.error is None,
            out.data is None,
            out.canceled == Some(true),
    {
        StorageResult { success: Some(false), error: None, data: None, canceled: Some(true) }
    }
}

/// A playlist that was picked and read: its text, and its file's name
/// without the extension.
#[derive(Debug)]
pub struct ImportedPlaylist {
    pub content: String,
    pub file_name: String,
}

/// How picking and reading a playlist went.
#[derive(Debug)]
pub enum ImportOutcome {
    /// The user picked nothing.
    Canceled,
    /// What was picked is no path in the file system, with the reason.
    NoPath(String),
    /// The file could not be read, with the reason.
    Unreadable(String),
    /// The file was read; its name may lack a stem that is text.
    Read { content: String, file_stem: Option<String> },
}

/// The outcome of importing a playlist as the frontend gets it. A file
/// whose name has no usable stem is called `playlist`.
pub fn import_m3u_file(outcome: ImportOutcome) -> (out: StorageResult<ImportedPlaylist>)
    ensures
        match outcome {
            ImportOutcome::Canceled => {
                &&& out.success == Some(false)
                &&& out.error is None
                &&& out.data is None
                &&& out.canceled == Some(true)
            },
            ImportOutcome::NoPath(reason) => {
                &&& out.success == Some(false)
                &&& out.error is Some
                &&& out.error.unwrap()@ == reason@
                &&& out.data is None
                &&& out.canceled is None
            },
            ImportOutcome::Unreadable(reason) => {
                &&& out.success == Some(false)
                &&& out.error is Some
                &&& out.error.unwrap()@ == "Failed to read file: "@ + reason@
                &&& out.data is None
                &&& out.canceled is None
            },
            ImportOutcome::Read { content, file_stem } => {
                &&& out.success == Some(true)
                &&& out.error is None
                &&& out.canceled is None
                &&& out.data is Some
                &&& out.data.unwrap().content == content
                &&& out.data.unwrap().file_name@ == (match file_stem {
                    Some(stem) => stem@,
                    None => "playlist"@,
                })
            },
        },
{
    match outcome {
        ImportOutcome::Canceled => StorageResult::canceled(),
        ImportOutcome::NoPath(reason) => StorageResult::err(reason),
        ImportOutcome::Unreadable(reason) => StorageResult::err(
            join2("Failed to read file: ", reason.as_str()),
        ),
        ImportOutcome::Read { content, file_stem } => {
            let file_name = match file_stem {
                Some(stem) => stem,
                None => String::from_str("playlist"),
            };
            StorageResult::ok(ImportedPlaylist { content, file_name })
        },
    }
}

impl StorageState {
    /// The sources that are stored, as mathematical values.
    pub open spec fn sources(&self) -> Seq<SourceModel> {
        source_models(self.data.sources@)
    }

    fn position(&self, id: &str) -> (out: Option<usize>)
        ensures
            match out {
                Some(i) => first_with_id(self.sources(), id@, i as int),
                None => no_source_with_id(self.sources(), id@),
            },
    {
        let mut i: usize = 0;
        while i < self.data.sources.len()
            invariant
                i <= self.data.sources.len(),
                forall|j: int| 0 <= j < i ==> (#[trigger] self.sources()[j]).id != id@,
            decreases self.data.sources.len() - i,
        {
            if text_eq(self.data.sources[i].id.as_str(), id) {
                return Some(i);
            }
            i += 1;
        }
        None
    }

    /// For each source that is stored, in order, the name of its password
    /// in the keyring, if it keeps one there.
    pub fn password_keys(&self) -> (keys: Vec<Option<String>>)
        ensures
            keys@.len() == self.sources().len(),
            forall|i: int|
                0 <= i < keys@.len() ==> text_of_option(#[trigger] keys@[i]) == (if keeps_password(
                    self.sources()[i],
                ) {
                    Some(keyring_key_of(self.sources()[i].id, "password"@))
                } else {
                    None
                }),
    {
        let mut keys: Vec<Option<String>> = Vec::new();
        let mut i: usize = 0;
        while i < self.data.sources.len()
            invariant
                i <= self.data.sources.len(),
                keys@.len() == i,
                forall|j: int|
                    0 <= j < i ==> text_of_option(#[trigger] keys@[j]) == (if keeps_password(
                        self.sources()[j],
                    ) {
                        Some(keyring_key_of(self.sources()[j].id, "password"@))
                    } else {
                        None
                    }),
            decreases self.data.sources.len() - i,
        {
            keys.push(self.data.sources[i].password_key());
            i += 1;
        }
        keys
    }

    /// The sources as the frontend knows them, in order, each with the
    /// password that was read from the keyring for it: the passwords stand
    /// in the order of the sources, and a source for which none was read,
    /// or none is given, has none.
    pub fn get_sources(&self, passwords: &Vec<Option<String>>) -> (out: Vec<Source>)
        ensures
            out@.len() == self.sources().len(),
            forall|i: int|
                0 <= i < out@.len() ==> (#[trigger] out@[i])@ == (SourceModel {
                    password: if keeps_password(self.sources()[i]) && i < passwords@.len() {
                        text_of_option(passwords@[i])
                    } else {
                        None
                    },
                    ..self.sources()[i]
                }),
    {
        let mut out: Vec<Source> = Vec::new();
        let mut i: usize = 0;
        while i < self.data.sources.len()
            invariant
                i <= self.data.sources.len(),
                out@.len() == i,
                forall|j: int|
                    0 <= j < i ==> (#[trigger] out@[j])@ == (SourceModel {
                        password: if keeps_password(self.sources()[j]) && j < passwords@.len() {
                            text_of_option(passwords@[j])
                        } else {
                            None
                        },
                        ..self.sources()[j]
                    }),
            decreases self.data.sources.len() - i,
        {
            let password = if i < passwords.len() {
                copy_text(&passwords[i])
            } else {
                None
            };
            out.push(self.data.sources[i].to_source(password));
            i += 1;
        }
        out
    }

    /// The first source with this id, if there is one, and the name of
    /// its password in the keyring, if it keeps one there.
    pub fn get_source(&self, id: &str) -> (out: Option<(&StoredSource, Option<String>)>)
        ensures
            match out {
                Some((source, key)) => {
                    &&& exists|i: int|
                        first_with_id(self.sources(), id@, i) && #[trigger] self.sources()[i]
                            == source@
                    &&& text_of_option(key) == (if keeps_password(source@) {
                        Some(keyring_key_of(id@, "password"@))
                    } else {
                        None
                    })
                },
                None => no_source_with_id(self.sources(), id@),
            },
    {
        match self.position(id) {
            Some(i) => {
                let source = &self.data.sources[i];
                assert(self.sources()[i as int] == source@);
                Some((source, source.password_key()))
            },
            None => None,
        }
    }

    /// Saves a source: it takes the place of the first source with its id,
    /// or comes last where there is none. The password is not stored with
    /// it; where the source keeps one in the keyring, the answer says to
    /// store it there.
    pub fn save_source(&mut self, source: Source) -> (action: Option<SecretAction>)
        ensures
            final(self).data_path == old(self).data_path,
            final(self).data.settings == old(self).data.settings,
            action_model(action) == password_to_store(source@),
            forall|i: int|
                first_with_id(old(self).sources(), source.id@, i) ==> final(self).sources() == old(
                    self,
                ).sources().update(i, stored_model(source@)),
            no_source_with_id(old(self).sources(), source.id@) ==> final(self).sources() == old(
                self,
            ).sources().push(stored_model(source@)),
    {
        let place = self.position(source.id.as_str());
        let xtream = text_eq(source.source_type.as_str(), "xtream");
        let key = keyring_key(source.id.as_str(), "password");
        let stored = StoredSource {
            id: source.id,
            name: source.name,
            source_type: source.source_type,
            url: source.url,
            enabled: source.enabled,
            epg_url: source.epg_url,
            auto_load_epg: source.auto_load_epg,
            username: source.username,
        };
        assert(stored@ == stored_model(source@));
        let action = match source.password {
            Some(password) => if xtream {
                Some(SecretAction::Store { key, value: password })
            } else {
                None
            },
            None => None,
        };
        match place {
            Some(i) => {
                self.data.sources[i] = stored;
                assert(self.sources() =~= old(self).sources().update(i as int, stored_model(source@)));
                assert forall|k: int| first_with_id(old(self).sources(), source.id@, k) implies k
                    == i by {
                    if k < i {
                        assert(old(self).sources()[k].id != source.id@);
                    } else if i < k {
                        assert(old(self).sources()[i as int].id != source.id@);
                    }
                };
            },
            None => {
                self.data.sources.push(stored);
                assert(self.sources() =~= old(self).sources().push(stored_model(source@)));
            },
        }
        action
    }

    /// Deletes every source with this id; the others keep their order.
    /// The answer says to delete the id's password from the keyring,
    /// whether or not a source had the id.
    pub fn delete_source(&mut self, id: &str) -> (action: SecretAction)
        ensures
            final(self).data_path == old(self).data_path,
            final(self).data.settings == old(self).data.settings,
            final(self).sources() == sources_without(old(self).sources(), id@),
            action@ == (SecretActionModel::Delete { key: keyring_key_of(id@, "password"@) }),
    {
        let ghost all = self.sources();
        let ghost keep = |s: SourceModel| s.id != id@;
        let mut kept: Vec<StoredSource> = Vec::new();
        let mut done: usize = 0;
        let total = self.data.sources.len();
        proof {
            reveal(Seq::filter);
            assert(all.take(0).filter(keep) =~= Seq::<SourceModel>::empty());
            assert(source_models(kept@) =~= Seq::<SourceModel>::empty());
            assert(source_models(self.data.sources@) =~= all.skip(0));
        }
        while done < total
            invariant
                done <= total,
                total == all.len(),
                keep == (|s: SourceModel| s.id != id@),
                self.data_path == old(self).data_path,
                self.data.settings == old(self).data.settings,
                source_models(kept@) == all.take(done as int).filter(keep),
                source_models(self.data.sources@) == all.skip(done as int),
            decreases total - done,
        {
            assert(source_models(self.data.sources@).len() == total - done);
            assert(source_models(self.data.sources@)[0] == all[done as int]);
            let ghost before = self.data.sources@;
            let source = self.data.sources.remove(0);
            assert(source@ == all[done as int]);
            let ghost kept_before = kept@;
            let same = text_eq(source.id.as_str(), id);
            if !same {
                kept.push(source);
            }
            proof {
                reveal(Seq::filter);
                let next = all.take(done as int + 1);
                assert(next.drop_last() =~= all.take(done as int));
                assert(next.last() == all[done as int]);
                assert(keep(all[done as int]) == !same);
                if !same {
                    assert(source_models(kept@) =~= source_models(kept_before).push(source@));
                }
                assert(source_models(kept@) =~= next.filter(keep));
                let rest = source_models(self.data.sources@);
                assert(self.data.sources@ == before.remove(0));
                assert forall|j: int| 0 <= j < rest.len() implies rest[j] == all[done + 1 + j] by {
                    assert(self.data.sources@[j] == before[j + 1]);
                    assert(source_models(before)[j + 1] == all.skip(done as int)[j + 1]);
                };
                assert(rest =~= all.skip(done as int + 1));
            }
            done += 1;
        }
        assert(all.take(total as int) =~= all);
        self.data.sources = kept;
        SecretAction::Delete { key: keyring_key(id, "password") }
    }

    /// The settings as the frontend knows them: what is stored, with the
    /// two keys that were read from the keyring.
    pub fn get_settings(&self, tmdb_api_key: Option<String>, poster_db_api_key: Option<String>) -> (out:
        AppSettings)
        ensures
            out@ == (SettingsModel {
                tmdb_api_key: text_of_option(tmdb_api_key),
                poster_db_api_key: text_of_option(poster_db_api_key),
                ..self.data.settings@
            }),
    {
        let s = &self.data.settings;
        AppSettings {
            theme: s.theme.clone(),
            last_source_id: copy_text(&s.last_source_id),
            tmdb_api_key,
            vod_refresh_hours: s.vod_refresh_hours,
            epg_refresh_hours: s.epg_refresh_hours,
            movie_genres_enabled: copy_list(&s.movie_genres_enabled),
            series_genres_enabled: copy_list(&s.series_genres_enabled),
            poster_db_api_key,
            rpdb_backdrops_enabled: s.rpdb_backdrops_enabled,
            allow_lan_sources: s.allow_lan_sources,
        }
    }

    /// Changes the settings by the members of a JSON object, and says
    /// what is to be done to the two keys in the keyring, the media
    /// database's first.
    pub fn update_settings(&mut self, change: &serde_json::Value) -> (actions: (
        Option<SecretAction>,
        Option<SecretAction>,
    ))
        ensures
            final(self).data_path == old(self).data_path,
            final(self).data.sources == old(self).data.sources,
            final(self).data.settings@ == changed_settings(old(self).data.settings@, *change),
            action_model(actions.0) == key_change(
                *change,
                "tmdbApiKey"@,
                "settings:tmdbApiKey"@,
            ),
            action_model(actions.1) == key_change(
                *change,
                "posterDbApiKey"@,
                "settings:posterDbApiKey"@,
            ),
    {
        match member(change, "theme") {
            Some(v) => match text_of(v) {
                Some(theme) => {
                    self.data.settings.theme = String::from_str(theme);
                },
                None => {},
            },
            None => {},
        }
        match member(change, "lastSourceId") {
            Some(v) => {
                self.data.settings.last_source_id = match text_of(v) {
                    Some(id) => Some(String::from_str(id)),
                    None => None,
                };
            },
            None => {},
        }
        let tmdb = changed_key(change, "tmdbApiKey", "settings:tmdbApiKey");
        self.data.settings.vod_refresh_hours = changed_hours(
            self.data.settings.vod_refresh_hours,
            change,
            "vodRefreshHours",
        );
        self.data.settings.epg_refresh_hours = changed_hours(
            self.data.settings.epg_refresh_hours,
            change,
            "epgRefreshHours",
        );
        match member(change, "movieGenresEnabled") {
            Some(v) => {
                self.data.settings.movie_genres_enabled = u32_list_of(v);
            },
            None => {},
        }
        match member(change, "seriesGenresEnabled") {
            Some(v) => {
                self.data.settings.series_genres_enabled = u32_list_of(v);
            },
            None => {},
        }
        let poster = changed_key(change, "posterDbApiKey", "settings:posterDbApiKey");
        self.data.settings.rpdb_backdrops_enabled = changed_flag(
            self.data.settings.rpdb_backdrops_enabled,
            change,
            "rpdbBackdropsEnabled",
        );
        self.data.settings.allow_lan_sources = changed_flag(
            self.data.settings.allow_lan_sources,
            change,
            "allowLanSources",
        );
        (tmdb, poster)
    }
}

} // verus!
