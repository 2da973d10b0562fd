//! What the bot needs to start: the platform token, the weather provider's key
//! and the server that the commands are registered with.
//!
//! The three come as secrets, from a [`SecretStore`] or from a local secrets
//! file. Either way the same rules make [`Settings`] of them.

use crate::secrets::{
    assignments_view, invalid_line_message, lookup, parse, parse_spec, parsed_view, value_of,
    Assignment, InvalidLine,
};
use crate::text::{parse_u64, parse_u64_spec};
use shuttle_secrets::SecretStore;
use vstd::prelude::*;

verus! {

/// The secrets that the bot reads.
#[derive(Debug, Clone, Copy, PartialEq, Eq, Structural)]
pub enum SecretName {
    DiscordToken,
    WeatherApiKey,
    DiscordGuildId,
}

impl SecretName {
    /// The key under which the secret is kept.
    pub open spec fn key_spec(self) -> Seq<char> {
        match self {
            SecretName::DiscordToken => "DISCORD_TOKEN"@,
            SecretName::WeatherApiKey => "WEATHER_API_KEY"@,
            SecretName::DiscordGuildId => "DISCORD_GUILD_ID"@,
        }
    }

    /// The key under which the secret is kept.
    pub fn key(self) -> (key: &'static str)
        ensures
            key@ == self.key_spec(),
    {
        match self {
            SecretName::DiscordToken => "DISCORD_TOKEN",
            SecretName::WeatherApiKey => "WEATHER_API_KEY",
            SecretName::DiscordGuildId => "DISCORD_GUILD_ID",
        }
    }
}

/// The bot's configuration. It is made once, at startup, and only read after
/// that.
#[derive(Debug, Clone, PartialEq, Eq)]
pub struct Settings {
    discord_token: String,
    weather_api_key: String,
    discord_guild_id: u64,
}

/// What [`Settings`] stand for in contracts.
pub struct SettingsView {
    pub discord_token: Seq<char>,
    pub weather_api_key: Seq<char>,
    pub discord_guild_id: u64,
}

impl View for Settings {
    type V = SettingsView;

    closed spec fn view(&self) -> SettingsView {
        SettingsView {
            discord_token: self.discord_token@,
            weather_api_key: self.weather_api_key@,
            discord_guild_id: self.discord_guild_id,
        }
    }
}

impl Settings {
    pub fn new(discord_token: String, weather_api_key: String, discord_guild_id: u64) -> (settings:
        Settings)
        ensures
            settings@ == (SettingsView {
                discord_token: discord_token@,
                weather_api_key: weather_api_key@,
                discord_guild_id,
            }),
    {
        Settings { discord_token, weather_api_key, discord_guild_id }
    }

    /// The token that the bot signs in to the platform with.
    pub fn discord_token(&self) -> (token: &str)
        ensures
            token@ == self@.discord_token,
    {
        self.discord_token.as_str()
    }

    /// The key that the weather provider is asked with.
    pub fn weather_api_key(&self) -> (key: &str)
        ensures
            key@ == self@.weather_api_key,
    {
        self.weather_api_key.as_str()
    }

    /// The server that the commands are registered with.
    pub fn discord_guild_id(&self) -> (id: u64)
        ensures
            id == self@.discord_guild_id,
    {
        self.discord_guild_id
    }
}

/// Why no settings could be made of the secrets.
#[derive(Debug, Clone, PartialEq, Eq)]
pub enum SettingsError {
    /// The secret is not there.
    NotFound(SecretName),
    /// The server's identifier, given here, is no number of 64 bits in decimal
    /// notation.
    InvalidGuildId(String),
}

/// What a [`SettingsError`] stands for in contracts.
pub enum SettingsErrorView {
    NotFound(SecretName),
    InvalidGuildId(Seq<char>),
}

impl SettingsErrorView {
    /// The text shown for this error.
    pub open spec fn message(self) -> Seq<char> {
        match self {
            SettingsErrorView::NotFound(name) => "'"@ + name.key_spec() + "' was not found"@,
            SettingsErrorView::InvalidGuildId(given) => "'DISCORD_GUILD_ID' is not a number: '"@
                + given + "'"@,
        }
    }
}

impl View for SettingsError {
    type V = SettingsErrorView;

    open spec fn view(&self) -> SettingsErrorView {
        match self {
            SettingsError::NotFound(name) => SettingsErrorView::NotFound(*name),
            SettingsError::InvalidGuildId(given) => SettingsErrorView::InvalidGuildId(given@),
        }
    }
}

impl SettingsError {
    /// The text shown for this error; for a secret that is not there,
    /// `"'<key>' was not found"`.
    pub fn to_string(&self) -> (shown: String)
        ensures
            shown@ == self@.message(),
    {
        match self {
            SettingsError::NotFound(name) => {
                let mut shown = String::from_str("'");
                shown.append(name.key());
                shown.append("' was not found");
                shown
            },
            SettingsError::InvalidGuildId(given) => {
                let mut shown = String::from_str("'DISCORD_GUILD_ID' is not a number: '");
                shown.append(given.as_str());
                shown.append("'");
                shown
            },
        }
    }
}

/// The settings that the three secrets make. They are asked for in the order
/// token, key, server: the first that is not there is the one reported. The
/// server's identifier has to be a number.
pub open spec fn assemble_spec(
    discord_token: Option<Seq<char>>,
    weather_api_key: Option<Seq<char>>,
    discord_guild_id: Option<Seq<char>>,
) -> Result<SettingsView, SettingsErrorView> {
    if discord_token is None {
        Err(SettingsErrorView::NotFound(SecretName::DiscordToken))
    } else if weather_api_key is None {
        Err(SettingsErrorView::NotFound(SecretName::WeatherApiKey))
    } else if discord_guild_id is None {
        Err(SettingsErrorView::NotFound(SecretName::DiscordGuildId))
    } else {
        match parse_u64_spec(discord_guild_id->0) {
            Some(id) => Ok(
                SettingsView {
                    discord_token: discord_token->0,
                    weather_api_key: weather_api_key->0,
                    discord_guild_id: id,
                },
            ),
            None => Err(SettingsErrorView::InvalidGuildId(discord_guild_id->0)),
        }
    }
}

/// A secret that was looked up, as [`assemble`] reads it.
pub open spec fn secret_view(secret: Option<String>) -> Option<Seq<char>> {
    match secret {
        Some(secret) => Some(secret@),
        None => None,
    }
}

/// What [`assemble`] returns, as its callers read it.
pub open spec fn assembled_view(assembled: Result<Settings, SettingsError>) -> Result<
    SettingsView,
    SettingsErrorView,
> {
    match assembled {
        Ok(settings) => Ok(settings@),
        Err(error) => Err(error@),
    }
}

/// Makes the settings of the three secrets, each as its lookup gave it.
pub fn assemble(
    discord_token: Option<String>,
    weather_api_key: Option<String>,
    discord_guild_id: Option<String>,
) -> (assembled: Result<Settings, SettingsError>)
    ensures
        assembled_view(assembled) == assemble_spec(
            secret_view(discord_token),
            secret_view(weather_api_key),
            secret_view(discord_guild_id),
        ),
{
    let discord_token = match discord_token {
        Some(secret) => secret,
        None => {
            return Err(SettingsError::NotFound(SecretName::DiscordToken));
        },
    };
    let weather_api_key = match weather_api_key {
        Some(secret) => secret,
        None => {
            return Err(SettingsError::NotFound(SecretName::WeatherApiKey));
        },
    };
    let given = match discord_guild_id {
        Some(secret) => secret,
        None => {
            return Err(SettingsError::NotFound(SecretName::DiscordGuildId));
        },
    };
    match parse_u64(given.as_str()) {
        Some(discord_guild_id) => Ok(
            Settings::new(discord_token, weather_api_key, discord_guild_id),
        ),
        None => Err(SettingsError::InvalidGuildId(given)),
    }
}

/// `shuttle_secrets::SecretStore`, the store that holds the secrets of a
/// deployment. Nothing of what is inside it is known here but through
/// [`store_entries`].
#[verifier::external_type_specification]
#[verifier::external_body]
pub struct ExSecretStore(SecretStore);

/// The secrets that a store holds, by key.
pub uninterp spec fn store_entries(store: SecretStore) -> Map<Seq<char>, Seq<char>>;

/// The secret that `store` keeps under `key`.
pub open spec fn secret_in(store: SecretStore, key: Seq<char>) -> Option<Seq<char>> {
    if store_entries(store).dom().contains(key) {
        Some(store_entries(store)[key])
    } else {
        None
    }
}

/// `SecretStore::get`: a copy of the secret that the store keeps under `key`,
/// `None` where it keeps none under that key.
#[verifier::external_body]
fn store_get(store: &SecretStore, key: &str) -> (found: Option<String>)
    ensures
        match found {
            Some(secret) => store_entries(*store).dom().contains(key@) && store_entries(
                *store,
            )[key@] == secret@,
            None => !store_entries(*store).dom().contains(key@),
        },
{
    store.get(key)
}

/// Makes the settings of the secrets in `store`.
pub fn from_store(store: &SecretStore) -> (loaded: Result<Settings, SettingsError>)
    ensures
        assembled_view(loaded) == assemble_spec(
            secret_in(*store, SecretName::DiscordToken.key_spec()),
            secret_in(*store, SecretName::WeatherApiKey.key_spec()),
            secret_in(*store, SecretName::DiscordGuildId.key_spec()),
        ),
{
    let discord_token = store_get(store, SecretName::DiscordToken.key());
    let weather_api_key = store_get(store, SecretName::WeatherApiKey.key());
    let discord_guild_id = store_get(store, SecretName::DiscordGuildId.key());
    assemble(discord_token, weather_api_key, discord_guild_id)
}

/// Makes the settings of the assignments of a secrets file.
pub fn from_assignments(assignments: &Vec<Assignment>) -> (loaded: Result<Settings, SettingsError>)
    ensures
        assembled_view(loaded) == assemble_spec(
            value_of(assignments_view(*assignments), SecretName::DiscordToken.key_spec()),
            value_of(assignments_view(*assignments), SecretName::WeatherApiKey.key_spec()),
            value_of(assignments_view(*assignments), SecretName::DiscordGuildId.key_spec()),
        ),
{
    let discord_token = lookup(assignments, SecretName::DiscordToken.key());
    let weather_api_key = lookup(assignments, SecretName::WeatherApiKey.key());
    let discord_guild_id = lookup(assignments, SecretName::DiscordGuildId.key());
    assemble(discord_token, weather_api_key, discord_guild_id)
}

/// Why a secrets file gave no settings.
#[derive(Debug, Clone, PartialEq, Eq)]
pub enum LoadError {
    /// The file holds a line that is no assignment.
    File(InvalidLine),
    /// The file's assignments do not make settings.
    Secrets(SettingsError),
}

/// What a [`LoadError`] stands for in contracts.
pub enum LoadErrorView {
    File(Seq<char>),
    Secrets(SettingsErrorView),
}

impl View for LoadError {
    type V = LoadErrorView;

    open spec fn view(&self) -> LoadErrorView {
        match self {
            LoadError::File(invalid) => LoadErrorView::File(invalid@),
            LoadError::Secrets(error) => LoadErrorView::Secrets(error@),
        }
    }
}

impl LoadErrorView {
    /// The text shown for this error.
    pub open spec fn message(self) -> Seq<char> {
        match self {
            LoadErrorView::File(line) => invalid_line_message(line),
            LoadErrorView::Secrets(error) => error.message(),
        }
    }
}

impl LoadError {
    /// The text shown for this error.
    pub fn to_string(&self) -> (shown: String)
        ensures
            shown@ == self@.message(),
    {
        match self {
            LoadError::File(invalid) => invalid.to_string(),
            LoadError::Secrets(error) => error.to_string(),
        }
    }
}

/// The settings that the secrets file `text` makes: the file is read whole
/// before any secret is asked for.
pub open spec fn from_file_spec(text: Seq<char>) -> Result<SettingsView, LoadErrorView> {
    match parse_spec(text) {
        Err(line) => Err(LoadErrorView::File(line)),
        Ok(assignments) => match assemble_spec(
            value_of(assignments, SecretName::DiscordToken.key_spec()),
            value_of(assignments, SecretName::WeatherApiKey.key_spec()),
            value_of(assignments, SecretName::DiscordGuildId.key_spec()),
        ) {
            Ok(settings) => Ok(settings),
            Err(error) => Err(LoadErrorView::Secrets(error)),
        },
    }
}

/// What [`from_file`] returns, as its callers read it.
pub open spec fn loaded_view(loaded: Result<Settings, LoadError>) -> Result<
    SettingsView,
    LoadErrorView,
> {
    match loaded {
        Ok(settings) => Ok(settings@),
        Err(error) => Err(error@),
    }
}

/// Makes the settings of the text of a secrets file.
pub fn from_file(text: &str) -> (loaded: Result<Settings, LoadError>)
    ensures
        loaded_view(loaded) == from_file_spec(text@),
{
    let parsed = parse(text);
    proof {
        assert(parsed_view(parsed) == parse_spec(text@));
    }
    match parsed {
        Err(invalid) => Err(LoadError::File(invalid)),
        Ok(assignments) => match from_assignments(&assignments) {
            Ok(settings) => Ok(settings),
            Err(error) => Err(LoadError::Secrets(error)),
        },
    }
}

} // verus!
