//! The bot's own settings: who administers it, where its files lie, and the
//! rules for invite tokens.

use crate::text::opt_text;
use vstd::prelude::*;
use vstd::string::StringExecFns;

verus! {

/// The rules for invite tokens.
#[derive(Debug)]
pub struct SecurityConfig {
    /// Days a token lives where its maker names none.
    pub default_token_days: i64,
    /// The most days a token may live.
    pub max_token_days: i64,
    /// Whether a token may grant access without an administrator's approval.
    pub allow_auto_approve_tokens: bool,
}

/// The bot's settings.
#[derive(Debug)]
pub struct Config {
    /// The bot's token, where the file gives one.
    pub bot_token: Option<String>,
    /// The chat-user ids of the administrators.
    pub admin_ids: Vec<i64>,
    /// Where the proxy's configuration lies.
    pub telemt_config_path: String,
    /// Where the record of requests lies.
    pub db_path: String,
    /// The name of the proxy's service.
    pub service_name: String,
    /// Users on one page of the list of users.
    pub users_page_size: i64,
    /// The rules for invite tokens.
    pub security: SecurityConfig,
}

/// What the bot's settings lack.
#[derive(Clone, Copy, Debug, PartialEq, Eq, Structural)]
pub enum ConfigError {
    /// Neither the file nor the environment gives the bot's token.
    MissingBotToken,
}

pub open spec fn default_telemt_config_path_spec() -> Seq<char> {
    "/etc/telemt.toml"@
}

pub open spec fn default_db_path_spec() -> Seq<char> {
    "/var/lib/telemt-admin/state.db"@
}

pub open spec fn default_service_name_spec() -> Seq<char> {
    "telemt.service"@
}

/// Where the proxy's configuration lies unless the settings say otherwise.
pub fn default_telemt_config_path() -> (path: String)
    ensures
        path@ == default_telemt_config_path_spec(),
{
    String::from_str("/etc/telemt.toml")
}

/// Where the record of requests lies unless the settings say otherwise.
pub fn default_db_path() -> (path: String)
    ensures
        path@ == default_db_path_spec(),
{
    String::from_str("/var/lib/telemt-admin/state.db")
}

/// The name of the proxy's service unless the settings say otherwise.
pub fn default_service_name() -> (name: String)
    ensures
        name@ == default_service_name_spec(),
{
    String::from_str("telemt.service")
}

/// Users on one page unless the settings say otherwise.
pub fn default_users_page_size() -> (n: i64)
    ensures
        n == 10,
{
    10
}

/// Days a token lives unless the settings say otherwise.
pub fn default_token_days() -> (n: i64)
    ensures
        n == 14,
{
    14
}

/// The most days a token may live unless the settings say otherwise.
pub fn default_max_token_days() -> (n: i64)
    ensures
        n == 180,
{
    180
}

/// Whether tokens may auto-approve unless the settings say otherwise.
pub fn default_allow_auto_approve_tokens() -> (allow: bool)
    ensures
        allow,
{
    true
}

impl Default for SecurityConfig {
    fn default() -> (config: SecurityConfig)
        ensures
            config.default_token_days == 14,
            config.max_token_days == 180,
            config.allow_auto_approve_tokens,
    {
        SecurityConfig {
            default_token_days: default_token_days(),
            max_token_days: default_max_token_days(),
            allow_auto_approve_tokens: default_allow_auto_approve_tokens(),
        }
    }
}

impl ConfigError {
    /// The message for the operator.
    pub fn message(&self) -> (text: String)
        ensures
            text@ == "Не задан bot_token в конфиге и TELOXIDE_TOKEN в окружении"@,
    {
        String::from_str("Не задан bot_token в конфиге и TELOXIDE_TOKEN в окружении")
    }
}

/// The token the bot runs with: the one in the settings, else the one from
/// the environment, else none.
pub open spec fn bot_token_spec(configured: Option<Seq<char>>, from_env: Option<Seq<char>>) -> Option<
    Seq<char>,
> {
    match configured {
        Some(token) => Some(token),
        None => from_env,
    }
}

impl Config {
    /// The token the bot runs with. `from_env` is what the environment
    /// holds under `TELOXIDE_TOKEN`; it counts only where the settings give
    /// no token.
    pub fn bot_token(&self, from_env: Option<String>) -> (res: Result<String, ConfigError>)
        ensures
            match bot_token_spec(opt_text(self.bot_token), opt_text(from_env)) {
                Some(token) => res matches Ok(t) && t@ == token,
                None => res == Err::<String, ConfigError>(ConfigError::MissingBotToken),
            },
    {
        match &self.bot_token {
            Some(token) => Ok(token.clone()),
            None => match from_env {
                Some(token) => Ok(token),
                None => Err(ConfigError::MissingBotToken),
            },
        }
    }

    /// Whether `user_id` is one of the administrators.
    pub fn is_admin(&self, user_id: i64) -> (res: bool)
        ensures
            res == self.admin_ids@.contains(user_id),
    {
        let mut i: usize = 0;
        while i < self.admin_ids.len()
            invariant
                i <= self.admin_ids.len(),
                forall|k: int| 0 <= k < i ==> self.admin_ids@[k] != user_id,
            decreases self.admin_ids.len() - i,
        {
            if self.admin_ids[i] == user_id {
                return true;
            }
            i += 1;
        }
        false
    }
}

} // verus!
