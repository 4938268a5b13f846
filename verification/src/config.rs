//! The two settings of a run, and the addresses that follow from them.

use vstd::prelude::*;
use vstd::string::StringExecFns;

verus! {

/// The address of the album generator.
pub const GENERATOR_URL: &'static str = "https://1001albumsgenerator.com";

/// The name of the setting that holds the bot's identifier.
pub const BOT_ID_VAR: &'static str = "BOT_ID";

/// The name of the setting that holds the group's name.
pub const GROUP_VAR: &'static str = "GROUP";

/// The settings of a run: the bot that posts, and the group whose album it posts.
#[derive(Debug, PartialEq, Eq)]
pub struct Config {
    pub bot_id: String,
    pub group: String,
}

/// The settings as plain text.
pub struct ConfigView {
    pub bot_id: Seq<char>,
    pub group: Seq<char>,
}

impl View for Config {
    type V = ConfigView;

    open spec fn view(&self) -> ConfigView {
        ConfigView { bot_id: self.bot_id@, group: self.group@ }
    }
}

/// A setting that is required and not there.
#[derive(Clone, Copy, Debug, PartialEq, Eq, Structural)]
pub enum ConfigError {
    MissingBotId,
    MissingGroup,
}

/// The settings or what is missing, as plain values.
pub open spec fn config_view(read: Result<Config, ConfigError>) -> Result<ConfigView, ConfigError> {
    match read {
        Ok(config) => Ok(config@),
        Err(error) => Err(error),
    }
}

/// The settings that the two values make. There are no defaults: the bot's
/// identifier is asked for first, the group's name second.
pub open spec fn config_of(bot_id: Option<Seq<char>>, group: Option<Seq<char>>) -> Result<
    ConfigView,
    ConfigError,
> {
    match (bot_id, group) {
        (None, _) => Err(ConfigError::MissingBotId),
        (Some(_), None) => Err(ConfigError::MissingGroup),
        (Some(bot_id), Some(group)) => Ok(ConfigView { bot_id, group }),
    }
}

/// The text of a value that may be absent.
pub open spec fn value_view(value: Option<String>) -> Option<Seq<char>> {
    match value {
        Some(text) => Some(text@),
        None => None,
    }
}

/// The words for a missing setting.
pub open spec fn missing_text(error: ConfigError) -> Seq<char> {
    match error {
        ConfigError::MissingBotId => BOT_ID_VAR@ + " is not set"@,
        ConfigError::MissingGroup => GROUP_VAR@ + " is not set"@,
    }
}

/// The address that answers with the album of the day of `group`.
pub open spec fn api_address(group: Seq<char>) -> Seq<char> {
    GENERATOR_URL@ + "/api/v1/groups/"@ + group
}

/// The address of the page of `group`.
pub open spec fn group_address(group: Seq<char>) -> Seq<char> {
    GENERATOR_URL@ + "/groups/"@ + group
}

impl ConfigError {
    /// The error in words.
    pub fn describe(&self) -> (words: String)
        ensures
            words@ == missing_text(*self),
    {
        let mut words = match self {
            ConfigError::MissingBotId => String::from_str(BOT_ID_VAR),
            ConfigError::MissingGroup => String::from_str(GROUP_VAR),
        };
        words.append(" is not set");
        words
    }
}

impl Config {
    /// The settings of a run, from the two values as they were found.
    pub fn from_values(bot_id: Option<String>, group: Option<String>) -> (read: Result<
        Config,
        ConfigError,
    >)
        ensures
            config_view(read) == config_of(value_view(bot_id), value_view(group)),
    {
        match bot_id {
            None => Err(ConfigError::MissingBotId),
            Some(bot_id) => match group {
                None => Err(ConfigError::MissingGroup),
                Some(group) => Ok(Config { bot_id, group }),
            },
        }
    }

    /// The address that answers with the group's album of the day.
    pub fn generator_api_url(&self) -> (address: String)
        ensures
            address@ == api_address(self@.group),
    {
        let mut address = String::from_str(GENERATOR_URL);
        address.append("/api/v1/groups/");
        address.append(self.group.as_str());
        address
    }

    /// The address of the group's page.
    pub fn generator_group_url(&self) -> (address: String)
        ensures
            address@ == group_address(self@.group),
    {
        let mut address = String::from_str(GENERATOR_URL);
        address.append("/groups/");
        address.append(self.group.as_str());
        address
    }
}

} // verus!
