//! The chat's configuration and its builder.
//!
//! A setting left unset takes its default: channel `bevy-pn-chat`, user
//! `anonymous`, no limit on the number of messages shown, and the format
//! `{username}: {message}`. The keyset has no default and must be given.
//! A setting given as an empty string is rejected.

use vstd::prelude::*;
use vstd::string::*;

use crate::error::BevyPNError;

verus! {

/// The keys of the messaging backend.
pub struct Keyset {
    pub publish_key: String,
    pub subscribe_key: String,
}

/// A validated configuration.
pub struct ChatPluginConfig {
    pub keyset: Keyset,
    pub channel: String,
    pub username: String,
    pub max_messages: Option<usize>,
    pub message_format: String,
}

/// Collects settings; `internal_build` checks them and fills in defaults.
pub struct ChatPluginConfigBuilder {
    pub keyset: Option<Keyset>,
    pub channel: Option<String>,
    pub username: Option<String>,
    pub max_messages: Option<Option<usize>>,
    pub message_format: Option<String>,
}

/// A setting that was given as an empty string.
pub open spec fn given_empty(setting: Option<String>) -> bool {
    setting matches Some(s) && s@.len() == 0
}

/// A keyset that was given with an empty key.
pub open spec fn keyset_given_empty(keyset: Option<Keyset>) -> bool {
    keyset matches Some(k) && (k.publish_key@.len() == 0 || k.subscribe_key@.len() == 0)
}

/// The message of the first check that `b` fails, in the order keyset,
/// channel, username, message format; `None` when all pass.
pub open spec fn first_rejection(b: ChatPluginConfigBuilder) -> Option<Seq<char>> {
    if keyset_given_empty(b.keyset) {
        Some("Keyset is empty"@)
    } else if given_empty(b.channel) {
        Some("Channel is empty"@)
    } else if given_empty(b.username) {
        Some("Username is empty"@)
    } else if given_empty(b.message_format) {
        Some("Message format is empty"@)
    } else {
        None
    }
}

/// `setting`'s text, or `default` when it was not given.
pub open spec fn or_default(setting: Option<String>, default: Seq<char>) -> Seq<char> {
    match setting {
        Some(s) => s@,
        None => default,
    }
}

fn config_error(message: &str) -> (r: BevyPNError)
    ensures
        r matches BevyPNError::Config { message: m } && m@ == message@,
{
    BevyPNError::Config { message: String::from_str(message) }
}

fn text_or(setting: Option<String>, default: &str) -> (r: String)
    ensures
        r@ == or_default(setting, default@),
{
    match setting {
        Some(s) => s,
        None => String::from_str(default),
    }
}

impl Default for ChatPluginConfigBuilder {
    fn default() -> (r: Self)
        ensures
            r.keyset is None,
            r.channel is None,
            r.username is None,
            r.max_messages is None,
            r.message_format is None,
    {
        ChatPluginConfigBuilder {
            keyset: None,
            channel: None,
            username: None,
            max_messages: None,
            message_format: None,
        }
    }
}

impl ChatPluginConfigBuilder {
    /// The keyset used to connect to the backend.
    pub fn keyset(self, keyset: Keyset) -> (r: Self)
        ensures
            r.keyset == Some(keyset),
            r.channel == self.channel,
            r.username == self.username,
            r.max_messages == self.max_messages,
            r.message_format == self.message_format,
    {
        ChatPluginConfigBuilder { keyset: Some(keyset), ..self }
    }

    /// The channel to chat on.
    pub fn channel(self, channel: &str) -> (r: Self)
        ensures
            r.channel matches Some(c) && c@ == channel@,
            r.keyset == self.keyset,
            r.username == self.username,
            r.max_messages == self.max_messages,
            r.message_format == self.message_format,
    {
        ChatPluginConfigBuilder { channel: Some(String::from_str(channel)), ..self }
    }

    /// The name the user chats under.
    pub fn username(self, username: &str) -> (r: Self)
        ensures
            r.username matches Some(u) && u@ == username@,
            r.keyset == self.keyset,
            r.channel == self.channel,
            r.max_messages == self.max_messages,
            r.message_format == self.message_format,
    {
        ChatPluginConfigBuilder { username: Some(String::from_str(username)), ..self }
    }

    /// The most messages shown at once; the oldest go first.
    pub fn max_messages(self, max_messages: usize) -> (r: Self)
        ensures
            r.max_messages == Some(Some(max_messages)),
            r.keyset == self.keyset,
            r.channel == self.channel,
            r.username == self.username,
            r.message_format == self.message_format,
    {
        ChatPluginConfigBuilder { max_messages: Some(Some(max_messages)), ..self }
    }

    /// How a message is shown; see `MessageFormat` for the placeholders.
    pub fn message_format(self, message_format: &str) -> (r: Self)
        ensures
            r.message_format matches Some(f) && f@ == message_format@,
            r.keyset == self.keyset,
            r.channel == self.channel,
            r.username == self.username,
            r.max_messages == self.max_messages,
    {
        ChatPluginConfigBuilder { message_format: Some(String::from_str(message_format)), ..self }
    }

    /// Rejects a setting that was given as an empty string, naming the first
    /// such one.
    pub fn validate(&self) -> (r: Result<(), BevyPNError>)
        ensures
            first_rejection(*self) is None <==> r is Ok,
            first_rejection(*self) matches Some(m) ==> (r matches Err(BevyPNError::Config { message }) && message@ == m),
    {
        match &self.keyset {
            Some(k) => {
                if k.publish_key.as_str().unicode_len() == 0 || k.subscribe_key.as_str().unicode_len() == 0 {
                    return Err(config_error("Keyset is empty"));
                }
            },
            None => {},
        }
        if is_given_empty(&self.channel) {
            return Err(config_error("Channel is empty"));
        }
        if is_given_empty(&self.username) {
            return Err(config_error("Username is empty"));
        }
        if is_given_empty(&self.message_format) {
            return Err(config_error("Message format is empty"));
        }
        Ok(())
    }

    /// Checks the settings and builds the configuration, with defaults for
    /// what was not given. Fails when `validate` does, or when no keyset was
    /// given.
    pub fn internal_build(self) -> (r: Result<ChatPluginConfig, BevyPNError>)
        ensures
            first_rejection(self) matches Some(m) ==> (r matches Err(BevyPNError::Config { message }) && message@ == m),
            first_rejection(self) is None && self.keyset is None ==> (r matches Err(BevyPNError::Config { message }) && message@ == "Keyset is not set"@),
            first_rejection(self) is None && self.keyset is Some <==> r is Ok,
            r matches Ok(c) ==> {
                &&& self.keyset == Some(c.keyset)
                &&& c.channel@ == or_default(self.channel, "bevy-pn-chat"@)
                &&& c.username@ == or_default(self.username, "anonymous"@)
                &&& c.message_format@ == or_default(self.message_format, "{username}: {message}"@)
                &&& c.max_messages == match self.max_messages {
                    Some(m) => m,
                    None => None,
                }
            },
    {
        match self.validate() {
            Err(e) => return Err(e),
            Ok(()) => {},
        }
        let keyset = match self.keyset {
            Some(k) => k,
            None => return Err(config_error("Keyset is not set")),
        };
        let max_messages = match self.max_messages {
            Some(m) => m,
            None => None,
        };
        Ok(ChatPluginConfig {
            keyset,
            channel: text_or(self.channel, "bevy-pn-chat"),
            username: text_or(self.username, "anonymous"),
            max_messages,
            message_format: text_or(self.message_format, "{username}: {message}"),
        })
    }
}

fn is_given_empty(setting: &Option<String>) -> (r: bool)
    ensures
        r == given_empty(*setting),
{
    match setting {
        Some(s) => s.as_str().unicode_len() == 0,
        None => false,
    }
}

} // verus!
