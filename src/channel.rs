use vstd::prelude::*;

use crate::error::DvmError;

verus! {

/// A release channel: an independently versioned track of the application.
#[derive(Clone, Copy, Debug, PartialEq, Eq, Structural)]
pub enum Channel {
    Stable,
    Canary,
    Ptb,
    Development,
}

/// The position of a channel in the catalog, which is also the order in
/// which the manifest stores and lists the channels.
pub open spec fn index_of(c: Channel) -> nat {
    match c {
        Channel::Stable => 0,
        Channel::Canary => 1,
        Channel::Ptb => 2,
        Channel::Development => 3,
    }
}

/// The channel at a catalog position (positions 0 to 3).
pub open spec fn channel_at(i: int) -> Channel {
    if i == 0 {
        Channel::Stable
    } else if i == 1 {
        Channel::Canary
    } else if i == 2 {
        Channel::Ptb
    } else {
        Channel::Development
    }
}

/// The channel that a command-line name stands for, with its synonyms.
pub open spec fn alias_spec(s: Seq<char>) -> Option<Channel> {
    if s == "stable"@ || s == "discord-stable"@ || s == "s"@ {
        Some(Channel::Stable)
    } else if s == "canary"@ || s == "discord-canary"@ || s == "c"@ {
        Some(Channel::Canary)
    } else if s == "ptb"@ || s == "discord-ptb"@ || s == "p"@ {
        Some(Channel::Ptb)
    } else if s == "development"@ || s == "dev"@ || s == "discord-development"@ || s == "d"@ {
        Some(Channel::Development)
    } else {
        None
    }
}

fn is_name(s: &String, lit: &str) -> (r: bool)
    ensures
        r == (s@ == lit@),
{
    let owned: String = lit.to_owned();
    *s == owned
}

/// Maps a channel name or one of its synonyms to the channel; `None` for a
/// name that no channel has.
pub fn str_to_type(s: String) -> (r: Option<Channel>)
    ensures
        r == alias_spec(s@),
{
    if is_name(&s, "stable") || is_name(&s, "discord-stable") || is_name(&s, "s") {
        Some(Channel::Stable)
    } else if is_name(&s, "canary") || is_name(&s, "discord-canary") || is_name(&s, "c") {
        Some(Channel::Canary)
    } else if is_name(&s, "ptb") || is_name(&s, "discord-ptb") || is_name(&s, "p") {
        Some(Channel::Ptb)
    } else if is_name(&s, "development") || is_name(&s, "dev") || is_name(&s, "discord-development")
        || is_name(&s, "d") {
        Some(Channel::Development)
    } else {
        None
    }
}

/// Like `str_to_type`, with `UnknownChannel` for a name that no channel has.
pub fn parse_channel(s: String) -> (r: Result<Channel, DvmError>)
    ensures
        match alias_spec(s@) {
            Some(c) => r == Ok::<Channel, DvmError>(c),
            None => r == Err::<Channel, DvmError>(DvmError::UnknownChannel),
        },
{
    match str_to_type(s) {
        Some(c) => Ok(c),
        None => Err(DvmError::UnknownChannel),
    }
}

/// The static configuration of one channel.
pub struct ChannelDescriptor {
    /// Name shown to the user.
    pub display_name: &'static str,
    /// Name of the channel's install directory under the install root.
    pub dir_name: &'static str,
    /// Endpoint that answers with the latest artifact of the channel.
    pub latest_url: &'static str,
}

pub open spec fn display_name_spec(c: Channel) -> Seq<char> {
    match c {
        Channel::Stable => "Discord Stable"@,
        Channel::Canary => "Discord Canary"@,
        Channel::Ptb => "Discord PTB"@,
        Channel::Development => "Discord Development"@,
    }
}

pub open spec fn dir_name_spec(c: Channel) -> Seq<char> {
    match c {
        Channel::Stable => "discord-stable"@,
        Channel::Canary => "discord-canary"@,
        Channel::Ptb => "discord-ptb"@,
        Channel::Development => "discord-development"@,
    }
}

pub open spec fn latest_url_spec(c: Channel) -> Seq<char> {
    match c {
        Channel::Stable => "https://discord.com/api/download/stable?platform=linux&format=tar.gz"@,
        Channel::Canary => "https://discord.com/api/download/canary?platform=linux&format=tar.gz"@,
        Channel::Ptb => "https://discord.com/api/download/ptb?platform=linux&format=tar.gz"@,
        Channel::Development =>
            "https://discord.com/api/download/development?platform=linux&format=tar.gz"@,
    }
}

/// The catalog: a total map from channel to its descriptor.
pub fn describe(c: Channel) -> (r: ChannelDescriptor)
    ensures
        r.display_name@ == display_name_spec(c),
        r.dir_name@ == dir_name_spec(c),
        r.latest_url@ == latest_url_spec(c),
{
    match c {
        Channel::Stable => ChannelDescriptor {
            display_name: "Discord Stable",
            dir_name: "discord-stable",
            latest_url: "https://discord.com/api/download/stable?platform=linux&format=tar.gz",
        },
        Channel::Canary => ChannelDescriptor {
            display_name: "Discord Canary",
            dir_name: "discord-canary",
            latest_url: "https://discord.com/api/download/canary?platform=linux&format=tar.gz",
        },
        Channel::Ptb => ChannelDescriptor {
            display_name: "Discord PTB",
            dir_name: "discord-ptb",
            latest_url: "https://discord.com/api/download/ptb?platform=linux&format=tar.gz",
        },
        Channel::Development => ChannelDescriptor {
            display_name: "Discord Development",
            dir_name: "discord-development",
            latest_url: "https://discord.com/api/download/development?platform=linux&format=tar.gz",
        },
    }
}

} // verus!
