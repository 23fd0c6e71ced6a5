//! What the bot says back, and what it asks of the outside services next.
use vstd::prelude::*;
use crate::session::Track;

verus! {

/// Why a command could not be carried out.
#[derive(Clone, Copy, Debug, PartialEq, Eq, Structural)]
pub enum BotError {
    /// A command was given without an argument it needs.
    ArgumentError,
    /// `join` from a user who is in no voice channel.
    NoVoiceChannelError,
    /// A playback command for a guild with no voice link.
    NotConnectedError,
    /// The voice service or the audio node failed.
    ExternalServiceError,
    /// A search that found nothing.
    NotFoundError,
}

/// A message for the channel the command came from.
pub enum Reply {
    Error { error: BotError },
    AlreadyConnected,
    Joined { channel: u64 },
    JoinFailed { channel: u64 },
    Left,
    NotInVoiceChannel,
    AddedToQueue { title: String },
    Skipped { title: String },
    NothingToSkip,
    NowPlaying { title: String },
    NothingPlaying,
}

/// The outside call the program makes next on behalf of the guild.
pub enum Action {
    Nothing,
    /// Open a voice session to the channel.
    AttachVoice { channel: u64 },
    /// Create the audio node's session over the voice session just opened.
    CreateAudioSession,
    /// Close the voice session of a join that could not complete.
    DetachVoice,
    /// Destroy the audio node's session, then close the voice session.
    Teardown,
    /// Search the audio node.
    Search { query: String },
    /// Hand the track to the audio node to play or queue.
    PlayTrack { track: Track },
    /// Tell the audio node to move past its current track.
    SkipTrack,
}

/// The result of one transition.
pub struct Step {
    pub reply: Option<Reply>,
    pub action: Action,
}

pub open spec fn digit(d: nat) -> char {
    if d == 0 { '0' }
    else if d == 1 { '1' }
    else if d == 2 { '2' }
    else if d == 3 { '3' }
    else if d == 4 { '4' }
    else if d == 5 { '5' }
    else if d == 6 { '6' }
    else if d == 7 { '7' }
    else if d == 8 { '8' }
    else { '9' }
}

/// The decimal digits of `n`, most significant first, without leading zeros.
pub open spec fn decimal(n: nat) -> Seq<char>
    decreases n,
{
    if n < 10 {
        seq![digit(n)]
    } else {
        decimal(n / 10).push(digit(n % 10))
    }
}

/// How the chat service writes a reference to a channel.
pub open spec fn mention(channel: u64) -> Seq<char> {
    "<#"@ + decimal(channel as nat) + ">"@
}

/// Relies on `ToString::to_string` through `u64`'s `Display`, which writes
/// the number in decimal with no sign and no leading zeros.
#[verifier::external_body]
fn decimal_string(n: u64) -> (r: String)
    ensures
        r@ == decimal(n as nat),
{
    n.to_string()
}

fn mention_string(channel: u64) -> (r: String)
    ensures
        r@ == mention(channel),
{
    let mut s = String::from_str("<#");
    let d = decimal_string(channel);
    s.append(d.as_str());
    s.append(">");
    s
}

impl BotError {
    pub open spec fn message(self) -> Seq<char> {
        match self {
            BotError::ArgumentError => "This command needs an argument."@,
            BotError::NoVoiceChannelError => "Join a voice channel first."@,
            BotError::NotConnectedError =>
                "Use `!join` first, to connect the bot to your current voice channel."@,
            BotError::ExternalServiceError => "The voice or audio service failed; try again."@,
            BotError::NotFoundError => "Could not find any video of the search query."@,
        }
    }

    pub fn text(&self) -> (r: String)
        ensures
            r@ == self.message(),
    {
        match self {
            BotError::ArgumentError => String::from_str("This command needs an argument."),
            BotError::NoVoiceChannelError => String::from_str("Join a voice channel first."),
            BotError::NotConnectedError => String::from_str(
                "Use `!join` first, to connect the bot to your current voice channel.",
            ),
            BotError::ExternalServiceError => String::from_str(
                "The voice or audio service failed; try again.",
            ),
            BotError::NotFoundError => String::from_str(
                "Could not find any video of the search query.",
            ),
        }
    }
}

impl Reply {
    pub open spec fn message(self) -> Seq<char> {
        match self {
            Reply::Error { error } => error.message(),
            Reply::AlreadyConnected => "Already in a voice channel."@,
            Reply::Joined { channel } => "Joined "@ + mention(channel),
            Reply::JoinFailed { channel } => "Error joining "@ + mention(channel),
            Reply::Left => "Left voice channel"@,
            Reply::NotInVoiceChannel => "Not in a voice channel"@,
            Reply::AddedToQueue { title } => "Added to queue: "@ + title@,
            Reply::Skipped { title } => "Skipped: "@ + title@,
            Reply::NothingToSkip => "Nothing to skip."@,
            Reply::NowPlaying { title } => "Now Playing: "@ + title@,
            Reply::NothingPlaying => "Nothing is playing at the moment."@,
        }
    }

    /// The text to send.
    pub fn text(&self) -> (r: String)
        ensures
            r@ == self.message(),
    {
        match self {
            Reply::Error { error } => error.text(),
            Reply::AlreadyConnected => String::from_str("Already in a voice channel."),
            Reply::Joined { channel } => {
                let mut s = String::from_str("Joined ");
                let m = mention_string(*channel);
                s.append(m.as_str());
                s
            },
            Reply::JoinFailed { channel } => {
                let mut s = String::from_str("Error joining ");
                let m = mention_string(*channel);
                s.append(m.as_str());
                s
            },
            Reply::Left => String::from_str("Left voice channel"),
            Reply::NotInVoiceChannel => String::from_str("Not in a voice channel"),
            Reply::AddedToQueue { title } => String::from_str("Added to queue: ").concat(
                title.as_str(),
            ),
            Reply::Skipped { title } => String::from_str("Skipped: ").concat(title.as_str()),
            Reply::NothingToSkip => String::from_str("Nothing to skip."),
            Reply::NowPlaying { title } => String::from_str("Now Playing: ").concat(
                title.as_str(),
            ),
            Reply::NothingPlaying => String::from_str("Nothing is playing at the moment."),
        }
    }
}

} // verus!
