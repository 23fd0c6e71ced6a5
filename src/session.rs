//! The state of one guild: its voice link, the track on the audio node, and
//! the tracks waiting behind it.
use vstd::prelude::*;

verus! {

/// A playable item as the audio node describes it.
pub struct Track {
    pub title: String,
    /// What the audio node needs to play the track again (its encoded track).
    pub source: String,
    pub duration_ms: u64,
}

/// The voice link of a guild.
#[derive(Clone, Copy, Debug, PartialEq, Eq, Structural)]
pub enum Link {
    Disconnected,
    /// A voice session to this channel was asked for and is not yet complete.
    Connecting { channel: u64 },
    Connected { channel: u64 },
}

/// Where a guild stands in its life cycle.
#[derive(Clone, Copy, Debug, PartialEq, Eq, Structural)]
pub enum Phase {
    Disconnected,
    Connecting,
    Idle,
    Playing,
}

/// The abstract state of a guild session.
pub struct SessionView {
    pub link: Link,
    pub now_playing: Option<Track>,
    pub queued: Seq<Track>,
}

impl SessionView {
    /// The state of a guild the bot has never joined, or has left.
    pub open spec fn vacant() -> SessionView {
        SessionView { link: Link::Disconnected, now_playing: None, queued: Seq::empty() }
    }

    /// Nothing plays without a voice link, and nothing waits while nothing plays.
    pub open spec fn wf(self) -> bool {
        &&& !(self.link is Connected) ==> self.now_playing is None
        &&& self.now_playing is None ==> self.queued.len() == 0
    }

    pub open spec fn phase(self) -> Phase {
        match self.link {
            Link::Disconnected => Phase::Disconnected,
            Link::Connecting { .. } => Phase::Connecting,
            Link::Connected { .. } => if self.now_playing is Some {
                Phase::Playing
            } else {
                Phase::Idle
            },
        }
    }

    /// The current track ends: the next queued one, if any, takes its place.
    pub open spec fn advance(self) -> SessionView {
        if self.queued.len() > 0 {
            SessionView { now_playing: Some(self.queued[0]), queued: self.queued.drop_first(), ..self }
        } else {
            SessionView { now_playing: None, ..self }
        }
    }

    /// A track the audio node accepted: it plays at once when nothing does,
    /// else it waits at the tail of the queue.
    pub open spec fn enqueue(self, t: Track) -> SessionView {
        if self.now_playing is None {
            SessionView { now_playing: Some(t), ..self }
        } else {
            SessionView { queued: self.queued.push(t), ..self }
        }
    }
}

/// One guild's record in the registry.
pub struct GuildSession {
    pub link: Link,
    pub now_playing: Option<Track>,
    pub queued: Vec<Track>,
}

impl View for GuildSession {
    type V = SessionView;

    open spec fn view(&self) -> SessionView {
        SessionView { link: self.link, now_playing: self.now_playing, queued: self.queued@ }
    }
}

impl GuildSession {
    pub fn vacant() -> (r: GuildSession)
        ensures
            r@ == SessionView::vacant(),
    {
        GuildSession { link: Link::Disconnected, now_playing: None, queued: Vec::new() }
    }

    pub fn phase(&self) -> (r: Phase)
        ensures
            r == self@.phase(),
    {
        match self.link {
            Link::Disconnected => Phase::Disconnected,
            Link::Connecting { .. } => Phase::Connecting,
            Link::Connected { .. } => if self.now_playing.is_some() {
                Phase::Playing
            } else {
                Phase::Idle
            },
        }
    }

    /// Moves the head of the queue into play, or stops when the queue is empty.
    pub fn advance(&mut self)
        requires
            old(self)@.wf(),
        ensures
            final(self)@ == old(self)@.advance(),
            final(self)@.wf(),
    {
        if self.queued.len() > 0 {
            let next = self.queued.remove(0);
            self.now_playing = Some(next);
        } else {
            self.now_playing = None;
        }
    }

    pub fn enqueue(&mut self, t: Track)
        requires
            old(self)@.wf(),
            old(self).link is Connected,
        ensures
            final(self)@ == old(self)@.enqueue(t),
            final(self)@.wf(),
    {
        if self.now_playing.is_none() {
            self.now_playing = Some(t);
        } else {
            self.queued.push(t);
        }
    }
}

} // verus!
