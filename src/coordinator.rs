//! The registry of guild sessions and the transitions of each guild's state
//! machine: `Disconnected`, `Connecting`, then connected and `Idle` or
//! `Playing`, and back.
//!
//! Each transition is stated twice: as spec functions on a [`SessionView`]
//! (the next state, and the [`Step`] to take), and as an executable method of
//! [`Registry`] proved to follow them. A command that needs an outside call is
//! split in two: the method that asks for the call, and the method that takes
//! its outcome.
use vstd::prelude::*;
use vstd::hash_map::HashMapWithView;
use crate::reply::{Action, BotError, Reply, Step};
use crate::session::{GuildSession, Link, Phase, SessionView, Track};

verus! {

broadcast use vstd::std_specs::hash::group_hash_axioms;

pub open spec fn quiet() -> Step {
    Step { reply: None, action: Action::Nothing }
}

pub open spec fn say(r: Reply) -> Step {
    Step { reply: Some(r), action: Action::Nothing }
}

pub open spec fn fail(e: BotError) -> Step {
    say(Reply::Error { error: e })
}

// ---- join -----------------------------------------------------------------

pub open spec fn join_next(s: SessionView, user_channel: Option<u64>) -> SessionView {
    match user_channel {
        Some(c) => if s.link is Disconnected {
            SessionView { link: Link::Connecting { channel: c }, ..s }
        } else {
            s
        },
        None => s,
    }
}

pub open spec fn join_step(s: SessionView, user_channel: Option<u64>) -> Step {
    match user_channel {
        Some(c) => if s.link is Disconnected {
            Step { reply: None, action: Action::AttachVoice { channel: c } }
        } else {
            say(Reply::AlreadyConnected)
        },
        None => fail(BotError::NoVoiceChannelError),
    }
}

pub open spec fn voice_attached_next(s: SessionView, ok: bool) -> SessionView {
    match s.link {
        Link::Connecting { .. } => if ok {
            s
        } else {
            SessionView { link: Link::Disconnected, ..s }
        },
        _ => s,
    }
}

pub open spec fn voice_attached_step(s: SessionView, ok: bool) -> Step {
    match s.link {
        Link::Connecting { channel } => if ok {
            Step { reply: None, action: Action::CreateAudioSession }
        } else {
            say(Reply::JoinFailed { channel })
        },
        _ => quiet(),
    }
}

pub open spec fn audio_session_next(s: SessionView, ok: bool) -> SessionView {
    match s.link {
        Link::Connecting { channel } => if ok {
            SessionView { link: Link::Connected { channel }, ..s }
        } else {
            SessionView { link: Link::Disconnected, ..s }
        },
        _ => s,
    }
}

pub open spec fn audio_session_step(s: SessionView, ok: bool) -> Step {
    match s.link {
        Link::Connecting { channel } => if ok {
            say(Reply::Joined { channel })
        } else {
            Step { reply: Some(Reply::JoinFailed { channel }), action: Action::DetachVoice }
        },
        _ => quiet(),
    }
}

// ---- leave ----------------------------------------------------------------

pub open spec fn leave_next(s: SessionView) -> SessionView {
    if s.link is Connected {
        SessionView::vacant()
    } else {
        s
    }
}

pub open spec fn leave_step(s: SessionView) -> Step {
    if s.link is Connected {
        Step { reply: Some(Reply::Left), action: Action::Teardown }
    } else {
        say(Reply::NotInVoiceChannel)
    }
}

// ---- play -----------------------------------------------------------------

pub open spec fn play_step(s: SessionView, query: String) -> Step {
    if s.link is Connected {
        Step { reply: None, action: Action::Search { query } }
    } else {
        fail(BotError::NotConnectedError)
    }
}

pub open spec fn search_step(s: SessionView, results: Option<Vec<Track>>) -> Step {
    if !(s.link is Connected) {
        fail(BotError::NotConnectedError)
    } else {
        match results {
            None => fail(BotError::ExternalServiceError),
            Some(v) => if v@.len() == 0 {
                fail(BotError::NotFoundError)
            } else {
                Step { reply: None, action: Action::PlayTrack { track: v@[0] } }
            },
        }
    }
}

pub open spec fn play_ack_next(s: SessionView, t: Track, ok: bool) -> SessionView {
    if s.link is Connected && ok {
        s.enqueue(t)
    } else {
        s
    }
}

pub open spec fn play_ack_step(s: SessionView, t: Track, ok: bool) -> Step {
    if !(s.link is Connected) {
        fail(BotError::NotConnectedError)
    } else if !ok {
        fail(BotError::ExternalServiceError)
    } else {
        say(Reply::AddedToQueue { title: t.title })
    }
}

// ---- skip, track end, status ----------------------------------------------

pub open spec fn skip_next(s: SessionView) -> SessionView {
    if s.now_playing is Some {
        s.advance()
    } else {
        s
    }
}

pub open spec fn skip_step(s: SessionView) -> Step {
    match s.now_playing {
        Some(t) => Step { reply: Some(Reply::Skipped { title: t.title }), action: Action::SkipTrack },
        None => say(Reply::NothingToSkip),
    }
}

pub open spec fn now_playing_reply(s: SessionView) -> Reply {
    match s.now_playing {
        Some(t) => Reply::NowPlaying { title: t.title },
        None => Reply::NothingPlaying,
    }
}

fn error_step(e: BotError) -> (st: Step)
    ensures
        st == fail(e),
{
    Step { reply: Some(Reply::Error { error: e }), action: Action::Nothing }
}

/// The registry of guild sessions, keyed by guild id.
pub struct Registry {
    sessions: HashMapWithView<u64, GuildSession>,
}

impl View for Registry {
    type V = Map<u64, GuildSession>;

    closed spec fn view(&self) -> Map<u64, GuildSession> {
        self.sessions@
    }
}

impl Registry {
    /// The state of guild `g`; a guild without a record is vacant.
    pub open spec fn session(self, g: u64) -> SessionView {
        if self@.contains_key(g) {
            self@[g]@
        } else {
            SessionView::vacant()
        }
    }

    pub open spec fn wf(self) -> bool {
        forall|g: u64| #[trigger] self.session(g).wf()
    }

    /// Every guild but `g` is as in `other`.
    pub open spec fn others_kept(self, other: Registry, g: u64) -> bool {
        forall|h: u64| h != g ==> #[trigger] self.session(h) == other.session(h)
    }

    pub fn new() -> (r: Registry)
        ensures
            r.wf(),
            forall|g: u64| #[trigger] r.session(g) == SessionView::vacant(),
    {
        Registry { sessions: HashMapWithView::new() }
    }

    /// Removes guild `g`'s record and hands it out.
    fn take(&mut self, g: u64) -> (s: GuildSession)
        requires
            old(self).wf(),
        ensures
            s@ == old(self).session(g),
            s@.wf(),
            final(self)@ == old(self)@.remove(g),
            final(self).wf(),
            final(self).others_kept(*old(self), g),
    {
        let s = match self.sessions.remove(&g) {
            Some(s) => s,
            None => GuildSession::vacant(),
        };
        proof {
            assert forall|h: u64| #[trigger] self.session(h).wf() by {
                if h != g {
                    assert(self.session(h) == old(self).session(h));
                }
            }
        }
        s
    }

    /// Stores `s` as guild `g`'s record.
    fn put(&mut self, g: u64, s: GuildSession)
        requires
            old(self).wf(),
            s@.wf(),
        ensures
            final(self)@ == old(self)@.insert(g, s),
            final(self).wf(),
            final(self).session(g) == s@,
            final(self).others_kept(*old(self), g),
    {
        self.sessions.insert(g, s);
        proof {
            assert forall|h: u64| #[trigger] self.session(h).wf() by {
                if h != g {
                    assert(self.session(h) == old(self).session(h));
                }
            }
        }
    }

    fn link_of(&self, g: u64) -> (r: Link)
        ensures
            r == self.session(g).link,
    {
        match self.sessions.get(&g) {
            Some(s) => s.link,
            None => Link::Disconnected,
        }
    }

    fn is_playing(&self, g: u64) -> (r: bool)
        ensures
            r == self.session(g).now_playing is Some,
    {
        match self.sessions.get(&g) {
            Some(s) => s.now_playing.is_some(),
            None => false,
        }
    }

    /// `join` from a user in `user_channel`, if in any: asks for a voice
    /// session when the guild is disconnected. A guild that is connecting or
    /// connected is left alone, so a second `join` never opens a second session.
    pub fn join(&mut self, g: u64, user_channel: Option<u64>) -> (st: Step)
        requires
            old(self).wf(),
        ensures
            final(self).wf(),
            final(self).session(g) == join_next(old(self).session(g), user_channel),
            final(self).others_kept(*old(self), g),
            join_next(old(self).session(g), user_channel) == old(self).session(g) ==> final(self)@
                == old(self)@,
            st == join_step(old(self).session(g), user_channel),
    {
        match user_channel {
            None => error_step(BotError::NoVoiceChannelError),
            Some(c) => {
                if self.link_of(g) != Link::Disconnected {
                    return Step { reply: Some(Reply::AlreadyConnected), action: Action::Nothing };
                }
                let mut s = self.take(g);
                s.link = Link::Connecting { channel: c };
                self.put(g, s);
                Step { reply: None, action: Action::AttachVoice { channel: c } }
            },
        }
    }

    /// The voice service answered the request that `join` made.
    pub fn voice_attached(&mut self, g: u64, ok: bool) -> (st: Step)
        requires
            old(self).wf(),
        ensures
            final(self).wf(),
            final(self).session(g) == voice_attached_next(old(self).session(g), ok),
            final(self).others_kept(*old(self), g),
            voice_attached_next(old(self).session(g), ok) == old(self).session(g) ==> final(self)@
                == old(self)@,
            st == voice_attached_step(old(self).session(g), ok),
    {
        match self.link_of(g) {
            Link::Connecting { channel } => {
                if ok {
                    Step { reply: None, action: Action::CreateAudioSession }
                } else {
                    let mut s = self.take(g);
                    s.link = Link::Disconnected;
                    self.put(g, s);
                    Step { reply: Some(Reply::JoinFailed { channel }), action: Action::Nothing }
                }
            },
            _ => Step { reply: None, action: Action::Nothing },
        }
    }

    /// The audio node answered the request for its session. On failure the
    /// guild goes back to disconnected and the voice session is closed.
    pub fn audio_session_created(&mut self, g: u64, ok: bool) -> (st: Step)
        requires
            old(self).wf(),
        ensures
            final(self).wf(),
            final(self).session(g) == audio_session_next(old(self).session(g), ok),
            final(self).others_kept(*old(self), g),
            audio_session_next(old(self).session(g), ok) == old(self).session(g) ==> final(self)@
                == old(self)@,
            st == audio_session_step(old(self).session(g), ok),
    {
        match self.link_of(g) {
            Link::Connecting { channel } => {
                let mut s = self.take(g);
                if ok {
                    s.link = Link::Connected { channel };
                    self.put(g, s);
                    Step { reply: Some(Reply::Joined { channel }), action: Action::Nothing }
                } else {
                    s.link = Link::Disconnected;
                    self.put(g, s);
                    Step { reply: Some(Reply::JoinFailed { channel }), action: Action::DetachVoice }
                }
            },
            _ => Step { reply: None, action: Action::Nothing },
        }
    }

    /// `leave`: a connected guild is cleared at once and its sessions are torn
    /// down afterwards, whatever that teardown reports.
    pub fn leave(&mut self, g: u64) -> (st: Step)
        requires
            old(self).wf(),
        ensures
            final(self).wf(),
            final(self).session(g) == leave_next(old(self).session(g)),
            final(self).others_kept(*old(self), g),
            leave_next(old(self).session(g)) == old(self).session(g) ==> final(self)@
                == old(self)@,
            st == leave_step(old(self).session(g)),
    {
        match self.link_of(g) {
            Link::Connected { .. } => {
                let _ = self.take(g);
                self.put(g, GuildSession::vacant());
                Step { reply: Some(Reply::Left), action: Action::Teardown }
            },
            _ => Step { reply: Some(Reply::NotInVoiceChannel), action: Action::Nothing },
        }
    }

    /// `play query`: asks the audio node to search, on a connected guild only.
    /// The registry is not touched.
    pub fn play(&self, g: u64, query: String) -> (st: Step)
        requires
            self.wf(),
        ensures
            st == play_step(self.session(g), query),
    {
        match self.link_of(g) {
            Link::Connected { .. } => Step { reply: None, action: Action::Search { query } },
            _ => error_step(BotError::NotConnectedError),
        }
    }

    /// The audio node's search answered (`None`: the search failed). The top
    /// result, and only it, is handed on to play.
    pub fn search_done(&self, g: u64, results: Option<Vec<Track>>) -> (st: Step)
        requires
            self.wf(),
        ensures
            st == search_step(self.session(g), results),
    {
        match self.link_of(g) {
            Link::Connected { .. } => match results {
                None => error_step(BotError::ExternalServiceError),
                Some(v) => {
                    let mut v = v;
                    if v.len() == 0 {
                        error_step(BotError::NotFoundError)
                    } else {
                        let t = v.remove(0);
                        Step { reply: None, action: Action::PlayTrack { track: t } }
                    }
                },
            },
            _ => error_step(BotError::NotConnectedError),
        }
    }

    /// The audio node answered the request to play `t`. On success the track
    /// plays at once if nothing did, else it joins the tail of the queue.
    pub fn play_acknowledged(&mut self, g: u64, t: Track, ok: bool) -> (st: Step)
        requires
            old(self).wf(),
        ensures
            final(self).wf(),
            final(self).session(g) == play_ack_next(old(self).session(g), t, ok),
            final(self).others_kept(*old(self), g),
            !ok ==> final(self)@ == old(self)@,
            !(old(self).session(g).link is Connected) ==> final(self)@ == old(self)@,
            st == play_ack_step(old(self).session(g), t, ok),
    {
        match self.link_of(g) {
            Link::Connected { .. } => {
                if !ok {
                    return error_step(BotError::ExternalServiceError);
                }
                let title = t.title.clone();
                let mut s = self.take(g);
                s.enqueue(t);
                self.put(g, s);
                Step { reply: Some(Reply::AddedToQueue { title }), action: Action::Nothing }
            },
            _ => error_step(BotError::NotConnectedError),
        }
    }

    /// `skip`: the playing track gives way to the next queued one, or to
    /// silence; with nothing playing, nothing changes.
    pub fn skip(&mut self, g: u64) -> (st: Step)
        requires
            old(self).wf(),
        ensures
            final(self).wf(),
            final(self).session(g) == skip_next(old(self).session(g)),
            final(self).others_kept(*old(self), g),
            old(self).session(g).now_playing is None ==> final(self)@ == old(self)@,
            st == skip_step(old(self).session(g)),
    {
        if !self.is_playing(g) {
            return Step { reply: Some(Reply::NothingToSkip), action: Action::Nothing };
        }
        let mut s = self.take(g);
        let title = match &s.now_playing {
            Some(t) => t.title.clone(),
            None => String::new(),
        };
        s.advance();
        self.put(g, s);
        Step { reply: Some(Reply::Skipped { title }), action: Action::SkipTrack }
    }

    /// The audio node reports that the current track of guild `g` ended.
    pub fn track_finished(&mut self, g: u64)
        requires
            old(self).wf(),
        ensures
            final(self).wf(),
            final(self).session(g) == skip_next(old(self).session(g)),
            final(self).others_kept(*old(self), g),
            old(self).session(g).now_playing is None ==> final(self)@ == old(self)@,
    {
        if self.is_playing(g) {
            let mut s = self.take(g);
            s.advance();
            self.put(g, s);
        }
    }

    /// `now_playing`: the title on the audio node, if any. Reads only.
    pub fn now_playing(&self, g: u64) -> (r: Reply)
        requires
            self.wf(),
        ensures
            r == now_playing_reply(self.session(g)),
    {
        match self.sessions.get(&g) {
            Some(s) => match &s.now_playing {
                Some(t) => Reply::NowPlaying { title: t.title.clone() },
                None => Reply::NothingPlaying,
            },
            None => Reply::NothingPlaying,
        }
    }

    /// Where guild `g` stands in its life cycle.
    pub fn phase(&self, g: u64) -> (r: Phase)
        ensures
            r == self.session(g).phase(),
    {
        match self.sessions.get(&g) {
            Some(s) => s.phase(),
            None => Phase::Disconnected,
        }
    }
}

} // verus!
