//! Properties of the guild state machine that span several transitions.
use vstd::prelude::*;
use crate::coordinator::{
    audio_session_next, audio_session_step, fail, join_next, join_step, leave_next, now_playing_reply,
    play_ack_next, play_ack_step, play_step, say, search_step, skip_next, skip_step,
    voice_attached_next, voice_attached_step,
};
use crate::reply::{Action, BotError, Reply};
use crate::session::{Link, Phase, SessionView, Track};

verus! {

/// A guild that was never joined, or has been left, has nothing playing: the
/// status query answers "nothing is playing".
pub proof fn lemma_nothing_playing_while_disconnected(s: SessionView)
    requires
        s.wf(),
        s.link is Disconnected,
    ensures
        now_playing_reply(s) == Reply::NothingPlaying,
{
}

/// Without a voice link, `play` fails with `NotConnectedError` at every stage
/// and the guild's state stays as it was.
pub proof fn lemma_play_needs_connection(
    s: SessionView,
    query: String,
    results: Option<Vec<Track>>,
    t: Track,
    ok: bool,
)
    requires
        !(s.link is Connected),
    ensures
        play_step(s, query) == fail(BotError::NotConnectedError),
        search_step(s, results) == fail(BotError::NotConnectedError),
        play_ack_step(s, t, ok) == fail(BotError::NotConnectedError),
        play_ack_next(s, t, ok) == s,
{
}

/// A `join` whose voice session and audio-node session both succeed leaves
/// the guild connected to the user's channel with nothing playing.
pub proof fn lemma_join_reaches_idle(s: SessionView, channel: u64)
    requires
        s.wf(),
        s.link is Disconnected,
    ensures
        join_step(s, Some(channel)).action == (Action::AttachVoice { channel }),
        voice_attached_step(join_next(s, Some(channel)), true).action == Action::CreateAudioSession,
        ({
            let s3 = audio_session_next(voice_attached_next(join_next(s, Some(channel)), true), true);
            &&& s3.link == (Link::Connected { channel })
            &&& s3.phase() == Phase::Idle
            &&& s3.queued.len() == 0
        }),
{
}

/// While a join is in flight, or once connected, another `join` asks for no
/// second voice session and changes nothing.
pub proof fn lemma_join_in_flight_refused(s: SessionView, user_channel: Option<u64>)
    requires
        !(s.link is Disconnected),
    ensures
        join_next(s, user_channel) == s,
        join_step(s, user_channel).action == Action::Nothing,
{
}

/// `skip` with nothing playing says "nothing to skip" and changes nothing.
pub proof fn lemma_skip_when_idle(s: SessionView)
    requires
        s.wf(),
        s.phase() == Phase::Idle,
    ensures
        skip_next(s) == s,
        skip_step(s) == say(Reply::NothingToSkip),
{
}

/// A successful `join` followed by `leave` returns the guild to exactly the
/// state it had before the join.
pub proof fn lemma_join_leave_round_trip(s: SessionView, channel: u64)
    requires
        s.wf(),
        s.link is Disconnected,
    ensures
        leave_next(audio_session_next(voice_attached_next(join_next(s, Some(channel)), true), true))
            == s,
{
    assert(s.queued =~= Seq::<Track>::empty());
}

/// Every transition keeps a guild's state well formed.
pub proof fn lemma_transitions_keep_wf(
    s: SessionView,
    user_channel: Option<u64>,
    ok: bool,
    t: Track,
)
    requires
        s.wf(),
    ensures
        join_next(s, user_channel).wf(),
        voice_attached_next(s, ok).wf(),
        audio_session_next(s, ok).wf(),
        leave_next(s).wf(),
        play_ack_next(s, t, ok).wf(),
        skip_next(s).wf(),
{
}

} // verus!
