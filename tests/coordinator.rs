use musicmanrs::coordinator::Registry;
use musicmanrs::reply::{Action, BotError, Reply, Step};
use musicmanrs::session::{Phase, Track};

fn track(title: &str) -> Track {
    Track { title: title.to_string(), source: format!("https://example.org/{}", title), duration_ms: 180000 }
}

fn reply_text(st: &Step) -> String {
    st.reply.as_ref().map(|r| r.text()).unwrap_or_default()
}

fn connect(reg: &mut Registry, g: u64, c: u64) {
    let st = reg.join(g, Some(c));
    assert!(matches!(st.action, Action::AttachVoice { channel } if channel == c));
    let st = reg.voice_attached(g, true);
    assert!(matches!(st.action, Action::CreateAudioSession));
    let st = reg.audio_session_created(g, true);
    assert_eq!(reply_text(&st), format!("Joined <#{}>", c));
}

#[test]
fn now_playing_before_join_is_nothing() {
    let reg = Registry::new();
    for g in [0u64, 1, 42, u64::MAX] {
        assert!(matches!(reg.now_playing(g), Reply::NothingPlaying));
        assert_eq!(reg.now_playing(g).text(), "Nothing is playing at the moment.");
        assert_eq!(reg.phase(g), Phase::Disconnected);
    }
}

#[test]
fn play_while_disconnected_fails() {
    let reg = Registry::new();
    let st = reg.play(7, "song A".to_string());
    assert!(matches!(st.reply, Some(Reply::Error { error: BotError::NotConnectedError })));
    assert!(matches!(st.action, Action::Nothing));
    assert_eq!(reg.phase(7), Phase::Disconnected);
}

#[test]
fn join_reaches_idle_and_second_join_is_refused() {
    let mut reg = Registry::new();
    let st = reg.join(1, Some(10));
    assert!(st.reply.is_none());
    assert_eq!(reg.phase(1), Phase::Connecting);
    let again = reg.join(1, Some(10));
    assert!(matches!(again.action, Action::Nothing));
    assert!(matches!(again.reply, Some(Reply::AlreadyConnected)));
    assert_eq!(reg.phase(1), Phase::Connecting);
    let st = reg.voice_attached(1, true);
    assert!(matches!(st.action, Action::CreateAudioSession));
    let st = reg.audio_session_created(1, true);
    assert!(matches!(st.reply, Some(Reply::Joined { channel: 10 })));
    assert_eq!(reg.phase(1), Phase::Idle);
    let again = reg.join(1, Some(11));
    assert!(matches!(again.action, Action::Nothing));
    assert_eq!(reg.phase(1), Phase::Idle);
}

#[test]
fn join_without_voice_channel_fails() {
    let mut reg = Registry::new();
    let st = reg.join(1, None);
    assert!(matches!(st.reply, Some(Reply::Error { error: BotError::NoVoiceChannelError })));
    assert_eq!(reply_text(&st), "Join a voice channel first.");
    assert_eq!(reg.phase(1), Phase::Disconnected);
}

#[test]
fn join_rolls_back_when_voice_fails() {
    let mut reg = Registry::new();
    reg.join(3, Some(30));
    let st = reg.voice_attached(3, false);
    assert_eq!(reply_text(&st), "Error joining <#30>");
    assert!(matches!(st.action, Action::Nothing));
    assert_eq!(reg.phase(3), Phase::Disconnected);
}

#[test]
fn join_rolls_back_when_audio_node_fails() {
    let mut reg = Registry::new();
    reg.join(3, Some(30));
    reg.voice_attached(3, true);
    let st = reg.audio_session_created(3, false);
    assert!(matches!(st.action, Action::DetachVoice));
    assert!(matches!(st.reply, Some(Reply::JoinFailed { channel: 30 })));
    assert_eq!(reg.phase(3), Phase::Disconnected);
}

#[test]
fn stale_outcomes_change_nothing() {
    let mut reg = Registry::new();
    let st = reg.voice_attached(4, true);
    assert!(st.reply.is_none());
    assert!(matches!(st.action, Action::Nothing));
    let st = reg.audio_session_created(4, true);
    assert!(st.reply.is_none());
    assert_eq!(reg.phase(4), Phase::Disconnected);
}

#[test]
fn skip_when_idle_has_nothing_to_skip() {
    let mut reg = Registry::new();
    connect(&mut reg, 5, 50);
    let st = reg.skip(5);
    assert_eq!(reply_text(&st), "Nothing to skip.");
    assert!(matches!(st.action, Action::Nothing));
    assert_eq!(reg.phase(5), Phase::Idle);
}

#[test]
fn skip_when_disconnected_has_nothing_to_skip() {
    let mut reg = Registry::new();
    let st = reg.skip(5);
    assert!(matches!(st.reply, Some(Reply::NothingToSkip)));
    assert_eq!(reg.phase(5), Phase::Disconnected);
}

#[test]
fn join_then_leave_restores_disconnected() {
    let mut reg = Registry::new();
    connect(&mut reg, 6, 60);
    let st = reg.leave(6);
    assert_eq!(reply_text(&st), "Left voice channel");
    assert!(matches!(st.action, Action::Teardown));
    assert_eq!(reg.phase(6), Phase::Disconnected);
    assert!(matches!(reg.now_playing(6), Reply::NothingPlaying));
    assert!(matches!(reg.skip(6).reply, Some(Reply::NothingToSkip)));
}

#[test]
fn leave_clears_playing_and_queue() {
    let mut reg = Registry::new();
    connect(&mut reg, 6, 60);
    reg.play_acknowledged(6, track("a"), true);
    reg.play_acknowledged(6, track("b"), true);
    reg.leave(6);
    assert_eq!(reg.phase(6), Phase::Disconnected);
    assert!(matches!(reg.now_playing(6), Reply::NothingPlaying));
    connect(&mut reg, 6, 61);
    assert_eq!(reg.phase(6), Phase::Idle);
}

#[test]
fn leave_when_not_connected() {
    let mut reg = Registry::new();
    let st = reg.leave(8);
    assert_eq!(reply_text(&st), "Not in a voice channel");
    assert!(matches!(st.action, Action::Nothing));
}

#[test]
fn scenario_join_play_skip_now_playing() {
    let g1 = 1001;
    let c1 = 2002;
    let mut reg = Registry::new();
    connect(&mut reg, g1, c1);
    assert_eq!(reg.phase(g1), Phase::Idle);

    let st = reg.play(g1, "song A".to_string());
    let query = match st.action {
        Action::Search { query } => query,
        _ => panic!("expected a search"),
    };
    assert_eq!(query, "song A");
    let st = reg.search_done(g1, Some(vec![track("song A")]));
    let t = match st.action {
        Action::PlayTrack { track } => track,
        _ => panic!("expected a track to play"),
    };
    let st = reg.play_acknowledged(g1, t, true);
    assert!(reply_text(&st).contains("Added to queue: song A"));
    assert_eq!(reg.phase(g1), Phase::Playing);
    assert_eq!(reg.now_playing(g1).text(), "Now Playing: song A");

    let st = reg.skip(g1);
    assert_eq!(reply_text(&st), "Skipped: song A");
    assert!(matches!(st.action, Action::SkipTrack));
    assert_eq!(reg.phase(g1), Phase::Idle);
    assert!(reg.now_playing(g1).text().to_lowercase().contains("nothing is playing"));
}

#[test]
fn scenario_play_without_join() {
    let g2 = 3003;
    let reg = Registry::new();
    let st = reg.play(g2, "song B".to_string());
    assert!(reply_text(&st).contains("`!join` first"));
    assert_eq!(reg.phase(g2), Phase::Disconnected);
}

#[test]
fn queue_is_first_in_first_out() {
    let mut reg = Registry::new();
    connect(&mut reg, 9, 90);
    for title in ["one", "two", "three"] {
        let st = reg.play_acknowledged(9, track(title), true);
        assert_eq!(reply_text(&st), format!("Added to queue: {}", title));
    }
    assert_eq!(reg.now_playing(9).text(), "Now Playing: one");
    assert_eq!(reply_text(&reg.skip(9)), "Skipped: one");
    assert_eq!(reg.now_playing(9).text(), "Now Playing: two");
    reg.track_finished(9);
    assert_eq!(reg.now_playing(9).text(), "Now Playing: three");
    assert_eq!(reply_text(&reg.skip(9)), "Skipped: three");
    assert_eq!(reg.phase(9), Phase::Idle);
}

#[test]
fn search_takes_the_top_result() {
    let mut reg = Registry::new();
    connect(&mut reg, 11, 110);
    let st = reg.search_done(11, Some(vec![track("first"), track("second")]));
    assert!(matches!(st.action, Action::PlayTrack { track } if track.title == "first"));
    assert_eq!(reg.phase(11), Phase::Idle);
}

#[test]
fn search_with_no_results_is_not_found() {
    let mut reg = Registry::new();
    connect(&mut reg, 12, 120);
    let st = reg.search_done(12, Some(vec![]));
    assert!(matches!(st.reply, Some(Reply::Error { error: BotError::NotFoundError })));
    assert_eq!(reply_text(&st), "Could not find any video of the search query.");
    assert_eq!(reg.phase(12), Phase::Idle);
}

#[test]
fn search_failure_is_an_external_service_error() {
    let mut reg = Registry::new();
    connect(&mut reg, 13, 130);
    let st = reg.search_done(13, None);
    assert!(matches!(st.reply, Some(Reply::Error { error: BotError::ExternalServiceError })));
}

#[test]
fn refused_play_leaves_the_guild_idle() {
    let mut reg = Registry::new();
    connect(&mut reg, 14, 140);
    let st = reg.play_acknowledged(14, track("x"), false);
    assert!(matches!(st.reply, Some(Reply::Error { error: BotError::ExternalServiceError })));
    assert_eq!(reg.phase(14), Phase::Idle);
}

#[test]
fn guilds_are_independent() {
    let mut reg = Registry::new();
    connect(&mut reg, 21, 1);
    reg.play_acknowledged(21, track("x"), true);
    assert_eq!(reg.phase(22), Phase::Disconnected);
    connect(&mut reg, 22, 2);
    reg.leave(22);
    assert_eq!(reg.phase(21), Phase::Playing);
    assert_eq!(reg.now_playing(21).text(), "Now Playing: x");
}
