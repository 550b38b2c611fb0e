use termart::error::RenderError;
use termart::events::{Effect, EventManager, GeometryWatch};
use termart::player::{
    playback_mode, FrameCursor, Phase, PlaybackMode, PlayerAction, PlayerEvent, SourceKind,
    StreamPlayer,
};
use termart::render::RenderConfig;
use termart::resize::TerminalGeometry;

fn terminal(columns: u16, rows: u16) -> TerminalGeometry {
    TerminalGeometry { columns, rows }
}

fn config(delay: u64) -> RenderConfig {
    RenderConfig {
        colorize: false,
        resize: false,
        block_character: false,
        frame_delay_ms: delay,
        loop_animation: false,
    }
}

fn resize_watcher(first: TerminalGeometry) -> EventManager<GeometryWatch, Effect> {
    EventManager::default().append(GeometryWatch { last_seen: first }, Effect::ClearScreen)
}

#[test]
fn empty_registry_fires_nothing() {
    let mut events: EventManager<GeometryWatch, Effect> = EventManager::new();
    assert_eq!(events.len(), 0);
    assert_eq!(events.run(&terminal(80, 24)), Vec::new());
}

#[test]
fn unchanged_geometry_fires_nothing() {
    let mut events = resize_watcher(terminal(80, 24));
    assert_eq!(events.len(), 1);
    assert_eq!(events.run(&terminal(80, 24)), Vec::new());
    assert_eq!(events.run(&terminal(80, 24)), Vec::new());
}

#[test]
fn geometry_change_clears_the_screen_once() {
    let mut events = resize_watcher(terminal(80, 24));
    assert_eq!(events.run(&terminal(80, 24)), Vec::new());
    assert_eq!(events.run(&terminal(100, 30)), vec![Effect::ClearScreen]);
    assert_eq!(events.run(&terminal(100, 30)), Vec::new());
}

#[test]
fn change_of_one_side_counts_as_a_change() {
    let mut events = resize_watcher(terminal(80, 24));
    assert_eq!(events.run(&terminal(80, 25)), vec![Effect::ClearScreen]);
    assert_eq!(events.run(&terminal(81, 25)), vec![Effect::ClearScreen]);
    assert_eq!(events.run(&terminal(80, 24)), vec![Effect::ClearScreen]);
}

#[test]
fn every_check_runs_on_every_tick_in_registration_order() {
    let mut events = EventManager::new()
        .append(GeometryWatch { last_seen: terminal(80, 24) }, 1u8)
        .append(GeometryWatch { last_seen: terminal(100, 30) }, 2u8)
        .append(GeometryWatch { last_seen: terminal(80, 24) }, 3u8);
    assert_eq!(events.run(&terminal(100, 30)), vec![1, 3]);
    assert_eq!(events.run(&terminal(100, 30)), Vec::new());
    assert_eq!(events.run(&terminal(80, 24)), vec![1, 2, 3]);
}

#[test]
fn removed_checks_no_longer_run() {
    let mut events = EventManager::new()
        .append(GeometryWatch { last_seen: terminal(80, 24) }, 1u8)
        .append(GeometryWatch { last_seen: terminal(80, 24) }, 2u8)
        .append(GeometryWatch { last_seen: terminal(80, 24) }, 3u8);
    assert_eq!(events.remove(3), None);
    assert_eq!(events.len(), 3);
    assert_eq!(events.remove(1), Some((GeometryWatch { last_seen: terminal(80, 24) }, 2u8)));
    assert_eq!(events.len(), 2);
    assert_eq!(events.run(&terminal(100, 30)), vec![1, 3]);
    assert_eq!(events.remove(0), Some((GeometryWatch { last_seen: terminal(100, 30) }, 1u8)));
    assert_eq!(events.run(&terminal(80, 24)), vec![3]);
}

#[test]
fn playback_mode_by_source_and_loop_flag() {
    assert_eq!(playback_mode(SourceKind::StillImage, false), PlaybackMode::SingleFrame);
    assert_eq!(playback_mode(SourceKind::StillImage, true), PlaybackMode::SingleFrame);
    assert_eq!(playback_mode(SourceKind::Animation, false), PlaybackMode::Sequence);
    assert_eq!(playback_mode(SourceKind::Animation, true), PlaybackMode::Cycle);
    assert_eq!(playback_mode(SourceKind::Video, false), PlaybackMode::Sequence);
    assert_eq!(playback_mode(SourceKind::Video, true), PlaybackMode::Sequence);
    assert_eq!(playback_mode(SourceKind::Camera, false), PlaybackMode::SingleFrame);
    assert_eq!(playback_mode(SourceKind::Camera, true), PlaybackMode::Sequence);
}

#[test]
fn cyclic_cursor_repeats_its_frames() {
    let mut cursor = FrameCursor::new(3, true);
    for n in 0..20usize {
        assert_eq!(cursor.advance(), Some(n % 3));
    }
}

#[test]
fn cyclic_cursor_of_one_frame_repeats_it() {
    let mut cursor = FrameCursor::new(1, true);
    for _ in 0..5 {
        assert_eq!(cursor.advance(), Some(0));
    }
}

#[test]
fn finite_cursor_ends_after_its_last_frame() {
    let mut cursor = FrameCursor::new(3, false);
    assert_eq!(cursor.advance(), Some(0));
    assert_eq!(cursor.advance(), Some(1));
    assert_eq!(cursor.advance(), Some(2));
    assert_eq!(cursor.advance(), None);
    assert_eq!(cursor.advance(), None);
}

#[test]
fn empty_cursors_hand_out_nothing() {
    assert_eq!(FrameCursor::new(0, false).advance(), None);
    assert_eq!(FrameCursor::new(0, true).advance(), None);
}

#[test]
fn single_frame_is_drawn_once_without_a_pause() {
    let (mut player, first) = StreamPlayer::new(&config(200), PlaybackMode::SingleFrame);
    assert_eq!(first, PlayerAction::PullFrame);
    assert_eq!(player.phase(), Phase::AwaitingFrame);
    assert_eq!(player.step(PlayerEvent::FrameReady), Some(PlayerAction::RenderFrame));
    assert_eq!(player.step(PlayerEvent::Rendered), Some(PlayerAction::Finish(Ok(()))));
    assert!(player.is_finished());
    assert_eq!(player.step(PlayerEvent::FrameReady), None);
    assert_eq!(player.step(PlayerEvent::Paced), None);
    assert!(player.is_finished());
}

#[test]
fn stream_renders_polls_and_pauses_for_each_frame() {
    let (mut player, first) = StreamPlayer::new(&config(200), PlaybackMode::Sequence);
    assert_eq!(first, PlayerAction::QueryGeometry);
    assert_eq!(player.phase(), Phase::Starting);
    assert_eq!(
        player.step(PlayerEvent::Geometry(terminal(80, 24))),
        Some(PlayerAction::PullFrame)
    );
    for _ in 0..3 {
        assert_eq!(player.step(PlayerEvent::FrameReady), Some(PlayerAction::RenderFrame));
        assert_eq!(player.step(PlayerEvent::Rendered), Some(PlayerAction::QueryGeometry));
        assert_eq!(
            player.step(PlayerEvent::Geometry(terminal(80, 24))),
            Some(PlayerAction::Pace { effects: Vec::new(), delay_ms: 200 })
        );
        assert_eq!(player.step(PlayerEvent::Paced), Some(PlayerAction::PullFrame));
    }
    assert_eq!(player.step(PlayerEvent::SourceEnded), Some(PlayerAction::Finish(Ok(()))));
    assert!(player.is_finished());
}

#[test]
fn resize_between_two_frames_clears_the_screen_once() {
    let (mut player, _) = StreamPlayer::new(&config(50), PlaybackMode::Cycle);
    assert_eq!(
        player.step(PlayerEvent::Geometry(terminal(80, 24))),
        Some(PlayerAction::PullFrame)
    );
    assert_eq!(player.step(PlayerEvent::FrameReady), Some(PlayerAction::RenderFrame));
    assert_eq!(player.step(PlayerEvent::Rendered), Some(PlayerAction::QueryGeometry));
    assert_eq!(
        player.step(PlayerEvent::Geometry(terminal(80, 24))),
        Some(PlayerAction::Pace { effects: Vec::new(), delay_ms: 50 })
    );
    assert_eq!(player.step(PlayerEvent::Paced), Some(PlayerAction::PullFrame));
    assert_eq!(player.step(PlayerEvent::FrameReady), Some(PlayerAction::RenderFrame));
    assert_eq!(player.step(PlayerEvent::Rendered), Some(PlayerAction::QueryGeometry));
    assert_eq!(
        player.step(PlayerEvent::Geometry(terminal(100, 30))),
        Some(PlayerAction::Pace { effects: vec![Effect::ClearScreen], delay_ms: 50 })
    );
    assert_eq!(player.step(PlayerEvent::Paced), Some(PlayerAction::PullFrame));
    assert_eq!(player.step(PlayerEvent::FrameReady), Some(PlayerAction::RenderFrame));
    assert_eq!(player.step(PlayerEvent::Rendered), Some(PlayerAction::QueryGeometry));
    assert_eq!(
        player.step(PlayerEvent::Geometry(terminal(100, 30))),
        Some(PlayerAction::Pace { effects: Vec::new(), delay_ms: 50 })
    );
}

#[test]
fn render_failure_ends_playback_with_its_error() {
    let (mut player, _) = StreamPlayer::new(&config(50), PlaybackMode::Sequence);
    player.step(PlayerEvent::Geometry(terminal(80, 24)));
    player.step(PlayerEvent::FrameReady);
    assert_eq!(
        player.step(PlayerEvent::RenderFailed(RenderError::Io)),
        Some(PlayerAction::Finish(Err(RenderError::Io)))
    );
    assert!(player.is_finished());
    let (mut other, _) = StreamPlayer::new(&config(50), PlaybackMode::SingleFrame);
    other.step(PlayerEvent::FrameReady);
    assert_eq!(
        other.step(PlayerEvent::RenderFailed(RenderError::TerminalTooSmall)),
        Some(PlayerAction::Finish(Err(RenderError::TerminalTooSmall)))
    );
}

#[test]
fn source_failure_ends_playback_with_a_source_error() {
    let (mut player, _) = StreamPlayer::new(&config(50), PlaybackMode::Sequence);
    player.step(PlayerEvent::Geometry(terminal(80, 24)));
    assert_eq!(
        player.step(PlayerEvent::SourceFailed),
        Some(PlayerAction::Finish(Err(RenderError::FrameSource)))
    );
    assert!(player.is_finished());
}

#[test]
fn unexpected_events_change_nothing() {
    let (mut player, _) = StreamPlayer::new(&config(50), PlaybackMode::Sequence);
    assert_eq!(player.step(PlayerEvent::FrameReady), None);
    assert_eq!(player.step(PlayerEvent::Rendered), None);
    assert_eq!(player.step(PlayerEvent::Paced), None);
    assert_eq!(player.phase(), Phase::Starting);
    player.step(PlayerEvent::Geometry(terminal(80, 24)));
    assert_eq!(player.step(PlayerEvent::Geometry(terminal(1, 1))), None);
    assert_eq!(player.phase(), Phase::AwaitingFrame);
    assert_eq!(player.step(PlayerEvent::FrameReady), Some(PlayerAction::RenderFrame));
    assert_eq!(player.step(PlayerEvent::SourceEnded), None);
    assert_eq!(player.phase(), Phase::Rendering);
}
