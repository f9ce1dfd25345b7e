use rhythm_chart::input::{check_input, key_row, KeyIndicator, PRESSED_SCALE, RELEASED_SCALE};
use rhythm_chart::lanes::Skin;
use rhythm_chart::notes::NoteField;
use rhythm_chart::scroll::{position, time_to_pos};
use rhythm_chart::session::{PlaySession, SessionState, SCROLL_SPEED, START_DELAY_MS};
use rhythm_chart::{Actions, Level, LevelLoader, LevelLoaderError, Note};

fn chart(data: Vec<Note>) -> Level {
    Level {
        title: "Song".to_string(),
        artist: "Artist".to_string(),
        creator: "Creator".to_string(),
        filename: "song.ogg".to_string(),
        data,
    }
}

#[test]
fn lane_offsets_are_symmetric() {
    assert_eq!(Actions::Key1.get_pos(), -96000);
    assert_eq!(Actions::Key2.get_pos(), -32000);
    assert_eq!(Actions::Key3.get_pos(), 32000);
    assert_eq!(Actions::Key4.get_pos(), 96000);
}

#[test]
fn outer_and_inner_lanes_share_skins() {
    assert_eq!(Actions::Key1.skin(), Skin::A);
    assert_eq!(Actions::Key4.skin(), Skin::A);
    assert_eq!(Actions::Key2.skin(), Skin::B);
    assert_eq!(Actions::Key3.skin(), Skin::B);
    assert_eq!(Skin::A.note_texture(), "Note_A.png");
    assert_eq!(Skin::B.note_texture(), "Note_B.png");
    assert_eq!(Skin::A.key_texture(), "Key_A.png");
    assert_eq!(Skin::B.key_texture(), "Key_B.png");
}

#[test]
fn due_note_sits_half_a_note_above_hit_line() {
    assert_eq!(time_to_pos(0, SCROLL_SPEED), -249000);
    assert_eq!(time_to_pos(0, 1), -249000);
}

#[test]
fn position_is_linear_in_remaining_time() {
    assert_eq!(time_to_pos(1000, 800), 551000);
    assert_eq!(time_to_pos(7000, 800), 5351000);
    assert_eq!(position(250, 800, Actions::Key3), (32000, -49000));
}

#[test]
fn position_falls_as_time_runs_out() {
    let mut last = time_to_pos(10000, 800);
    let mut t: u64 = 10000;
    while t > 0 {
        t -= 125;
        let y = time_to_pos(t, 800);
        assert!(y < last);
        last = y;
    }
    assert_eq!(last, -249000);
}

#[test]
fn scenario_a_single_tap() {
    let level = chart(vec![Note::S(Actions::Key1, 5000)]);
    let mut field = NoteField::new();
    field.spawn_all(&level, 2000);
    let notes = field.instances();
    assert_eq!(notes.len(), 1);
    assert_eq!(notes[0].remaining_ms, 7000);
    assert_eq!(notes[0].lane, Actions::Key1);
    assert_eq!(notes[0].id, 0);
    let pos = field.positions(800);
    assert_eq!(pos[0].x, -96000);
    assert_eq!(pos[0].y, 5351000);
    field.advance(3000);
    assert_eq!(field.instances()[0].remaining_ms, 4000);
    field.advance(4000);
    assert_eq!(field.len(), 0);
}

#[test]
fn scenario_a_through_session() {
    let level = chart(vec![Note::S(Actions::Key1, 5000)]);
    let mut session = PlaySession::new(2000);
    assert_eq!(session.tick(16, Some(&level)), None);
    assert_eq!(session.notes().instances()[0].remaining_ms, 7000);
    session.tick(6999, None);
    assert_eq!(session.notes().instances()[0].remaining_ms, 1);
    session.tick(1, None);
    assert_eq!(session.notes().len(), 0);
}

#[test]
fn scenario_b_notes_appear_on_load_tick() {
    let level = chart(vec![
        Note::S(Actions::Key1, 0),
        Note::S(Actions::Key2, 500),
        Note::S(Actions::Key4, 1000),
    ]);
    let mut session = PlaySession::new(START_DELAY_MS);
    for _ in 0..5 {
        assert_eq!(session.tick(16, None), None);
        assert_eq!(session.notes().len(), 0);
        assert_eq!(session.state(), SessionState::AwaitingChart);
        assert_eq!(session.songname(), None);
    }
    session.tick(16, Some(&level));
    assert_eq!(session.notes().len(), level.data.len());
    assert_eq!(session.state(), SessionState::AudioCountdown(2000));
    assert_eq!(session.songname(), Some("song.ogg".to_string()));
}

#[test]
fn scenario_c_countdown_starts_audio_once() {
    let level = chart(vec![Note::S(Actions::Key1, 0)]);
    let mut session = PlaySession::new(2000);
    session.tick(10, Some(&level));
    assert_eq!(session.state(), SessionState::AudioCountdown(2000));
    assert_eq!(session.tick(500, None), None);
    assert_eq!(session.tick(500, None), None);
    assert_eq!(session.tick(500, None), None);
    assert_eq!(session.state(), SessionState::AudioCountdown(500));
    assert_eq!(session.tick(500, None), Some("song.ogg".to_string()));
    assert_eq!(session.state(), SessionState::Playing);
    for _ in 0..10 {
        assert_eq!(session.tick(500, None), None);
        assert_eq!(session.state(), SessionState::Playing);
    }
}

#[test]
fn scenario_d_inner_lanes_move_together() {
    let level = chart(vec![Note::S(Actions::Key2, 3000), Note::S(Actions::Key3, 3000)]);
    let mut field = NoteField::new();
    field.spawn_all(&level, 2000);
    assert_eq!(Actions::Key2.skin(), Actions::Key3.skin());
    for _ in 0..8 {
        let pos = field.positions(800);
        assert_eq!(pos.len(), 2);
        assert_eq!(pos[0].y, pos[1].y);
        assert_eq!(pos[0].x, -32000);
        assert_eq!(pos[1].x, 32000);
        field.advance(600);
    }
    assert_eq!(field.len(), 2);
    field.advance(200);
    assert_eq!(field.len(), 0);
}

#[test]
fn advance_depends_only_on_total_elapsed() {
    let level = chart(vec![
        Note::S(Actions::Key1, 100),
        Note::S(Actions::Key2, 900),
        Note::S(Actions::Key3, 2500),
    ]);
    let mut a = NoteField::new();
    a.spawn_all(&level, 0);
    let mut b = NoteField::new();
    b.spawn_all(&level, 0);
    for step in [50u32, 300, 17, 233] {
        a.advance(step);
    }
    b.advance(600);
    assert_eq!(a.instances(), b.instances());
    let left = a.instances();
    assert_eq!(left.len(), 2);
    assert_eq!(left[0].id, 1);
    assert_eq!(left[0].remaining_ms, 300);
    assert_eq!(left[1].id, 2);
    assert_eq!(left[1].remaining_ms, 1900);
}

#[test]
fn positions_twice_in_a_tick_agree() {
    let level = chart(vec![Note::S(Actions::Key1, 10), Note::S(Actions::Key4, 20)]);
    let mut field = NoteField::new();
    field.spawn_all(&level, 2000);
    field.advance(5);
    assert_eq!(field.positions(800), field.positions(800));
}

#[test]
fn note_reaching_zero_is_removed_same_tick() {
    let level = chart(vec![Note::S(Actions::Key1, 1000), Note::S(Actions::Key2, 1001)]);
    let mut field = NoteField::new();
    field.spawn_all(&level, 0);
    field.advance(1000);
    let left = field.instances();
    assert_eq!(left.len(), 1);
    assert_eq!(left[0].id, 1);
    assert_eq!(left[0].remaining_ms, 1);
}

#[test]
fn spawning_twice_does_nothing() {
    let level = chart(vec![Note::S(Actions::Key1, 1000)]);
    let mut field = NoteField::new();
    assert!(!field.has_spawned());
    field.spawn_all(&level, 0);
    field.advance(400);
    field.spawn_all(&level, 0);
    assert!(field.has_spawned());
    let left = field.instances();
    assert_eq!(left.len(), 1);
    assert_eq!(left[0].remaining_ms, 600);
}

#[test]
fn tap_already_due_is_not_spawned() {
    let level = chart(vec![Note::S(Actions::Key1, 0), Note::S(Actions::Key2, 1)]);
    let mut field = NoteField::new();
    field.spawn_all(&level, 0);
    let notes = field.instances();
    assert_eq!(notes.len(), 1);
    assert_eq!(notes[0].id, 1);
}

#[test]
fn long_notes_are_not_spawned() {
    let level = chart(vec![Note::L(Actions::Key1, 0, 500), Note::S(Actions::Key4, 40)]);
    let mut field = NoteField::new();
    field.spawn_all(&level, 10);
    let notes = field.instances();
    assert_eq!(notes.len(), 1);
    assert_eq!(notes[0].id, 1);
    assert_eq!(notes[0].remaining_ms, 50);
}

#[test]
fn largest_times_do_not_overflow() {
    let level = chart(vec![Note::S(Actions::Key4, u32::MAX)]);
    let mut field = NoteField::new();
    field.spawn_all(&level, u32::MAX);
    assert_eq!(field.instances()[0].remaining_ms, 2 * (u32::MAX as u64));
    let pos = field.positions(u32::MAX);
    assert_eq!(pos[0].y, (2 * (u32::MAX as i128)) * (u32::MAX as i128) - 249000);
}

#[test]
fn check_accepts_taps_only() {
    let level = chart(vec![Note::S(Actions::Key1, 10), Note::S(Actions::Key2, 20)]);
    let checked = LevelLoader::check(level).unwrap();
    assert_eq!(checked.title, "Song");
    assert_eq!(checked.data, vec![Note::S(Actions::Key1, 10), Note::S(Actions::Key2, 20)]);
}

#[test]
fn check_rejects_first_long_note() {
    let level = chart(vec![
        Note::S(Actions::Key1, 10),
        Note::L(Actions::Key2, 20, 40),
        Note::L(Actions::Key3, 50, 90),
    ]);
    match LevelLoader::check(level) {
        Err(LevelLoaderError::UnsupportedNoteKind(i)) => assert_eq!(i, 1),
        _ => panic!("a chart with a long note must be rejected"),
    }
}

#[test]
fn key_row_is_laid_out_left_to_right() {
    let keys = key_row();
    assert_eq!(keys.len(), 4);
    assert_eq!(keys[0], KeyIndicator::new(Actions::Key1));
    assert_eq!(keys[3].lane, Actions::Key4);
    assert_eq!(keys[3].x, 96000);
    assert_eq!(keys[2].y, -300000);
    assert_eq!(keys[1].skin, Skin::B);
    assert!(keys.iter().all(|k| k.scale_percent == RELEASED_SCALE));
}

#[test]
fn held_lanes_are_compressed() {
    let mut keys = key_row();
    check_input(&mut keys, [true, false, false, true]);
    let scales: Vec<u32> = keys.iter().map(|k| k.scale_percent).collect();
    assert_eq!(scales, vec![PRESSED_SCALE, RELEASED_SCALE, RELEASED_SCALE, PRESSED_SCALE]);
    check_input(&mut keys, [false, false, true, false]);
    let scales: Vec<u32> = keys.iter().map(|k| k.scale_percent).collect();
    assert_eq!(scales, vec![100, 100, 90, 100]);
}
