use gemo::backends::wgpu::state::{
    select_surface_format, FrameAction, Key, KeyAction, RenderError, State, TextureStatus,
};

const INDICES: [u16; 9] = [0, 1, 4, 1, 2, 4, 2, 3, 4];

fn fresh() -> State {
    State::new(800, 600, &INDICES.to_vec())
}

#[test]
fn new_state_is_not_configured() {
    let s = fresh();
    assert_eq!(s.width(), 800);
    assert_eq!(s.height(), 600);
    assert!(!s.is_surface_configured());
    assert!(!s.render_begin());
}

#[test]
fn nothing_is_drawn_before_configuration() {
    let s = fresh();
    for st in [
        TextureStatus::Success,
        TextureStatus::Suboptimal,
        TextureStatus::Timeout,
        TextureStatus::Occluded,
        TextureStatus::Outdated,
        TextureStatus::Lost,
        TextureStatus::Validation,
    ] {
        assert_eq!(s.render(st), Ok(FrameAction::Skip));
    }
}

#[test]
fn resize_with_zero_side_changes_nothing() {
    let mut s = fresh();
    assert!(!s.resize(0, 100));
    assert!(!s.resize(100, 0));
    assert!(!s.resize(0, 0));
    assert_eq!(s, fresh());
}

#[test]
fn resize_configures_the_surface() {
    let mut s = fresh();
    assert!(s.resize(1024, 768));
    assert_eq!(s.width(), 1024);
    assert_eq!(s.height(), 768);
    assert!(s.is_surface_configured());
    assert!(s.render_begin());
    assert!(!s.resize(0, 5));
    assert!(s.is_surface_configured());
    assert_eq!(s.width(), 1024);
}

#[test]
fn last_resize_wins_and_resize_is_idempotent() {
    let mut a = fresh();
    a.resize(10, 20);
    a.resize(30, 40);
    let mut b = fresh();
    b.resize(30, 40);
    assert_eq!(a, b);
    let mut c = b;
    c.resize(30, 40);
    assert_eq!(c, b);
}

#[test]
fn frame_decisions_after_configuration() {
    let mut s = fresh();
    s.resize(800, 600);
    assert_eq!(s.render(TextureStatus::Success), Ok(FrameAction::Draw { index_count: 9 }));
    assert_eq!(s.render(TextureStatus::Suboptimal), Ok(FrameAction::Draw { index_count: 9 }));
    assert_eq!(s.render(TextureStatus::Timeout), Ok(FrameAction::Skip));
    assert_eq!(s.render(TextureStatus::Occluded), Ok(FrameAction::Skip));
    assert_eq!(s.render(TextureStatus::Validation), Ok(FrameAction::Skip));
    assert_eq!(s.render(TextureStatus::Outdated), Ok(FrameAction::Reconfigure));
    assert_eq!(s.render(TextureStatus::Lost), Err(RenderError::LostDevice));
}

#[test]
fn escape_press_exits_everything_else_ignored() {
    let s = fresh();
    assert_eq!(s.handle_key(Key::Escape, true), KeyAction::Exit);
    assert_eq!(s.handle_key(Key::Escape, false), KeyAction::Ignore);
    assert_eq!(s.handle_key(Key::Other, true), KeyAction::Ignore);
    assert_eq!(s.handle_key(Key::Other, false), KeyAction::Ignore);
}

#[test]
fn update_changes_nothing() {
    let mut s = fresh();
    s.resize(5, 5);
    let before = s;
    s.update();
    assert_eq!(s, before);
}

#[test]
fn surface_format_prefers_first_srgb() {
    assert_eq!(select_surface_format(&vec![false, true, true]), 1);
    assert_eq!(select_surface_format(&vec![true, false]), 0);
    assert_eq!(select_surface_format(&vec![false, false, false]), 0);
    assert_eq!(select_surface_format(&vec![false, false, true]), 2);
}

#[test]
fn configured_surface_never_has_a_zero_side() {
    let mut s = State::new(0, 0, &INDICES.to_vec());
    assert!(!s.is_surface_configured());
    for (w, h) in [(0, 10), (10, 0), (3, 4), (0, 0), (7, 0), (9, 9)] {
        s.resize(w, h);
        s.update();
        if s.is_surface_configured() {
            assert!(s.width() > 0 && s.height() > 0);
        }
    }
    assert_eq!((s.width(), s.height()), (9, 9));
}
