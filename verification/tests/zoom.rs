use local_control::view_context::{AppContext, EntityId, TuiViewContext, WindowId};
use local_control::zoom::{adjusted_zoom_level, zoom_level_values, ZoomLevelHud, ZOOM_LEVEL_HUD_TIMEOUT_MS};

#[test]
fn adjusted_zoom_level_steps_up() {
    assert_eq!(adjusted_zoom_level(100, true), Some(110));
    assert_eq!(adjusted_zoom_level(110, true), Some(125));
}

#[test]
fn adjusted_zoom_level_steps_down() {
    assert_eq!(adjusted_zoom_level(100, false), Some(90));
    assert_eq!(adjusted_zoom_level(125, false), Some(110));
}

#[test]
fn adjusted_zoom_level_clamps_at_bounds() {
    assert_eq!(adjusted_zoom_level(350, true), Some(350));
    assert_eq!(adjusted_zoom_level(50, false), Some(50));
}

#[test]
fn adjusted_zoom_level_ignores_invalid_current_zoom() {
    assert_eq!(adjusted_zoom_level(95, true), None);
    assert_eq!(adjusted_zoom_level(95, false), None);
}

#[test]
fn every_level_steps_to_a_neighbouring_level() {
    let values = zoom_level_values();
    for (i, level) in values.iter().enumerate() {
        let up = adjusted_zoom_level(*level, true).unwrap();
        let down = adjusted_zoom_level(*level, false).unwrap();
        assert_eq!(up, values[(i + 1).min(values.len() - 1)]);
        assert_eq!(down, values[i.saturating_sub(1)]);
        assert!(up >= *level && down <= *level);
    }
}

#[test]
fn zoom_hud_shows_then_dismisses() {
    let mut app: AppContext<(), (), ()> = AppContext::new();
    {
        let mut ctx = TuiViewContext::new(&mut app, WindowId(1), EntityId(1));
        let mut hud = ZoomLevelHud::new();
        assert_eq!(hud.visible_zoom_level(), None);
        assert!(!hud.dismiss_pending());
        hud.show_zoom_level(125, &mut ctx);
        assert_eq!(hud.visible_zoom_level(), Some(125));
        assert!(hud.dismiss_pending());
        hud.show_zoom_level(150, &mut ctx);
        assert_eq!(hud.visible_zoom_level(), Some(150));
        hud.dismiss(&mut ctx);
        assert_eq!(hud.visible_zoom_level(), None);
        assert!(!hud.dismiss_pending());
    }
    assert_eq!(app.pending_effects().len(), 3);
    assert_eq!(ZOOM_LEVEL_HUD_TIMEOUT_MS, 1000);
}

#[test]
fn zoom_steps_undo_each_other_and_stop_at_the_ends() {
    for level in [50u16, 67, 75, 80, 90, 100, 110, 125, 150, 175, 200, 250, 300] {
        let up = adjusted_zoom_level(level, true).unwrap();
        assert_ne!(up, level);
        assert_eq!(adjusted_zoom_level(up, false), Some(level));
    }
    assert_eq!(adjusted_zoom_level(350, true), Some(350));
    assert_eq!(adjusted_zoom_level(50, false), Some(50));
    assert_eq!(adjusted_zoom_level(67, false), Some(50));
}
