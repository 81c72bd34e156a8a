use md_edit::panel::{FocusMove, Panel, PANEL_COUNT};

#[test]
fn initial_panel_is_editor() {
    assert_eq!(Panel::initial(), Panel::Editor);
    assert_eq!(Panel::initial().position(), 0);
}

#[test]
fn three_forward_moves_return_to_editor() {
    let p = Panel::Editor.forward();
    assert_eq!(p, Panel::Command);
    let p = p.forward();
    assert_eq!(p, Panel::Files);
    let p = p.forward();
    assert_eq!(p, Panel::Editor);
}

#[test]
fn forward_then_backward_returns_to_editor() {
    assert_eq!(Panel::Editor.forward().backward(), Panel::Editor);
    assert_eq!(Panel::Editor.backward().forward(), Panel::Editor);
}

#[test]
fn backward_wraps_to_files() {
    assert_eq!(Panel::Editor.backward(), Panel::Files);
    assert_eq!(Panel::Files.backward(), Panel::Command);
    assert_eq!(Panel::Command.backward(), Panel::Editor);
}

#[test]
fn moves_are_index_arithmetic_modulo_three() {
    for p in [Panel::Editor, Panel::Command, Panel::Files] {
        assert_eq!(p.forward().position(), (p.position() + 1) % PANEL_COUNT);
        assert_eq!(p.backward().position(), (p.position() + PANEL_COUNT - 1) % PANEL_COUNT);
        assert_eq!(p.step(FocusMove::Forward), p.forward());
        assert_eq!(p.step(FocusMove::Backward), p.backward());
        assert_eq!(Panel::from_position(p.position()), Some(p));
    }
    assert_eq!(Panel::from_position(3), None);
    assert_eq!(PANEL_COUNT, 3);
}
