use md_edit::actions::Action;
use md_edit::error::MdError;
use md_edit::hotkeys::{hotkey_from_parts, parse_chord, HotKey, KeyManager, Modifiers};
use md_edit::session::{Effect, MdEdit, Notification};

fn none() -> Modifiers {
    Modifiers::empty()
}

fn ctrl() -> Modifiers {
    Modifiers { ctrl: true, ..Modifiers::empty() }
}

fn key(k: egui::Key) -> u8 {
    k as u8
}

fn session() -> MdEdit {
    MdEdit::new("/w".to_string(), false, Vec::new())
}

fn entry(chord: &str, action: &str) -> (String, String) {
    (chord.to_string(), action.to_string())
}

#[test]
fn modifiers_by_name() {
    assert_eq!(Modifiers::from_name("Ctrl"), Some(ctrl()));
    assert_eq!(Modifiers::from_name("Alt"), Some(Modifiers { alt: true, ..none() }));
    assert_eq!(Modifiers::from_name("Shift"), Some(Modifiers { shift: true, ..none() }));
    assert_eq!(Modifiers::from_name("Cmd"), Some(Modifiers { mac_cmd: true, ..none() }));
    assert_eq!(Modifiers::from_name("Command"), Some(Modifiers { command: true, ..none() }));
    assert_eq!(Modifiers::from_name("ctrl"), None);
    assert_eq!(Modifiers::from_name(""), None);
    assert_eq!(Modifiers::from_name("S"), None);
    assert_eq!(ctrl().union(Modifiers { shift: true, ..none() }), Modifiers { ctrl: true, shift: true, ..none() });
}

#[test]
fn hotkey_codes() {
    assert_eq!(HotKey::new(0, none()).to_code(), 0);
    assert_eq!(HotKey::new(3, none()).to_code(), 96);
    assert_eq!(HotKey::new(3, ctrl()).to_code(), 98);
    let all = Modifiers { alt: true, ctrl: true, shift: true, mac_cmd: true, command: true };
    assert_eq!(HotKey::new(255, all).to_code(), 255 * 32 + 31);
    assert_eq!(HotKey::new(1, Modifiers { alt: true, ..none() }).to_code(), 33);
    assert_eq!(HotKey::new(1, Modifiers { shift: true, ..none() }).to_code(), 36);
    assert_eq!(HotKey::new(1, Modifiers { mac_cmd: true, ..none() }).to_code(), 40);
    assert_eq!(HotKey::new(1, Modifiers { command: true, ..none() }).to_code(), 48);
}

#[test]
fn parse_chord_reads_modifiers_and_key() {
    let h = parse_chord("Ctrl+Shift+S").unwrap();
    assert_eq!(h.key, key(egui::Key::S));
    assert_eq!(h.modifiers, Modifiers { ctrl: true, shift: true, ..none() });
    assert_eq!(parse_chord("F5"), Ok(HotKey::new(key(egui::Key::F5), none())));
    assert_eq!(parse_chord("Alt+Enter"), Ok(HotKey::new(key(egui::Key::Enter), Modifiers { alt: true, ..none() })));
    assert_eq!(parse_chord("Ctrl+Ctrl+s"), Ok(HotKey::new(key(egui::Key::S), ctrl())));
}

#[test]
fn parse_chord_distinguishes_keys() {
    let a = parse_chord("Ctrl+A").unwrap();
    let b = parse_chord("Ctrl+B").unwrap();
    assert_ne!(a.key, b.key);
    assert_eq!(a.key, key(egui::Key::A));
    assert_eq!(b.key, key(egui::Key::B));
}

#[test]
fn malformed_chords_fail() {
    for bad in ["", "+", "Ctrl+", "Ctrl", "Ctrl++S", "Foo+S", "S+Ctrl", "Ctrl+Shift", "ctrl+S", "Ctrl + S", "Ctrl+NoSuchKey"] {
        assert_eq!(parse_chord(bad), Err(MdError::InvalidHotkey(bad.to_string())), "{}", bad);
    }
}

#[test]
fn hotkey_from_parts_takes_the_key_as_given() {
    let parts = vec!["Ctrl".to_string(), "Shift".to_string(), "anything".to_string()];
    assert_eq!(
        hotkey_from_parts(&parts, Some(7)),
        Some(HotKey::new(7, Modifiers { ctrl: true, shift: true, ..none() }))
    );
    assert_eq!(hotkey_from_parts(&parts, None), None);
    assert_eq!(hotkey_from_parts(&Vec::new(), Some(7)), None);
    assert_eq!(hotkey_from_parts(&vec!["X".to_string(), "S".to_string()], Some(7)), None);
    assert_eq!(hotkey_from_parts(&vec!["S".to_string()], Some(7)), Some(HotKey::new(7, none())));
}

#[test]
fn last_registration_wins() {
    let mut m = KeyManager::new();
    let chord = HotKey::new(key(egui::Key::S), ctrl());
    assert_eq!(m.action_of(chord), None);
    m.register_hotkey(chord.key, chord.modifiers, Action::Save);
    assert_eq!(m.action_of(chord), Some(Action::Save));
    m.register_hotkey(chord.key, chord.modifiers, Action::Export);
    assert_eq!(m.action_of(chord), Some(Action::Export));
    assert_eq!(m.action_of(HotKey::new(chord.key, none())), None);
    assert_eq!(KeyManager::default().action_of(chord), None);
}

#[test]
fn unbound_chord_is_a_silent_no_op() {
    let m = KeyManager::new();
    let mut s = session();
    s.edit("text".to_string());
    assert_eq!(m.handle_hotkey(HotKey::new(1, none()), &mut s), Effect::Nothing);
    assert_eq!(s.content(), "text");
    assert!(s.is_dirty());
}

#[test]
fn bound_chord_runs_its_action() {
    let mut m = KeyManager::new();
    m.register_hotkey(key(egui::Key::N), ctrl(), Action::New);
    m.register_hotkey(key(egui::Key::S), ctrl(), Action::Save);
    let mut s = session();
    assert_eq!(
        m.handle_hotkey(HotKey::new(key(egui::Key::S), ctrl()), &mut s),
        Effect::PickPath { purpose: Action::Save }
    );
    s.edit("text".to_string());
    assert_eq!(
        m.handle_hotkey(HotKey::new(key(egui::Key::N), ctrl()), &mut s),
        Effect::Notify { notification: Notification::unsaved() }
    );
    assert_eq!(s.content(), "text");
}

#[test]
fn handle_returns_the_bound_actions_in_order() {
    let mut m = KeyManager::new();
    m.register_hotkey(1, none(), Action::Load);
    m.register_hotkey(2, ctrl(), Action::Save);
    let pressed = vec![
        HotKey::new(2, ctrl()),
        HotKey::new(9, none()),
        HotKey::new(1, none()),
        HotKey::new(2, none()),
        HotKey::new(2, ctrl()),
    ];
    assert_eq!(m.handle(&pressed), vec![Action::Save, Action::Load, Action::Save]);
    assert_eq!(m.handle(&Vec::new()), Vec::<Action>::new());
}

#[test]
fn from_config_binds_every_entry() {
    let config = vec![entry("Ctrl+S", "save"), entry("Ctrl+Shift+S", "SaveAs"), entry("Ctrl+N", "New")];
    let m = KeyManager::from_config(&config).ok().unwrap();
    assert_eq!(m.action_of(HotKey::new(key(egui::Key::S), ctrl())), Some(Action::Save));
    assert_eq!(
        m.action_of(HotKey::new(key(egui::Key::S), Modifiers { ctrl: true, shift: true, ..none() })),
        Some(Action::SaveAs)
    );
    assert_eq!(m.action_of(HotKey::new(key(egui::Key::N), ctrl())), Some(Action::New));
    assert_eq!(m.action_of(HotKey::new(key(egui::Key::O), ctrl())), None);
}

#[test]
fn from_config_later_entry_for_one_chord_stays() {
    let config = vec![entry("Ctrl+Shift+E", "Export"), entry("Shift+Ctrl+e", "Load")];
    let m = KeyManager::from_config(&config).ok().unwrap();
    assert_eq!(
        m.action_of(HotKey::new(key(egui::Key::E), Modifiers { ctrl: true, shift: true, ..none() })),
        Some(Action::Load)
    );
}

#[test]
fn from_config_fails_at_the_first_bad_entry() {
    let config = vec![entry("Ctrl+S", "save"), entry("Ctrl+Q", "Quit"), entry("Bad+S", "save")];
    assert_eq!(
        KeyManager::from_config(&config).err(),
        Some(MdError::InvalidAction("Invalid action name".to_string()))
    );
    let config = vec![entry("Ctrl+S", "save"), entry("Bad+S", "Quit")];
    assert_eq!(
        KeyManager::from_config(&config).err(),
        Some(MdError::InvalidHotkey("Bad+S".to_string()))
    );
    let config = vec![entry("Ctrl+Shift+S", "Save")];
    assert_eq!(
        KeyManager::from_config(&config).err(),
        Some(MdError::InvalidAction("Invalid action name".to_string()))
    );
    assert!(KeyManager::from_config(&Vec::new()).is_ok());
}
