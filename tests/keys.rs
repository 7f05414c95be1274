use rainfrog::action::Action;
use rainfrog::focus::Focus;
use rainfrog::keymap::{Key, KeyBindings, KeyCode, KeySequenceResolver};

fn ch(c: char) -> Key {
    Key::new(KeyCode::Char(c), 0)
}

#[test]
fn double_g_jumps_to_top() {
    let mut bindings = KeyBindings::new();
    bindings.bind(Focus::Data, vec![ch('g'), ch('g')], Action::FocusMenu);
    let mut resolver = KeySequenceResolver::new();
    assert_eq!(resolver.resolve(&bindings, Focus::Data, ch('g')), None);
    assert_eq!(resolver.pending, vec![ch('g')]);
    let found = resolver.resolve(&bindings, Focus::Data, ch('g'));
    assert_eq!(found, Some(0));
    assert_eq!(bindings.action(0), &Action::FocusMenu);
    assert!(resolver.pending.is_empty());
}

#[test]
fn configured_sequence_yields_exactly_one_action() {
    let mut bindings = KeyBindings::new();
    bindings.bind(Focus::Editor, vec![ch('q')], Action::Quit);
    bindings.bind(Focus::Editor, vec![ch('a'), ch('b'), ch('c')], Action::Help);
    let mut resolver = KeySequenceResolver::new();
    let results: Vec<Option<usize>> =
        [ch('a'), ch('b'), ch('c')].iter().map(|k| resolver.resolve(&bindings, Focus::Editor, *k)).collect();
    assert_eq!(results, vec![None, None, Some(1)]);
    assert!(resolver.pending.is_empty());
}

#[test]
fn partial_sequence_pends_until_tick() {
    let mut bindings = KeyBindings::new();
    bindings.bind(Focus::Menu, vec![ch('x'), ch('y'), ch('z')], Action::Refresh);
    let mut resolver = KeySequenceResolver::new();
    assert_eq!(resolver.resolve(&bindings, Focus::Menu, ch('x')), None);
    assert_eq!(resolver.pending, vec![ch('x')]);
    assert_eq!(resolver.resolve(&bindings, Focus::Menu, ch('y')), None);
    assert_eq!(resolver.pending, vec![ch('x'), ch('y')]);
    resolver.tick();
    assert!(resolver.pending.is_empty());
    assert_eq!(resolver.resolve(&bindings, Focus::Menu, ch('z')), None);
    assert_eq!(resolver.pending, vec![ch('z')]);
}

#[test]
fn single_key_matches_after_stray_keys_and_bindings_are_scoped() {
    let mut bindings = KeyBindings::new();
    bindings.bind(Focus::Menu, vec![ch('r')], Action::LoadMenu);
    bindings.bind(Focus::Editor, vec![ch('r')], Action::SubmitEditorQuery);
    let mut resolver = KeySequenceResolver::new();
    assert_eq!(resolver.resolve(&bindings, Focus::Editor, ch('w')), None);
    assert_eq!(resolver.resolve(&bindings, Focus::Editor, ch('r')), Some(1));
    assert!(resolver.pending.is_empty());
    assert_eq!(resolver.resolve(&bindings, Focus::Data, ch('r')), None);
    assert_eq!(resolver.pending, vec![ch('r')]);
}

#[test]
fn longer_pending_match_wins_over_single_key() {
    let mut bindings = KeyBindings::new();
    bindings.bind(Focus::Data, vec![ch('d')], Action::Help);
    bindings.bind(Focus::Data, vec![ch('z'), ch('d')], Action::ClearHistory);
    let mut resolver = KeySequenceResolver::new();
    assert_eq!(resolver.resolve(&bindings, Focus::Data, ch('z')), None);
    assert_eq!(resolver.resolve(&bindings, Focus::Data, ch('d')), Some(1));
    assert_eq!(resolver.resolve(&bindings, Focus::Data, ch('d')), Some(0));
}

#[test]
fn modifiers_distinguish_keys() {
    let mut bindings = KeyBindings::new();
    bindings.bind(Focus::Editor, vec![Key::new(KeyCode::Char('c'), 2)], Action::Quit);
    let mut resolver = KeySequenceResolver::new();
    assert_eq!(resolver.resolve(&bindings, Focus::Editor, ch('c')), None);
    resolver.tick();
    assert_eq!(resolver.resolve(&bindings, Focus::Editor, Key::new(KeyCode::Char('c'), 2)), Some(0));
    assert_eq!(bindings.find(Focus::Editor, &vec![Key::new(KeyCode::Char('c'), 2)]), Some(0));
    assert_eq!(bindings.find(Focus::Menu, &vec![Key::new(KeyCode::Char('c'), 2)]), None);
}

#[test]
fn focus_cycles_in_order() {
    assert_eq!(Focus::Menu.next(), Focus::Editor);
    assert_eq!(Focus::Favorites.next(), Focus::Menu);
    assert_eq!(Focus::Menu.prev(), Focus::Favorites);
    assert_eq!(Focus::Data.prev(), Focus::History);
}
