use fiche_de_paie::app::events::Events;
use fiche_de_paie::components::menu::Menu;
use fiche_de_paie::components::settings::Settings;
use fiche_de_paie::event::Event;

#[test]
fn pop_rend_la_derniere_reponse_et_garde_le_reste_dans_lordre() {
    let mut events: Events<u32> = Events::default();
    for value in [1, 2, 3, 4, 5] {
        events.push(value);
    }
    let even = events.pop(|value| if value % 2 == 0 { Some(value * 10) } else { None });
    assert_eq!(even, Some(40));
    // What is left comes out front to back: 1, 3, 5.
    let first = events.pop(|value| if *value == 1 { Some(*value) } else { None });
    assert_eq!(first, Some(1));
    let rest = events.pop(|value| Some(*value));
    assert_eq!(rest, Some(5));
    let nothing = events.pop(|value| Some(*value));
    assert_eq!(nothing, None);
}

#[test]
fn pop_sans_reponse_ne_retire_rien() {
    let mut events: Events<&str> = Events::default();
    events.push("a");
    events.push("b");
    let none: Option<()> = events.pop(|_| None);
    assert_eq!(none, None);
    assert_eq!(events.pop(|value| Some(value.to_string())), Some("b".to_string()));
}

#[test]
fn settings_suit_le_dernier_basculement() {
    let mut settings = Settings::default();
    assert!(!settings.is_open());
    let mut events = Events::default();
    events.push(Event::ToggleSettingsWindow { opened: true });
    events.push(Event::ImportPaystubs);
    events.push(Event::ToggleSettingsWindow { opened: false });
    events.push(Event::ToggleSettingsWindow { opened: true });
    settings.update(&mut events);
    assert!(settings.is_open());
    // Only the import request is left.
    let left = events.pop(|event| match event {
        Event::ImportPaystubs => Some("import"),
        Event::ToggleSettingsWindow { .. } => Some("toggle"),
    });
    assert_eq!(left, Some("import"));
}

#[test]
fn settings_sans_basculement_ne_change_pas() {
    let mut settings = Settings::default();
    let mut events = Events::default();
    events.push(Event::ToggleSettingsWindow { opened: true });
    settings.update(&mut events);
    assert!(settings.is_open());
    events.push(Event::ImportPaystubs);
    settings.update(&mut events);
    assert!(settings.is_open());
    let _menu = Menu::default();
}

#[test]
fn le_menu_demande_les_reglages_puis_limport() {
    let menu = Menu::default();
    let mut events = Events::default();
    menu.handle_clicks(true, true, &mut events);
    menu.handle_clicks(false, false, &mut events);
    let first = events.pop(|event| match event {
        Event::ToggleSettingsWindow { opened } => Some(*opened),
        Event::ImportPaystubs => None,
    });
    assert_eq!(first, Some(true));
    let second = events.pop(|event| match event {
        Event::ImportPaystubs => Some("import"),
        Event::ToggleSettingsWindow { .. } => Some("toggle"),
    });
    assert_eq!(second, Some("import"));
}

#[test]
fn la_fenetre_ouverte_demande_sa_fermeture() {
    let mut settings = Settings::default();
    let mut events = Events::default();
    settings.handle_close(true, &mut events);
    assert_eq!(events.pop(|_| Some(())), None);
    events.push(Event::ToggleSettingsWindow { opened: true });
    settings.update(&mut events);
    settings.handle_close(false, &mut events);
    assert_eq!(events.pop(|_| Some(())), None);
    settings.handle_close(true, &mut events);
    settings.update(&mut events);
    assert!(!settings.is_open());
}
