use read_master_desktop::ids::ItemId;
use read_master_desktop::menu::MenuItem;
use read_master_desktop::shell::Shell;
use read_master_desktop::tray::{
    create_tray, navigate_event, needs_visibility, on_menu_event, on_tray_icon_event,
    MouseButton, MouseButtonState, Route, TrayIconEvent, WindowAction,
};

const LEFT_UP: TrayIconEvent =
    TrayIconEvent::Click { button: MouseButton::Left, state: MouseButtonState::Up };

#[test]
fn tray_menu_as_described() {
    let tray = create_tray();
    assert_eq!(tray.tooltip, "Read Master");
    let action = |id, label| MenuItem::Action { id, label, accelerator: None, enabled: true };
    assert_eq!(
        tray.menu,
        vec![
            MenuItem::Action {
                id: ItemId::TrayTitle,
                label: "Read Master",
                accelerator: None,
                enabled: false,
            },
            MenuItem::Separator,
            action(ItemId::TrayShow, "Show Window"),
            action(ItemId::TrayHide, "Hide Window"),
            MenuItem::Separator,
            action(ItemId::TrayLibrary, "Open Library"),
            action(ItemId::TrayContinue, "Continue Reading"),
            action(ItemId::TrayFlashcards, "Review Flashcards"),
            MenuItem::Separator,
            action(ItemId::TraySettings, "Settings"),
            MenuItem::Separator,
            action(ItemId::TrayQuit, "Quit Read Master"),
        ]
    );
}

#[test]
fn routes_carry_the_fixed_paths() {
    assert_eq!(navigate_event(), "navigate");
    assert_eq!(Route::Library.as_str(), "/library");
    assert_eq!(Route::ContinueReading.as_str(), "/reader/continue");
    assert_eq!(Route::FlashcardReview.as_str(), "/flashcards/review");
    assert_eq!(Route::Settings.as_str(), "/settings");
}

#[test]
fn show_and_hide_items() {
    assert_eq!(on_menu_event("tray_show"), vec![WindowAction::Show, WindowAction::Focus]);
    assert_eq!(on_menu_event("tray_hide"), vec![WindowAction::Hide]);
}

#[test]
fn navigating_items_show_focus_and_navigate() {
    let expect = |route| vec![WindowAction::Show, WindowAction::Focus, WindowAction::Navigate(route)];
    assert_eq!(on_menu_event("tray_library"), expect(Route::Library));
    assert_eq!(on_menu_event("tray_continue"), expect(Route::ContinueReading));
    assert_eq!(on_menu_event("tray_flashcards"), expect(Route::FlashcardReview));
    assert_eq!(on_menu_event("tray_settings"), expect(Route::Settings));
}

#[test]
fn quit_item_exits_with_code_zero() {
    assert_eq!(on_menu_event("tray_quit"), vec![WindowAction::Exit(0)]);
}

#[test]
fn other_identifiers_are_ignored() {
    assert_eq!(on_menu_event("tray_title"), vec![]);
    assert_eq!(on_menu_event("library"), vec![]);
    assert_eq!(on_menu_event("preferences"), vec![]);
    assert_eq!(on_menu_event("no_such_item"), vec![]);
    assert_eq!(on_menu_event(""), vec![]);
}

#[test]
fn left_release_toggles_by_visibility() {
    assert_eq!(on_tray_icon_event(LEFT_UP, Some(true)), vec![WindowAction::Hide]);
    assert_eq!(
        on_tray_icon_event(LEFT_UP, Some(false)),
        vec![WindowAction::Show, WindowAction::Focus]
    );
}

#[test]
fn unknown_visibility_counts_as_hidden() {
    assert_eq!(on_tray_icon_event(LEFT_UP, None), vec![WindowAction::Show, WindowAction::Focus]);
}

#[test]
fn double_click_always_shows() {
    for visible in [None, Some(false), Some(true)] {
        for button in [MouseButton::Left, MouseButton::Right, MouseButton::Middle] {
            assert_eq!(
                on_tray_icon_event(TrayIconEvent::DoubleClick { button }, visible),
                vec![WindowAction::Show, WindowAction::Focus]
            );
        }
    }
}

#[test]
fn other_pointer_events_are_ignored() {
    let ignored = [
        TrayIconEvent::Click { button: MouseButton::Left, state: MouseButtonState::Down },
        TrayIconEvent::Click { button: MouseButton::Right, state: MouseButtonState::Up },
        TrayIconEvent::Click { button: MouseButton::Middle, state: MouseButtonState::Up },
        TrayIconEvent::Enter,
        TrayIconEvent::Move,
        TrayIconEvent::Leave,
    ];
    for event in ignored {
        assert!(!needs_visibility(event));
        for visible in [None, Some(false), Some(true)] {
            assert_eq!(on_tray_icon_event(event, visible), vec![]);
        }
    }
    assert!(needs_visibility(LEFT_UP));
    assert!(!needs_visibility(TrayIconEvent::DoubleClick { button: MouseButton::Left }));
}

#[test]
fn two_clicks_hide_then_show_and_focus() {
    let mut shell = Shell::new(true, true);
    assert_eq!(shell.handle_icon_event(LEFT_UP), vec![WindowAction::Hide]);
    assert_eq!(shell, Shell { visible: false, focused: false, exit_code: None });
    assert_eq!(shell.handle_icon_event(LEFT_UP), vec![WindowAction::Show, WindowAction::Focus]);
    assert_eq!(shell, Shell { visible: true, focused: true, exit_code: None });
}

#[test]
fn quit_stops_the_dispatch() {
    let mut shell = Shell::new(true, false);
    assert!(shell.is_running());
    assert_eq!(shell.handle_menu_event("tray_quit"), vec![WindowAction::Exit(0)]);
    assert_eq!(shell.exit_code, Some(0));
    assert!(!shell.is_running());
    let stopped = shell;
    assert_eq!(shell.handle_menu_event("tray_hide"), vec![]);
    assert_eq!(shell.handle_menu_event("tray_library"), vec![]);
    assert_eq!(shell.handle_icon_event(LEFT_UP), vec![]);
    assert_eq!(
        shell.handle_icon_event(TrayIconEvent::DoubleClick { button: MouseButton::Left }),
        vec![]
    );
    assert_eq!(shell, stopped);
}

#[test]
fn shell_follows_the_menu_items() {
    let mut shell = Shell::new(false, false);
    shell.handle_menu_event("tray_settings");
    assert_eq!(shell, Shell { visible: true, focused: true, exit_code: None });
    shell.handle_menu_event("tray_hide");
    assert_eq!(shell, Shell { visible: false, focused: false, exit_code: None });
    shell.handle_menu_event("tray_title");
    assert_eq!(shell, Shell { visible: false, focused: false, exit_code: None });
    shell.handle_menu_event("tray_show");
    assert_eq!(shell, Shell { visible: true, focused: true, exit_code: None });
}

#[test]
fn shell_performs_actions_in_order() {
    let mut shell = Shell::new(false, false);
    shell.perform_all(&vec![WindowAction::Show, WindowAction::Focus, WindowAction::Hide]);
    assert_eq!(shell, Shell { visible: false, focused: false, exit_code: None });
    shell.perform_all(&vec![
        WindowAction::Show,
        WindowAction::Navigate(Route::Library),
        WindowAction::Exit(3),
        WindowAction::Hide,
    ]);
    assert_eq!(shell, Shell { visible: true, focused: false, exit_code: Some(3) });
    shell.perform(WindowAction::Exit(0));
    assert_eq!(shell.exit_code, Some(3));
    shell.perform_all(&vec![]);
    assert_eq!(shell, Shell { visible: true, focused: false, exit_code: Some(3) });
}
