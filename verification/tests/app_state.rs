use ekaos_install::app::state::{footer_hints, SCREEN_COUNT};
use ekaos_install::app::{App, AppMode, Screen};

const ALL: [Screen; 8] = [
    Screen::Welcome,
    Screen::SystemInfo,
    Screen::DiskSelection,
    Screen::PartitionPlanning,
    Screen::Configuration,
    Screen::Confirmation,
    Screen::Installation,
    Screen::Complete,
];

#[test]
fn test_screen_progression() {
    assert_eq!(Screen::Welcome.next(), Some(Screen::SystemInfo));
    assert_eq!(Screen::Complete.next(), None);
}

#[test]
fn test_screen_back_navigation() {
    assert_eq!(Screen::SystemInfo.previous(), Some(Screen::Welcome));
    assert_eq!(Screen::Welcome.previous(), None);
    assert_eq!(Screen::Installation.previous(), None);
}

#[test]
fn test_app_navigation() {
    let mut app = App::new(AppMode::Mock, false);
    assert_eq!(app.current_screen, Screen::Welcome);

    app.next_screen().unwrap();
    assert_eq!(app.current_screen, Screen::SystemInfo);

    app.previous_screen().unwrap();
    assert_eq!(app.current_screen, Screen::Welcome);
}

#[test]
fn screens_follow_in_order_with_rising_steps() {
    for (k, s) in ALL.iter().enumerate() {
        assert_eq!(s.step_number(), (k + 1, SCREEN_COUNT));
        if k + 1 < ALL.len() {
            assert_eq!(s.next(), Some(ALL[k + 1]));
        } else {
            assert_eq!(s.next(), None);
        }
    }
}

#[test]
fn going_forward_then_back_returns() {
    for s in ALL.iter() {
        if let Some(n) = s.next() {
            if n.can_go_back() {
                assert_eq!(n.previous(), Some(*s));
            }
        }
        if let Some(p) = s.previous() {
            assert_eq!(p.next(), Some(*s));
        }
        assert_eq!(s.can_go_back(), s.previous().is_some());
    }
}

#[test]
fn no_way_back_once_installing() {
    assert!(!Screen::Installation.can_go_back());
    assert!(!Screen::Complete.can_go_back());
    assert!(Screen::Confirmation.can_go_back());
    assert_eq!(Screen::Confirmation.previous(), Some(Screen::Configuration));
}

#[test]
fn screen_titles_and_percentages() {
    assert_eq!(Screen::Welcome.title(), "Welcome to NixOS Installation");
    assert_eq!(Screen::Confirmation.title(), "Review Configuration");
    assert_eq!(Screen::Welcome.progress_percent(), 12);
    assert_eq!(Screen::Complete.progress_percent(), 100);
    assert_eq!(Screen::Installation.progress_percent(), 87);
}

#[test]
fn footer_hints_follow_the_screen() {
    assert_eq!(footer_hints(Screen::Welcome, false), vec!["↵ Next", "? Help", "q Quit"]);
    assert_eq!(footer_hints(Screen::Configuration, true), vec!["← Back", "↵ Next", "? Help", "q Quit", "[MOCK MODE]"]);
    assert_eq!(footer_hints(Screen::Complete, false), vec!["? Help", "q Quit"]);
}

#[test]
fn app_flags() {
    let mut app = App::new(AppMode::Real, true);
    assert!(!app.is_mock());
    assert!(app.dry_run);
    assert!(!app.help_visible);
    app.toggle_help();
    assert!(app.help_visible);
    app.toggle_help();
    assert!(!app.help_visible);
    app.exit();
    assert!(app.should_exit);
    for _ in 0..10 {
        app.next_screen().unwrap();
    }
    assert_eq!(app.current_screen, Screen::Complete);
    app.previous_screen().unwrap();
    assert_eq!(app.current_screen, Screen::Complete);
}

#[test]
fn version_and_name() {
    assert_eq!(ekaos_install::VERSION, "0.1.0");
    assert_eq!(ekaos_install::APP_NAME, "ekaos-install");
}
