use ekaos_install::ui::components::{
    Button, ButtonStyle, CheckboxItem, CheckboxList, ConfirmDialog, DialogType, Focusable, HelpPanel,
    InputEvent, InputField, InputValidator, Interactive, NoValidator, MessageType, ProgressBar, SelectList, Spinner,
    StatusMessage, Validatable,
};
use ekaos_install::ui::components::select::SelectItem;
use ekaos_install::ui::components::FilterableSelectList;
use ekaos_install::ui::{icons, spacing};

#[test]
fn test_button_creation() {
    let button = Button::new("Click Me");
    assert_eq!(button.label(), "Click Me");
    assert!(!button.is_focused());
    assert!(button.is_enabled());
}

#[test]
fn test_button_focus() {
    let mut button = Button::new("Test");
    assert!(!button.is_focused());

    button.set_focused(true);
    assert!(button.is_focused());
}

#[test]
fn test_button_input() {
    let mut button = Button::new("Test");
    button.set_focused(true);

    assert!(button.handle_input(InputEvent::Enter));
    assert!(!button.handle_input(InputEvent::Char('a')));
}

#[test]
fn test_button_styles() {
    let primary = Button::new("Primary");
    assert_eq!(primary.style(), ButtonStyle::Primary);

    let danger = Button::new("Delete").with_style(ButtonStyle::Danger);
    assert_eq!(danger.style(), ButtonStyle::Danger);
}

#[test]
fn test_checkbox_list() {
    let list = CheckboxList::new("Select Options")
        .add_item(CheckboxItem::new("Option 1"))
        .add_item(CheckboxItem::new("Option 2").checked(true));

    assert_eq!(list.checked_items().len(), 1);
}

#[test]
fn test_checkbox_toggle() {
    let mut list = CheckboxList::new("Test").add_item(CheckboxItem::new("Item 1"));

    assert!(!list.items()[0].checked);

    list.handle_input(InputEvent::Enter);
    assert!(list.items()[0].checked);

    list.handle_input(InputEvent::Enter);
    assert!(!list.items()[0].checked);
}

#[test]
fn test_confirm_dialog() {
    let dialog = ConfirmDialog::new("Confirm", "Are you sure?");
    assert_eq!(dialog.focused_button(), 1);
    assert_eq!(dialog.dialog_type(), DialogType::Confirm);
}

#[test]
fn test_dialog_navigation() {
    let mut dialog = ConfirmDialog::new("Test", "Message");

    assert_eq!(dialog.focused_button(), 1);

    dialog.handle_input(InputEvent::Left);
    assert_eq!(dialog.focused_button(), 0);

    dialog.handle_input(InputEvent::Right);
    assert_eq!(dialog.focused_button(), 1);
}

#[test]
fn test_dialog_types() {
    let warning = ConfirmDialog::warning("Warning", "Be careful");
    assert_eq!(warning.dialog_type(), DialogType::Warning);

    let danger = ConfirmDialog::danger("Danger", "This is dangerous");
    assert_eq!(danger.dialog_type(), DialogType::Danger);
}

#[test]
fn test_help_panel() {
    let mut help = HelpPanel::new("Help").add_line("Line 1").add_line("Line 2");

    assert!(!help.is_visible());

    help.toggle();
    assert!(help.is_visible());

    help.toggle();
    assert!(!help.is_visible());
}

#[test]
fn help_test_help_content() {
    let help = HelpPanel::new("Test").add_line("# Header").add_line("- List item").add_line("Normal text");

    assert_eq!(help.content().len(), 3);
}

#[test]
fn test_input_field_creation() {
    let input = InputField::new("Username");
    assert_eq!(input.value(), "");
    assert_eq!(input.label(), "Username");
    assert!(!input.is_focused());
}

#[test]
fn test_input_field_with_value() {
    let input = InputField::new("Username").with_value("test");
    assert_eq!(input.value(), "test");
    assert_eq!(input.cursor(), 4);
}

#[test]
fn test_input_char() {
    let mut input = InputField::new("Test");
    input.set_focused(true);

    input.handle_input(InputEvent::Char('a'));
    assert_eq!(input.value(), "a");

    input.handle_input(InputEvent::Char('b'));
    assert_eq!(input.value(), "ab");
}

#[test]
fn test_input_backspace() {
    let mut input = InputField::new("Test").with_value("abc");
    input.handle_input(InputEvent::Backspace);
    assert_eq!(input.value(), "ab");
    assert_eq!(input.cursor(), 2);
}

#[test]
fn test_input_max_length() {
    let mut input = InputField::new("Test").with_max_length(3);
    input.handle_input(InputEvent::Char('a'));
    input.handle_input(InputEvent::Char('b'));
    input.handle_input(InputEvent::Char('c'));
    input.handle_input(InputEvent::Char('d'));

    assert_eq!(input.value(), "abc");
}

struct MustHaveAt;

impl InputValidator for MustHaveAt {
    fn check(&self, value: &str) -> Option<String> {
        if value.contains('@') {
            None
        } else {
            Some("Must contain @".to_string())
        }
    }
}

#[test]
fn test_input_validation() {
    let input = InputField::new("Email").with_validator(MustHaveAt);

    assert!(!input.is_valid());

    let mut valid_input = InputField::new("Email").with_value("test@example.com").with_validator(MustHaveAt);

    valid_input.revalidate();
    assert!(valid_input.is_valid());
}

#[test]
fn test_cursor_movement() {
    let mut input = InputField::new("Test").with_value("hello");

    input.move_cursor_home();
    assert_eq!(input.cursor(), 0);

    input.move_cursor_end();
    assert_eq!(input.cursor(), 5);

    input.move_cursor_left();
    assert_eq!(input.cursor(), 4);

    input.move_cursor_right();
    assert_eq!(input.cursor(), 5);
}

struct TestComponent {
    focused: bool,
    value: String,
}

impl Focusable for TestComponent {
    fn is_focused(&self) -> bool {
        self.focused
    }

    fn set_focused(&mut self, focused: bool) {
        self.focused = focused;
    }
}

impl Validatable for TestComponent {
    fn validate(&self) -> Option<String> {
        if self.value.is_empty() {
            Some("Value cannot be empty".to_string())
        } else {
            None
        }
    }
}

#[test]
fn test_focusable() {
    let mut component = TestComponent { focused: false, value: String::new() };

    assert!(!component.is_focused());
    component.set_focused(true);
    assert!(component.is_focused());
}

#[test]
fn test_validatable() {
    let component = TestComponent { focused: false, value: String::new() };

    assert!(!component.is_valid());
    assert_eq!(component.validate(), Some("Value cannot be empty".to_string()));

    let valid_component = TestComponent { focused: false, value: "test".to_string() };

    assert!(valid_component.is_valid());
    assert_eq!(valid_component.validate(), None);
}

#[test]
fn test_progress_bar() {
    let mut bar = ProgressBar::new(50);
    assert_eq!(bar.percent(), 50);

    bar.set_percent(75);
    assert_eq!(bar.percent(), 75);

    bar.set_percent(150);
    assert_eq!(bar.percent(), 100);
}

#[test]
fn test_spinner() {
    let mut spinner = Spinner::new();
    let first = spinner.current().to_string();
    spinner.tick();
    let second = spinner.current().to_string();

    assert_ne!(first, second);
}

#[test]
fn test_select_list_creation() {
    let list: SelectList<i32> = SelectList::new("Choose Option");
    assert_eq!(list.title(), "Choose Option");
    assert!(list.is_empty());
    assert_eq!(list.selected_index(), 0);
}

#[test]
fn test_select_list_with_items() {
    let list: SelectList<i32> = SelectList::new("Choose")
        .add_item(SelectItem::new("Option 1", 1))
        .add_item(SelectItem::new("Option 2", 2))
        .add_item(SelectItem::new("Option 3", 3));

    assert_eq!(list.len(), 3);
    assert_eq!(list.selected().unwrap().label, "Option 1");
}

#[test]
fn test_select_navigation() {
    let mut list: SelectList<i32> = SelectList::new("Choose")
        .add_item(SelectItem::new("Option 1", 1))
        .add_item(SelectItem::new("Option 2", 2))
        .add_item(SelectItem::new("Option 3", 3));

    assert_eq!(list.selected_index(), 0);

    list.handle_input(InputEvent::Down);
    assert_eq!(list.selected_index(), 1);

    list.handle_input(InputEvent::Down);
    assert_eq!(list.selected_index(), 2);

    list.handle_input(InputEvent::Down);
    assert_eq!(list.selected_index(), 2);

    list.handle_input(InputEvent::Up);
    assert_eq!(list.selected_index(), 1);
}

#[test]
fn test_select_disabled_items() {
    let mut list: SelectList<i32> = SelectList::new("Choose")
        .add_item(SelectItem::new("Option 1", 1))
        .add_item(SelectItem::new("Option 2", 2).with_enabled(false))
        .add_item(SelectItem::new("Option 3", 3));

    list.handle_input(InputEvent::Down);
    assert_eq!(list.selected_index(), 2);
}

#[test]
fn test_spacing_constants() {
    assert_eq!(spacing::SMALL, 1);
    assert_eq!(spacing::MEDIUM, 2);
    assert_eq!(spacing::LARGE, 3);
}

#[test]
fn test_icons() {
    assert_eq!(icons::SUCCESS, "✓");
    assert_eq!(icons::ERROR, "✗");
    assert_eq!(icons::WARNING, "⚠");
    assert!(icons::SPINNER.len() > 0);
}

#[test]
fn status_messages_carry_kind_and_icon() {
    let m = StatusMessage::error("Disk not found");
    assert_eq!(m.text, "Disk not found");
    assert_eq!(m.message_type, MessageType::Error);
    assert!(!m.show_border);
    assert!(m.with_border().show_border);
    assert_eq!(MessageType::Success.icon(), "✓");
    assert_eq!(MessageType::Info.icon(), "ℹ");
}

#[test]
fn filterable_list_narrows_ignoring_case() {
    let mut list = FilterableSelectList::new("Timezone").with_items(vec![
        ("Europe/Berlin".to_string(), 1),
        ("America/New_York".to_string(), 2),
        ("Europe/Paris".to_string(), 3),
    ]);
    assert_eq!(list.visible_count(), 3);
    list.handle_input(InputEvent::Char('E'));
    list.handle_input(InputEvent::Char('U'));
    list.handle_input(InputEvent::Char('R'));
    assert_eq!(list.visible_count(), 2);
    assert_eq!(list.selected_value(), Some(&1));
    list.handle_input(InputEvent::Down);
    assert_eq!(list.selected_label(), Some("Europe/Paris"));
    list.handle_input(InputEvent::Escape);
    assert_eq!(list.visible_count(), 3);
    assert_eq!(list.selected_value(), Some(&1));
}

#[test]
fn filterable_list_selects_by_label() {
    let mut list = FilterableSelectList::new("Keymap")
        .with_items(vec![("us".to_string(), "English (US)".to_string()), ("de".to_string(), "German".to_string())]);
    list.set_selected_by_label("de");
    assert_eq!(list.selected_value().map(|s| s.as_str()), Some("German"));
    list.set_selected_by_label("fr");
    assert_eq!(list.selected_value().map(|s| s.as_str()), Some("German"));
}

#[test]
fn typing_then_backspace_restores_the_field() {
    let mut input = InputField::new("Name").with_value("ab");
    input.move_cursor_left();
    input.handle_input(InputEvent::Char('x'));
    assert_eq!(input.value(), "axb");
    input.handle_input(InputEvent::Backspace);
    assert_eq!(input.value(), "ab");
    assert_eq!(input.cursor(), 1);
}

#[test]
fn password_fields_show_bullets() {
    let input = InputField::new("Password").password().with_value("abc");
    assert_eq!(input.display_text(), "•••");
    let empty = InputField::new("Name").with_placeholder("type here");
    assert_eq!(empty.display_text(), "type here");
}

#[test]
fn checkbox_toggling_twice_restores() {
    let mut list = CheckboxList::new("Options")
        .add_item(CheckboxItem::new("A"))
        .add_item(CheckboxItem::new("B").checked(true));
    list.set_focused(true);
    list.handle_input(InputEvent::Down);
    list.handle_input(InputEvent::Char(' '));
    assert!(!list.items()[1].checked);
    list.handle_input(InputEvent::Char(' '));
    assert!(list.items()[1].checked);
}

#[test]
fn spinner_cycles_after_ten_ticks() {
    let mut spinner = Spinner::new();
    let first = spinner.current().to_string();
    for _ in 0..10 {
        spinner.tick();
    }
    assert_eq!(spinner.current(), first);
}

#[test]
fn validator_verdict_follows_the_value() {
    let mut input = InputField::new("Email").with_validator(MustHaveAt);
    input.set_value("nobody");
    assert_eq!(input.error(), Some("Must contain @".to_string()));
    assert!(!input.is_valid());
    input.set_value("a@b");
    assert_eq!(input.error(), None);
    assert!(input.is_valid());
    input.set_focused(true);
    input.move_cursor_end();
    input.handle_input(InputEvent::Backspace);
    assert_eq!(input.value(), "a@");
    assert_eq!(input.error(), None);
    input.handle_input(InputEvent::Backspace);
    input.handle_input(InputEvent::Backspace);
    assert_eq!(input.error(), Some("Must contain @".to_string()));
}

#[test]
fn filterable_list_keeps_the_selection_in_view() {
    let items: Vec<(String, usize)> = (0..20).map(|k| (format!("zone{:02}", k), k)).collect();
    let mut list = FilterableSelectList::new("Zones").with_items(items);
    list.fit_to_height(7);
    assert_eq!(list.max_visible(), 3);
    list.set_selected_by_label("zone12");
    assert_eq!(list.selected_label(), Some("zone12"));
    assert_eq!(list.selected_position(), 12);
    assert_eq!(list.scroll_offset(), 10);
    list.handle_input(InputEvent::Up);
    list.handle_input(InputEvent::Up);
    list.handle_input(InputEvent::Up);
    assert_eq!(list.selected_position(), 9);
    assert_eq!(list.scroll_offset(), 9);
    for c in "nothing".chars() {
        list.handle_input(InputEvent::Char(c));
    }
    assert_eq!(list.visible_count(), 0);
    assert_eq!(list.selected_value(), None);
    list.handle_input(InputEvent::Down);
    assert_eq!(list.selected_position(), 0);
    assert_eq!(list.scroll_offset(), 0);
}

#[test]
fn test_input_with_accepting_validator_keeps_no_error() {
    let mut input = InputField::new("Name").with_value("anything").with_validator(NoValidator);
    input.revalidate();
    assert!(input.is_valid());
    assert_eq!(input.error(), None);
    assert_eq!(input.value(), "anything");
}
