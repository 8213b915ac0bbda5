use gitui_core::input::{InputEvent, KeyCode, KeyConfig, KeyInput};
use gitui_core::text::{Modifier, Span, Style, Theme};
use gitui_core::textinput::{InputType, TextInputComponent};
use gitui_core::ui::EventState;

fn get_text<'a>(t: &'a Span) -> Option<&'a str> {
    Some(t.content.as_str())
}

fn get_style<'a>(t: &'a Span) -> Option<&'a Style> {
    Some(&t.style)
}

#[test]
fn test_smoke() {
    let mut comp = TextInputComponent::new(
        Theme::default(),
        KeyConfig::default(),
        "",
        "",
        false,
    );

    comp.set_text(String::from("a\nb"));

    assert_eq!(comp.cursor_position, 0);

    comp.incr_cursor();
    assert_eq!(comp.cursor_position, 1);

    comp.decr_cursor();
    assert_eq!(comp.cursor_position, 0);
}

#[test]
fn text_cursor_initial_position() {
    let mut comp = TextInputComponent::new(
        Theme::default(),
        KeyConfig::default(),
        "",
        "",
        false,
    );
    let theme = Theme::default();
    let underlined = theme.text(true, false).add_modifier(Modifier::Underlined);

    comp.set_text(String::from("a"));

    let txt = comp.get_draw_text();

    assert_eq!(txt.lines[0].0.len(), 1);
    assert_eq!(get_text(&txt.lines[0].0[0]), Some("a"));
    assert_eq!(get_style(&txt.lines[0].0[0]), Some(&underlined));
}

#[test]
fn test_cursor_second_position() {
    let mut comp = TextInputComponent::new(
        Theme::default(),
        KeyConfig::default(),
        "",
        "",
        false,
    );
    let theme = Theme::default();
    let underlined_whitespace = theme.text(false, false).add_modifier(Modifier::Underlined);

    let not_underlined = Style::default();

    comp.set_text(String::from("a"));
    comp.incr_cursor();

    let txt = comp.get_draw_text();

    assert_eq!(txt.lines[0].0.len(), 2);
    assert_eq!(get_text(&txt.lines[0].0[0]), Some("a"));
    assert_eq!(get_style(&txt.lines[0].0[0]), Some(&not_underlined));
    assert_eq!(get_text(&txt.lines[0].0[1]), Some("\u{00B7}"));
    assert_eq!(get_style(&txt.lines[0].0[1]), Some(&underlined_whitespace));
}

#[test]
fn test_visualize_newline() {
    let mut comp = TextInputComponent::new(
        Theme::default(),
        KeyConfig::default(),
        "",
        "",
        false,
    );

    let theme = Theme::default();
    let underlined = theme.text(false, false).add_modifier(Modifier::Underlined);

    comp.set_text(String::from("a\nb"));
    comp.incr_cursor();

    let txt = comp.get_draw_text();

    assert_eq!(txt.lines.len(), 2);
    assert_eq!(txt.lines[0].0.len(), 2);
    assert_eq!(txt.lines[1].0.len(), 2);
    assert_eq!(get_text(&txt.lines[0].0[0]), Some("a"));
    assert_eq!(get_text(&txt.lines[0].0[1]), Some("\u{21b5}"));
    assert_eq!(get_style(&txt.lines[0].0[1]), Some(&underlined));
    assert_eq!(get_text(&txt.lines[1].0[0]), Some(""));
    assert_eq!(get_text(&txt.lines[1].0[1]), Some("b"));
}

#[test]
fn test_invisible_newline() {
    let mut comp = TextInputComponent::new(
        Theme::default(),
        KeyConfig::default(),
        "",
        "",
        false,
    );

    let theme = Theme::default();
    let underlined = theme.text(true, false).add_modifier(Modifier::Underlined);

    comp.set_text(String::from("a\nb"));

    let txt = comp.get_draw_text();

    assert_eq!(txt.lines.len(), 2);
    assert_eq!(txt.lines[0].0.len(), 2);
    assert_eq!(txt.lines[1].0.len(), 1);
    assert_eq!(get_text(&txt.lines[0].0[0]), Some("a"));
    assert_eq!(get_text(&txt.lines[0].0[1]), Some(""));
    assert_eq!(get_style(&txt.lines[0].0[0]), Some(&underlined));
    assert_eq!(get_text(&txt.lines[1].0[0]), Some("b"));
}

#[test]
fn typing_inserts_at_cursor_and_advances() {
    let mut comp = TextInputComponent::new(
        Theme::default(),
        KeyConfig::default(),
        "",
        "",
        false,
    );
    comp.show();
    let r = comp.event(InputEvent::Input(KeyInput::plain(KeyCode::Char('h'))));
    assert!(r.is_consumed());
    let r = comp.event(InputEvent::Input(KeyInput::plain(KeyCode::Char('i'))));
    assert!(r.is_consumed());
    assert_eq!(comp.get_text(), "hi");
    assert_eq!(comp.cursor_position, 2);
}

#[test]
fn backspace_and_delete_edit_the_buffer() {
    let mut comp = TextInputComponent::new(
        Theme::default(),
        KeyConfig::default(),
        "",
        "",
        false,
    );
    comp.show();
    comp.set_text(String::from("abc"));
    comp.event(InputEvent::Input(KeyInput::plain(KeyCode::End)));
    comp.event(InputEvent::Input(KeyInput::plain(KeyCode::Backspace)));
    assert_eq!(comp.get_text(), "ab");
    assert_eq!(comp.cursor_position, 2);
    comp.event(InputEvent::Input(KeyInput::plain(KeyCode::Home)));
    comp.event(InputEvent::Input(KeyInput::plain(KeyCode::Delete)));
    assert_eq!(comp.get_text(), "b");
    assert_eq!(comp.cursor_position, 0);
}

#[test]
fn escape_hides_the_popup() {
    let mut comp = TextInputComponent::new(
        Theme::default(),
        KeyConfig::default(),
        "",
        "",
        false,
    );
    comp.show();
    assert!(comp.is_visible());
    let r = comp.event(InputEvent::Input(KeyInput::plain(KeyCode::Esc)));
    assert!(matches!(r, EventState::Consumed));
    assert!(!comp.is_visible());
    let r = comp.event(InputEvent::Input(KeyInput::plain(KeyCode::Char('x'))));
    assert!(matches!(r, EventState::NotConsumed));
    assert_eq!(comp.get_text(), "");
}

#[test]
fn password_input_masks_every_char() {
    let comp = TextInputComponent::new(
        Theme::default(),
        KeyConfig::default(),
        "",
        "",
        false,
    );
    let mut comp = comp.with_input_type(InputType::Password);
    comp.set_text(String::from("secret"));
    assert_eq!(comp.get_msg(0, 6), "******");
    let txt = comp.get_draw_text();
    assert_eq!(get_text(&txt.lines[0].0[0]), Some("*"));
}

#[test]
fn line_movement_walks_between_lines() {
    let mut comp = TextInputComponent::new(
        Theme::default(),
        KeyConfig::default(),
        "",
        "",
        false,
    );
    comp.show();
    comp.set_text(String::from("ab\ncd\nef"));
    comp.event(InputEvent::Input(KeyInput::plain(KeyCode::Right)));
    assert_eq!(comp.cursor_position, 1);
    let r = comp.event(InputEvent::Input(KeyInput::plain(KeyCode::Down)));
    assert!(r.is_consumed());
    assert_eq!(comp.cursor_position, 3);
    let r = comp.event(InputEvent::Input(KeyInput::plain(KeyCode::Up)));
    assert!(r.is_consumed());
    assert_eq!(comp.cursor_position, 0);
    assert_eq!(comp.get_text(), "ab\ncd\nef");
}

#[test]
fn enter_breaks_the_line_in_multiline() {
    let mut comp = TextInputComponent::new(
        Theme::default(),
        KeyConfig::default(),
        "",
        "",
        false,
    );
    comp.show();
    comp.set_text(String::from("ab"));
    comp.event(InputEvent::Input(KeyInput::plain(KeyCode::Right)));
    let r = comp.event(InputEvent::Input(KeyInput::plain(KeyCode::Enter)));
    assert!(matches!(r, EventState::Consumed));
    assert_eq!(comp.get_text(), "a\nb");
    assert_eq!(comp.cursor_position, 2);
}
