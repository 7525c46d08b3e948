use demokit::combo_box::{ComboBoxExample, ComboMessage, Language as ComboLanguage};
use demokit::counter::{Counter, CounterMessage};
use demokit::exit::{Exit, ExitCommand, ExitMessage};
use demokit::layout::{Example, Layout, LayoutMessage};
use demokit::numeric_input::{
    input_text, reported_value, ComponentExample, ComponentMessage, Event,
};
use demokit::picklist::{Language as PickLanguage, PickListExample, PickMessage};
use demokit::tooltip::{position_to_text, Position, TooltipExample, TooltipMessage};

#[test]
fn layout_steps_through_examples() {
    let list = Example::list();
    assert_eq!(list.len(), 6);
    assert_eq!(Example::default(), Example::Centered);
    assert!(Example::Centered.is_first());
    assert!(Example::NestedQuotes.is_last());
    assert_eq!(Example::Centered.previous(), Example::Centered);
    assert_eq!(Example::NestedQuotes.next(), Example::NestedQuotes);
    for (i, e) in list.iter().enumerate() {
        if i + 1 < list.len() {
            assert_eq!(e.next(), list[i + 1]);
            assert_eq!(e.next().previous(), *e);
        }
        if i > 0 {
            assert_eq!(e.previous(), list[i - 1]);
        }
    }
    assert_eq!(Example::NestedQuotes.title(), "Nested Quotes");
}

#[test]
fn layout_window() {
    let mut l = Layout::new("light");
    assert_eq!(l.title(), "Centered - Layout - Iced");
    l.update(LayoutMessage::Next);
    l.update(LayoutMessage::Next);
    assert_eq!(l.example, Example::Row);
    assert_eq!(l.title(), "Row - Layout - Iced");
    l.update(LayoutMessage::Previous);
    assert_eq!(l.example, Example::Column);
    l.update(LayoutMessage::ExpalinToggled(true));
    assert!(l.explain);
    l.update(LayoutMessage::ThemeSlected("dark"));
    assert_eq!(l.theme, "dark");
}

#[test]
fn tooltip_cycles() {
    let mut t = TooltipExample::new();
    assert_eq!(t.position, Position::Bottom);
    let expected = [Position::Left, Position::Right, Position::FollowCursor, Position::Top, Position::Bottom];
    for p in expected {
        t.update(TooltipMessage::ChangePosition);
        assert_eq!(t.position, p);
    }
}

#[test]
fn counter_counts() {
    let mut c = Counter::new();
    assert_eq!(c.title(), "Counter - iced");
    c.update(CounterMessage::IncrementPressed);
    c.update(CounterMessage::IncrementPressed);
    c.update(CounterMessage::DecrementPressed);
    assert_eq!(c.value, 1);
    c.update(CounterMessage::DecrementPressed);
    c.update(CounterMessage::DecrementPressed);
    assert_eq!(c.value, -1);
}

#[test]
fn exit_asks_first() {
    let mut e = Exit::new();
    assert_eq!(e.controls(), ("Click the button to exit", "Exit", ExitMessage::Exit));
    assert_eq!(e.update(ExitMessage::Exit), ExitCommand::Nothing);
    assert!(e.show_confirm);
    assert_eq!(e.controls(), ("Are you sure you want exit?", "Yes, exit now!", ExitMessage::Confirm));
    assert_eq!(e.update(ExitMessage::Confirm), ExitCommand::CloseMainWindow);
}

#[test]
fn combo_box_greets() {
    let mut c = ComboBoxExample::new();
    assert_eq!(c.languages, ComboLanguage::all());
    assert_eq!(c.text, "");
    c.update(ComboMessage::Closed);
    assert_eq!(c.text, "");
    c.update(ComboMessage::OptionHoverd(ComboLanguage::Portuguese));
    assert_eq!(c.text, "Olá!");
    c.update(ComboMessage::Selected(ComboLanguage::Spanish));
    assert_eq!(c.text, "¡Hola!");
    c.update(ComboMessage::OptionHoverd(ComboLanguage::Danish));
    assert_eq!(c.text, "Halloy!");
    c.update(ComboMessage::Closed);
    assert_eq!(c.text, "¡Hola!");
    assert_eq!(c.selected_language, Some(ComboLanguage::Spanish));
    assert_eq!(ComboLanguage::Other.hello(), "... hello?");
    assert_eq!(ComboLanguage::Other.to_string(), "Some other language");
    assert_eq!(ComboLanguage::default(), ComboLanguage::English);
    assert_eq!(c.title(), "Combox_box - Iced");
}

#[test]
fn pick_list_favourite() {
    let mut p = PickListExample::new();
    assert_eq!(p.favourite_text(), "  Favourate:Rust");
    p.update(PickMessage::LanguageSelected(PickLanguage::Haskell));
    assert_eq!(p.favourite_text(), "  Favourate:Haskell");
    assert_eq!(PickLanguage::all()[0], PickLanguage::C);
    assert_eq!(PickLanguage::Other.to_string(), "Some other language");
}

#[test]
fn numeric_input_reports() {
    assert_eq!(reported_value(None, Event::IncrementPressed), Some(Some(1)));
    assert_eq!(reported_value(Some(u32::MAX), Event::IncrementPressed), Some(Some(u32::MAX)));
    assert_eq!(reported_value(None, Event::DecrementPressed), Some(Some(0)));
    assert_eq!(reported_value(Some(7), Event::DecrementPressed), Some(Some(6)));
    assert_eq!(reported_value(Some(7), Event::InputChanged(String::new())), Some(None));
    assert_eq!(reported_value(None, Event::InputChanged(String::from("42"))), Some(Some(42)));
    assert_eq!(reported_value(None, Event::InputChanged(String::from("+42"))), Some(Some(42)));
    assert_eq!(reported_value(None, Event::InputChanged(String::from("007"))), Some(Some(7)));
    assert_eq!(reported_value(None, Event::InputChanged(String::from("4x"))), None);
    assert_eq!(reported_value(None, Event::InputChanged(String::from("-1"))), None);
    assert_eq!(reported_value(None, Event::InputChanged(String::from("+"))), None);
    assert_eq!(reported_value(None, Event::InputChanged(String::from(" 1"))), None);
    assert_eq!(reported_value(None, Event::InputChanged(String::from("4294967295"))), Some(Some(u32::MAX)));
    assert_eq!(reported_value(None, Event::InputChanged(String::from("4294967296"))), None);
    assert_eq!(input_text(Some(305)), "305");
    assert_eq!(input_text(None), "");
    for v in [0u32, 9, 10, 99, 100, 65535, u32::MAX] {
        assert_eq!(reported_value(None, Event::InputChanged(input_text(Some(v)))), Some(Some(v)));
        assert_eq!(input_text(Some(v)), v.to_string());
        assert_eq!(v.to_string().parse::<u32>().ok(), demokit::decimal::parse_u32(&v.to_string()));
    }
}

#[test]
fn component_keeps_value() {
    let mut c = ComponentExample::new();
    assert_eq!(c.value, None);
    c.update(ComponentMessage::NumericInputChanged(Some(3)));
    assert_eq!(c.value, Some(3));
    assert_eq!(c.title(), "Component - Iced");
}

#[test]
fn tooltip_texts() {

    assert_eq!(position_to_text(Position::Bottom), "Botton");
    assert_eq!(position_to_text(Position::FollowCursor), "Follow Cursor");
    assert_eq!(position_to_text(Position::Right), "Right");
}
