use drum_sampler::graphics::event::GraphicsEvent;
use drum_sampler::graphics::screen::ScreenData;
use drum_sampler::graphics::ui::button::UIButton;
use drum_sampler::graphics::ui::checkbox::UICheckBox;
use drum_sampler::graphics::ui::element::{
    ButtonAction, ToggleTarget, UIAction, UIElement, UIElementState, UIItem, UIRowItem, ValueTarget,
};
use drum_sampler::graphics::ui::intinput::{IntInputConfig, UIIntInput, ValueFormat, ValueRule};
use drum_sampler::graphics::ui::page_selector::UIPageSelector;
use drum_sampler::graphics::ui::row::UIRow;
use drum_sampler::graphics::ui::text::UIText;

fn bpm_input(value: i32) -> UIIntInput {
    UIIntInput::new(
        IntInputConfig::new("BPM", ValueFormat::Plain, ValueRule::Clamp(60, 200), Some(ValueTarget::Bpm)),
        value,
    )
}

fn bpm_screen() -> ScreenData {
    let mut data = ScreenData::new();
    data.add_element(UIItem::IntInput(bpm_input(140)));
    data
}

fn input_value(data: &ScreenData) -> i32 {
    match &data.elements[0] {
        UIItem::IntInput(n) => n.value,
        _ => panic!("not a number input"),
    }
}

#[test]
fn int_input_cancel_restores_the_value() {
    let mut data = bpm_screen();
    assert!(data.on_click().is_none());
    assert!(data.focus);
    assert!(data.on_scroll(true).is_none());
    assert!(data.on_scroll(true).is_none());
    assert_eq!(input_value(&data), 142);
    assert_eq!(data.render(false), vec!["-BPM: 142".to_string()]);
    let (used, action) = data.on_back();
    assert!(used);
    assert!(action.is_none());
    assert!(!data.focus);
    assert_eq!(input_value(&data), 140);
    assert_eq!(data.render(false), vec![">BPM: 140".to_string()]);
}

#[test]
fn int_input_confirm_hands_back_the_value() {
    let mut data = bpm_screen();
    data.on_click();
    data.on_scroll(false);
    let action = data.on_click();
    assert!(!data.focus);
    assert!(matches!(action, Some(UIAction::Value(ValueTarget::Bpm, 139))));
    // Confirming an unchanged value hands back nothing.
    data.on_click();
    assert!(data.on_click().is_none());
}

#[test]
fn int_input_clamps() {
    let mut data = ScreenData::new();
    data.add_element(UIItem::IntInput(bpm_input(200)));
    data.on_click();
    data.on_scroll(true);
    assert_eq!(input_value(&data), 200);
    let mut low = ScreenData::new();
    low.add_element(UIItem::IntInput(bpm_input(60)));
    low.on_click();
    low.on_scroll(false);
    assert_eq!(input_value(&low), 60);
}

#[test]
fn loop_divisor_rule_moves_to_divisors() {
    let rule = ValueRule::LoopDivisor(12);
    assert_eq!(rule.apply(5, 4), 6);
    assert_eq!(rule.apply(4, 5), 4);
    assert_eq!(rule.apply(5, 6), 4);
    assert_eq!(rule.apply(7, 6), 12);
    assert_eq!(rule.apply(13, 12), 12);
    assert_eq!(rule.apply(0, 1), 1);
    assert_eq!(ValueRule::Identity.apply(-5, -4), -5);
    assert_eq!(ValueRule::Clamp(0, 3).apply(4, 3), 3);
}

#[test]
fn value_formats() {
    let note = UIIntInput::new(IntInputConfig::new("Note", ValueFormat::Note, ValueRule::Clamp(0, 127), None), 61);
    assert_eq!(note.render(UIElementState::Unselected), "Note: C#4");
    let ch = UIIntInput::new(IntInputConfig::new("Channel", ValueFormat::PlusOne, ValueRule::Clamp(0, 15), None), 0);
    assert_eq!(ch.render(UIElementState::SelectorPress), "\\Channel: 1");
    let res = UIIntInput::new(IntInputConfig::new("Res", ValueFormat::Resolution, ValueRule::Clamp(0, 3), None), 2);
    assert_eq!(res.render(UIElementState::Selected), ">Res: Beat");
    let bad = UIIntInput::new(IntInputConfig::new("Res", ValueFormat::Resolution, ValueRule::Clamp(0, 3), None), 9);
    assert_eq!(bad.render(UIElementState::Unselected), "Res: -");
}

#[test]
fn checkbox_switches_and_reports() {
    let mut c = UICheckBox::new("Enabled".to_string(), ToggleTarget::SequencerEnabled, false);
    assert_eq!(c.render(UIElementState::Selected), ">Enabled: OFF");
    let (focus, action) = c.on_event(GraphicsEvent::Click);
    assert!(!focus);
    assert!(matches!(action, Some(UIAction::Toggle(ToggleTarget::SequencerEnabled, true))));
    assert_eq!(c.render(UIElementState::Unselected), "Enabled: ON");
}

#[test]
fn page_selector_stays_on_its_pages() {
    let mut p = UIPageSelector::new(0, 2);
    assert_eq!(p.render(UIElementState::Selected), ">Page (1/2)");
    p.on_event(GraphicsEvent::Click);
    assert!(p.focus);
    let (_, a) = p.on_event(GraphicsEvent::ScrollRight);
    assert!(matches!(a, Some(UIAction::Page(1))));
    let (_, a) = p.on_event(GraphicsEvent::ScrollRight);
    assert!(matches!(a, Some(UIAction::Page(1))));
    assert_eq!(p.render(UIElementState::Selected), "-Page (2/2)");
    let (_, a) = p.on_event(GraphicsEvent::ScrollLeft);
    assert!(matches!(a, Some(UIAction::Page(0))));
    let (_, a) = p.on_event(GraphicsEvent::ScrollLeft);
    assert!(matches!(a, Some(UIAction::Page(0))));
    let (used, _) = p.on_event(GraphicsEvent::Back);
    assert!(used);
    assert!(!p.focus);
}

#[test]
fn button_and_text() {
    let mut b = UIButton::new("Save".to_string(), ButtonAction::SaveProject);
    assert_eq!(b.render(UIElementState::Selected), ">Save");
    let (focus, action) = b.on_event(GraphicsEvent::Click);
    assert!(!focus);
    assert!(matches!(action, Some(UIAction::Button(ButtonAction::SaveProject))));
    let (_, none) = b.on_event(GraphicsEvent::ScrollLeft);
    assert!(none.is_none());
    let t = UIText::new("Home".to_string());
    assert_eq!(t.render(UIElementState::SelectorPress), "\\Home");
}

#[test]
fn row_focus_cursor_and_fit() {
    let mut row = UIRow::with_label("Project");
    row.add_element(UIRowItem::Button(UIButton::new("New".to_string(), ButtonAction::NewProject)));
    row.add_element(UIRowItem::Button(UIButton::new("Open".to_string(), ButtonAction::OpenProjects)));
    assert_eq!(row.render(UIElementState::Selected), ">Project: New Op");
    let (focus, action) = row.on_event(GraphicsEvent::Click);
    assert!(focus && action.is_none());
    row.on_event(GraphicsEvent::ScrollRight);
    assert_eq!(row.offset, 1);
    row.on_event(GraphicsEvent::ScrollRight);
    assert_eq!(row.offset, 1);
    assert_eq!(row.render(UIElementState::Selected), ">Project: >Open ");
    let (_, action) = row.on_event(GraphicsEvent::Click);
    assert!(matches!(action, Some(UIAction::Button(ButtonAction::OpenProjects))));
    let (used, _) = row.on_event(GraphicsEvent::Back);
    assert!(used);
    assert!(!row.focus);
}

#[test]
fn screen_cursor_moves_within_the_elements() {
    let mut data = ScreenData::new();
    data.add_text("A".to_string());
    data.add_text("B".to_string());
    data.add_text("C".to_string());
    assert_eq!(data.render(false), vec![">A".to_string(), "B".to_string()]);
    assert_eq!(data.render(true), vec!["\\A".to_string(), "B".to_string()]);
    data.on_scroll(false);
    assert_eq!(data.row_offset, 0);
    data.on_scroll(true);
    data.on_scroll(true);
    data.on_scroll(true);
    assert_eq!(data.row_offset, 2);
    assert_eq!(data.render(false), vec![">C".to_string()]);
    let (used, action) = data.on_back();
    assert!(!used && action.is_none());
    data.on_start();
    assert_eq!(data.row_offset, 0);
}

#[test]
fn page_selector_out_of_range_is_held_on_the_last_page() {
    let mut p = UIPageSelector::new(5, 2);
    let (_, a) = p.on_event(GraphicsEvent::ScrollRight);
    assert!(matches!(a, Some(UIAction::Page(1))));
    let mut q = UIPageSelector::new(5, 2);
    let (_, a) = q.on_event(GraphicsEvent::ScrollLeft);
    assert!(matches!(a, Some(UIAction::Page(1))));
}

#[test]
fn row_scroll_clamps_an_offset_past_its_end() {
    let mut row = UIRow::new();
    row.add_element(UIRowItem::Text(UIText::new("a".to_string())));
    row.add_element(UIRowItem::Text(UIText::new("b".to_string())));
    row.offset = 7;
    let (used, action) = row.on_event(GraphicsEvent::ScrollRight);
    assert!(!used);
    assert!(action.is_none());
    assert_eq!(row.offset, 1);
}
