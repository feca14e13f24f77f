use drum_sampler::context::Context;
use drum_sampler::graphics::drivers::lcd1602::{Lcd1602, LcdOp};
use drum_sampler::graphics::manager::{kind_is_ready, GraphicsManager, ScreenKind};
use drum_sampler::graphics::ui::element::{UIElement, UIElementState};
use drum_sampler::screens::sequencer_tracks::SequencerTracksScreen;
use drum_sampler::quantizer::SequencerMessage;
use drum_sampler::leds_manager::LedsManager;
use drum_sampler::main_loop::{elapsed, MainLoop, SettingsWork};
use drum_sampler::midi::{MidiPacket, MidiType};
use drum_sampler::navigator::NavigatorMessage;
use drum_sampler::pads::{PadButtonEvent, PadInputEvent};
use drum_sampler::screens::sequencer::fresh_project_name;
use drum_sampler::selector::{RotationEvent, SelectorEvent};
use drum_sampler::sequencer::{Sequencer, SequencerResolution, TrackEdit};
use drum_sampler::settings::component::DirectRead;
use drum_sampler::settings::components::config::ConfigComponent;
use drum_sampler::settings::manager::{AnyComponent, SettingsManager};
use drum_sampler::settings_components::pads::PadsComponent;
use drum_sampler::settings_components::sequencer::SequencerSettings;
use drum_sampler::settings_components::sequencer_projects::SequencerProjects;
use drum_sampler::settings_components::shortcuts::ShortcutsComponent;
use drum_sampler::settings_components::SettingsEvent;
use drum_sampler::vendor::{answer, parse_command, split_words, LineBuffer, Vendor, VendorCommand};

fn settings() -> SettingsManager {
    let mut s = SettingsManager::new();
    let mut config = ConfigComponent::new();
    config.unwrap_data();
    s.add_component("config", AnyComponent::Config(config));
    s.add_component("pads", AnyComponent::Pads(PadsComponent::new()));
    s.add_component("shortcuts", AnyComponent::Shortcuts(ShortcutsComponent::new()));
    s.add_component("sequencer", AnyComponent::Sequencer(SequencerSettings::new()));
    s.add_component("sequencer_projects", AnyComponent::SequencerProjects(SequencerProjects::new()));
    s
}

fn device() -> MainLoop {
    MainLoop::new(Context::new(Sequencer::new(), settings(), LedsManager::new()))
}

fn rows(m: &MainLoop) -> Vec<String> {
    m.render().unwrap()
}

fn current(m: &MainLoop) -> String {
    m.graphics.current_screen.as_ref().unwrap().0.clone()
}

/// Runs every message the screens sent.
fn drain(m: &mut MainLoop) {
    while let Some(message) = m.next_message() {
        m.handle_message(message);
    }
}

fn click(m: &mut MainLoop, at: u32) {
    m.handle_selector(SelectorEvent::Click(true), at);
    m.handle_selector(SelectorEvent::Click(false), at + 100);
    drain(m);
}

fn long_click(m: &mut MainLoop, at: u32) {
    m.handle_selector(SelectorEvent::Click(true), at);
    m.handle_selector(SelectorEvent::Click(false), at + 600);
    drain(m);
}

fn turn(m: &mut MainLoop, right: bool, at: u32) {
    let direction = if right { RotationEvent::Right } else { RotationEvent::Left };
    m.handle_selector(SelectorEvent::Rotation(direction), at);
    drain(m);
}

#[test]
fn starts_on_the_home_screen() {
    let m = device();
    assert_eq!(current(&m), "home");
    assert_eq!(rows(&m), vec![">Home".to_string(), "Settings Sequenc".to_string()]);
    assert!(m.graphics.backstack.is_empty());
}

#[test]
fn navigate_then_back_returns_to_the_screen() {
    let mut m = device();
    turn(&mut m, true, 0);
    assert_eq!(rows(&m), vec![">Settings Sequen".to_string()]);
    click(&mut m, 1000);
    assert_eq!(rows(&m), vec![">>Settings Seque".to_string()]);
    click(&mut m, 2000);
    assert_eq!(current(&m), "settings");
    assert_eq!(m.graphics.backstack, vec!["home".to_string()]);
    assert_eq!(rows(&m), vec![">Settings".to_string(), "BPM: 140".to_string()]);
    long_click(&mut m, 3000);
    assert_eq!(current(&m), "home");
    assert!(m.graphics.backstack.is_empty());
}

#[test]
fn selector_press_marks_the_row_and_cancels() {
    let mut m = device();
    m.handle_selector(SelectorEvent::Click(true), 10);
    assert_eq!(m.press_start_time, 10);
    assert_eq!(rows(&m)[0], "\\Home");
    m.handle_selector(SelectorEvent::Click(true), 20);
    assert_eq!(m.press_start_time, 0);
}

#[test]
fn elapsed_time_wraps() {
    assert_eq!(elapsed(100, 600), 500);
    assert_eq!(elapsed(u32::MAX - 99, 400), 500);
}

#[test]
fn tempo_edit_reaches_the_settings_task() {
    let mut m = device();
    m.graphics.navigate("settings", &mut m.ctx);
    turn(&mut m, true, 0);
    click(&mut m, 1000);
    turn(&mut m, true, 1500);
    turn(&mut m, true, 1600);
    click(&mut m, 2000);
    assert_eq!(m.ctx.settings_events, vec![SettingsEvent::ConfigBpm]);
    match m.handle_settings_event(SettingsEvent::ConfigBpm) {
        SettingsWork::StoreConfig(data, bpm) => {
            assert_eq!(data.bpm, 142);
            assert_eq!(bpm, 142);
        }
        _ => panic!("the configuration is registered"),
    }
    assert_eq!(m.ctx.config_bpm(), Some(142));
}

#[test]
fn pad_screen_picks_a_pad_and_saves() {
    let mut m = device();
    m.graphics.navigate("pad_settings", &mut m.ctx);
    assert!(m.ctx.pads_midi_paused);
    assert_eq!(rows(&m), vec![">Press button".to_string()]);
    assert!(!m.handle_pad_button(PadButtonEvent { index: 3, pressed: true }, 100));
    assert!(m.handle_pad_button(PadButtonEvent { index: 3, pressed: false }, 200));
    assert_eq!(rows(&m), vec![">PAD: 4".to_string(), "Note: D#4".to_string()]);
    turn(&mut m, true, 300);
    click(&mut m, 400);
    turn(&mut m, true, 600);
    click(&mut m, 800);
    assert_eq!(m.ctx.pad_config(3).unwrap().note, 64);
    turn(&mut m, true, 900);
    turn(&mut m, true, 1000);
    click(&mut m, 1100);
    assert_eq!(m.ctx.settings_events, vec![SettingsEvent::PadConfig]);
    match m.handle_settings_event(SettingsEvent::PadConfig) {
        SettingsWork::StorePads(data, configs) => {
            assert_eq!(data.pads[3].note, 64);
            assert_eq!(configs[3].note, 64);
        }
        _ => panic!("the pads are registered"),
    }
    // Saving goes back to waiting for a pad press; a further back leaves
    // the screen and lets the pads through to the MIDI output again.
    assert_eq!(current(&m), "pad_settings");
    assert_eq!(rows(&m), vec![">Press button".to_string()]);
    long_click(&mut m, 1200);
    assert_eq!(current(&m), "home");
    assert!(!m.ctx.pads_midi_paused);
}

#[test]
fn pad_shortcut_opens_the_settings() {
    let mut m = device();
    m.handle_selector(SelectorEvent::Click(true), 1000);
    m.handle_pad_button(PadButtonEvent { index: 0, pressed: true }, 1100);
    assert!(m.handle_pad_button(PadButtonEvent { index: 0, pressed: false }, 1600));
    assert!(m.was_shortcut);
    assert_eq!(current(&m), "settings");
    m.handle_selector(SelectorEvent::Click(false), 1700);
    assert!(!m.was_shortcut);
    assert_eq!(m.press_start_time, 0);
    assert_eq!(current(&m), "settings");
}

#[test]
fn long_pad_press_is_not_a_shortcut() {
    let mut m = device();
    m.handle_pad_button(PadButtonEvent { index: 0, pressed: true }, 0);
    assert!(!m.handle_pad_button(PadButtonEvent { index: 0, pressed: false }, 900));
    assert!(!m.was_shortcut);
    assert_eq!(current(&m), "home");
    assert!(!m.handle_pad_button(PadButtonEvent { index: 9, pressed: false }, 900));
}

#[test]
fn pad_input_sends_midi_and_lights_leds() {
    let mut m = device();
    let hit = PadInputEvent { index: 2, channel: 3, note: 62, velocity: 90, midi_type: MidiType::NoteOn };
    let work = m.handle_pad_input(hit);
    assert_eq!(work.button, PadButtonEvent { index: 2, pressed: true });
    assert_eq!(work.midi, Some([0x09, 0x93, 62, 90]));
    assert_eq!(work.leds, 0b100);
    m.ctx.pads_midi_paused = true;
    let release = PadInputEvent { index: 2, channel: 3, note: 62, velocity: 0, midi_type: MidiType::NoteOff };
    let work = m.handle_pad_input(release);
    assert_eq!(work.button, PadButtonEvent { index: 2, pressed: false });
    assert_eq!(work.midi, None);
    assert_eq!(work.leds, 0);
}

#[test]
fn sequencer_screens_new_project_and_tracks() {
    let mut m = device();
    m.graphics.navigate("sequencer", &mut m.ctx);
    assert_eq!(rows(&m), vec![">Sequencer".to_string(), "Enabled: OFF".to_string()]);
    turn(&mut m, true, 0);
    click(&mut m, 100);
    assert!(m.ctx.sequencer.enabled());
    turn(&mut m, true, 200);
    click(&mut m, 300);
    click(&mut m, 400);
    assert_eq!(current(&m), "sequencer_project");
    assert_eq!(m.ctx.sequencer.get_project_name(), "Project1");
    assert_eq!(rows(&m), vec![">Project1".to_string(), "Loops: 1".to_string()]);
    // Loops 1 -> 4.
    turn(&mut m, true, 500);
    click(&mut m, 600);
    turn(&mut m, true, 700);
    turn(&mut m, true, 800);
    turn(&mut m, true, 900);
    click(&mut m, 1000);
    assert_eq!(m.ctx.sequencer.project_ref().loops, 4);
    // Tracks screen: add a track and pick it.
    turn(&mut m, true, 1100);
    click(&mut m, 1200);
    assert_eq!(current(&m), "sequencer_tracks");
    assert_eq!(rows(&m), vec![">Tracks".to_string(), "Add".to_string()]);
    turn(&mut m, true, 1300);
    click(&mut m, 1400);
    assert_eq!(m.ctx.sequencer.project_ref().tracks.len(), 1);
    assert_eq!(rows(&m), vec![">Tracks".to_string(), "Add".to_string()]);
    turn(&mut m, true, 1500);
    turn(&mut m, true, 1600);
    assert_eq!(rows(&m), vec![">0 (C4)".to_string()]);
    click(&mut m, 1700);
    assert_eq!(rows(&m), vec![">Track: 0".to_string(), "Remove".to_string()]);
    assert_eq!(m.ctx.leds.output(), 0);
    // A short press of pad 2 switches step 2 on, and its LED.
    m.handle_pad_button(PadButtonEvent { index: 2, pressed: true }, 1800);
    m.handle_pad_button(PadButtonEvent { index: 2, pressed: false }, 1850);
    assert_eq!(m.ctx.sequencer.project_ref().tracks[0].triggers, vec![2]);
    assert_eq!(m.ctx.leds.output(), 0b100);
    m.handle_pad_button(PadButtonEvent { index: 2, pressed: true }, 1900);
    m.handle_pad_button(PadButtonEvent { index: 2, pressed: false }, 1950);
    assert!(m.ctx.sequencer.project_ref().tracks[0].triggers.is_empty());
    assert_eq!(m.ctx.leds.output(), 0);
    // Back to the list, then back to the project screen.
    long_click(&mut m, 2000);
    assert_eq!(current(&m), "sequencer_tracks");
    assert_eq!(rows(&m), vec![">Tracks".to_string(), "Add".to_string()]);
    long_click(&mut m, 3000);
    assert_eq!(current(&m), "sequencer_project");
    // Save asks for the project to be stored.
    turn(&mut m, true, 4000);
    turn(&mut m, true, 4100);
    turn(&mut m, true, 4200);
    click(&mut m, 4300);
    assert_eq!(m.ctx.storage.len(), 1);
}

#[test]
fn fresh_project_names() {
    assert_eq!(fresh_project_name(&vec![]), "Project1");
    assert_eq!(fresh_project_name(&vec!["Project1".to_string(), "Project3".to_string()]), "Project2");
    assert_eq!(fresh_project_name(&vec!["Project2".to_string()]), "Project1");
    assert_eq!(
        fresh_project_name(&vec!["Project1".to_string(), "Project2".to_string(), "Other".to_string()]),
        "Project3"
    );
}

#[test]
fn manager_routes_and_messages() {
    let mut g = GraphicsManager::new();
    let mut ctx = Context::new(Sequencer::new(), settings(), LedsManager::new());
    assert!(!g.has_route("home"));
    g.load_screen("home", ScreenKind::Home);
    g.load_screen("x", ScreenKind::DrumPad);
    g.load_screen("x", ScreenKind::Settings);
    assert!(g.has_route("x"));
    g.navigate("x", &mut ctx);
    assert_eq!(g.update(false).len(), 0);
    assert_eq!(g.rows(false), vec![">Settings".to_string(), "BPM: 140".to_string()]);
    g.navigate("home", &mut ctx);
    assert_eq!(g.backstack, vec!["x".to_string()]);
    g.navigate_back(&mut ctx);
    assert_eq!(g.current_screen.as_ref().unwrap().0, "x");
    assert!(g.backstack.is_empty());
    g.navigate_back(&mut ctx);
    assert_eq!(g.current_screen.as_ref().unwrap().0, "x");
    // The project screens need a project before they can be opened.
    g.load_screen("p", ScreenKind::SequencerProject);
    assert!(!kind_is_ready(g.find_route("p").unwrap(), &ctx));
    assert!(!g.send_custom_event(0, &mut ctx));
}

fn track_pages(resolution: SequencerResolution, loops: u8) -> String {
    let mut ctx = Context::new(Sequencer::new(), settings(), LedsManager::new());
    ctx.sequencer.new_project("P".to_string());
    ctx.sequencer.add_track();
    ctx.sequencer.edit_track(0, TrackEdit::SetResolution(resolution));
    ctx.sequencer.edit_track(0, TrackEdit::SetLoops(loops));
    let mut screen = SequencerTracksScreen::new(&ctx);
    screen.track = 0;
    screen.show_track(&ctx);
    screen.data.elements[2].render(UIElementState::Unselected)
}

#[test]
fn track_pages_follow_the_step_count() {
    assert_eq!(track_pages(SequencerResolution::Quarter, 1), "Page (1/2)");
    assert_eq!(track_pages(SequencerResolution::Quarter, 3), "Page (1/6)");
    assert_eq!(track_pages(SequencerResolution::HalfBeat, 1), "Page (1/1)");
    assert_eq!(track_pages(SequencerResolution::Beat, 2), "Page (1/2)");
    assert_eq!(track_pages(SequencerResolution::Loop, 1), "Page (1/1)");
}

#[test]
fn sequencer_messages_play_only_while_enabled() {
    let mut m = device();
    m.ctx.sequencer.new_project("P".to_string());
    m.ctx.sequencer.add_track();
    m.ctx.sequencer.edit_track(0, TrackEdit::ToggleTrigger(2));
    assert!(m.handle_sequencer_message(SequencerMessage::NoteOn(4)).is_empty());
    m.ctx.sequencer.set_enable(true);
    assert!(m.handle_sequencer_message(SequencerMessage::NoteOn(3)).is_empty());
    assert_eq!(m.handle_sequencer_message(SequencerMessage::NoteOn(4)), vec![MidiPacket::note_on(60, 127)]);
    assert!(m.handle_sequencer_message(SequencerMessage::NoteOff(4)).is_empty());
    assert_eq!(m.handle_sequencer_message(SequencerMessage::NoteOff(5)), vec![MidiPacket::note_off(60, 0)]);
}

#[test]
fn display_operations() {
    let lcd = Lcd1602::new(0x27);
    assert_eq!(
        lcd.clear(),
        vec![
            LcdOp::Write(0x27, 0x0C),
            LcdOp::Delay(1),
            LcdOp::Write(0x27, 0x08),
            LcdOp::Delay(40),
            LcdOp::Write(0x27, 0x1C),
            LcdOp::Delay(1),
            LcdOp::Write(0x27, 0x18),
            LcdOp::Delay(40),
            LcdOp::Delay(2000),
        ]
    );
    let draw = lcd.draw(&vec!["A".to_string()]);
    assert_eq!(
        draw,
        vec![
            LcdOp::Write(0x27, 0x8C),
            LcdOp::Delay(1),
            LcdOp::Write(0x27, 0x88),
            LcdOp::Delay(40),
            LcdOp::Write(0x27, 0x0C),
            LcdOp::Delay(1),
            LcdOp::Write(0x27, 0x08),
            LcdOp::Delay(40),
            LcdOp::Write(0x27, 0x4D),
            LcdOp::Delay(1),
            LcdOp::Write(0x27, 0x49),
            LcdOp::Delay(40),
            LcdOp::Write(0x27, 0x1D),
            LcdOp::Delay(1),
            LcdOp::Write(0x27, 0x19),
            LcdOp::Delay(40),
        ]
    );
    let second = lcd.draw(&vec![String::new(), String::new()]);
    assert_eq!(second.len(), 16);
    assert_eq!(second[8], LcdOp::Write(0x27, 0xCC));
    let init = lcd.init();
    assert_eq!(init.len(), 62);
    assert_eq!(init[0], LcdOp::Delay(50_000));
    assert_eq!(init[1], LcdOp::Write(0x27, 0x3C));
    let mut m = device();
    assert_eq!(m.graphics.install_driver(Lcd1602::new(0x27)).len(), 62);
    let frame = m.frame().unwrap();
    assert_eq!(frame[..9], lcd.clear()[..]);
}

#[test]
fn vendor_commands() {
    assert_eq!(split_words("  READ_CONFIG pads\t x\n"), vec!["READ_CONFIG", "pads", "x"]);
    assert!(split_words(" \t\r\n").is_empty());
    assert!(parse_command("   \n").is_none());
    let s = settings();
    match parse_command("READ_CONFIG pads\n").unwrap() {
        VendorCommand::ReadConfig(name, args) => {
            assert_eq!(name, "pads");
            assert!(args.is_empty());
        }
        _ => panic!("a read"),
    }
    let read = parse_command("READ_CONFIG pads extra").unwrap();
    assert!(matches!(answer(&s, &read), Some(DirectRead::File(p)) if p == "/data/pads.toml"));
    let config = parse_command("READ_CONFIG config").unwrap();
    assert!(matches!(answer(&s, &config), Some(DirectRead::Text(t)) if t.is_empty()));
    let missing = parse_command("READ_CONFIG nothing").unwrap();
    assert!(matches!(answer(&s, &missing), Some(DirectRead::Text(t)) if t.is_empty()));
    let shortcuts = parse_command("READ_CONFIG shortcuts").unwrap();
    assert!(answer(&s, &shortcuts).is_none());
    let invalid = parse_command("READ_CONFIG").unwrap();
    assert!(matches!(invalid, VendorCommand::InvalidArgs));
    assert!(matches!(answer(&s, &invalid), Some(DirectRead::Text(t)) if t == "invalid args"));
    let unknown = parse_command("HELLO world").unwrap();
    assert!(matches!(&unknown, VendorCommand::Unknown(w) if w == "HELLO"));
    assert!(answer(&s, &unknown).is_none());
}

#[test]
fn vendor_lines_and_framing() {
    let mut b = LineBuffer::new();
    b.push_chunk("READ_CONFIG pa");
    assert_eq!(b.next_line(), None);
    b.push_chunk("ds\nREAD");
    assert_eq!(b.next_line(), Some("READ_CONFIG pads\n".to_string()));
    assert_eq!(b.pending, vec!['R', 'E', 'A', 'D']);
    assert_eq!(b.next_line(), None);
    assert_eq!(Vendor::frame_response("ok"), "ok\n");
    assert_eq!(Vendor::chunk_size(10, 4), 4);
    assert_eq!(Vendor::chunk_size(3, 64), 3);
    assert_eq!(Vendor::chunk_size(5, 0), 0);
}

#[test]
fn navigator_messages() {
    assert!(matches!(NavigatorMessage::navigate("home"), NavigatorMessage::Navigate(r) if r == "home"));
    assert!(matches!(NavigatorMessage::back(), NavigatorMessage::Back));
    assert!(matches!(NavigatorMessage::custom_event(7), NavigatorMessage::CustomEvent(7)));
}
