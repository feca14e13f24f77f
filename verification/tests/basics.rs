use drum_sampler::ads1015::{
    ADS1015Config, CompLatchingConfig, CompModeConfig, CompPolarityConfig, CompQueueDisableConfig,
    DataRateConfig, FsrConfig, MuxConfig, OpModeConfig, ADS1015,
};
use drum_sampler::leds_manager::LedsManager;
use drum_sampler::midi::{MidiPacket, MidiType, MIDI};
use drum_sampler::pads::task::{TaskState, TaskStatus};
use drum_sampler::pads::{process_pad_physics, process_pad_run, DrumPad, PadPressType, PadState, PadsManager};
use drum_sampler::quantizer::{Quantizer, SequencerMessage};
use drum_sampler::selector::{Debouncer, RotationEvent, SelectorEvent};
use drum_sampler::settings_components::pads::PadConfig;
use drum_sampler::text::{fit, int_to_string, same_text};
use drum_sampler::utils::{int_to_note, pad_to_seq, seq_to_pad, CustomGraphicsEvent};

#[test]
fn int_to_string_values() {
    assert_eq!(int_to_string(0), "0");
    assert_eq!(int_to_string(7), "7");
    assert_eq!(int_to_string(-123), "-123");
    assert_eq!(int_to_string(i64::MIN), "-9223372036854775808");
    assert_eq!(int_to_string(i64::MAX), "9223372036854775807");
}

#[test]
fn fit_pads_and_cuts() {
    assert_eq!(fit("abc", 5), "abc  ");
    assert_eq!(fit("abcdef", 3), "abc");
    assert_eq!(fit("", 2), "  ");
    assert!(same_text("page", "page"));
    assert!(!same_text("page", "pages"));
}

#[test]
fn note_names() {
    assert_eq!(int_to_note(60), "C4");
    assert_eq!(int_to_note(61), "C#4");
    assert_eq!(int_to_note(10), "A#-1");
    assert_eq!(int_to_note(0), "C-1");
    assert_eq!(int_to_note(127), "G9");
    assert_eq!(int_to_note(-1), "B-2");
}

#[test]
fn custom_event_packing_round_trip() {
    let mut e = CustomGraphicsEvent::new().with_channel(5);
    e.set_long_click(true);
    assert_eq!(e.bits(), 13);
    let back = CustomGraphicsEvent::from_bits(13);
    assert_eq!(back.get_channel(), 5);
    assert!(back.is_long_click());
    assert!(!back.is_shortcut());
    let mut s = CustomGraphicsEvent::new().with_channel(2);
    s.set_shortcut(true);
    let v: u32 = s.into();
    assert_eq!(v, 18);
    let again: CustomGraphicsEvent = v.into();
    assert_eq!(again, s);
    // Bits above the fifth are ignored.
    let high = CustomGraphicsEvent::from_bits(0xFFFF_FFE1);
    assert_eq!(high.get_channel(), 1);
    assert!(!high.is_long_click());
    assert!(!high.is_shortcut());
}

#[test]
fn pads_map_to_steps_one_to_one() {
    for p in 0u8..8 {
        assert_eq!(pad_to_seq(p), p);
        assert_eq!(seq_to_pad(pad_to_seq(p)), p);
    }
}

#[test]
fn midi_packets_bytes() {
    assert_eq!(MidiPacket::note_on(60, 100).to_bytes(), [0x09, 0x90, 60, 100]);
    assert_eq!(MidiPacket::note_off(62, 0).to_bytes(), [0x08, 0x80, 62, 0]);
    assert_eq!(MIDI::sync().to_bytes(), [0x0F, 0xF8, 0, 0]);
    let on: (u8, u8) = MidiType::NoteOn.into();
    let off: (u8, u8) = MidiType::NoteOff.into();
    assert_eq!(on, (0x09, 0x90));
    assert_eq!(off, (0x08, 0x80));
}

#[test]
fn leds_press_release_and_overlay() {
    let mut leds = LedsManager::new();
    assert_eq!(leds.output(), 0);
    assert_eq!(leds.set_led(2, true), 0b0000_0100);
    assert_eq!(leds.set_sequencer(0b1001, true), 0b0000_1101);
    assert_eq!(leds.set_led(2, false), 0b0000_1001);
    assert_eq!(leds.set_sequencer(0b1001, false), 0);
    assert_eq!(leds.set_led(7, true), 0b1000_0000);
    assert_eq!(leds.output_packet(), [0x02, 0b1000_0000]);
    let (config, clear) = LedsManager::init_packets();
    assert_eq!(config, [0x06, 0]);
    assert_eq!(clear, [0x02, 0]);
}

#[test]
fn quantizer_alarm_and_messages() {
    let mut q = Quantizer::new();
    assert_eq!(q.start(120), 40_000_000u64 * 60 / (120 * 96));
    assert_eq!(q.start(140), 178_571);
    q.tick();
    assert_eq!((q.steps, q.ticks), (0, 0));
    assert_eq!(q.sequencer_message(), Some(SequencerMessage::NoteOn(0)));
    for _ in 0..5 {
        q.tick();
    }
    assert_eq!(q.sequencer_message(), Some(SequencerMessage::NoteOff(0)));
    q.tick();
    assert_eq!(q.sequencer_message(), None);
    // A whole loop brings the counters back.
    let (s, t) = (q.steps, q.ticks);
    for _ in 0..384 {
        q.tick();
    }
    assert_eq!((q.steps, q.ticks), (s, t));
}

#[test]
fn debouncer_accepts_after_the_window() {
    let mut d = Debouncer::new();
    assert_eq!(d.click(10, 0), None);
    assert_eq!(d.click(50_001, 0), Some(SelectorEvent::Click(true)));
    assert_eq!(d.rotation(60_000, 1, 1), None);
    assert_eq!(d.rotation(100_002, 1, 1), Some(SelectorEvent::Rotation(RotationEvent::Left)));
    assert_eq!(d.rotation(200_000, 1, 0), Some(SelectorEvent::Rotation(RotationEvent::Right)));
    assert_eq!(d.click(300_000, 1), Some(SelectorEvent::Click(false)));
    // The timer wraps around.
    let mut w = Debouncer::new();
    assert!(w.accept(u32::MAX - 10));
    assert!(!w.accept(5));
    assert!(w.accept(60_000));
}

fn adc_config() -> ADS1015Config {
    ADS1015Config {
        mux_config: MuxConfig::MUX0,
        fsr_mode: FsrConfig::Fsr4_096,
        op_mode: OpModeConfig::Continuous,
        data_rate: DataRateConfig::DataRate3300,
        comparator_mode: CompModeConfig::Traditional,
        comparator_polarity: CompPolarityConfig::ActiveLow,
        comparator_latching: CompLatchingConfig::NonLatching,
        queue_and_disable: CompQueueDisableConfig::DisableComp,
    }
}

#[test]
fn adc_register_bytes() {
    let packet = ADS1015::config_packet(&adc_config());
    assert_eq!(packet, [0x01, 0x42, 0xC3]);
    let mut adc = ADS1015::new(0x48);
    assert_eq!(adc.addr(), 0x48);
    adc.commit_write(&packet);
    assert_eq!(adc.cfg_reg(), 0x42C3);
    assert_eq!(adc.mux_packet(&MuxConfig::MUX2), [0x01, 0x62, 0xC3]);
    adc.commit_read_config(&[0x12, 0x34]);
    assert_eq!(adc.cfg_reg(), 0x1234);
    assert_eq!(ADS1015::decode_sample(&[0x12, 0x34]), 0x123);
    assert_eq!(ADS1015::decode_sample(&[0xFF, 0xFF]), 0xFFF);
    assert_eq!(MuxConfig::mux_from(3), MuxConfig::MUX3);
    assert_eq!(MuxConfig::mux_from(9), MuxConfig::MUX0);
}

#[test]
fn pad_hit_cycle() {
    let mut pad = DrumPad::new(60, 2, PadPressType::OneShot, 100);
    assert_eq!(process_pad_physics(3, &mut pad, 100, 0), None);
    assert_eq!(pad.state(), PadState::Idle);
    assert_eq!(process_pad_physics(3, &mut pad, 300, 10), None);
    assert_eq!(pad.state(), PadState::Attack);
    assert_eq!(process_pad_physics(3, &mut pad, 900, 12), None);
    let on = process_pad_physics(3, &mut pad, 200, 15).unwrap();
    assert_eq!((on.index, on.channel, on.note, on.velocity, on.midi_type), (3, 2, 60, 56, MidiType::NoteOn));
    assert_eq!(pad.state(), PadState::Sustain);
    // 80 is not under 80% of the threshold; 79 is.
    assert_eq!(process_pad_physics(3, &mut pad, 80, 20), None);
    assert_eq!(pad.state(), PadState::Sustain);
    assert_eq!(process_pad_physics(3, &mut pad, 79, 21), None);
    assert_eq!(pad.state(), PadState::Release);
    let off = process_pad_physics(3, &mut pad, 0, 22).unwrap();
    assert_eq!((off.note, off.velocity, off.midi_type), (60, 0, MidiType::NoteOff));
    assert_eq!(pad.state(), PadState::Idle);
}

#[test]
fn pad_velocity_saturates() {
    let mut pad = DrumPad::new(40, 0, PadPressType::OneShot, 10);
    process_pad_physics(0, &mut pad, 4000, 0);
    let on = process_pad_physics(0, &mut pad, 0, 5).unwrap();
    assert_eq!(on.velocity, 127);
}

#[test]
fn release_level_matches_float_hysteresis() {
    // The release level is 80% of the threshold, as the float product
    // truncated to an integer.
    for threshold in 0..=u16::MAX {
        let float_level = (threshold as f32 * 0.8) as u16;
        let mut pad = DrumPad::new(60, 0, PadPressType::OneShot, threshold);
        pad.state = PadState::Sustain;
        process_pad_physics(0, &mut pad, float_level, 0);
        assert_eq!(pad.state(), PadState::Sustain, "threshold {}", threshold);
        if float_level > 0 {
            let mut below = DrumPad::new(60, 0, PadPressType::OneShot, threshold);
            below.state = PadState::Sustain;
            process_pad_physics(0, &mut below, float_level - 1, 0);
            assert_eq!(below.state(), PadState::Release, "threshold {}", threshold);
        }
    }
}

#[test]
fn pads_manager_scan_and_update() {
    let mut m = PadsManager::new();
    assert_eq!(m.status(), TaskStatus::Running);
    let scan = m.scan(500, 0, 0);
    assert!(scan.events.is_empty());
    assert_eq!(scan.next_mux, MuxConfig::MUX1);
    // Inputs 1, 2 and 3, then back at 0 where pad 0 is in attack.
    m.scan(0, 0, 1);
    m.scan(0, 0, 2);
    let s3 = m.scan(0, 0, 3);
    assert_eq!(s3.next_mux, MuxConfig::MUX0);
    let s0 = m.scan(0, 0, 6);
    assert_eq!(s0.events.len(), 1);
    assert_eq!((s0.events[0].index, s0.events[0].note, s0.events[0].velocity), (0, 60, 31));
    let mut configs = PadConfig::new_list();
    configs[1].note = 70;
    m.request_update_settings(&configs);
    assert_eq!(m.status(), TaskStatus::Updating);
    assert_eq!(m.get_pad_settings()[1].note, 70);
    m.take_settings();
    assert_eq!(m.status(), TaskStatus::Running);
}

#[test]
fn task_state_reads_back_what_was_set() {
    let mut t = TaskState::new(TaskStatus::Running);
    assert_eq!(t.get(), TaskStatus::Running);
    t.set(TaskStatus::Updating);
    assert_eq!(t.get(), TaskStatus::Updating);
}

#[test]
fn pad_events_alternate_over_two_hits() {
    let mut pad = DrumPad::new(62, 1, PadPressType::OneShot, 100);
    let samples: [(u16, u32); 12] = [
        (300, 0), (300, 2), (300, 6), (300, 7), (10, 8), (0, 9),
        (500, 20), (500, 26), (500, 27), (0, 28), (0, 29), (0, 30),
    ];
    let mut kinds = Vec::new();
    let mut previous_some = false;
    for (value, now) in samples.iter() {
        let r = process_pad_physics(5, &mut pad, *value, *now);
        assert!(!(previous_some && r.is_some()));
        previous_some = r.is_some();
        if let Some(e) = r {
            assert_eq!((e.index, e.note, e.channel), (5, 62, 1));
            kinds.push(e.midi_type);
        }
    }
    assert_eq!(kinds, vec![MidiType::NoteOn, MidiType::NoteOff, MidiType::NoteOn, MidiType::NoteOff]);
}

#[test]
fn scan_feeds_the_second_converter_to_pads_four_on() {
    let mut m = PadsManager::new();
    m.scan(0, 500, 0);
    m.scan(0, 0, 1);
    m.scan(0, 0, 2);
    m.scan(0, 0, 3);
    let s = m.scan(0, 0, 6);
    assert_eq!(s.events.len(), 1);
    assert_eq!((s.events[0].index, s.events[0].note), (4, 64));
}

#[test]
fn pad_run_gives_each_step_in_order() {
    let mut pad = DrumPad::new(62, 1, PadPressType::OneShot, 100);
    let values = vec![300, 300, 300, 10, 0, 500, 500, 0, 0];
    let times = vec![0, 2, 6, 8, 9, 20, 26, 28, 29];
    let events = process_pad_run(5, &mut pad, &values, &times);
    let kinds: Vec<Option<MidiType>> = events.iter().map(|e| e.map(|e| e.midi_type)).collect();
    assert_eq!(
        kinds,
        vec![
            None,
            None,
            Some(MidiType::NoteOn),
            None,
            Some(MidiType::NoteOff),
            None,
            Some(MidiType::NoteOn),
            None,
            Some(MidiType::NoteOff),
        ]
    );
    assert_eq!(pad.state(), PadState::Idle);
}
