//! The decisions of the device's tasks: the user interface loop (messages
//! from the screens, the selector, pad presses), the pad input task, the
//! settings task and the sequencer task. The firmware waits for the
//! events, hands them here, and carries out what comes back.
use vstd::prelude::*;
use crate::context::{Context, config_id, pads_id};
use crate::graphics::event::GraphicsEvent;
use crate::graphics::drivers::lcd1602::LcdOp;
use crate::graphics::manager::{GraphicsManager, ScreenKind, frame_ops, kind_ready};
use vstd::utf8::encode_utf8;
use crate::midi::{MidiPacket, MidiType};
use crate::quantizer::SequencerMessage;
use crate::navigator::NavigatorMessage;
use crate::pads::{PadButtonEvent, PadInputEvent};
use crate::selector::{RotationEvent, SelectorEvent};
use crate::settings::components::config::ConfigData;
use crate::settings::manager::AnyComponent;
use crate::settings_components::SettingsEvent;
use crate::settings_components::pads::{PadConfig, PadsData};
use crate::settings_components::shortcuts::Shortcut;
use crate::utils::{CustomGraphicsEvent, LONG_PRESS_THRESHOLD_MS, pack_event};

verus! {

/// Milliseconds from `start` to `now` on a clock that wraps around.
pub open spec fn elapsed_ms(start: u32, now: u32) -> u32 {
    if now >= start {
        (now - start) as u32
    } else {
        (now - start + 0x1_0000_0000) as u32
    }
}

/// Milliseconds from `start` to `now` on a clock that wraps around.
pub fn elapsed(start: u32, now: u32) -> (r: u32)
    ensures
        r == elapsed_ms(start, now),
{
    now.wrapping_sub(start)
}

/// The screens of the device and the names they are opened under.
pub open spec fn device_routes(m: &GraphicsManager) -> bool {
    &&& m.route("home"@) == Some(ScreenKind::Home)
    &&& m.route("settings"@) == Some(ScreenKind::Settings)
    &&& m.route("pad_settings"@) == Some(ScreenKind::PadSettings)
    &&& m.route("sequencer"@) == Some(ScreenKind::Sequencer)
    &&& m.route("sequencer_project"@) == Some(ScreenKind::SequencerProject)
    &&& m.route("sequencer_tracks"@) == Some(ScreenKind::SequencerTracks)
}

/// The shortcuts component is registered.
pub open spec fn shortcuts_registered(ctx: &Context) -> bool {
    ctx.settings.spec_get("shortcuts"@) matches Some(AnyComponent::Shortcuts(_))
}

/// What the settings task must do after a settings event.
pub enum SettingsWork {
    /// Write the configuration file and restart the quantizer at this tempo.
    StoreConfig(ConfigData, u8),
    /// Write the pads file and hand the configurations to the pads.
    StorePads(PadsData, Vec<PadConfig>),
    /// The component is not registered.
    Nothing,
}

/// What the pad input task does with a pad hit.
pub struct PadInputWork {
    /// The press or release the user interface sees.
    pub button: PadButtonEvent,
    /// The MIDI bytes to send, unless pad hits are kept off the output.
    pub midi: Option<[u8; 4]>,
    /// The pattern to drive onto the LEDs.
    pub leds: u8,
}

/// The user interface loop's state.
pub struct MainLoop {
    pub graphics: GraphicsManager,
    pub ctx: Context,
    /// When the selector button went down, or 0 while it is up.
    pub press_start_time: u32,
    /// Whether the selector press was used for a pad shortcut.
    pub was_shortcut: bool,
    /// When each pad last went down.
    pub pads_press_start_times: Vec<u32>,
}

impl MainLoop {
    pub open spec fn wf(&self) -> bool {
        &&& self.graphics.wf()
        &&& device_routes(&self.graphics)
        &&& self.graphics.current_screen is Some
        &&& self.ctx.wf()
        &&& self.pads_press_start_times@.len() == 8
    }

    /// Registers the device's screens and opens the home screen.
    pub fn new(ctx: Context) -> (r: Self)
        requires
            ctx.wf(),
        ensures
            r.wf(),
            device_routes(&r.graphics),
            r.graphics.current_id() == Some("home"@),
            r.graphics.current_kind() == Some(ScreenKind::Home),
            r.graphics.stack().len() == 0,
            r.press_start_time == 0,
            !r.was_shortcut,
            forall|i: int| 0 <= i < 8 ==> #[trigger] r.pads_press_start_times@[i] == 0,
            r.ctx.sequencer == ctx.sequencer,
            r.ctx.settings == ctx.settings,
    {
        proof {
            reveal_strlit("home");
            reveal_strlit("settings");
            reveal_strlit("pad_settings");
            reveal_strlit("sequencer");
            reveal_strlit("sequencer_project");
            reveal_strlit("sequencer_tracks");
            assert("home"@.len() == 4);
            assert("settings"@.len() == 8);
            assert("pad_settings"@.len() == 12);
            assert("sequencer"@.len() == 9);
            assert("sequencer_project"@.len() == 17);
            assert("sequencer_tracks"@.len() == 16);
            assert("settings"@[0] != "pad_settings"@[0]);
        }
        let mut graphics = GraphicsManager::new();
        graphics.load_screen("home", ScreenKind::Home);
        graphics.load_screen("settings", ScreenKind::Settings);
        graphics.load_screen("pad_settings", ScreenKind::PadSettings);
        graphics.load_screen("sequencer", ScreenKind::Sequencer);
        graphics.load_screen("sequencer_project", ScreenKind::SequencerProject);
        graphics.load_screen("sequencer_tracks", ScreenKind::SequencerTracks);
        assert(device_routes(&graphics));
        let mut ctx = ctx;
        graphics.navigate("home", &mut ctx);
        assert(graphics.stack() =~= Seq::<Seq<char>>::empty());
        let times = vec![0u32, 0, 0, 0, 0, 0, 0, 0];
        MainLoop { graphics, ctx, press_start_time: 0, was_shortcut: false, pads_press_start_times: times }
    }

    /// The next message from the screens, in the order they were sent.
    pub fn next_message(&mut self) -> (r: Option<NavigatorMessage>)
        ensures
            old(self).ctx.navigator@.len() == 0 ==> r is None && *final(self) == *old(self),
            old(self).ctx.navigator@.len() > 0 ==> {
                &&& r == Some(old(self).ctx.navigator@[0])
                &&& final(self).ctx.navigator@ == old(self).ctx.navigator@.drop_first()
                &&& final(self).graphics == old(self).graphics
                &&& final(self).ctx.same_state(&old(self).ctx)
                &&& final(self).ctx.settings_events == old(self).ctx.settings_events
                &&& final(self).ctx.storage == old(self).ctx.storage
                &&& final(self).ctx.led_writes == old(self).ctx.led_writes
                &&& final(self).press_start_time == old(self).press_start_time
                &&& final(self).was_shortcut == old(self).was_shortcut
                &&& final(self).pads_press_start_times == old(self).pads_press_start_times
            },
    {
        if self.ctx.navigator.len() == 0 {
            return None;
        }
        let m = self.ctx.navigator.remove(0);
        assert(self.ctx.navigator@ =~= old(self).ctx.navigator@.drop_first());
        Some(m)
    }

    /// Carries out a message from the screens; the display is redrawn
    /// after every message. A route that no screen is registered under is
    /// ignored.
    pub fn handle_message(&mut self, message: NavigatorMessage) -> (r: bool)
        requires
            old(self).wf(),
            message matches NavigatorMessage::Navigate(route) ==> old(self).graphics.route(route@) is Some
                && kind_ready(old(self).graphics.route(route@)->0, &old(self).ctx),
        ensures
            r,
            final(self).wf(),
            final(self).graphics.screens_factories == old(self).graphics.screens_factories,
            final(self).press_start_time == old(self).press_start_time,
            final(self).was_shortcut == old(self).was_shortcut,
            final(self).pads_press_start_times == old(self).pads_press_start_times,
            match message {
                NavigatorMessage::Navigate(route) => old(self).graphics.opens(
                    &final(self).graphics,
                    old(self).ctx,
                    final(self).ctx,
                    route@,
                ),
                NavigatorMessage::Back => old(self).graphics.goes_back(
                    &final(self).graphics,
                    old(self).ctx,
                    final(self).ctx,
                ),
                NavigatorMessage::GraphicsEvent(e) => old(self).graphics.event_taken(
                    &final(self).graphics,
                    old(self).ctx,
                    final(self).ctx,
                    e,
                ),
                NavigatorMessage::CustomEvent(e) => exists|redraw: bool|
                    #[trigger] old(self).graphics.pad_event_taken(
                        &final(self).graphics,
                        old(self).ctx,
                        final(self).ctx,
                        e,
                        redraw,
                    ),
            },
    {
        match message {
            NavigatorMessage::Navigate(route) => {
                self.graphics.navigate(route.as_str(), &mut self.ctx);
            },
            NavigatorMessage::Back => self.graphics.navigate_back(&mut self.ctx),
            NavigatorMessage::GraphicsEvent(event) => self.graphics.send_event(event, &mut self.ctx),
            NavigatorMessage::CustomEvent(event) => {
                let redraw = self.graphics.send_custom_event(event, &mut self.ctx);
                assert(old(self).graphics.pad_event_taken(
                    &self.graphics,
                    old(self).ctx,
                    self.ctx,
                    event,
                    redraw,
                ));
            },
        }
        true
    }

    /// The selector: a turn scrolls; the button going down starts timing
    /// the press (a second "down" cancels it); the button going up after a
    /// press of at least 500 ms is a back, after a shorter one a click,
    /// and after a pad shortcut nothing. Answers whether the display must
    /// be redrawn.
    pub fn handle_selector(&mut self, event: SelectorEvent, now: u32) -> (r: bool)
        requires
            old(self).wf(),
        ensures
            r,
            final(self).wf(),
            final(self).graphics.screens_factories == old(self).graphics.screens_factories,
            final(self).pads_press_start_times == old(self).pads_press_start_times,
            match event {
                SelectorEvent::Rotation(direction) => {
                    &&& final(self).press_start_time == old(self).press_start_time
                    &&& final(self).was_shortcut == old(self).was_shortcut
                    &&& old(self).graphics.event_taken(
                        &final(self).graphics,
                        old(self).ctx,
                        final(self).ctx,
                        match direction {
                            RotationEvent::Left => GraphicsEvent::ScrollLeft,
                            RotationEvent::Right => GraphicsEvent::ScrollRight,
                        },
                    )
                },
                SelectorEvent::Click(true) => {
                    &&& final(self).press_start_time == if old(self).press_start_time == 0 {
                        now
                    } else {
                        0
                    }
                    &&& final(self).was_shortcut == old(self).was_shortcut
                    &&& final(self).graphics == old(self).graphics
                    &&& final(self).ctx == old(self).ctx
                },
                SelectorEvent::Click(false) => {
                    &&& final(self).press_start_time == 0
                    &&& !final(self).was_shortcut
                    &&& old(self).was_shortcut ==> final(self).graphics == old(self).graphics
                        && final(self).ctx == old(self).ctx
                    &&& !old(self).was_shortcut ==> old(self).graphics.event_taken(
                        &final(self).graphics,
                        old(self).ctx,
                        final(self).ctx,
                        if elapsed_ms(old(self).press_start_time, now) >= LONG_PRESS_THRESHOLD_MS {
                            GraphicsEvent::Back
                        } else {
                            GraphicsEvent::Click
                        },
                    )
                },
            },
    {
        match event {
            SelectorEvent::Rotation(direction) => {
                let e = match direction {
                    RotationEvent::Left => GraphicsEvent::ScrollLeft,
                    RotationEvent::Right => GraphicsEvent::ScrollRight,
                };
                self.graphics.send_event(e, &mut self.ctx);
            },
            SelectorEvent::Click(press) => {
                if press {
                    if self.press_start_time == 0 {
                        self.press_start_time = now;
                    } else {
                        self.press_start_time = 0;
                    }
                } else if self.was_shortcut {
                    self.was_shortcut = false;
                    self.press_start_time = 0;
                } else {
                    let duration = elapsed(self.press_start_time, now);
                    let e = if duration >= LONG_PRESS_THRESHOLD_MS {
                        GraphicsEvent::Back
                    } else {
                        GraphicsEvent::Click
                    };
                    self.graphics.send_event(e, &mut self.ctx);
                    self.press_start_time = 0;
                }
            },
        }
        true
    }

    /// A pad going down or up, as the user interface sees it. A release
    /// becomes a pad event: a shortcut when the selector has been held at
    /// least 500 ms, else a long press when the pad was held at least
    /// 500 ms. A shortcut opens its screen; other pad events go to the
    /// screen shown. Answers whether the display must be redrawn. Pads
    /// beyond the eighth are ignored.
    pub fn handle_pad_button(&mut self, event: PadButtonEvent, now: u32) -> (r: bool)
        requires
            old(self).wf(),
        ensures
            final(self).wf(),
            final(self).graphics.screens_factories == old(self).graphics.screens_factories,
            final(self).press_start_time == old(self).press_start_time,
            event.index >= 8 ==> !r && *final(self) == *old(self),
            event.index < 8 && event.pressed ==> {
                &&& !r
                &&& final(self).pads_press_start_times@ == old(self).pads_press_start_times@.update(
                    event.index as int,
                    now,
                )
                &&& final(self).graphics == old(self).graphics
                &&& final(self).ctx == old(self).ctx
                &&& final(self).was_shortcut == old(self).was_shortcut
            },
            event.index < 8 && !event.pressed ==> {
                let shortcut = old(self).press_start_time != 0 && elapsed_ms(
                    old(self).press_start_time,
                    now,
                ) >= LONG_PRESS_THRESHOLD_MS;
                let long = !shortcut && elapsed_ms(
                    old(self).pads_press_start_times@[event.index as int],
                    now,
                ) >= LONG_PRESS_THRESHOLD_MS;
                &&& final(self).pads_press_start_times == old(self).pads_press_start_times
                &&& final(self).was_shortcut == (old(self).was_shortcut || shortcut)
                &&& shortcut && event.index == 0 && shortcuts_registered(&old(self).ctx) ==> {
                    &&& r
                    &&& final(self).ctx.wf()
                    &&& old(self).graphics.opens(
                        &final(self).graphics,
                        old(self).ctx,
                        final(self).ctx,
                        "settings"@,
                    )
                }
                &&& !(shortcut && event.index == 0 && shortcuts_registered(&old(self).ctx))
                    ==> old(self).graphics.pad_event_taken(
                    &final(self).graphics,
                    old(self).ctx,
                    final(self).ctx,
                    pack_event(event.index, long, shortcut),
                    r,
                )
            },
    {
        if event.index >= 8 {
            return false;
        }
        let i = event.index as usize;
        if event.pressed {
            self.pads_press_start_times.set(i, now);
            return false;
        }
        let mut custom = CustomGraphicsEvent::new().with_channel(event.index);
        let duration = elapsed(self.pads_press_start_times[i], now);
        if self.press_start_time != 0 && elapsed(self.press_start_time, now) >= LONG_PRESS_THRESHOLD_MS {
            custom.set_shortcut(true);
            self.was_shortcut = true;
        } else if duration >= LONG_PRESS_THRESHOLD_MS {
            custom.set_long_click(true);
        }
        let data: u32 = custom.bits();
        let shortcut = match self.ctx.settings.get_component("shortcuts") {
            Some(AnyComponent::Shortcuts(c)) => c.from_cevent(custom),
            _ => None,
        };
        match shortcut {
            Some(Shortcut::NavigateScreen(screen)) => {
                self.graphics.navigate(screen.as_str(), &mut self.ctx);
                true
            },
            None => self.graphics.send_custom_event(data, &mut self.ctx),
        }
    }

    /// The lines to draw: the screen shown, its first line marked as
    /// pressed while the selector button is held. Nothing while no screen
    /// is shown.
    pub fn render(&self) -> (r: Option<Vec<String>>)
        ensures
            self.graphics.current_screen is None ==> r is None,
            self.graphics.current_screen is Some ==> (r matches Some(rows) && rows@.len()
                == self.graphics.current_data().spec_rows(self.press_start_time != 0).len() && forall|
                k: int,
            |
                0 <= k < rows@.len() ==> #[trigger] rows@[k]@ == self.graphics.current_data().spec_rows(
                    self.press_start_time != 0,
                )[k]),
    {
        if self.graphics.current_screen.is_none() {
            return None;
        }
        Some(self.graphics.rows(self.press_start_time != 0))
    }

    /// What the displays are sent to show the screen: each is cleared and
    /// given the lines. Nothing while no screen is shown.
    pub fn frame(&self) -> (r: Option<Vec<LcdOp>>)
        ensures
            self.graphics.current_screen is None ==> r is None,
            self.graphics.current_screen is Some ==> (r matches Some(ops) && ops@ == frame_ops(
                self.graphics.drivers@,
                self.graphics.current_data().spec_rows(self.press_start_time != 0).map_values(
                    |c: Seq<char>| encode_utf8(c),
                ),
            )),
    {
        if self.graphics.current_screen.is_none() {
            return None;
        }
        Some(self.graphics.update(self.press_start_time != 0))
    }

    /// A pad hit from the pad scanner: the press or release for the user
    /// interface; the MIDI message, on the pad's channel, unless pad hits
    /// are kept off the output; and the LED of the pad, lit while pressed.
    pub fn handle_pad_input(&mut self, packet: PadInputEvent) -> (r: PadInputWork)
        requires
            old(self).wf(),
            packet.index < 8,
        ensures
            final(self).wf(),
            r.button == (PadButtonEvent { index: packet.index, pressed: packet.midi_type == MidiType::NoteOn }),
            old(self).ctx.pads_midi_paused ==> r.midi is None,
            !old(self).ctx.pads_midi_paused ==> (r.midi matches Some(bytes) && bytes@ == seq![
                crate::midi::midi_type_bytes(packet.midi_type).0,
                crate::midi::midi_type_bytes(packet.midi_type).1 | (packet.channel & 0x0F),
                packet.note,
                packet.velocity,
            ]),
            final(self).ctx.leds.spec_leds() == if packet.midi_type == MidiType::NoteOn {
                old(self).ctx.leds.spec_leds() | (1u8 << packet.index)
            } else {
                old(self).ctx.leds.spec_leds() & !(1u8 << packet.index)
            },
            r.leds == final(self).ctx.leds.spec_output(),
            final(self).ctx.leds.spec_seq_status() == old(self).ctx.leds.spec_seq_status(),
            final(self).ctx.leds.spec_seq_enabled() == old(self).ctx.leds.spec_seq_enabled(),
            final(self).graphics == old(self).graphics,
            final(self).ctx.sequencer == old(self).ctx.sequencer,
            final(self).ctx.settings == old(self).ctx.settings,
            final(self).ctx.navigator == old(self).ctx.navigator,
    {
        let pressed = match packet.midi_type {
            MidiType::NoteOn => true,
            MidiType::NoteOff => false,
        };
        let button = PadButtonEvent { index: packet.index, pressed };
        let midi = if self.ctx.pads_midi_paused {
            None
        } else {
            let kind: (u8, u8) = packet.midi_type.into();
            Some([kind.0, kind.1 | (packet.channel & 0x0F), packet.note, packet.velocity])
        };
        let leds = self.ctx.leds.set_led(packet.index, pressed);
        PadInputWork { button, midi, leds }
    }

    /// The sequencer task: while the sequencer is on, the start of a step
    /// sounds the triggers that start there and the end of a step silences
    /// those that end there; while it is off the message is dropped. Answers
    /// the MIDI packets to send, in order.
    pub fn handle_sequencer_message(&mut self, message: SequencerMessage) -> (r: Vec<MidiPacket>)
        requires
            old(self).wf(),
            old(self).ctx.sequencer.spec_enabled() ==> match message {
                SequencerMessage::NoteOn(step) => old(self).ctx.sequencer.spec_project() matches Some(p)
                    ==> step < 16 && p.tracks_start_playable(),
                SequencerMessage::NoteOff(step) => old(self).ctx.sequencer.spec_project() matches Some(p)
                    ==> step < 16 && p.tracks_playable() && (step == 15 ==> p.loops >= 1),
            },
        ensures
            final(self).wf(),
            final(self).graphics == old(self).graphics,
            final(self).press_start_time == old(self).press_start_time,
            final(self).was_shortcut == old(self).was_shortcut,
            final(self).pads_press_start_times == old(self).pads_press_start_times,
            final(self).ctx == (Context { sequencer: final(self).ctx.sequencer, ..old(self).ctx }),
            !old(self).ctx.sequencer.spec_enabled() ==> r@.len() == 0 && final(self).ctx.sequencer == old(self).ctx.sequencer,
            old(self).ctx.sequencer.spec_enabled() ==> match message {
                SequencerMessage::NoteOn(step) => old(self).ctx.sequencer.started_step(&final(self).ctx.sequencer, step, r@),
                SequencerMessage::NoteOff(step) => old(self).ctx.sequencer.ended_step(&final(self).ctx.sequencer, step, r@),
            },
    {
        if !self.ctx.sequencer.enabled() {
            return Vec::new();
        }
        match message {
            SequencerMessage::NoteOn(step) => self.ctx.sequencer.step_trigger_on(step),
            SequencerMessage::NoteOff(step) => self.ctx.sequencer.step_trigger_off(step),
        }
    }

    /// The settings task: a tempo change stores the configuration and puts
    /// the tempo in force; a pad change stores the pads and hands them to
    /// the pad scanner.
    pub fn handle_settings_event(&mut self, event: SettingsEvent) -> (r: SettingsWork)
        requires
            old(self).wf(),
            old(self).ctx.settings.spec_get(pads_id()) matches Some(AnyComponent::Pads(p)) ==> p.wf(),
        ensures
            final(self).wf(),
            final(self).graphics == old(self).graphics,
            final(self).ctx.sequencer == old(self).ctx.sequencer,
            final(self).ctx.navigator == old(self).ctx.navigator,
            event == SettingsEvent::ConfigBpm ==> match old(self).ctx.settings.spec_get(config_id()) {
                Some(AnyComponent::Config(c)) => {
                    &&& r matches SettingsWork::StoreConfig(d, bpm) && d == c.spec_data() && bpm
                        == c.spec_data().bpm
                    &&& final(self).ctx.settings.spec_get(config_id()) matches Some(
                        AnyComponent::Config(n),
                    ) && n.spec_bpm() == c.spec_data().bpm && n.spec_data() == c.spec_data()
                },
                _ => r is Nothing,
            },
            event == SettingsEvent::PadConfig ==> match old(self).ctx.settings.spec_get(pads_id()) {
                Some(AnyComponent::Pads(p)) => {
                    &&& r matches SettingsWork::StorePads(d, configs) && d.pads@ == p.spec_pads()
                        && configs@ == p.spec_pads()
                    &&& final(self).ctx.settings.spec_get(pads_id()) matches Some(AnyComponent::Pads(n))
                        && n.wf() && n.spec_data() == p.spec_pads() && n.spec_pads() == p.spec_pads()
                },
                _ => r is Nothing,
            },
    {
        match event {
            SettingsEvent::ConfigBpm => {
                match self.ctx.settings.take_component("config") {
                    Some(AnyComponent::Config(mut c)) => {
                        let data = c.save();
                        let bpm = c.bpm();
                        self.ctx.settings.add_component("config", AnyComponent::Config(c));
                        SettingsWork::StoreConfig(data, bpm)
                    },
                    Some(other) => {
                        self.ctx.settings.add_component("config", other);
                        SettingsWork::Nothing
                    },
                    None => SettingsWork::Nothing,
                }
            },
            SettingsEvent::PadConfig => {
                match self.ctx.settings.take_component("pads") {
                    Some(AnyComponent::Pads(mut p)) => {
                        let data = p.save();
                        let configs = p.get_configs();
                        self.ctx.settings.add_component("pads", AnyComponent::Pads(p));
                        SettingsWork::StorePads(data, configs)
                    },
                    Some(other) => {
                        self.ctx.settings.add_component("pads", other);
                        SettingsWork::Nothing
                    },
                    None => SettingsWork::Nothing,
                }
            },
        }
    }
}

} // verus!
