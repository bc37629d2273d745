//! Tests of the display-side bookkeeping: the pixel buffer, the colour
//! providers, the program states, the text buffer, the clock arithmetic
//! and the service-manager notifications.

use ledclock::blocks::Block;
use ledclock::blocks::Clear;
use ledclock::blocks::Text;
use ledclock::blocks::TextColored;
use ledclock::blocks::XY;
use ledclock::clock::time_of_day;
use ledclock::clock::Clock;
use ledclock::clock::Timer;
use ledclock::color::ColorIter;
use ledclock::color::ColorProvider;
use ledclock::color::ConstColor;
use ledclock::color::ConstNColor;
use ledclock::color::CountMode;
use ledclock::color::Provider;
use ledclock::color::Rainbow;
use ledclock::color::RgbSetting;
use ledclock::config::Bootstate;
use ledclock::config::Command;
use ledclock::config::Font;
use ledclock::data::buffer_full_size;
use ledclock::data::Buffer;
use ledclock::data::Rgb8;
use ledclock::programs::duration_parts;
use ledclock::programs::Ascii;
use ledclock::programs::Duration;
use ledclock::programs::LedN;
use ledclock::programs::LedNState;
use ledclock::programs::RunningLight;
use ledclock::programs::RunningLightState;
use ledclock::render::Renderable;
use ledclock::stackstr::StackStr;
use ledclock::systemd::notify;
use ledclock::systemd::NotifyState;
use ledclock::systemd::ProcessState;

const RED: Rgb8 = Rgb8 { r: 100, g: 0, b: 0 };

#[test]
fn buffer_indexes_account_for_the_mirrored_wiring() {
    let mut buffer: Buffer<4, 2> = Default::default();
    // a write lands mirrored in both axes; reading mirrors only the column,
    // so the value comes back one row over
    buffer.set(1, 0, RED);
    assert_eq!(buffer.get(1, 1), RED);
    assert_eq!(buffer.get(1, 0), Rgb8 { r: 0, g: 0, b: 0 });
}

#[test]
fn buffer_full_size_multiplies_the_dimensions() {
    assert_eq!(buffer_full_size::<32, 16>(), 512);
    assert_eq!(buffer_full_size::<4, 2>(), 8);
}

#[test]
fn continuous_buffer_follows_the_mapping() {
    let mut buffer: Buffer<2, 2> = Default::default();
    buffer.set(0, 1, RED);
    // the write mirrored both axes: cell (0,1) of the write lands where a
    // read of (0,0) looks
    let mapping: [usize; 4] = [2, 3, 0, 1];
    let mut strip = vec![Rgb8 { r: 7, g: 7, b: 7 }; 4];
    buffer.render_to_continuous_buffer(&mapping, &mut strip);
    // display coordinate (0,0) is read from the mirrored column and sits
    // at strip position mapping[0]
    assert_eq!(strip[2], buffer.get(0, 0));
    assert_eq!(strip[2], RED);
    assert_eq!(strip[0], buffer.get(0, 1));
    assert_eq!(strip[3], buffer.get(1, 0));
}

#[test]
fn clear_blanks_every_pixel() {
    let mut buffer: Buffer<4, 2> = Default::default();
    buffer.set(3, 1, RED);
    Clear.render_to_buffer(&mut buffer);
    for x in 0..4 {
        for y in 0..2 {
            assert_eq!(buffer.get(x, y), Rgb8 { r: 0, g: 0, b: 0 });
        }
    }
}

#[test]
fn xy_draws_its_colour_when_dark() {
    let mut buffer: Buffer<4, 2> = Default::default();
    let mut pixel = XY::new(2, 1, RED);
    assert_eq!(pixel.color(), RED);
    pixel.set_color(Rgb8 { r: 0, g: 50, b: 0 });
    pixel.render(&mut buffer);
    assert_eq!(buffer.get(2, 0), Rgb8 { r: 0, g: 50, b: 0 });
}

#[test]
fn rgb_setting_walks_up_and_down() {
    let mut s = RgbSetting::new(0, 10, 4);
    assert!(s.is_at_min());
    s.advance();
    assert_eq!(s.current, 4);
    s.advance();
    assert_eq!(s.current, 8);
    s.advance();
    assert_eq!(s.current, 10);
    assert!(s.is_at_max());
    assert_eq!(s.count_mode, CountMode::Down);
    s.advance();
    assert_eq!(s.current, 6);
    s.advance();
    s.advance();
    assert_eq!(s.current, 0);
    assert_eq!(s.count_mode, CountMode::Up);
}

#[test]
fn count_mode_reverses() {
    let mut m = CountMode::Up;
    m.reverse();
    assert_eq!(m, CountMode::Down);
    m.reverse();
    assert_eq!(m, CountMode::Up);
}

#[test]
fn rainbow_advances_the_masked_channel_first() {
    let mut rainbow = Rainbow::new((0, 0, 0), (4, 4, 4), 2);
    let c1 = rainbow.next_color();
    assert_eq!(c1, Rgb8 { r: 2, g: 0, b: 0 });
    let c2 = rainbow.next_color();
    // the red channel reaches its bound and the mask moves on
    assert_eq!(c2, Rgb8 { r: 4, g: 0, b: 0 });
    let c3 = rainbow.next_color();
    assert_eq!(c3, Rgb8 { r: 4, g: 2, b: 0 });
}

#[test]
fn color_iter_walks_the_colour_wheel() {
    let mut iter = ColorIter::new(2, 10, 0);
    // raise green to full intensity
    assert_eq!(iter.next_color(1), Rgb8 { r: 2, g: 1, b: 0 });
    assert_eq!(iter.next_color(2), Rgb8 { r: 2, g: 2, b: 0 });
    // then drain red
    assert_eq!(iter.next_color(3), Rgb8 { r: 1, g: 2, b: 0 });
    assert_eq!(iter.next_color(4), Rgb8 { r: 0, g: 2, b: 0 });
    // red is empty: move on to raising blue
    assert_eq!(iter.next_color(5), Rgb8 { r: 0, g: 2, b: 0 });
    assert_eq!(iter.idx, 2);
    assert_eq!(iter.next_color(6), Rgb8 { r: 0, g: 2, b: 1 });
    assert_eq!(iter.last_cycle_time, 6);
    assert!(!iter.needs_cycle(15));
    assert!(iter.needs_cycle(16));
    assert_eq!(iter.get_next_cycle_time(), 16);
}

#[test]
fn color_provider_overrides_the_wheel_for_a_while() {
    let mut provider = ColorProvider::new(ColorIter::new(2, 10, 0), 0);
    assert_eq!(provider.next_color(1), Rgb8 { r: 2, g: 1, b: 0 });
    provider.set_color_for(Rgb8 { r: 9, g: 9, b: 9 }, 5, 2);
    assert_eq!(provider.next_color(3), Rgb8 { r: 9, g: 9, b: 9 });
    assert_eq!(provider.next_color(7), Rgb8 { r: 9, g: 9, b: 9 });
    // past the override's duration the wheel resumes
    assert_eq!(provider.next_color(8), Rgb8 { r: 2, g: 2, b: 0 });
}

#[test]
fn const_providers_cycle_their_palette() {
    let mut c = ConstColor::new(RED);
    assert_eq!(c.provide_next(), RED);
    assert_eq!(c.provide_next(), RED);

    let palette = [Rgb8 { r: 1, g: 0, b: 0 }, Rgb8 { r: 0, g: 1, b: 0 }];
    let mut n: ConstNColor<2> = ConstNColor::from_slice(&palette);
    assert_eq!(n.next_color(), palette[0]);
    assert_eq!(n.next_color(), palette[1]);
    assert_eq!(n.next_color(), palette[0]);

    let mut from_provider: ConstNColor<3> = ConstNColor::from_provider(ConstColor::new(RED));
    assert_eq!(from_provider.next_color(), RED);
}

#[test]
fn running_light_wraps_row_and_matrix() {
    let mut state = RunningLightState::default();
    state.tick();
    assert_eq!(state.previous, (0, 0));
    assert_eq!((state.x_offset, state.y_offset), (1, 0));

    let mut at_row_end = RunningLightState { previous: (0, 0), x_offset: 31, y_offset: 0 };
    at_row_end.tick();
    assert_eq!((at_row_end.x_offset, at_row_end.y_offset), (0, 1));

    let mut at_matrix_end = RunningLightState { previous: (0, 0), x_offset: 31, y_offset: 15 };
    at_matrix_end.tick();
    assert_eq!((at_matrix_end.x_offset, at_matrix_end.y_offset), (0, 0));
}

#[test]
fn program_constructors_keep_their_configuration() {
    let led = LedN::new(17, RED);
    assert_eq!(*led.color(), RED);
    let _state = LedNState::default();
    let _running = RunningLight::new(RED);
    let _duration = Duration::new(ConstColor::new(RED), true);
    let _ascii = Ascii::new('A');
    let _text = Text::new(b"12:34".to_vec(), (1, 1), RED);
    let _colored = TextColored::new(b"12:34".to_vec(), (5, 5), ConstColor::new(RED));
}

#[test]
fn duration_splits_into_minutes_and_seconds() {
    assert_eq!(duration_parts(125), (2, 5));
    assert_eq!(duration_parts(0), (0, 0));
    assert_eq!(duration_parts(99 * 60 + 58), (99, 58));
}

#[test]
fn time_of_day_reduces_epoch_seconds() {
    assert_eq!(time_of_day(13 * 3600 + 5 * 60 + 7), (13, 5));
    assert_eq!(time_of_day(86400 + 61), (0, 1));
    assert_eq!(time_of_day(0), (0, 0));
}

#[test]
fn clock_carries_time_forward_from_the_last_sync() {
    let mut clock = Clock::new(1000, 50);
    assert_eq!(clock.get_current_time(62), 1012);
    assert!(clock.needs_cycle(50), "the first draw is always due");
    clock.is_first_run = false;
    assert!(!clock.needs_cycle(109));
    assert!(clock.needs_cycle(110));
    assert_eq!(clock.get_next_cycle_time(), 110);
    clock.set_system_time(2000, 200);
    assert_eq!(clock.get_current_time(200), 2000);
}

#[test]
fn timer_fires_every_interval() {
    let timer = Timer::new(100, 25);
    assert!(!timer.needs_cycle(124));
    assert!(timer.needs_cycle(125));
    assert_eq!(timer.get_next_cycle_time(), 125);
}

#[test]
fn stackstr_truncates_and_reports_overflow() {
    let mut s: StackStr<5> = StackStr::new();
    assert!(s.format(b"12:34").is_ok());
    assert_eq!(s.as_bytes(), b"12:34");
    assert!(s.format(b"123456").is_err());
    assert_eq!(s.as_bytes(), b"12345");
    assert!(s.format(b"ab").is_ok());
    assert!(s.write_str(b"cd").is_ok());
    assert_eq!(s.as_bytes(), b"abcd");
    assert!(s.write_str(b"efg").is_err());
    assert_eq!(s.as_bytes(), b"abcde");
    assert_eq!(s.len(), 5);
}

#[test]
fn notifications_spell_the_protocol_lines() {
    let reporter = ProcessState::new();
    assert_eq!(reporter.set_running(), b"READY=1\n".to_vec());
    assert_eq!(reporter.set_starting(), b"STATUS=starting\n".to_vec());
    assert_eq!(reporter.set_failed(), b"STATUS=failed\nSTOPPING=1\n".to_vec());
    assert_eq!(reporter.set_cancelled(), b"ERRNO=125\n".to_vec());
    assert_eq!(reporter.set_finished(), b"STOPPING=1\n".to_vec());
    let message = notify(&vec![
        NotifyState::Watchdog,
        NotifyState::Custom(b"X=1".to_vec()),
        NotifyState::Errno(2),
    ]);
    assert_eq!(message, b"WATCHDOG=1\nX=1\nERRNO=2\n".to_vec());
}

#[test]
fn configuration_enums_carry_their_meaning() {
    assert!(Bootstate::On.into_bool());
    assert!(!Bootstate::Off.into_bool());
    assert_eq!(Font::Font5x8.glyph_width(), 5);
    assert_eq!(Font::Font6x10.glyph_width(), 6);
    assert_ne!(Command::Run, Command::VerifyConfig);
}
