use led_strip::error::{esp_res, EspError, ESP_ERR_INVALID_ARG};
use led_strip::pulse::Pulse;
use led_strip::strip::{Led, LedStrip, Rgb, RmtConfig};
use led_strip::timing::Timing;

// A 40 MHz tick clock (the 80 MHz source behind a divisor of two):
// 350 ns -> 14 ticks, 1000 ns -> 40 ticks.
const CLK_40MHZ: u32 = 40_000_000;

fn bit0_at(clock_hz: u32) -> Pulse {
    Timing::calibrate(clock_hz).bit0_item()
}

fn bit1_at(clock_hz: u32) -> Pulse {
    Timing::calibrate(clock_hz).bit1_item()
}

#[test]
fn status_zero_is_ok() {
    assert!(esp_res(0).is_ok());
}

#[test]
fn status_nonzero_is_wrapped() {
    assert_eq!(esp_res(-1), Err(EspError { code: -1 }));
    assert_eq!(esp_res(261), Err(EspError { code: 261 }));
}

#[test]
fn error_keeps_its_code() {
    assert_eq!(EspError::new(-42).code, -42);
}

#[test]
fn calibration_on_nanosecond_clock_is_identity() {
    let t = Timing::calibrate(1_000_000_000);
    assert_eq!(t.t0h_ticks, 350);
    assert_eq!(t.t0l_ticks, 1000);
    assert_eq!(t.t1h_ticks, 1000);
    assert_eq!(t.t1l_ticks, 350);
}

#[test]
fn calibration_scales_with_the_clock() {
    let t = Timing::calibrate(CLK_40MHZ);
    assert_eq!(t.t0h_ticks, 14);
    assert_eq!(t.t0l_ticks, 40);
    assert_eq!(t.t1h_ticks, 40);
    assert_eq!(t.t1l_ticks, 14);

    let t = Timing::calibrate(80_000_000);
    assert_eq!(t.t0h_ticks, 28);
    assert_eq!(t.t0l_ticks, 80);
    assert_eq!(t.t1h_ticks, 80);
    assert_eq!(t.t1l_ticks, 28);
}

#[test]
fn calibration_truncates_toward_zero() {
    // 3 MHz: 350 ns is 1.05 ticks, 1000 ns is 3 ticks exactly.
    let t = Timing::calibrate(3_000_000);
    assert_eq!(t.t0h_ticks, 1);
    assert_eq!(t.t0l_ticks, 3);
    assert_eq!(t.t1h_ticks, 3);
    assert_eq!(t.t1l_ticks, 1);
}

#[test]
fn descriptor_phases_come_from_the_calibration() {
    let t = Timing::calibrate(CLK_40MHZ);
    assert_eq!(t.bit0_item(), Pulse { duration0: 14, level0: 1, duration1: 40, level1: 0 });
    assert_eq!(t.bit1_item(), Pulse { duration0: 40, level0: 1, duration1: 14, level1: 0 });
    assert_eq!(Pulse::new(14, 1, 40, 0), t.bit0_item());
}

#[test]
fn new_strip_is_dark() {
    let strip = Led::new(0, CLK_40MHZ);
    assert_eq!(strip.buffer, vec![0, 0, 0]);
    assert_eq!(strip.channel, 0);
}

#[test]
fn set_color_stores_wire_order() {
    let mut strip = Led::new(0, CLK_40MHZ);
    strip.set_color(0x10, 0x00, 0x00);
    // green first, then red, then blue
    assert_eq!(strip.buffer, vec![0x00, 0x10, 0x00]);
    strip.set_color(0x11, 0x22, 0x33);
    assert_eq!(strip.buffer, vec![0x22, 0x11, 0x33]);
    assert_eq!(strip.color(), Rgb { r: 0x11, g: 0x22, b: 0x33 });
}

#[test]
fn translator_encodes_msb_first() {
    let mut strip = Led::new(0, CLK_40MHZ);
    // wire byte 0 is green: 0b1010_0000
    strip.set_color(0x00, 0xA0, 0x00);
    let out = strip.translate(1, 8);
    assert_eq!(out.translated_size, 1);
    assert_eq!(out.item_num, 8);
    let b0 = bit0_at(CLK_40MHZ);
    let b1 = bit1_at(CLK_40MHZ);
    assert_eq!(out.items, vec![b1, b0, b1, b0, b0, b0, b0, b0]);
}

#[test]
fn translator_emits_bit1_iff_bit_set() {
    let mut strip = Led::new(0, CLK_40MHZ);
    strip.set_color(0b0110_1001, 0x00, 0x00);
    // wire byte 1 is red
    let out = strip.translate(3, 24);
    let b0 = bit0_at(CLK_40MHZ);
    let b1 = bit1_at(CLK_40MHZ);
    let red_bits = [false, true, true, false, true, false, false, true];
    for (i, set) in red_bits.iter().enumerate() {
        let expected = if *set { b1 } else { b0 };
        assert_eq!(out.items[8 + i], expected);
    }
}

#[test]
fn translator_consumes_whole_buffer_when_room() {
    let mut strip = Led::new(0, CLK_40MHZ);
    strip.set_color(1, 2, 3);
    let out = strip.translate(3, 24);
    assert_eq!(out.translated_size, 3);
    assert_eq!(out.item_num, 24);
    assert_eq!(out.items.len(), 24);

    let out = strip.translate(3, 1000);
    assert_eq!(out.translated_size, 3);
    assert_eq!(out.item_num, 24);
}

#[test]
fn translator_stops_at_wanted_num() {
    let mut strip = Led::new(0, CLK_40MHZ);
    strip.set_color(1, 2, 3);
    // 23 descriptors fit only two whole bytes
    let out = strip.translate(3, 23);
    assert_eq!(out.translated_size, 2);
    assert_eq!(out.item_num, 16);
    assert!(out.item_num <= 23);

    // fewer than one byte's worth: nothing is consumed
    let out = strip.translate(3, 7);
    assert_eq!(out.translated_size, 0);
    assert_eq!(out.item_num, 0);
    assert!(out.items.is_empty());
}

#[test]
fn translator_honors_src_size() {
    let strip = Led::new(0, CLK_40MHZ);
    let out = strip.translate(2, 1000);
    assert_eq!(out.translated_size, 2);
    assert_eq!(out.item_num, 16);
}

#[test]
fn translator_is_bounded_by_the_buffer() {
    let strip = Led::new(0, CLK_40MHZ);
    // the driver offering more bytes than the buffer holds must not
    // read past it
    let out = strip.translate(100, 1000);
    assert_eq!(out.translated_size, 3);
    assert_eq!(out.item_num, 24);
}

#[test]
fn multi_pixel_strip_translates_every_pixel() {
    let strip: LedStrip<2> = LedStrip::new(1, CLK_40MHZ);
    assert_eq!(strip.buffer.len(), 6);
    let out = strip.translate(6, 48);
    assert_eq!(out.translated_size, 6);
    assert_eq!(out.item_num, 48);
    // all-zero pixels: every descriptor is the bit0 descriptor
    let b0 = bit0_at(CLK_40MHZ);
    assert!(out.items.iter().all(|p| *p == b0));
}

#[test]
fn fade_last_step_is_exact() {
    assert_eq!(led_strip::strip::fade_step_value(7, 200, 10, 10), 200);
    assert_eq!(led_strip::strip::fade_step_value(7, 200, 0, 10), 7);
    assert_eq!(led_strip::strip::fade_step_value(255, 0, 4, 4), 0);
    assert_eq!(led_strip::strip::fade_step_value(0, 255, 1, 1), 255);
}

#[test]
fn fade_interpolates_between_ends() {
    // from 0 to 10 in 5 steps: 2, 4, 6, 8, 10
    for step in 1..=5u32 {
        assert_eq!(led_strip::strip::fade_step_value(0, 10, step, 5), (2 * step) as u8);
    }
}

#[test]
fn fade_plan_steps_through_red() {
    let strip = Led::new(0, CLK_40MHZ);
    let plan = strip.fade_to(5, 0, 0, 5).unwrap();
    let reds: Vec<u8> = plan.iter().map(|c| c.r).collect();
    assert_eq!(reds, vec![1, 2, 3, 4, 5]);
    assert!(plan.iter().all(|c| c.g == 0 && c.b == 0));
}

#[test]
fn fade_plan_ends_on_the_target() {
    let mut strip = Led::new(0, CLK_40MHZ);
    strip.set_color(200, 100, 50);
    let plan = strip.fade_to(3, 7, 9, 13).unwrap();
    assert_eq!(plan.len(), 13);
    assert_eq!(plan[12], Rgb { r: 3, g: 7, b: 9 });
}

#[test]
fn fade_of_zero_steps_is_rejected() {
    let strip = Led::new(0, CLK_40MHZ);
    let r = strip.fade_to(1, 2, 3, 0);
    assert_eq!(r.unwrap_err(), EspError { code: ESP_ERR_INVALID_ARG });
}

#[test]
fn config_carries_the_fixed_constants() {
    let c = RmtConfig::transmit(0, 8);
    assert_eq!(c.channel, 0);
    assert_eq!(c.gpio_num, 8);
    assert_eq!(c.clk_div, 2);
    assert_eq!(c.mem_block_num, 1);
    assert_eq!(c.flags, 0);
    assert_eq!(c.carrier_freq_hz, 38000);
    assert!(c.carrier_level_high);
    assert!(c.idle_level_low);
    assert_eq!(c.carrier_duty_percent, 33);
    assert!(!c.carrier_en);
    assert!(!c.loop_en);
    assert!(c.idle_output_en);
    assert_eq!(c.loop_count, 0);
}
