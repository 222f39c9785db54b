use dcf77::DCF77Time;
use dcf77::SimpleDCF77Decoder;

/// The valid minute used by the timeframe tests, fed here as a waveform.
const VALID_MINUTE: u64 = 0x0490_CD52_5682_0000;

fn feed(d: &mut SimpleDCF77Decoder, level: bool, count: usize) {
    for _ in 0..count {
        d.read_bit(level);
    }
}

/// Feed one full 1000 ms bit slot at the 10 ms cadence: 100 ms of high
/// signal for a 0, 200 ms for a 1, low for the rest of the slot.
fn feed_bit_slot(d: &mut SimpleDCF77Decoder, value: bool) {
    if value {
        feed(d, true, 20);
        feed(d, false, 80);
    } else {
        feed(d, true, 10);
        feed(d, false, 90);
    }
}

#[test]
fn fresh_decoder_reports_nothing() {
    let d = SimpleDCF77Decoder::new();
    assert!(!d.bit_complete());
    assert!(!d.bit_faulty());
    assert!(!d.end_of_cycle());
    assert!(!d.latest_bit());
    assert_eq!(d.seconds(), 0);
    assert_eq!(d.raw_data(), 0);
}

#[test]
fn clean_zero_bit_completes_at_sample_20() {
    let mut d = SimpleDCF77Decoder::new();
    feed(&mut d, true, 10);
    feed(&mut d, false, 10);
    assert!(!d.bit_complete());
    // Sample index 20 of the slot decides the bit.
    d.read_bit(false);
    assert!(d.bit_complete());
    assert!(!d.bit_faulty());
    assert!(!d.latest_bit());
    assert_eq!(d.seconds(), 1);
    // Riding out the rest of the slot stays clean: by sample index 90 the
    // decoder is back to waiting, without a fault.
    feed(&mut d, false, 70);
    assert!(!d.bit_faulty());
    assert!(!d.bit_complete());
    assert!(!d.end_of_cycle());
    assert_eq!(d.raw_data() & 1, 0);
}

#[test]
fn clean_one_bit_decodes_as_one() {
    // The canonical 1: 200 ms of high signal filling both 100 ms windows.
    let mut d = SimpleDCF77Decoder::new();
    feed(&mut d, true, 20);
    d.read_bit(false);
    assert!(d.bit_complete());
    assert!(d.latest_bit());
    assert_eq!(d.seconds(), 1);
    feed(&mut d, false, 69);
    assert!(!d.bit_faulty());
    assert_eq!(d.raw_data() & 1, 1);
}

#[test]
fn one_window_alone_decodes_as_one() {
    // A slot whose first 100 ms window stays low after the rising edge
    // while the second window is high still counts as a 1.
    let mut d = SimpleDCF77Decoder::new();
    d.read_bit(true);
    feed(&mut d, false, 9);
    feed(&mut d, true, 10);
    d.read_bit(false);
    assert!(d.bit_complete());
    assert!(d.latest_bit());
    assert_eq!(d.raw_data() & 1, 1);
}

#[test]
fn ambiguous_slot_reports_faulty_and_resets_position() {
    // Decode one good bit first so the position is away from 0.
    let mut d = SimpleDCF77Decoder::new();
    feed_bit_slot(&mut d, true);
    assert_eq!(d.seconds(), 1);
    // A rising edge followed by silence leaves fewer than 4 high samples
    // in both 100 ms windows.
    d.read_bit(true);
    feed(&mut d, false, 20);
    assert!(d.bit_faulty());
    assert!(!d.bit_complete());
    assert_eq!(d.seconds(), 0);
}

#[test]
fn long_silence_reports_end_of_cycle_and_resets_position() {
    let mut d = SimpleDCF77Decoder::new();
    feed(&mut d, false, 181);
    assert!(!d.end_of_cycle());
    // The 182nd consecutive low sample finds the counter past 180.
    d.read_bit(false);
    assert!(d.end_of_cycle());
    assert_eq!(d.seconds(), 0);
    // The event is transient: the next sample goes back to waiting.
    d.read_bit(false);
    assert!(!d.end_of_cycle());
}

#[test]
fn full_minute_accumulates_the_whole_register() {
    let mut d = SimpleDCF77Decoder::new();
    // Silence first, so the minute starts on a detected cycle boundary.
    feed(&mut d, false, 182);
    assert!(d.end_of_cycle());
    assert_eq!(d.seconds(), 0);
    for i in 0..59 {
        feed_bit_slot(&mut d, (VALID_MINUTE >> i) & 1 == 1);
        assert!(!d.bit_faulty());
        assert_eq!(d.seconds(), i as usize + 1);
    }
    // The ~1.8 s gap in place of a 60th bit ends the cycle.
    let mut saw_end = false;
    for _ in 0..200 {
        d.read_bit(false);
        if d.end_of_cycle() {
            saw_end = true;
            break;
        }
    }
    assert!(saw_end);
    assert_eq!(d.seconds(), 0);
    assert_eq!(d.raw_data(), VALID_MINUTE);
    // The snapshot decodes to the transmitted time.
    let t = DCF77Time::new(d.raw_data());
    assert_eq!(t.minutes(), Ok(34));
    assert_eq!(t.hours(), Ok(12));
    assert_eq!(t.date(), Ok((2024, 6, 15, 3)));
}

#[test]
fn noisy_settle_window_reports_faulty() {
    let mut d = SimpleDCF77Decoder::new();
    // A clean 0 in the first two windows, then a noisy remainder with 10
    // stray high samples.
    feed(&mut d, true, 10);
    feed(&mut d, false, 11);
    assert!(d.bit_complete());
    feed(&mut d, true, 10);
    feed(&mut d, false, 60);
    assert!(d.bit_faulty());
    assert_eq!(d.seconds(), 0);
}

#[test]
fn slot_overrun_without_silence_resynchronizes() {
    // A signal that keeps sending bits with no end-of-minute gap runs the
    // position past the end of the register; the decoder treats the next
    // decided bit as faulty and starts over instead of wrapping.
    let mut d = SimpleDCF77Decoder::new();
    for _ in 0..64 {
        feed_bit_slot(&mut d, true);
        assert!(!d.bit_faulty());
    }
    assert_eq!(d.seconds(), 64);
    feed(&mut d, true, 20);
    d.read_bit(false);
    assert!(d.bit_faulty());
    assert_eq!(d.seconds(), 0);
}
