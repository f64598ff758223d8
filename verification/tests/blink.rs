use blinky::board::Board;
use blinky::clock::ClockSource;
use blinky::flash::VoltageRange;
use blinky::timer::Timer;

fn started_board() -> Board {
    let mut b = Board::power_on(VoltageRange::V2p7To3p6);
    // 84 MHz core, bus divided by 2 (timer clock 84 MHz), 1 MHz tick,
    // update event every second: the blink configuration.
    b.startup(336, 4, 2, 1_000_000, 1);
    b
}

#[test]
fn pending_clear_is_idempotent() {
    let mut t = Timer {
        clock_enabled: true,
        psc: 83,
        arr: 999_999,
        uie: true,
        cen: true,
        uif: true,
    };
    t.clear_pending();
    assert!(!t.uif);
    t.clear_pending();
    assert!(!t.uif);
    assert!(t.clock_enabled && t.uie && t.cen);
    assert_eq!(t.psc, 83);
    assert_eq!(t.arr, 999_999);
}

#[test]
fn startup_reaches_the_armed_state() {
    let b = started_board();
    assert_eq!(b.clock.sysclk_status, ClockSource::Pll);
    assert_eq!(b.clock.flash_wait_states, 2);
    assert!(b.tim.cen);
    assert!(b.tim.uie);
    assert!(b.tim_irq_unmasked);
    assert_eq!(b.tim.psc, 83);
    assert_eq!(b.tim.arr, 999_999);
    assert!(b.pin.mode_output);
}

#[test]
fn first_update_event_toggles_once_and_clears_pending() {
    let mut b = started_board();
    let before = b.pin.is_high();
    b.deliver_update_event();
    assert_eq!(b.pin.is_high(), !before);
    assert!(!b.tim.uif);
    assert_eq!(b.clock.sysclk_status, ClockSource::Pll);
}

#[test]
fn handler_clears_pending_flag_it_found_set() {
    let mut b = started_board();
    b.tim.hw_update_event();
    assert!(b.tim.uif);
    b.on_timer_update();
    assert!(!b.tim.uif);
}

#[test]
fn update_events_toggle_with_parity_of_count() {
    let mut b = started_board();
    let initial = b.pin.is_high();
    b.run_update_events(5);
    assert_eq!(b.pin.is_high(), !initial);
    b.run_update_events(4);
    assert_eq!(b.pin.is_high(), !initial);
    b.run_update_events(1);
    assert_eq!(b.pin.is_high(), initial);
    b.run_update_events(0);
    assert_eq!(b.pin.is_high(), initial);
}

#[test]
fn square_wave_alternates_every_event() {
    let mut b = started_board();
    let mut expected = b.pin.is_high();
    for _ in 0..6 {
        b.deliver_update_event();
        expected = !expected;
        assert_eq!(b.pin.is_high(), expected);
    }
}
