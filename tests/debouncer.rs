use debounced::{
    ActiveHigh, ActiveLow, Debounce, Debounced, Debouncer, DeinitError, InitError, InputSource,
    OriginalKuhn, PollError,
};
use std::cell::Cell;

/// An input that plays back a fixed list of readings, one per read.
struct Script {
    readings: Vec<Result<bool, u8>>,
    next: Cell<usize>,
}

impl Script {
    fn new(high: &[bool]) -> Script {
        Script { readings: high.iter().map(|h| Ok(*h)).collect(), next: Cell::new(0) }
    }

    fn with_readings(readings: Vec<Result<bool, u8>>) -> Script {
        Script { readings, next: Cell::new(0) }
    }

    fn read(&self) -> Result<bool, u8> {
        let i = self.next.get();
        assert!(i < self.readings.len(), "more reads than expected");
        self.next.set(i + 1);
        self.readings[i]
    }

    fn done(&self) {
        assert_eq!(self.next.get(), self.readings.len(), "fewer reads than expected");
    }
}

impl InputSource for Script {
    type Error = u8;

    fn is_high(&self) -> Result<bool, u8> {
        self.read()
    }

    fn is_low(&self) -> Result<bool, u8> {
        self.read().map(|h| !h)
    }
}

#[derive(Debug)]
struct Cfg;

impl Debounce for Cfg {
    const STORAGE_BITS: u32 = 8;
    const MAX_COUNT: u64 = 3;
    const INIT_HIGH: bool = false;
}

/// A count that just fits an 8-bit word after the shift by two.
#[derive(Debug)]
struct Widest;

impl Debounce for Widest {
    const STORAGE_BITS: u32 = 8;
    const MAX_COUNT: u64 = 63;
    const INIT_HIGH: bool = false;
}

/// A count one too large for an 8-bit word.
#[derive(Debug)]
struct TooWide;

impl Debounce for TooWide {
    const STORAGE_BITS: u32 = 8;
    const MAX_COUNT: u64 = 64;
    const INIT_HIGH: bool = false;
}

/// The largest count a 64-bit word takes.
#[derive(Debug)]
struct Wide64;

impl Debounce for Wide64 {
    const STORAGE_BITS: u32 = 64;
    const MAX_COUNT: u64 = (1u64 << 62) - 1;
    const INIT_HIGH: bool = true;
}

#[derive(Debug)]
struct TooWide64;

impl Debounce for TooWide64 {
    const STORAGE_BITS: u32 = 64;
    const MAX_COUNT: u64 = 1u64 << 62;
    const INIT_HIGH: bool = true;
}

fn assert_low<P, C: Debounce>(view: &Debounced<C>, engine: &Debouncer<P, C>) {
    assert_eq!(true, view.is_low(engine));
    assert_eq!(false, view.is_high(engine));
}

fn assert_high<P, C: Debounce>(view: &Debounced<C>, engine: &Debouncer<P, C>) {
    assert_eq!(false, view.is_low(engine));
    assert_eq!(true, view.is_high(engine));
}

#[test]
fn simple() {
    let pin = Script::new(&[true, true, true, false, false, false]);

    let mut debouncer: Debouncer<Script, Cfg> = Debouncer::uninit(0);
    let debounced = debouncer.init(pin).expect("debounced pin");

    assert_low(&debounced, &debouncer);
    debouncer.poll().unwrap();
    assert_low(&debounced, &debouncer);
    debouncer.poll().unwrap();
    assert_low(&debounced, &debouncer);
    debouncer.poll().unwrap();
    assert_high(&debounced, &debouncer);
    debouncer.poll().unwrap();
    assert_high(&debounced, &debouncer);
    debouncer.poll().unwrap();
    assert_high(&debounced, &debouncer);
    debouncer.poll().unwrap();
    assert_low(&debounced, &debouncer);

    let pin = debouncer.deinit(debounced).unwrap();
    pin.done();
}

#[test]
fn simple_static() {
    let pin = Script::new(&[true, true, true, false, false, false]);

    let mut debouncer: Debouncer<Script, OriginalKuhn> = Debouncer::uninit(1);
    let debounced = debouncer.init(pin).expect("debounced pin");

    assert_low(&debounced, &debouncer);
    debouncer.poll().unwrap();
    assert_low(&debounced, &debouncer);
    debouncer.poll().unwrap();
    assert_low(&debounced, &debouncer);
    debouncer.poll().unwrap();
    assert_high(&debounced, &debouncer);
    debouncer.poll().unwrap();
    assert_high(&debounced, &debouncer);
    debouncer.poll().unwrap();
    assert_high(&debounced, &debouncer);
    debouncer.poll().unwrap();
    assert_low(&debounced, &debouncer);

    let pin = debouncer.deinit(debounced).unwrap();
    pin.done();
}

#[test]
fn kuhn_scenario_with_alternating_samples() {
    let mut samples = vec![true, true, true, false, false, false];
    samples.extend_from_slice(&[true, false, true, false, true, false]);
    let pin = Script::new(&samples);

    let mut debouncer: Debouncer<Script, OriginalKuhn> = Debouncer::uninit(3);
    let debounced = debouncer.init(pin).unwrap();
    assert_low(&debounced, &debouncer);
    for _ in 0..2 {
        debouncer.poll().unwrap();
        assert_low(&debounced, &debouncer);
    }
    debouncer.poll().unwrap();
    assert_high(&debounced, &debouncer);
    for _ in 0..2 {
        debouncer.poll().unwrap();
        assert_high(&debounced, &debouncer);
    }
    debouncer.poll().unwrap();
    assert_low(&debounced, &debouncer);
    for _ in 0..6 {
        debouncer.poll().unwrap();
        assert_low(&debounced, &debouncer);
    }
    debouncer.deinit(debounced).unwrap().done();
}

#[test]
fn rises_after_exactly_max_count_samples() {
    let mut debouncer: Debouncer<Script, ActiveHigh> = Debouncer::uninit(4);
    let debounced = debouncer.init(Script::new(&[])).unwrap();
    for _ in 0..3 {
        debouncer.poll_sample(false).unwrap();
        assert_low(&debounced, &debouncer);
    }
    debouncer.poll_sample(false).unwrap();
    assert_high(&debounced, &debouncer);
}

#[test]
fn interrupted_rise_needs_net_max_count() {
    // max count 4: two rising samples, one falling, then the rise completes
    // on the third rising sample after it (net 1 + 3 = 4).
    let mut debouncer: Debouncer<Script, ActiveHigh> = Debouncer::uninit(5);
    let debounced = debouncer.init(Script::new(&[])).unwrap();
    debouncer.poll_sample(false).unwrap();
    debouncer.poll_sample(false).unwrap();
    debouncer.poll_sample(true).unwrap();
    debouncer.poll_sample(false).unwrap();
    assert_low(&debounced, &debouncer);
    debouncer.poll_sample(false).unwrap();
    assert_low(&debounced, &debouncer);
    debouncer.poll_sample(false).unwrap();
    assert_high(&debounced, &debouncer);
}

#[test]
fn integrator_saturates_at_both_ends() {
    let mut debouncer: Debouncer<Script, ActiveHigh> = Debouncer::uninit(6);
    let debounced = debouncer.init(Script::new(&[])).unwrap();
    for _ in 0..20 {
        debouncer.poll_sample(false).unwrap();
    }
    // Saturated at 4, so four falling samples bring it down, not twenty.
    for _ in 0..3 {
        debouncer.poll_sample(true).unwrap();
        assert_high(&debounced, &debouncer);
    }
    debouncer.poll_sample(true).unwrap();
    assert_low(&debounced, &debouncer);
    for _ in 0..20 {
        debouncer.poll_sample(true).unwrap();
    }
    // Empty at 0, so four rising samples bring it up.
    for _ in 0..3 {
        debouncer.poll_sample(false).unwrap();
        assert_low(&debounced, &debouncer);
    }
    debouncer.poll_sample(false).unwrap();
    assert_high(&debounced, &debouncer);
}

#[test]
fn active_low_starts_high_and_falls() {
    let mut debouncer: Debouncer<Script, ActiveLow> = Debouncer::uninit(7);
    let debounced = debouncer.init(Script::new(&[false, false, false, false])).unwrap();
    assert_high(&debounced, &debouncer);
    for _ in 0..3 {
        debouncer.poll().unwrap();
        assert_high(&debounced, &debouncer);
    }
    debouncer.poll().unwrap();
    assert_low(&debounced, &debouncer);
}

#[test]
fn release_then_init_restores_initial_state() {
    let mut debouncer: Debouncer<Script, ActiveLow> = Debouncer::uninit(8);
    let debounced = debouncer.init(Script::new(&[])).unwrap();
    for _ in 0..4 {
        debouncer.poll_sample(true).unwrap();
    }
    debouncer.poll_sample(false).unwrap();
    assert_low(&debounced, &debouncer);
    let old = debouncer.deinit(debounced).unwrap();
    old.done();

    let debounced = debouncer.init(Script::new(&[false, false, false, false])).unwrap();
    assert_high(&debounced, &debouncer);
    // The integrator is full again: a falling run of four is needed.
    for _ in 0..3 {
        debouncer.poll().unwrap();
        assert_high(&debounced, &debouncer);
    }
    debouncer.poll().unwrap();
    assert_low(&debounced, &debouncer);
}

#[test]
fn poll_before_init_fails() {
    let mut debouncer: Debouncer<Script, Cfg> = Debouncer::uninit(9);
    assert!(matches!(debouncer.poll(), Err(PollError::Init)));
    assert!(matches!(debouncer.poll_sample(false), Err(PollError::Init)));
    let pin = Script::new(&[true, true, true]);
    let debounced = debouncer.init(pin).unwrap();
    assert_low(&debounced, &debouncer);
    for _ in 0..3 {
        debouncer.poll().unwrap();
    }
    assert_high(&debounced, &debouncer);
}

#[test]
fn init_twice_fails() {
    let mut debouncer: Debouncer<Script, Cfg> = Debouncer::uninit(10);
    let debounced = debouncer.init(Script::new(&[true])).unwrap();
    assert!(matches!(debouncer.init(Script::new(&[])), Err(InitError::AlreadyInitialized)));
    // The first input is still the one sampled.
    debouncer.poll().unwrap();
    debouncer.deinit(debounced).unwrap().done();
}

#[test]
fn count_too_wide_for_storage_fails() {
    let mut debouncer: Debouncer<Script, TooWide> = Debouncer::uninit(11);
    assert!(matches!(debouncer.init(Script::new(&[])), Err(InitError::Configuration)));
    assert!(matches!(debouncer.poll(), Err(PollError::Init)));

    let mut fits: Debouncer<Script, Widest> = Debouncer::uninit(12);
    assert!(fits.init(Script::new(&[])).is_ok());

    let mut wide: Debouncer<Script, TooWide64> = Debouncer::uninit(13);
    assert!(matches!(wide.init(Script::new(&[])), Err(InitError::Configuration)));

    let mut widest: Debouncer<Script, Wide64> = Debouncer::uninit(14);
    let debounced = widest.init(Script::new(&[])).unwrap();
    assert_high(&debounced, &widest);
    widest.poll_sample(false).unwrap();
    widest.poll_sample(true).unwrap();
    assert_high(&debounced, &widest);
}

#[test]
fn read_error_keeps_state() {
    let readings = vec![Ok(true), Ok(true), Err(7), Ok(true)];
    let mut debouncer: Debouncer<Script, Cfg> = Debouncer::uninit(15);
    let debounced = debouncer.init(Script::with_readings(readings)).unwrap();
    debouncer.poll().unwrap();
    debouncer.poll().unwrap();
    assert!(matches!(debouncer.poll(), Err(PollError::Pin(7))));
    assert_low(&debounced, &debouncer);
    // Two counts were kept: one more rising sample saturates.
    debouncer.poll().unwrap();
    assert_high(&debounced, &debouncer);
    debouncer.deinit(debounced).unwrap().done();
}

#[test]
fn release_with_foreign_view_fails() {
    let mut first: Debouncer<Script, Cfg> = Debouncer::uninit(16);
    let mut second: Debouncer<Script, Cfg> = Debouncer::uninit(17);
    let first_view = first.init(Script::new(&[true])).unwrap();
    let second_view = second.init(Script::new(&[])).unwrap();
    assert!(!second_view.belongs_to(&first));
    first.poll().unwrap();

    let back = match first.deinit(second_view) {
        Err(DeinitError::Pin(v)) => v,
        _ => panic!("expected the view back"),
    };
    assert!(back.belongs_to(&second));
    // The first engine is still initialized and kept its count.
    assert!(matches!(first.init(Script::new(&[])), Err(InitError::AlreadyInitialized)));
    assert_low(&first_view, &first);
    second.deinit(back).unwrap().done();
    first.deinit(first_view).unwrap().done();
}

#[test]
fn release_before_init_fails() {
    let mut idle: Debouncer<Script, Cfg> = Debouncer::uninit(18);
    let mut other: Debouncer<Script, Cfg> = Debouncer::uninit(19);
    let view = other.init(Script::new(&[])).unwrap();
    assert!(matches!(idle.deinit(view), Err(DeinitError::Init)));
}
