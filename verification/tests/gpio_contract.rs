use std::cell::Cell;
use std::rc::Rc;
use tock_rp2::capsules::test::capsule_test::CapsuleTestError;
use tock_rp2::capsules::test::gpio_contract::{GpioClause, TestGpioContract};
use tock_rp2::hil::gpio::{Configuration, InterruptEdge, InterruptPin, Pin};

/// One end of a wire shared by two pins.
struct WiredPin {
    wire: Rc<Cell<bool>>,
    config: Cell<Configuration>,
    armed: Cell<bool>,
    pending: Cell<bool>,
    /// A toggle that answers the old level instead of the new.
    toggles_wrongly: bool,
}

impl WiredPin {
    fn new(wire: &Rc<Cell<bool>>, toggles_wrongly: bool) -> Self {
        WiredPin {
            wire: wire.clone(),
            config: Cell::new(Configuration::LowPower),
            armed: Cell::new(false),
            pending: Cell::new(false),
            toggles_wrongly,
        }
    }
    fn drive(&self, level: bool) {
        self.wire.set(level);
    }
}

impl Pin for WiredPin {
    fn make_output_answers(&self, c: Configuration) -> bool {
        c == Configuration::Output
    }
    fn make_input_answers(&self, c: Configuration) -> bool {
        c == Configuration::Input
    }
    fn configuration_answers(&self, _c: Configuration) -> bool {
        true
    }
    fn toggle_answers(&self, _level: bool) -> bool {
        true
    }
    fn read_answers(&self, _level: bool) -> bool {
        true
    }
    fn make_output(&self) -> Configuration {
        self.config.set(Configuration::Output);
        Configuration::Output
    }
    fn make_input(&self) -> Configuration {
        self.config.set(Configuration::Input);
        Configuration::Input
    }
    fn configuration(&self) -> Configuration {
        self.config.get()
    }
    fn set(&self) {
        self.drive(true);
    }
    fn clear(&self) {
        self.drive(false);
    }
    fn toggle(&self) -> bool {
        let old = self.wire.get();
        self.drive(!old);
        if self.toggles_wrongly { old } else { !old }
    }
    fn read(&self) -> bool {
        self.wire.get()
    }
}

impl InterruptPin for WiredPin {
    fn pending_answers(&self, _pending: bool) -> bool {
        true
    }
    fn enable_interrupts(&self, _mode: InterruptEdge) {
        self.armed.set(true);
    }
    fn disable_interrupts(&self) {
        self.armed.set(false);
    }
    fn is_pending(&self) -> bool {
        // Rising edges are latched while armed: the wire is high now.
        self.pending.get() || (self.armed.get() && self.wire.get())
    }
}

#[test]
fn a_wired_pin_pair_keeps_every_clause() {
    let wire = Rc::new(Cell::new(false));
    let mut t = TestGpioContract::new(WiredPin::new(&wire, false), WiredPin::new(&wire, false));
    let r = t.run();
    assert!(r.checks.iter().all(|(_, ok)| *ok));
    assert_eq!(r.checks.len(), 11);
    assert_eq!(r.verdict, Ok(()));
    assert!(t.done);
    t.fired();
    assert_eq!(t.fired, 1);
}

#[test]
fn a_toggle_that_answers_the_old_level_fails_four_clauses() {
    let wire = Rc::new(Cell::new(false));
    let mut t = TestGpioContract::new(WiredPin::new(&wire, true), WiredPin::new(&wire, false));
    let r = t.run();
    let failed: Vec<GpioClause> = r.checks.iter().filter(|(_, ok)| !*ok).map(|(c, _)| *c).collect();
    assert_eq!(failed, vec![
        GpioClause::ToggleFromLowReturnsTrue,
        GpioClause::InputFollowsToggleUp,
        GpioClause::ToggleFromHighReturnsFalse,
        GpioClause::InputFollowsToggleDown,
    ]);
    assert_eq!(t.failures, 4);
    assert_eq!(r.verdict, Err(CapsuleTestError::IncorrectResult));
}
