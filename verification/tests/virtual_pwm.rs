use std::cell::RefCell;
use tock_rp2::capsules::virtual_pwm::{MuxPwm, PwmPinUser};
use tock_rp2::error_code::ErrorCode;
use tock_rp2::hil::pwm::{Pwm, PwmPin};

/// A PWM interface with two pins that records what it was asked.
struct FakePwm {
    calls: RefCell<Vec<(u8, usize, usize)>>,
}

impl Pwm for FakePwm {
    type Pin = u8;
    fn start_answers(&self, pin: &u8, _frequency_hz: usize, _duty_cycle: usize, r: Result<(), ErrorCode>) -> bool {
        r == if *pin > 1 { Err(ErrorCode::INVAL) } else { Ok(()) }
    }
    fn stop_answers(&self, pin: &u8, r: Result<(), ErrorCode>) -> bool {
        r == if *pin > 1 { Err(ErrorCode::FAIL) } else { Ok(()) }
    }
    fn spec_maximum_frequency_hz(&self) -> usize {
        125_000_000
    }
    fn spec_maximum_duty_cycle(&self) -> usize {
        65_536
    }
    fn start(&self, pin: &u8, frequency_hz: usize, duty_cycle: usize) -> Result<(), ErrorCode> {
        if *pin > 1 {
            return Err(ErrorCode::INVAL);
        }
        self.calls.borrow_mut().push((*pin, frequency_hz, duty_cycle));
        Ok(())
    }
    fn stop(&self, pin: &u8) -> Result<(), ErrorCode> {
        if *pin > 1 { Err(ErrorCode::FAIL) } else { Ok(()) }
    }
    fn get_maximum_frequency_hz(&self) -> usize {
        125_000_000
    }
    fn get_maximum_duty_cycle(&self) -> usize {
        65_536
    }
}

#[test]
fn each_user_reaches_its_own_pin_and_gets_the_answer_back() {
    let pwm = FakePwm { calls: RefCell::new(Vec::new()) };
    let mux = MuxPwm::new(&pwm);
    let a = PwmPinUser::new(&mux, 0);
    let b = PwmPinUser::new(&mux, 1);
    let bad = PwmPinUser::new(&mux, 7);
    assert_eq!(a.start(1000, 10), Ok(()));
    assert_eq!(b.start(2000, 20), Ok(()));
    assert_eq!(bad.start(3000, 30), Err(ErrorCode::INVAL));
    assert_eq!(*pwm.calls.borrow(), vec![(0, 1000, 10), (1, 2000, 20)]);
    assert_eq!(a.stop(), Ok(()));
    assert_eq!(bad.stop(), Err(ErrorCode::FAIL));
    assert_eq!(a.get_maximum_frequency_hz(), 125_000_000);
    assert_eq!(b.get_maximum_duty_cycle(), 65_536);
}
