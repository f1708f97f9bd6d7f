use ad5328::encode::{channel_command, power_down_command, reset_command};
use ad5328::{Ad5328, Ad5328Config, Channel, ControlLine, Error, SpiWrite, BUF, GAIN, LDAC, VDD};
use std::cell::RefCell;
use std::rc::Rc;

#[derive(Debug, Clone, PartialEq)]
enum Event {
    Low,
    Write(Vec<u8>),
    High,
}

type Log = Rc<RefCell<Vec<Event>>>;

struct MockBus {
    log: Log,
    writes: usize,
    fail_on: Option<usize>,
}

impl SpiWrite for MockBus {
    type Error = u8;

    fn write(&mut self, words: &[u8]) -> Result<(), u8> {
        self.writes += 1;
        if self.fail_on == Some(self.writes) {
            return Err(7);
        }
        self.log.borrow_mut().push(Event::Write(words.to_vec()));
        Ok(())
    }
}

struct MockPin {
    log: Log,
    fail_low: bool,
}

impl ControlLine for MockPin {
    type Error = i32;

    fn set_low(&mut self) -> Result<(), i32> {
        self.log.borrow_mut().push(Event::Low);
        if self.fail_low {
            Err(-1)
        } else {
            Ok(())
        }
    }

    fn set_high(&mut self) -> Result<(), i32> {
        self.log.borrow_mut().push(Event::High);
        Ok(())
    }
}

fn mocks(fail_on: Option<usize>, fail_low: bool) -> (Log, MockBus, MockPin) {
    let log: Log = Rc::new(RefCell::new(Vec::new()));
    let bus = MockBus { log: log.clone(), writes: 0, fail_on };
    let pin = MockPin { log: log.clone(), fail_low };
    (log, bus, pin)
}

fn frame(word: u16) -> Vec<Event> {
    vec![Event::Low, Event::Write(vec![(word >> 8) as u8, (word & 0xff) as u8]), Event::High]
}

fn device() -> (Log, Ad5328<MockBus, MockPin>) {
    let (log, bus, pin) = mocks(None, false);
    let dac = Ad5328::init(bus, pin, Ad5328Config::default()).unwrap();
    log.borrow_mut().clear();
    (log, dac)
}

#[test]
fn channel_command_fields() {
    let chans = [
        Channel::A,
        Channel::B,
        Channel::C,
        Channel::D,
        Channel::E,
        Channel::F,
        Channel::G,
        Channel::H,
    ];
    for (i, c) in chans.iter().enumerate() {
        for v in [0u16, 1, 2048, 4095] {
            let w = channel_command(*c, v);
            assert_eq!(w & 0x8000, 0);
            assert_eq!((w >> 12) & 7, i as u16);
            assert_eq!(w & 0x0fff, v);
            assert_eq!(u8::from(*c), i as u8);
        }
    }
    assert_eq!(channel_command(Channel::H, 4095), 0x7fff);
    assert_eq!(channel_command(Channel::C, 0x123), 0x2123);
}

#[test]
fn set_channel_out_of_bounds_touches_nothing() {
    let (log, mut dac) = device();
    assert!(matches!(dac.set_channel(Channel::A, 4096), Err(Error::Oob)));
    assert!(matches!(dac.set_channel(Channel::H, u16::MAX), Err(Error::Oob)));
    assert!(log.borrow().is_empty());
}

#[test]
fn default_config_words() {
    let words = Ad5328Config::default().as_commands();
    assert_eq!(words, [0x8000 | 0x4 | (0x4 << 1), 0xA001]);
    assert_eq!(words, [0x800C, 0xA001]);
}

#[test]
fn config_words_each_flag() {
    let c = Ad5328Config {
        gain: (GAIN::Gain02Vref, GAIN::Gain0Vref),
        buf: (BUF::Unbuffered, BUF::Buffered),
        vdd: (VDD::VddAsRef, VDD::VddAsRef),
        ldac: LDAC::LdacSingleUpdate,
    };
    assert_eq!(c.as_commands(), [0x8000 | 0x10 | 0x8 | 0x3, 0xA002]);
    let c = Ad5328Config {
        gain: (GAIN::Gain0Vref, GAIN::Gain02Vref),
        buf: (BUF::Buffered, BUF::Unbuffered),
        vdd: (VDD::ExternalRef, VDD::VddAsRef),
        ldac: LDAC::LdacLow,
    };
    assert_eq!(c.as_commands(), [0x8000 | 0x20 | 0x4 | 0x2, 0xA000]);
}

#[test]
fn reset_words() {
    assert_eq!(reset_command(false), 0xE000);
    assert_eq!(reset_command(true), 0xF000);
}

#[test]
fn power_down_word() {
    assert_eq!(power_down_command([true, false, true, false, false, false, false, false]), 0xC005);
    assert_eq!(power_down_command([false; 8]), 0xC000);
    assert_eq!(power_down_command([true; 8]), 0xC0FF);
    assert_eq!(power_down_command([false, false, false, false, false, false, false, true]), 0xC080);
}

#[test]
fn configure_twice_same_words() {
    let (log, mut dac) = device();
    let c = Ad5328Config {
        vdd: (VDD::VddAsRef, VDD::VddAsRef),
        ..Ad5328Config::default()
    };
    dac.configure(c).unwrap();
    let first = log.borrow().clone();
    log.borrow_mut().clear();
    dac.configure(c).unwrap();
    assert_eq!(*log.borrow(), first);
    let mut expected = frame(0x800F);
    expected.extend(frame(0xA001));
    assert_eq!(first, expected);
}

#[test]
fn init_sends_both_config_words() {
    let (log, bus, pin) = mocks(None, false);
    assert!(Ad5328::init(bus, pin, Ad5328Config::default()).is_ok());
    let mut expected = frame(0x800C);
    expected.extend(frame(0xA001));
    assert_eq!(*log.borrow(), expected);
}

#[test]
fn framing_of_each_operation() {
    let (log, mut dac) = device();
    dac.set_channel(Channel::E, 0xABC).unwrap();
    assert_eq!(*log.borrow(), frame(0x4ABC));
    log.borrow_mut().clear();
    dac.reset(true).unwrap();
    assert_eq!(*log.borrow(), frame(0xF000));
    log.borrow_mut().clear();
    dac.reset(false).unwrap();
    assert_eq!(*log.borrow(), frame(0xE000));
    log.borrow_mut().clear();
    dac.power_down([true, false, true, false, false, false, false, false]).unwrap();
    assert_eq!(*log.borrow(), frame(0xC005));
}

#[test]
fn bus_failure_on_second_config_word_leaves_line_low() {
    let (log, bus, pin) = mocks(Some(2), false);
    let r = Ad5328::init(bus, pin, Ad5328Config::default());
    assert!(matches!(r, Err(Error::Spi(7))));
    let mut expected = frame(0x800C);
    expected.push(Event::Low);
    assert_eq!(*log.borrow(), expected);
}

#[test]
fn pin_failure_stops_before_the_bus() {
    let (log, bus, pin) = mocks(None, true);
    let r = Ad5328::init(bus, pin, Ad5328Config::default());
    assert!(matches!(r, Err(Error::Pin(-1))));
    assert_eq!(*log.borrow(), vec![Event::Low]);
}
