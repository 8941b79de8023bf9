use std::collections::VecDeque;

use ps2_input::controller::{Ps2, Ps2Step};
use ps2_input::protocol::{Action, Error, Event};

/// A simulated controller with a keyboard and, optionally, a mouse.
struct Sim {
    out: VecDeque<u8>,
    self_test: u8,
    mouse: bool,
    mouse_id: u8,
    keyboard_defaults_ack: u8,
    reporting_reply: u8,
    to_mouse: bool,
    config_next: bool,
    data_next: bool,
    config: u8,
    commands: Vec<u8>,
    written: Vec<u8>,
}

impl Sim {
    fn new() -> Sim {
        Sim {
            out: VecDeque::new(),
            self_test: 0x55,
            mouse: true,
            mouse_id: 3,
            keyboard_defaults_ack: 0xFA,
            reporting_reply: 0xFA,
            to_mouse: false,
            config_next: false,
            data_next: false,
            config: 0,
            commands: Vec::new(),
            written: Vec::new(),
        }
    }

    fn perform(&mut self, a: Action) -> Event {
        match a {
            Action::ReadStatus => Event::Status(if self.out.is_empty() { 0 } else { 1 }),
            Action::Pause => Event::Done,
            Action::ReadData => Event::Data(self.out.pop_front().unwrap_or(0)),
            Action::WriteCommand(c) => {
                self.commands.push(c);
                match c {
                    0xAA => self.out.push_back(self.self_test),
                    0xD4 => self.to_mouse = true,
                    0x60 => self.config_next = true,
                    _ => {}
                }
                Event::Done
            }
            Action::WriteData(b) => {
                self.written.push(b);
                if self.config_next {
                    self.config = b;
                    self.config_next = false;
                } else if self.to_mouse {
                    self.to_mouse = false;
                    if self.mouse {
                        self.mouse_answer(b);
                    }
                } else {
                    self.keyboard_answer(b);
                }
                Event::Done
            }
        }
    }

    fn keyboard_answer(&mut self, b: u8) {
        if self.data_next {
            self.data_next = false;
            self.out.push_back(0xFA);
            return;
        }
        match b {
            0xFF => self.out.extend([0xFA, 0xAA]),
            0xF5 => self.out.push_back(self.keyboard_defaults_ack),
            0xF4 => self.out.push_back(self.reporting_reply),
            0xF0 => {
                self.out.push_back(0xFA);
                self.data_next = true;
            }
            _ => self.out.push_back(0xFA),
        }
    }

    fn mouse_answer(&mut self, b: u8) {
        if self.data_next {
            self.data_next = false;
            self.out.push_back(0xFA);
            return;
        }
        match b {
            0xFF => self.out.extend([0xFA, 0xAA, 0x00]),
            0xF2 => self.out.extend([0xFA, self.mouse_id]),
            0xF4 => self.out.push_back(self.reporting_reply),
            0xE9 => self.out.extend([0xFA, 0x00, 0x02, 0x64]),
            0xF3 | 0xE8 => {
                self.out.push_back(0xFA);
                self.data_next = true;
            }
            _ => self.out.push_back(0xFA),
        }
    }
}

fn run(sim: &mut Sim, p: &mut Ps2, first: Action) -> Result<bool, Error> {
    let mut a = first;
    loop {
        let ev = sim.perform(a);
        match p.step(ev) {
            Ps2Step::Io(next) => a = next,
            Ps2Step::Finished(r) => return r,
        }
    }
}

#[test]
fn full_bring_up_with_wheel_mouse() {
    let mut sim = Sim::new();
    let mut p = Ps2::new();
    let first = p.init();
    assert_eq!(run(&mut sim, &mut p, first), Ok(true));
    assert_eq!(sim.config, 0x47);
    assert_eq!(&sim.commands[..3], &[0xAD, 0xA7, 0x60]);
    assert_eq!(sim.written[0], 0x34);
    assert!(sim.written.ends_with(&[0xF4, 0xF4, 0x47]));
    assert!(matches!(p.step(Event::Done), Ps2Step::Finished(Ok(true))));
}

#[test]
fn full_bring_up_with_plain_mouse() {
    let mut sim = Sim::new();
    sim.mouse_id = 0;
    let mut p = Ps2::new();
    let first = p.init();
    assert_eq!(run(&mut sim, &mut p, first), Ok(false));
    assert_eq!(sim.config, 0x47);
}

#[test]
fn self_test_failure_is_an_error() {
    let mut sim = Sim::new();
    sim.self_test = 0xFC;
    let mut p = Ps2::new();
    let first = p.init();
    assert_eq!(run(&mut sim, &mut p, first), Err(Error::InitFailed));
    assert!(!sim.commands.contains(&0xAE));
}

#[test]
fn unacknowledged_keyboard_defaults_exhaust_the_retries() {
    let mut sim = Sim::new();
    sim.keyboard_defaults_ack = 0x00;
    let mut p = Ps2::new();
    let first = p.init_keyboard();
    assert_eq!(run(&mut sim, &mut p, first), Err(Error::NoMoreTries));
    assert_eq!(sim.written.iter().filter(|b| **b == 0xF5).count(), 4);
}

#[test]
fn keyboard_sequence_alone() {
    let mut sim = Sim::new();
    let mut p = Ps2::new();
    let first = p.init_keyboard();
    assert_eq!(run(&mut sim, &mut p, first), Ok(false));
    assert_eq!(sim.commands, vec![0xAE]);
    assert_eq!(sim.written, vec![0xFF, 0xF5, 0xF0, 2]);
}

#[test]
fn mouse_sequence_alone() {
    let mut sim = Sim::new();
    let mut p = Ps2::new();
    let first = p.init_mouse();
    assert_eq!(run(&mut sim, &mut p, first), Ok(true));
    assert_eq!(
        sim.written,
        vec![0xFF, 0xF6, 0xF3, 200, 0xF3, 100, 0xF3, 80, 0xF2, 0xE8, 3, 0xE6, 0xF3, 200, 0xE9]
    );
}

#[test]
fn missing_mouse_leaves_the_second_port_disabled() {
    let mut sim = Sim::new();
    sim.mouse = false;
    let mut p = Ps2::new();
    let first = p.init();
    assert_eq!(run(&mut sim, &mut p, first), Ok(false));
    assert_eq!(sim.config, 0x65);
    assert_eq!(sim.written.iter().filter(|b| **b == 0xFF).count(), 1 + 16);
}

#[test]
fn waiting_byte_source() {
    assert_eq!(Ps2::next(0x00), None);
    assert_eq!(Ps2::next(0x01), Some(true));
    assert_eq!(Ps2::next(0x21), Some(false));
    assert_eq!(Ps2::next(0x20), None);
}

#[test]
fn reporting_replies_do_not_change_the_result() {
    for reply in [0xFE, 0x00, 0xFA] {
        let mut sim = Sim::new();
        sim.reporting_reply = reply;
        let mut p = Ps2::new();
        let first = p.init();
        assert_eq!(run(&mut sim, &mut p, first), Ok(true));
        assert_eq!(sim.config, 0x47);
        assert_eq!(sim.written.iter().filter(|b| **b == 0xF4).count(), 2);
    }
}
