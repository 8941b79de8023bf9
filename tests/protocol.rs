use ps2_input::protocol::{
    Action, Error, Event, ExKind, Exchange, OpStep, Poll, Retry, RetryStep, Waiter, Want, RETRIES,
    WAIT_BUDGET,
};

#[test]
fn readable_wait_times_out_after_the_budget() {
    let mut w = Waiter::new(Want::Readable);
    let mut polls: u32 = 0;
    loop {
        polls += 1;
        match w.on_status(0) {
            Poll::Pause => continue,
            Poll::TimedOut => break,
            Poll::Ready => panic!("status never showed a byte"),
        }
    }
    assert_eq!(polls, WAIT_BUDGET);
}

#[test]
fn writable_wait_times_out_while_input_stays_full() {
    let mut w = Waiter::new(Want::Writable);
    let mut polls: u32 = 0;
    while w.on_status(0x02) == Poll::Pause {
        polls += 1;
    }
    assert_eq!(polls + 1, WAIT_BUDGET);
    assert_eq!(w.remaining, 0);
}

#[test]
fn wait_succeeds_at_once_when_ready() {
    let mut w = Waiter::new(Want::Readable);
    for _ in 0..5 {
        assert_eq!(w.on_status(0x02), Poll::Pause);
    }
    assert_eq!(w.on_status(0x01), Poll::Ready);
    assert_eq!(w.remaining, WAIT_BUDGET - 5);
    let mut w = Waiter::new(Want::Writable);
    assert_eq!(w.on_status(0x01), Poll::Ready);
    assert_eq!(w.remaining, WAIT_BUDGET);
}

#[test]
fn retry_gives_up_after_exactly_the_limit() {
    let mut r = Retry::new(RETRIES);
    let mut calls = 0;
    let mut last = RetryStep::Again;
    while r.can_try() {
        calls += 1;
        last = r.on_outcome(Err(Error::ReadTimeout));
        if last != RetryStep::Again {
            break;
        }
    }
    assert_eq!(last, RetryStep::GiveUp);
    assert_eq!(calls, 4);
}

#[test]
fn retry_returns_first_success() {
    let outcomes = [Err(Error::CommandRetry), Err(Error::WriteTimeout), Ok(0xFA), Ok(0x11)];
    let mut r = Retry::new(RETRIES);
    let mut calls = 0;
    let mut result = None;
    for o in outcomes {
        calls += 1;
        match r.on_outcome(o) {
            RetryStep::Return(v) => {
                result = Some(v);
                break;
            }
            RetryStep::Again => {}
            RetryStep::GiveUp => break,
        }
    }
    assert_eq!(result, Some(0xFA));
    assert_eq!(calls, 3);
}

#[test]
fn retry_with_no_attempts_calls_nothing() {
    let r = Retry::new(0);
    assert!(!r.can_try());
}

#[test]
fn keyboard_data_byte_write_timeout_is_not_ignored() {
    // The keyboard acknowledges the command byte, then the input buffer stays
    // full, so every data-byte write (and later command write) times out.
    let mut ex = Exchange::start(ExKind::KeyboardData(0xF0, 2), true);
    let mut reply: Option<u8> = None;
    let mut jammed = false;
    let mut command_writes = 0;
    let mut action = Action::ReadStatus;
    let result = loop {
        let ev = match action {
            Action::ReadStatus => Event::Status(if jammed {
                0x02
            } else if reply.is_some() {
                0x01
            } else {
                0x00
            }),
            Action::ReadData => {
                let b = reply.take().unwrap_or(0);
                jammed = true;
                Event::Data(b)
            }
            Action::WriteData(b) => {
                assert_eq!(b, 0xF0);
                command_writes += 1;
                reply = Some(0xFA);
                Event::Done
            }
            Action::Pause | Action::WriteCommand(_) => Event::Done,
        };
        match ex.step(ev) {
            OpStep::Io(a) => action = a,
            OpStep::Done(r) => break r,
        }
    };
    assert_eq!(result, Err(Error::NoMoreTries));
    assert_eq!(command_writes, 1);
}

#[test]
fn acknowledged_data_command_returns_the_data_reply() {
    let mut ex = Exchange::start(ExKind::KeyboardData(0xF0, 2), true);
    let mut out: Vec<u8> = Vec::new();
    let mut written: Vec<u8> = Vec::new();
    let mut action = Action::ReadStatus;
    let result = loop {
        let ev = match action {
            Action::ReadStatus => Event::Status(if out.is_empty() { 0 } else { 1 }),
            Action::ReadData => Event::Data(out.remove(0)),
            Action::WriteData(b) => {
                written.push(b);
                out.push(if b == 0xF0 { 0xFA } else { 0x42 });
                Event::Done
            }
            Action::Pause | Action::WriteCommand(_) => Event::Done,
        };
        match ex.step(ev) {
            OpStep::Io(a) => action = a,
            OpStep::Done(r) => break r,
        }
    };
    assert_eq!(result, Ok(0x42));
    assert_eq!(written, vec![0xF0, 2]);
}
