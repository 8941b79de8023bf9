//! Bring-up of the controller, the keyboard and the mouse, as a step machine.
//!
//! [`Ps2`] runs a fixed sequence of stages. Each stage is one exchange of the
//! protocol; when it ends, a transition table picks the next stage from its
//! outcome. The caller performs each [`Action`] the machine hands out and
//! answers with the [`Event`] it observed.

use vstd::prelude::*;
use crate::flags::{
    has_bits, quiet_config, quiet_config_flags, running_config, running_config_flags, StatusFlags,
    OUTPUT_FULL, SECOND_OUTPUT_FULL,
};
use crate::protocol::{
    answers, ex_op, last_pc, ex_measure, ex_measure_bound, ex_transition, lemma_ex_bounded, lemma_ex_progress, lemma_ex_wf,
    new_exchange, op_pending, retry_step, Action, Error, Event, ExKind, Exchange, OpKind,
    OpStep, Retry, RetryStep, ACK, RETRIES,
};

verus! {

/// Controller command: disable the second port.
pub const DISABLE_SECOND: u8 = 0xA7;
/// Controller command: enable the second port.
pub const ENABLE_SECOND: u8 = 0xA8;
/// Controller command: self test.
pub const TEST_CONTROLLER: u8 = 0xAA;
/// Controller command: disable the first port.
pub const DISABLE_FIRST: u8 = 0xAD;
/// Controller command: enable the first port.
pub const ENABLE_FIRST: u8 = 0xAE;
/// Device command: enable data reporting.
pub const ENABLE_REPORTING: u8 = 0xF4;
/// Device command: set defaults and disable scanning.
pub const SET_DEFAULTS_DISABLE: u8 = 0xF5;
/// Device command: set defaults.
pub const SET_DEFAULTS: u8 = 0xF6;
/// Device command: reset and self test.
pub const DEVICE_RESET: u8 = 0xFF;
/// Keyboard command with data: select the scancode set.
pub const SCANCODE_SET: u8 = 0xF0;
/// Mouse command: 1:1 scaling.
pub const SET_SCALING_1_TO_1: u8 = 0xE6;
/// Mouse command: status request.
pub const STATUS_REQUEST: u8 = 0xE9;
/// Mouse command: get device id.
pub const GET_DEVICE_ID: u8 = 0xF2;
/// Mouse command with data: resolution.
pub const SET_RESOLUTION: u8 = 0xE8;
/// Mouse command with data: sample rate.
pub const SET_SAMPLE_RATE: u8 = 0xF3;
/// The controller's answer to a passed self test.
pub const SELF_TEST_PASSED: u8 = 0x55;
/// A device's answer to a passed self test.
pub const SELF_TEST_OK: u8 = 0xAA;
/// The mouse id that reports the extra packet byte.
pub const EXTRA_PACKET_ID: u8 = 3;

/// The stages of bring-up, in order.
#[derive(Clone, Copy, Debug, PartialEq, Eq, Structural)]
pub enum Stage {
    /// Drop stray bytes.
    InitFlush,
    /// Disable the first port.
    DisableFirst,
    /// Disable the second port.
    DisableSecond,
    DisableFlush,
    /// Write the quiet configuration blind, without reading the old one.
    QuietConfig,
    QuietFlush,
    /// Ask the controller to test itself.
    SelfTest,
    /// Its answer, which must be `0x55`.
    SelfTestResult,
    SelfTestFlush,
    /// Enable the first port.
    KeyboardEnable,
    KeyboardEnableFlush,
    /// Reset the keyboard.
    KeyboardReset,
    /// Its self-test byte, `0xAA` when it passed; not required.
    KeyboardResetResult,
    KeyboardResetFlush,
    /// First step of the retried defaults block.
    KeyboardDefaultsFlushBefore,
    /// Set defaults and disable scanning; must be acknowledged.
    KeyboardDefaults,
    KeyboardDefaultsFlushAfter,
    /// Select scancode set 2.
    KeyboardScancodeSet,
    KeyboardScancodeFlush,
    /// Enable the second port.
    MouseEnable,
    MouseEnableFlush,
    /// First step of the retried reset block.
    MouseResetFlushBefore,
    /// Reset the mouse; must be acknowledged.
    MouseReset,
    /// Its self-test byte, which must be `0xAA`.
    MouseResetResult,
    /// Its id byte, which must be `0x00`.
    MouseResetId,
    MouseResetFlushAfter,
    /// Set defaults.
    MouseDefaults,
    MouseDefaultsFlush,
    /// First step of the extra-packet unlock.
    MouseRate200,
    MouseRate100,
    MouseRate80,
    MouseRatesFlush,
    /// Probe the device id.
    MouseDeviceId,
    /// The id; `3` means the extra packet byte is on.
    MouseDeviceIdResult,
    MouseDeviceIdFlush,
    /// Set the highest resolution.
    MouseResolution,
    MouseResolutionFlush,
    /// Set 1:1 scaling.
    MouseScaling,
    MouseScalingFlush,
    /// Set the highest sample rate.
    MouseSampleRate,
    MouseSampleRateFlush,
    /// Request the status, three bytes once acknowledged.
    MouseStatus,
    MouseStatus1,
    MouseStatus2,
    MouseStatus3,
    /// Turn keyboard reporting on with a single write. Scanning is live from
    /// then on, so the reply is left unread: it would compete with key data.
    KeyboardReporting,
    /// Turn mouse reporting on with a single write, its reply left unread.
    MouseReporting,
    /// Write the running configuration.
    RunningConfig,
    FinalFlush,
}

/// Which sequence a machine runs.
#[derive(Clone, Copy, Debug, PartialEq, Eq, Structural)]
pub enum Scope {
    /// Controller, keyboard, mouse and the running configuration.
    Full,
    /// The keyboard sequence alone.
    Keyboard,
    /// The mouse sequence alone; its result says whether the extra packet byte is on.
    Mouse,
}

/// What bring-up has learned so far.
#[derive(Clone, Copy, Debug, PartialEq, Eq, Structural)]
pub struct Ctx {
    pub scope: Scope,
    pub mouse_found: bool,
    pub mouse_extra: bool,
    /// Attempts of the retried block that is running.
    pub block: Retry,
}

/// Where bring-up goes after a stage.
#[derive(Clone, Copy, Debug)]
pub enum Flow {
    Goto(Stage),
    Finish(Result<bool, Error>),
}

/// The exchange of a stage, and whether it is retried.
pub open spec fn stage_exchange(stage: Stage, mouse_found: bool) -> (ExKind, bool) {
    match stage {
        Stage::InitFlush => (ExKind::Flush, false),
        Stage::DisableFirst => (ExKind::Controller(DISABLE_FIRST), false),
        Stage::DisableSecond => (ExKind::Controller(DISABLE_SECOND), false),
        Stage::DisableFlush => (ExKind::Flush, false),
        Stage::QuietConfig => (ExKind::SetConfig(quiet_config()), true),
        Stage::QuietFlush => (ExKind::Flush, false),
        Stage::SelfTest => (ExKind::Controller(TEST_CONTROLLER), false),
        Stage::SelfTestResult => (ExKind::ReadByte, false),
        Stage::SelfTestFlush => (ExKind::Flush, false),
        Stage::KeyboardEnable => (ExKind::Controller(ENABLE_FIRST), false),
        Stage::KeyboardEnableFlush => (ExKind::Flush, false),
        Stage::KeyboardReset => (ExKind::Keyboard(DEVICE_RESET), true),
        Stage::KeyboardResetResult => (ExKind::ReadByte, false),
        Stage::KeyboardResetFlush => (ExKind::Flush, false),
        Stage::KeyboardDefaultsFlushBefore => (ExKind::Flush, false),
        Stage::KeyboardDefaults => (ExKind::Keyboard(SET_DEFAULTS_DISABLE), true),
        Stage::KeyboardDefaultsFlushAfter => (ExKind::Flush, false),
        Stage::KeyboardScancodeSet => (ExKind::KeyboardData(SCANCODE_SET, 2), true),
        Stage::KeyboardScancodeFlush => (ExKind::Flush, false),
        Stage::MouseEnable => (ExKind::Controller(ENABLE_SECOND), false),
        Stage::MouseEnableFlush => (ExKind::Flush, false),
        Stage::MouseResetFlushBefore => (ExKind::Flush, false),
        Stage::MouseReset => (ExKind::Mouse(DEVICE_RESET), true),
        Stage::MouseResetResult => (ExKind::ReadByte, false),
        Stage::MouseResetId => (ExKind::ReadByte, false),
        Stage::MouseResetFlushAfter => (ExKind::Flush, false),
        Stage::MouseDefaults => (ExKind::Mouse(SET_DEFAULTS), true),
        Stage::MouseDefaultsFlush => (ExKind::Flush, false),
        Stage::MouseRate200 => (ExKind::MouseData(SET_SAMPLE_RATE, 200), true),
        Stage::MouseRate100 => (ExKind::MouseData(SET_SAMPLE_RATE, 100), true),
        Stage::MouseRate80 => (ExKind::MouseData(SET_SAMPLE_RATE, 80), true),
        Stage::MouseRatesFlush => (ExKind::Flush, false),
        Stage::MouseDeviceId => (ExKind::Mouse(GET_DEVICE_ID), true),
        Stage::MouseDeviceIdResult => (ExKind::ReadByte, false),
        Stage::MouseDeviceIdFlush => (ExKind::Flush, false),
        Stage::MouseResolution => (ExKind::MouseData(SET_RESOLUTION, 3), true),
        Stage::MouseResolutionFlush => (ExKind::Flush, false),
        Stage::MouseScaling => (ExKind::Mouse(SET_SCALING_1_TO_1), true),
        Stage::MouseScalingFlush => (ExKind::Flush, false),
        Stage::MouseSampleRate => (ExKind::MouseData(SET_SAMPLE_RATE, 200), true),
        Stage::MouseSampleRateFlush => (ExKind::Flush, false),
        Stage::MouseStatus => (ExKind::Mouse(STATUS_REQUEST), true),
        Stage::MouseStatus1 => (ExKind::ReadByte, false),
        Stage::MouseStatus2 => (ExKind::ReadByte, false),
        Stage::MouseStatus3 => (ExKind::ReadByte, false),
        Stage::KeyboardReporting => (ExKind::KeyboardSend(ENABLE_REPORTING), false),
        Stage::MouseReporting => (ExKind::MouseSend(ENABLE_REPORTING), false),
        Stage::RunningConfig => (ExKind::SetConfig(running_config(mouse_found)), true),
        Stage::FinalFlush => (ExKind::Flush, false),
    }
}

/// The stages of the two retried blocks.
pub open spec fn in_block(stage: Stage) -> bool {
    match stage {
        Stage::KeyboardDefaultsFlushBefore | Stage::KeyboardDefaults
        | Stage::KeyboardDefaultsFlushAfter | Stage::MouseResetFlushBefore | Stage::MouseReset
        | Stage::MouseResetResult | Stage::MouseResetId | Stage::MouseResetFlushAfter => true,
        _ => false,
    }
}

/// A stage whose failure ends bring-up with that error.
pub open spec fn req(r: Result<u8, Error>, next: Stage, ctx: Ctx) -> (Flow, Ctx) {
    match r {
        Err(e) => (Flow::Finish(Err(e)), ctx),
        Ok(_) => (Flow::Goto(next), ctx),
    }
}

/// The mouse sequence failed: the mouse counts as absent and bring-up goes
/// on, unless the mouse sequence runs alone.
pub open spec fn mouse_failed(e: Error, ctx: Ctx) -> (Flow, Ctx) {
    if ctx.scope == Scope::Mouse {
        (Flow::Finish(Err(e)), ctx)
    } else {
        (Flow::Goto(Stage::KeyboardReporting), Ctx { mouse_found: false, mouse_extra: false, ..ctx })
    }
}

/// The mouse sequence ended well.
pub open spec fn mouse_succeeded(ctx: Ctx) -> (Flow, Ctx) {
    if ctx.scope == Scope::Mouse {
        (Flow::Finish(Ok(ctx.mouse_extra)), ctx)
    } else {
        (Flow::Goto(Stage::KeyboardReporting), Ctx { mouse_found: true, ..ctx })
    }
}

/// A stage of the mouse sequence whose failure ends that sequence.
pub open spec fn mouse_req(r: Result<u8, Error>, next: Stage, ctx: Ctx) -> (Flow, Ctx) {
    match r {
        Err(e) => mouse_failed(e, ctx),
        Ok(_) => (Flow::Goto(next), ctx),
    }
}

/// Entering a retried block, with no attempt made.
pub open spec fn enter_block(first: Stage, ctx: Ctx) -> (Flow, Ctx) {
    (Flow::Goto(first), Ctx { block: Retry { attempts: 0, limit: RETRIES }, ..ctx })
}

/// An attempt of a retried block failed: run it again from its first stage,
/// or, the attempts spent, fail with `NoMoreTries`.
pub open spec fn block_failed(e: Error, ctx: Ctx, keyboard: bool) -> (Flow, Ctx) {
    let (rs, made) = retry_step(ctx.block.attempts, ctx.block.limit, Err(e));
    let ctx2 = Ctx { block: Retry { attempts: made, ..ctx.block }, ..ctx };
    if rs == RetryStep::Again {
        if keyboard {
            (Flow::Goto(Stage::KeyboardDefaultsFlushBefore), ctx2)
        } else {
            (Flow::Goto(Stage::MouseResetFlushBefore), ctx2)
        }
    } else if keyboard {
        (Flow::Finish(Err(Error::NoMoreTries)), ctx2)
    } else {
        mouse_failed(Error::NoMoreTries, ctx2)
    }
}

/// The transition table: where bring-up goes when the exchange of `stage`
/// ends with `r`.
pub open spec fn advance(stage: Stage, r: Result<u8, Error>, ctx: Ctx) -> (Flow, Ctx) {
    match stage {
        Stage::InitFlush => req(r, Stage::DisableFirst, ctx),
        Stage::DisableFirst => req(r, Stage::DisableSecond, ctx),
        Stage::DisableSecond => req(r, Stage::DisableFlush, ctx),
        Stage::DisableFlush => req(r, Stage::QuietConfig, ctx),
        Stage::QuietConfig => req(r, Stage::QuietFlush, ctx),
        Stage::QuietFlush => req(r, Stage::SelfTest, ctx),
        Stage::SelfTest => req(r, Stage::SelfTestResult, ctx),
        Stage::SelfTestResult => match r {
                Err(e) => (Flow::Finish(Err(e)), ctx),
                Ok(b) => if b == SELF_TEST_PASSED {
                    (Flow::Goto(Stage::SelfTestFlush), ctx)
                } else {
                    (Flow::Finish(Err(Error::InitFailed)), ctx)
                },
            },
        Stage::SelfTestFlush => req(r, Stage::KeyboardEnable, ctx),
        Stage::KeyboardEnable => req(r, Stage::KeyboardEnableFlush, ctx),
        Stage::KeyboardEnableFlush => req(r, Stage::KeyboardReset, ctx),
        Stage::KeyboardReset => match r {
                Err(e) => (Flow::Finish(Err(e)), ctx),
                Ok(b) => if b == ACK {
                    (Flow::Goto(Stage::KeyboardResetResult), ctx)
                } else {
                    (Flow::Goto(Stage::KeyboardResetFlush), ctx)
                },
            },
        Stage::KeyboardResetResult => (Flow::Goto(Stage::KeyboardResetFlush), ctx),
        Stage::KeyboardResetFlush => match r {
                Err(e) => (Flow::Finish(Err(e)), ctx),
                Ok(_) => enter_block(Stage::KeyboardDefaultsFlushBefore, ctx),
            },
        Stage::KeyboardDefaultsFlushBefore => match r {
                Err(e) => block_failed(e, ctx, true),
                Ok(_) => (Flow::Goto(Stage::KeyboardDefaults), ctx),
            },
        Stage::KeyboardDefaults => match r {
                Err(e) => block_failed(e, ctx, true),
                Ok(b) => if b == ACK {
                    (Flow::Goto(Stage::KeyboardDefaultsFlushAfter), ctx)
                } else {
                    block_failed(Error::CommandRetry, ctx, true)
                },
            },
        Stage::KeyboardDefaultsFlushAfter => match r {
                Err(e) => block_failed(e, ctx, true),
                Ok(_) => (Flow::Goto(Stage::KeyboardScancodeSet), ctx),
            },
        Stage::KeyboardScancodeSet => req(r, Stage::KeyboardScancodeFlush, ctx),
        Stage::KeyboardScancodeFlush => match r {
                Err(e) => (Flow::Finish(Err(e)), ctx),
                Ok(_) => if ctx.scope == Scope::Keyboard {
                    (Flow::Finish(Ok(false)), ctx)
                } else {
                    (Flow::Goto(Stage::MouseEnable), ctx)
                },
            },
        Stage::MouseEnable => mouse_req(r, Stage::MouseEnableFlush, ctx),
        Stage::MouseEnableFlush => match r {
                Err(e) => mouse_failed(e, ctx),
                Ok(_) => enter_block(Stage::MouseResetFlushBefore, ctx),
            },
        Stage::MouseResetFlushBefore => match r {
                Err(e) => block_failed(e, ctx, false),
                Ok(_) => (Flow::Goto(Stage::MouseReset), ctx),
            },
        Stage::MouseReset => match r {
                Err(e) => block_failed(e, ctx, false),
                Ok(b) => if b == ACK {
                    (Flow::Goto(Stage::MouseResetResult), ctx)
                } else {
                    block_failed(Error::CommandRetry, ctx, false)
                },
            },
        Stage::MouseResetResult => match r {
                Err(e) => block_failed(e, ctx, false),
                Ok(b) => if b == SELF_TEST_OK {
                    (Flow::Goto(Stage::MouseResetId), ctx)
                } else {
                    block_failed(Error::CommandRetry, ctx, false)
                },
            },
        Stage::MouseResetId => match r {
                Err(e) => block_failed(e, ctx, false),
                Ok(b) => if b == 0 {
                    (Flow::Goto(Stage::MouseResetFlushAfter), ctx)
                } else {
                    block_failed(Error::CommandRetry, ctx, false)
                },
            },
        Stage::MouseResetFlushAfter => match r {
                Err(e) => block_failed(e, ctx, false),
                Ok(_) => (Flow::Goto(Stage::MouseDefaults), ctx),
            },
        Stage::MouseDefaults => mouse_req(r, Stage::MouseDefaultsFlush, ctx),
        Stage::MouseDefaultsFlush => mouse_req(r, Stage::MouseRate200, ctx),
        Stage::MouseRate200 => match r {
                Err(e) => mouse_failed(e, ctx),
                Ok(b) => if b == ACK {
                    (Flow::Goto(Stage::MouseRate100), ctx)
                } else {
                    (Flow::Goto(Stage::MouseRatesFlush), ctx)
                },
            },
        Stage::MouseRate100 => match r {
                Err(e) => mouse_failed(e, ctx),
                Ok(b) => if b == ACK {
                    (Flow::Goto(Stage::MouseRate80), ctx)
                } else {
                    (Flow::Goto(Stage::MouseRatesFlush), ctx)
                },
            },
        Stage::MouseRate80 => mouse_req(r, Stage::MouseRatesFlush, ctx),
        Stage::MouseRatesFlush => mouse_req(r, Stage::MouseDeviceId, ctx),
        Stage::MouseDeviceId => match r {
                Err(e) => mouse_failed(e, ctx),
                Ok(b) => if b == ACK {
                    (Flow::Goto(Stage::MouseDeviceIdResult), ctx)
                } else {
                    (Flow::Goto(Stage::MouseDeviceIdFlush), Ctx { mouse_extra: false, ..ctx })
                },
            },
        Stage::MouseDeviceIdResult => match r {
                Err(e) => mouse_failed(e, ctx),
                Ok(b) => (Flow::Goto(Stage::MouseDeviceIdFlush), Ctx { mouse_extra: b == EXTRA_PACKET_ID, ..ctx }),
            },
        Stage::MouseDeviceIdFlush => mouse_req(r, Stage::MouseResolution, ctx),
        Stage::MouseResolution => mouse_req(r, Stage::MouseResolutionFlush, ctx),
        Stage::MouseResolutionFlush => mouse_req(r, Stage::MouseScaling, ctx),
        Stage::MouseScaling => mouse_req(r, Stage::MouseScalingFlush, ctx),
        Stage::MouseScalingFlush => mouse_req(r, Stage::MouseSampleRate, ctx),
        Stage::MouseSampleRate => mouse_req(r, Stage::MouseSampleRateFlush, ctx),
        Stage::MouseSampleRateFlush => mouse_req(r, Stage::MouseStatus, ctx),
        Stage::MouseStatus => match r {
                Err(e) => mouse_failed(e, ctx),
                Ok(b) => if b == ACK {
                    (Flow::Goto(Stage::MouseStatus1), ctx)
                } else {
                    mouse_succeeded(ctx)
                },
            },
        Stage::MouseStatus1 => mouse_req(r, Stage::MouseStatus2, ctx),
        Stage::MouseStatus2 => mouse_req(r, Stage::MouseStatus3, ctx),
        Stage::MouseStatus3 => match r {
                Err(e) => mouse_failed(e, ctx),
                Ok(_) => mouse_succeeded(ctx),
            },
        Stage::KeyboardReporting => match r {
                Err(e) => (Flow::Finish(Err(e)), ctx),
                Ok(_) => if ctx.mouse_found {
                    (Flow::Goto(Stage::MouseReporting), ctx)
                } else {
                    (Flow::Goto(Stage::RunningConfig), ctx)
                },
            },
        Stage::MouseReporting => req(r, Stage::RunningConfig, ctx),
        Stage::RunningConfig => req(r, Stage::FinalFlush, ctx),
        Stage::FinalFlush => match r {
                Err(e) => (Flow::Finish(Err(e)), ctx),
                Ok(_) => (Flow::Finish(Ok(ctx.mouse_extra)), ctx),
            },
    }
}

fn req_of(r: Result<u8, Error>, next: Stage, ctx: Ctx) -> (res: (Flow, Ctx))
    ensures
        res == req(r, next, ctx),
{
    match r {
        Err(e) => (Flow::Finish(Err(e)), ctx),
        Ok(_) => (Flow::Goto(next), ctx),
    }
}

fn mouse_failed_of(e: Error, ctx: Ctx) -> (res: (Flow, Ctx))
    ensures
        res == mouse_failed(e, ctx),
{
    if ctx.scope == Scope::Mouse {
        (Flow::Finish(Err(e)), ctx)
    } else {
        let mut c = ctx;
        c.mouse_found = false;
        c.mouse_extra = false;
        (Flow::Goto(Stage::KeyboardReporting), c)
    }
}

fn mouse_succeeded_of(ctx: Ctx) -> (res: (Flow, Ctx))
    ensures
        res == mouse_succeeded(ctx),
{
    if ctx.scope == Scope::Mouse {
        (Flow::Finish(Ok(ctx.mouse_extra)), ctx)
    } else {
        let mut c = ctx;
        c.mouse_found = true;
        (Flow::Goto(Stage::KeyboardReporting), c)
    }
}

fn mouse_req_of(r: Result<u8, Error>, next: Stage, ctx: Ctx) -> (res: (Flow, Ctx))
    ensures
        res == mouse_req(r, next, ctx),
{
    match r {
        Err(e) => mouse_failed_of(e, ctx),
        Ok(_) => (Flow::Goto(next), ctx),
    }
}

fn enter_block_of(first: Stage, ctx: Ctx) -> (res: (Flow, Ctx))
    ensures
        res == enter_block(first, ctx),
{
    let mut c = ctx;
    c.block = Retry::new(RETRIES);
    (Flow::Goto(first), c)
}

fn block_failed_of(e: Error, ctx: Ctx, keyboard: bool) -> (res: (Flow, Ctx))
    requires
        ctx.block.attempts < ctx.block.limit,
    ensures
        res == block_failed(e, ctx, keyboard),
{
    let mut c = ctx;
    let rs = c.block.on_outcome(Err(e));
    if rs == RetryStep::Again {
        if keyboard {
            (Flow::Goto(Stage::KeyboardDefaultsFlushBefore), c)
        } else {
            (Flow::Goto(Stage::MouseResetFlushBefore), c)
        }
    } else if keyboard {
        (Flow::Finish(Err(Error::NoMoreTries)), c)
    } else {
        mouse_failed_of(Error::NoMoreTries, c)
    }
}

#[verifier::rlimit(50)]
fn advance_of(stage: Stage, r: Result<u8, Error>, ctx: Ctx) -> (res: (Flow, Ctx))
    requires
        in_block(stage) ==> ctx.block.attempts < ctx.block.limit,
    ensures
        res == advance(stage, r, ctx),
{
    match stage {
        Stage::InitFlush => req_of(r, Stage::DisableFirst, ctx),
        Stage::DisableFirst => req_of(r, Stage::DisableSecond, ctx),
        Stage::DisableSecond => req_of(r, Stage::DisableFlush, ctx),
        Stage::DisableFlush => req_of(r, Stage::QuietConfig, ctx),
        Stage::QuietConfig => req_of(r, Stage::QuietFlush, ctx),
        Stage::QuietFlush => req_of(r, Stage::SelfTest, ctx),
        Stage::SelfTest => req_of(r, Stage::SelfTestResult, ctx),
        Stage::SelfTestResult => match r {
                Err(e) => (Flow::Finish(Err(e)), ctx),
                Ok(b) => if b == SELF_TEST_PASSED {
                    (Flow::Goto(Stage::SelfTestFlush), ctx)
                } else {
                    (Flow::Finish(Err(Error::InitFailed)), ctx)
                },
            },
        Stage::SelfTestFlush => req_of(r, Stage::KeyboardEnable, ctx),
        Stage::KeyboardEnable => req_of(r, Stage::KeyboardEnableFlush, ctx),
        Stage::KeyboardEnableFlush => req_of(r, Stage::KeyboardReset, ctx),
        Stage::KeyboardReset => match r {
                Err(e) => (Flow::Finish(Err(e)), ctx),
                Ok(b) => if b == ACK {
                    (Flow::Goto(Stage::KeyboardResetResult), ctx)
                } else {
                    (Flow::Goto(Stage::KeyboardResetFlush), ctx)
                },
            },
        Stage::KeyboardResetResult => (Flow::Goto(Stage::KeyboardResetFlush), ctx),
        Stage::KeyboardResetFlush => match r {
                Err(e) => (Flow::Finish(Err(e)), ctx),
                Ok(_) => enter_block_of(Stage::KeyboardDefaultsFlushBefore, ctx),
            },
        Stage::KeyboardDefaultsFlushBefore => match r {
                Err(e) => block_failed_of(e, ctx, true),
                Ok(_) => (Flow::Goto(Stage::KeyboardDefaults), ctx),
            },
        Stage::KeyboardDefaults => match r {
                Err(e) => block_failed_of(e, ctx, true),
                Ok(b) => if b == ACK {
                    (Flow::Goto(Stage::KeyboardDefaultsFlushAfter), ctx)
                } else {
                    block_failed_of(Error::CommandRetry, ctx, true)
                },
            },
        Stage::KeyboardDefaultsFlushAfter => match r {
                Err(e) => block_failed_of(e, ctx, true),
                Ok(_) => (Flow::Goto(Stage::KeyboardScancodeSet), ctx),
            },
        Stage::KeyboardScancodeSet => req_of(r, Stage::KeyboardScancodeFlush, ctx),
        Stage::KeyboardScancodeFlush => match r {
                Err(e) => (Flow::Finish(Err(e)), ctx),
                Ok(_) => if ctx.scope == Scope::Keyboard {
                    (Flow::Finish(Ok(false)), ctx)
                } else {
                    (Flow::Goto(Stage::MouseEnable), ctx)
                },
            },
        Stage::MouseEnable => mouse_req_of(r, Stage::MouseEnableFlush, ctx),
        Stage::MouseEnableFlush => match r {
                Err(e) => mouse_failed_of(e, ctx),
                Ok(_) => enter_block_of(Stage::MouseResetFlushBefore, ctx),
            },
        Stage::MouseResetFlushBefore => match r {
                Err(e) => block_failed_of(e, ctx, false),
                Ok(_) => (Flow::Goto(Stage::MouseReset), ctx),
            },
        Stage::MouseReset => match r {
                Err(e) => block_failed_of(e, ctx, false),
                Ok(b) => if b == ACK {
                    (Flow::Goto(Stage::MouseResetResult), ctx)
                } else {
                    block_failed_of(Error::CommandRetry, ctx, false)
                },
            },
        Stage::MouseResetResult => match r {
                Err(e) => block_failed_of(e, ctx, false),
                Ok(b) => if b == SELF_TEST_OK {
                    (Flow::Goto(Stage::MouseResetId), ctx)
                } else {
                    block_failed_of(Error::CommandRetry, ctx, false)
                },
            },
        Stage::MouseResetId => match r {
                Err(e) => block_failed_of(e, ctx, false),
                Ok(b) => if b == 0 {
                    (Flow::Goto(Stage::MouseResetFlushAfter), ctx)
                } else {
                    block_failed_of(Error::CommandRetry, ctx, false)
                },
            },
        Stage::MouseResetFlushAfter => match r {
                Err(e) => block_failed_of(e, ctx, false),
                Ok(_) => (Flow::Goto(Stage::MouseDefaults), ctx),
            },
        Stage::MouseDefaults => mouse_req_of(r, Stage::MouseDefaultsFlush, ctx),
        Stage::MouseDefaultsFlush => mouse_req_of(r, Stage::MouseRate200, ctx),
        Stage::MouseRate200 => match r {
                Err(e) => mouse_failed_of(e, ctx),
                Ok(b) => if b == ACK {
                    (Flow::Goto(Stage::MouseRate100), ctx)
                } else {
                    (Flow::Goto(Stage::MouseRatesFlush), ctx)
                },
            },
        Stage::MouseRate100 => match r {
                Err(e) => mouse_failed_of(e, ctx),
                Ok(b) => if b == ACK {
                    (Flow::Goto(Stage::MouseRate80), ctx)
                } else {
                    (Flow::Goto(Stage::MouseRatesFlush), ctx)
                },
            },
        Stage::MouseRate80 => mouse_req_of(r, Stage::MouseRatesFlush, ctx),
        Stage::MouseRatesFlush => mouse_req_of(r, Stage::MouseDeviceId, ctx),
        Stage::MouseDeviceId => match r {
                Err(e) => mouse_failed_of(e, ctx),
                Ok(b) => if b == ACK {
                    (Flow::Goto(Stage::MouseDeviceIdResult), ctx)
                } else {
                    (Flow::Goto(Stage::MouseDeviceIdFlush), {
                        let mut c = ctx;
                        c.mouse_extra = false;
                        c
                    })
                },
            },
        Stage::MouseDeviceIdResult => match r {
                Err(e) => mouse_failed_of(e, ctx),
                Ok(b) => (Flow::Goto(Stage::MouseDeviceIdFlush), {
                    let mut c = ctx;
                    c.mouse_extra = b == EXTRA_PACKET_ID;
                    c
                }),
            },
        Stage::MouseDeviceIdFlush => mouse_req_of(r, Stage::MouseResolution, ctx),
        Stage::MouseResolution => mouse_req_of(r, Stage::MouseResolutionFlush, ctx),
        Stage::MouseResolutionFlush => mouse_req_of(r, Stage::MouseScaling, ctx),
        Stage::MouseScaling => mouse_req_of(r, Stage::MouseScalingFlush, ctx),
        Stage::MouseScalingFlush => mouse_req_of(r, Stage::MouseSampleRate, ctx),
        Stage::MouseSampleRate => mouse_req_of(r, Stage::MouseSampleRateFlush, ctx),
        Stage::MouseSampleRateFlush => mouse_req_of(r, Stage::MouseStatus, ctx),
        Stage::MouseStatus => match r {
                Err(e) => mouse_failed_of(e, ctx),
                Ok(b) => if b == ACK {
                    (Flow::Goto(Stage::MouseStatus1), ctx)
                } else {
                    mouse_succeeded_of(ctx)
                },
            },
        Stage::MouseStatus1 => mouse_req_of(r, Stage::MouseStatus2, ctx),
        Stage::MouseStatus2 => mouse_req_of(r, Stage::MouseStatus3, ctx),
        Stage::MouseStatus3 => match r {
                Err(e) => mouse_failed_of(e, ctx),
                Ok(_) => mouse_succeeded_of(ctx),
            },
        Stage::KeyboardReporting => match r {
                Err(e) => (Flow::Finish(Err(e)), ctx),
                Ok(_) => if ctx.mouse_found {
                    (Flow::Goto(Stage::MouseReporting), ctx)
                } else {
                    (Flow::Goto(Stage::RunningConfig), ctx)
                },
            },
        Stage::MouseReporting => req_of(r, Stage::RunningConfig, ctx),
        Stage::RunningConfig => req_of(r, Stage::FinalFlush, ctx),
        Stage::FinalFlush => match r {
                Err(e) => (Flow::Finish(Err(e)), ctx),
                Ok(_) => (Flow::Finish(Ok(ctx.mouse_extra)), ctx),
            },
    }
}

fn stage_exchange_of(stage: Stage, mouse_found: bool) -> (res: (ExKind, bool))
    ensures
        res == stage_exchange(stage, mouse_found),
{
    match stage {
        Stage::InitFlush => (ExKind::Flush, false),
        Stage::DisableFirst => (ExKind::Controller(DISABLE_FIRST), false),
        Stage::DisableSecond => (ExKind::Controller(DISABLE_SECOND), false),
        Stage::DisableFlush => (ExKind::Flush, false),
        Stage::QuietConfig => (ExKind::SetConfig(quiet_config_flags().bits()), true),
        Stage::QuietFlush => (ExKind::Flush, false),
        Stage::SelfTest => (ExKind::Controller(TEST_CONTROLLER), false),
        Stage::SelfTestResult => (ExKind::ReadByte, false),
        Stage::SelfTestFlush => (ExKind::Flush, false),
        Stage::KeyboardEnable => (ExKind::Controller(ENABLE_FIRST), false),
        Stage::KeyboardEnableFlush => (ExKind::Flush, false),
        Stage::KeyboardReset => (ExKind::Keyboard(DEVICE_RESET), true),
        Stage::KeyboardResetResult => (ExKind::ReadByte, false),
        Stage::KeyboardResetFlush => (ExKind::Flush, false),
        Stage::KeyboardDefaultsFlushBefore => (ExKind::Flush, false),
        Stage::KeyboardDefaults => (ExKind::Keyboard(SET_DEFAULTS_DISABLE), true),
        Stage::KeyboardDefaultsFlushAfter => (ExKind::Flush, false),
        Stage::KeyboardScancodeSet => (ExKind::KeyboardData(SCANCODE_SET, 2), true),
        Stage::KeyboardScancodeFlush => (ExKind::Flush, false),
        Stage::MouseEnable => (ExKind::Controller(ENABLE_SECOND), false),
        Stage::MouseEnableFlush => (ExKind::Flush, false),
        Stage::MouseResetFlushBefore => (ExKind::Flush, false),
        Stage::MouseReset => (ExKind::Mouse(DEVICE_RESET), true),
        Stage::MouseResetResult => (ExKind::ReadByte, false),
        Stage::MouseResetId => (ExKind::ReadByte, false),
        Stage::MouseResetFlushAfter => (ExKind::Flush, false),
        Stage::MouseDefaults => (ExKind::Mouse(SET_DEFAULTS), true),
        Stage::MouseDefaultsFlush => (ExKind::Flush, false),
        Stage::MouseRate200 => (ExKind::MouseData(SET_SAMPLE_RATE, 200), true),
        Stage::MouseRate100 => (ExKind::MouseData(SET_SAMPLE_RATE, 100), true),
        Stage::MouseRate80 => (ExKind::MouseData(SET_SAMPLE_RATE, 80), true),
        Stage::MouseRatesFlush => (ExKind::Flush, false),
        Stage::MouseDeviceId => (ExKind::Mouse(GET_DEVICE_ID), true),
        Stage::MouseDeviceIdResult => (ExKind::ReadByte, false),
        Stage::MouseDeviceIdFlush => (ExKind::Flush, false),
        Stage::MouseResolution => (ExKind::MouseData(SET_RESOLUTION, 3), true),
        Stage::MouseResolutionFlush => (ExKind::Flush, false),
        Stage::MouseScaling => (ExKind::Mouse(SET_SCALING_1_TO_1), true),
        Stage::MouseScalingFlush => (ExKind::Flush, false),
        Stage::MouseSampleRate => (ExKind::MouseData(SET_SAMPLE_RATE, 200), true),
        Stage::MouseSampleRateFlush => (ExKind::Flush, false),
        Stage::MouseStatus => (ExKind::Mouse(STATUS_REQUEST), true),
        Stage::MouseStatus1 => (ExKind::ReadByte, false),
        Stage::MouseStatus2 => (ExKind::ReadByte, false),
        Stage::MouseStatus3 => (ExKind::ReadByte, false),
        Stage::KeyboardReporting => (ExKind::KeyboardSend(ENABLE_REPORTING), false),
        Stage::MouseReporting => (ExKind::MouseSend(ENABLE_REPORTING), false),
        Stage::RunningConfig => (ExKind::SetConfig(running_config_flags(quiet_config_flags(), mouse_found).bits()), true),
        Stage::FinalFlush => (ExKind::Flush, false),
    }
}

/// What the driver does next: a register access, or the end of bring-up.
#[derive(Clone, Copy, Debug)]
pub enum Ps2Step {
    Io(Action),
    /// Bring-up ended: whether the mouse sends the extra packet byte, or the error.
    Finished(Result<bool, Error>),
}

/// The driver for the controller at its two registers, as a step machine.
pub struct Ps2 {
    pub stage: Stage,
    pub ctx: Ctx,
    /// The exchange of the running stage.
    pub exchange: Exchange,
    /// The result, once bring-up has ended.
    pub outcome: Option<Result<bool, Error>>,
}

/// The exchange a stage starts with.
pub open spec fn start_stage(stage: Stage, ctx: Ctx) -> Exchange {
    let (kind, retried) = stage_exchange(stage, ctx.mouse_found);
    new_exchange(kind, retried)
}

/// A machine at the start of a sequence.
pub open spec fn started(p: Ps2, stage: Stage, scope: Scope) -> bool {
    let ctx = Ctx {
        scope,
        mouse_found: false,
        mouse_extra: false,
        block: Retry { attempts: 0, limit: RETRIES },
    };
    &&& p.stage == stage
    &&& p.ctx == ctx
    &&& p.exchange == start_stage(stage, ctx)
    &&& p.outcome is None
}

impl Ps2 {
    /// A running machine runs the exchange of its stage.
    pub open spec fn wf(&self) -> bool {
        self.outcome is None ==> {
            &&& self.exchange.wf()
            &&& (self.exchange.kind, self.exchange.retried) == stage_exchange(
                self.stage,
                self.ctx.mouse_found,
            )
            &&& in_block(self.stage) ==> self.ctx.block.attempts < self.ctx.block.limit
            &&& self.ctx.block.limit == RETRIES
        }
    }
}

/// The next state of the driver and what it does on an event. Once ended,
/// it keeps its result.
pub open spec fn ps2_transition(p: Ps2, ev: Event) -> (Ps2, Ps2Step) {
    match p.outcome {
        Some(res) => (p, Ps2Step::Finished(res)),
        None => {
            let (ex, st) = ex_transition(p.exchange, ev);
            match st {
                OpStep::Io(a) => (Ps2 { exchange: ex, ..p }, Ps2Step::Io(a)),
                OpStep::Done(r) => {
                    let (flow, ctx) = advance(p.stage, r, p.ctx);
                    match flow {
                        Flow::Goto(next) => (
                            Ps2 { stage: next, ctx, exchange: start_stage(next, ctx), ..p },
                            Ps2Step::Io(Action::ReadStatus),
                        ),
                        Flow::Finish(res) => (
                            Ps2 { exchange: ex, ctx, outcome: Some(res), ..p },
                            Ps2Step::Finished(res),
                        ),
                    }
                },
            }
        },
    }
}

/// Where a byte read now would come from: `None` when none waits, else
/// whether it comes from the first port.
pub open spec fn source_of(status: u8) -> Option<bool> {
    if has_bits(status, OUTPUT_FULL) {
        Some(!has_bits(status, SECOND_OUTPUT_FULL))
    } else {
        None
    }
}

fn start_of(stage: Stage, ctx: Ctx) -> (r: Exchange)
    ensures
        r == start_stage(stage, ctx),
        r.wf(),
{
    let (kind, retried) = stage_exchange_of(stage, ctx.mouse_found);
    Exchange::start(kind, retried)
}

impl Ps2 {
    fn starting(stage: Stage, scope: Scope) -> (r: Self)
        ensures
            started(r, stage, scope),
            r.wf(),
    {
        let ctx = Ctx { scope, mouse_found: false, mouse_extra: false, block: Retry::new(RETRIES) };
        Ps2 { stage, ctx, exchange: start_of(stage, ctx), outcome: None }
    }

    /// A driver about to run the full bring-up.
    pub fn new() -> (r: Self)
        ensures
            started(r, Stage::InitFlush, Scope::Full),
            r.wf(),
    {
        Ps2::starting(Stage::InitFlush, Scope::Full)
    }

    /// Starts the full bring-up: controller, keyboard, mouse, running
    /// configuration. Its result says whether the mouse sends the extra
    /// packet byte.
    pub fn init(&mut self) -> (a: Action)
        ensures
            started(*final(self), Stage::InitFlush, Scope::Full),
            final(self).wf(),
            a == Action::ReadStatus,
    {
        *self = Ps2::starting(Stage::InitFlush, Scope::Full);
        Action::ReadStatus
    }

    /// Starts the keyboard sequence alone.
    pub fn init_keyboard(&mut self) -> (a: Action)
        ensures
            started(*final(self), Stage::KeyboardEnable, Scope::Keyboard),
            final(self).wf(),
            a == Action::ReadStatus,
    {
        *self = Ps2::starting(Stage::KeyboardEnable, Scope::Keyboard);
        Action::ReadStatus
    }

    /// Starts the mouse sequence alone.
    pub fn init_mouse(&mut self) -> (a: Action)
        ensures
            started(*final(self), Stage::MouseEnable, Scope::Mouse),
            final(self).wf(),
            a == Action::ReadStatus,
    {
        *self = Ps2::starting(Stage::MouseEnable, Scope::Mouse);
        Action::ReadStatus
    }

    /// Takes the answer to the last action handed out.
    pub fn step(&mut self, ev: Event) -> (r: Ps2Step)
        requires
            old(self).wf(),
        ensures
            (*final(self), r) == ps2_transition(*old(self), ev),
            final(self).wf(),
    {
        match self.outcome {
            Some(res) => Ps2Step::Finished(res),
            None => match self.exchange.step(ev) {
                OpStep::Io(a) => Ps2Step::Io(a),
                OpStep::Done(r) => {
                    let (flow, ctx) = advance_of(self.stage, r, self.ctx);
                    self.ctx = ctx;
                    match flow {
                        Flow::Goto(next) => {
                            self.stage = next;
                            self.exchange = start_of(next, ctx);
                            Ps2Step::Io(Action::ReadStatus)
                        },
                        Flow::Finish(res) => {
                            self.outcome = Some(res);
                            Ps2Step::Finished(res)
                        },
                    }
                },
            },
        }
    }

    /// Given a status reading, whether a received byte waits, and if so
    /// whether it comes from the first port.
    pub fn next(status: u8) -> (r: Option<bool>)
        ensures
            r == source_of(status),
    {
        let flags = StatusFlags::from_bits_truncate(status);
        if flags.contains(OUTPUT_FULL) {
            Some(!flags.contains(SECOND_OUTPUT_FULL))
        } else {
            None
        }
    }
}

/// While the controller's self-test answer is being read, any byte other
/// than `0x55` ends bring-up at once with `InitFailed`.
pub proof fn lemma_self_test_failure(p: Ps2, b: u8)
    requires
        p.wf(),
        p.outcome is None,
        p.stage == Stage::SelfTestResult,
        p.exchange.op.phase == crate::protocol::OpPhase::Accessing,
        b != SELF_TEST_PASSED,
    ensures
        ps2_transition(p, Event::Data(b)).1 == Ps2Step::Finished(Err(Error::InitFailed)),
        ps2_transition(p, Event::Data(b)).0.outcome == Some(Err::<bool, Error>(Error::InitFailed)),
{
    assert(p.exchange.kind == ExKind::ReadByte && !p.exchange.retried);
    assert(p.exchange.pc == 0);
    assert(p.exchange.op.kind == crate::protocol::OpKind::Read);
    let (op, st) = crate::protocol::op_transition(p.exchange.op, Event::Data(b));
    assert(st == OpStep::Done(Ok(b)));
}

/// The place of a stage in the sequence.
pub open spec fn position(stage: Stage) -> nat {
    match stage {
        Stage::InitFlush => 0,
        Stage::DisableFirst => 1,
        Stage::DisableSecond => 2,
        Stage::DisableFlush => 3,
        Stage::QuietConfig => 4,
        Stage::QuietFlush => 5,
        Stage::SelfTest => 6,
        Stage::SelfTestResult => 7,
        Stage::SelfTestFlush => 8,
        Stage::KeyboardEnable => 9,
        Stage::KeyboardEnableFlush => 10,
        Stage::KeyboardReset => 11,
        Stage::KeyboardResetResult => 12,
        Stage::KeyboardResetFlush => 13,
        Stage::KeyboardDefaultsFlushBefore => 14,
        Stage::KeyboardDefaults => 15,
        Stage::KeyboardDefaultsFlushAfter => 16,
        Stage::KeyboardScancodeSet => 17,
        Stage::KeyboardScancodeFlush => 18,
        Stage::MouseEnable => 19,
        Stage::MouseEnableFlush => 20,
        Stage::MouseResetFlushBefore => 21,
        Stage::MouseReset => 22,
        Stage::MouseResetResult => 23,
        Stage::MouseResetId => 24,
        Stage::MouseResetFlushAfter => 25,
        Stage::MouseDefaults => 26,
        Stage::MouseDefaultsFlush => 27,
        Stage::MouseRate200 => 28,
        Stage::MouseRate100 => 29,
        Stage::MouseRate80 => 30,
        Stage::MouseRatesFlush => 31,
        Stage::MouseDeviceId => 32,
        Stage::MouseDeviceIdResult => 33,
        Stage::MouseDeviceIdFlush => 34,
        Stage::MouseResolution => 35,
        Stage::MouseResolutionFlush => 36,
        Stage::MouseScaling => 37,
        Stage::MouseScalingFlush => 38,
        Stage::MouseSampleRate => 39,
        Stage::MouseSampleRateFlush => 40,
        Stage::MouseStatus => 41,
        Stage::MouseStatus1 => 42,
        Stage::MouseStatus2 => 43,
        Stage::MouseStatus3 => 44,
        Stage::KeyboardReporting => 45,
        Stage::MouseReporting => 46,
        Stage::RunningConfig => 47,
        Stage::FinalFlush => 48,
    }
}

/// Attempts of retried blocks that may still run from this stage on.
pub open spec fn blocks_left(stage: Stage, ctx: Ctx) -> nat {
    let here = (RETRIES - ctx.block.attempts) as nat;
    let pos = position(stage);
    if pos < 14 {
        2 * (RETRIES as nat)
    } else if pos <= 16 {
        here + (RETRIES as nat)
    } else if pos < 21 {
        RETRIES as nat
    } else if pos <= 25 {
        here
    } else {
        0
    }
}

/// How far bring-up is from its end, counted in stages.
pub open spec fn stage_measure(stage: Stage, ctx: Ctx) -> nat {
    8 * blocks_left(stage, ctx) + (49 - position(stage)) as nat
}

/// How far a running machine is from its end.
pub open spec fn measure(p: Ps2) -> nat {
    stage_measure(p.stage, p.ctx) * (ex_measure_bound() + 1) + ex_measure(p.exchange)
}

/// The action a running machine waits on.
pub open spec fn ps2_pending(p: Ps2) -> Action {
    op_pending(p.exchange.op)
}

/// Every move of the transition table goes strictly forward.
#[verifier::rlimit(50)]
pub proof fn lemma_advance_progress(stage: Stage, r: Result<u8, Error>, ctx: Ctx)
    requires
        in_block(stage) ==> ctx.block.attempts < ctx.block.limit,
        ctx.block.limit == RETRIES,
    ensures
        advance(stage, r, ctx).0 matches Flow::Goto(next) ==> stage_measure(next, advance(stage, r, ctx).1)
            < stage_measure(stage, ctx),
        advance(stage, r, ctx).1.block.limit == RETRIES,
        advance(stage, r, ctx).0 matches Flow::Goto(next) ==> (in_block(next) ==> advance(
            stage,
            r,
            ctx,
        ).1.block.attempts < advance(stage, r, ctx).1.block.limit),
{
}

/// Bring-up cannot run forever: each answer to the pending action either
/// ends a running machine or brings it strictly closer to its end.
pub proof fn lemma_progress(p: Ps2, ev: Event)
    requires
        p.wf(),
        p.outcome is None,
        answers(ps2_pending(p), ev),
    ensures
        ps2_transition(p, ev).0.outcome is None ==> measure(ps2_transition(p, ev).0) < measure(p),
{
    lemma_ex_progress(p.exchange, ev);
    let (ex, st) = ex_transition(p.exchange, ev);
    if let OpStep::Done(r) = st {
        lemma_advance_progress(p.stage, r, p.ctx);
        let (flow, ctx) = advance(p.stage, r, p.ctx);
        if let Flow::Goto(next) = flow {
            let ex2 = start_stage(next, ctx);
            assert(ex2.wf());
            lemma_ex_bounded(ex2);
            let a = stage_measure(next, ctx);
            let b = stage_measure(p.stage, p.ctx);
            let w = ex_measure_bound() + 1;
            assert(a + 1 <= b);
            assert(a * w + ex_measure(ex2) < b * w) by (nonlinear_arith)
                requires
                    a + 1 <= b,
                    ex_measure(ex2) < w,
            ;
        }
    }
}

/// Stages of the keyboard sequence.
pub open spec fn is_keyboard_stage(stage: Stage) -> bool {
    9 <= position(stage) <= 18
}

/// Stages of the mouse sequence.
pub open spec fn is_mouse_stage(stage: Stage) -> bool {
    19 <= position(stage) <= 44
}

/// A failure in the keyboard sequence either ends bring-up with an error or
/// stays within that sequence (a retried block, or the ignored self-test
/// byte); it never reaches the mouse stages.
#[verifier::rlimit(50)]
pub proof fn lemma_keyboard_failure(stage: Stage, e: Error, ctx: Ctx)
    requires
        is_keyboard_stage(stage),
    ensures
        advance(stage, Err(e), ctx).0 matches Flow::Goto(next) ==> is_keyboard_stage(next),
        advance(stage, Err(e), ctx).0 matches Flow::Finish(res) ==> res is Err,
{
}

/// In full bring-up, a failure in the mouse sequence either retries its
/// reset block or marks the mouse absent, with no extra packet byte, and
/// goes on to keyboard reporting.
#[verifier::rlimit(50)]
pub proof fn lemma_mouse_failure(stage: Stage, e: Error, ctx: Ctx)
    requires
        is_mouse_stage(stage),
        ctx.scope == Scope::Full,
    ensures
        advance(stage, Err(e), ctx).0 matches Flow::Goto(next) && (is_mouse_stage(next) || (next
            == Stage::KeyboardReporting && !advance(stage, Err(e), ctx).1.mouse_found && !advance(
            stage,
            Err(e),
            ctx,
        ).1.mouse_extra)),
{
}

/// Once the mouse is absent, the rest of bring-up skips mouse reporting,
/// writes the configuration `0x65` (second port disabled, its interrupt
/// off) and ends with `Ok(false)` unless a step fails.
pub proof fn lemma_absent_mouse_finish(stage: Stage, r: Result<u8, Error>, ctx: Ctx)
    requires
        position(stage) >= 45,
        !ctx.mouse_found,
        !ctx.mouse_extra,
    ensures
        advance(stage, r, ctx).1 == ctx,
        advance(stage, r, ctx).0 matches Flow::Goto(next) ==> next != Stage::MouseReporting
            && position(next) > position(stage),
        advance(stage, r, ctx).0 matches Flow::Finish(res) ==> (res is Err || res == Ok::<
            bool,
            Error,
        >(false)),
        stage_exchange(Stage::RunningConfig, false).0 == ExKind::SetConfig(0x65),
{
    assert(running_config(false) == 0x65) by (bit_vector);
}

/// The reporting-enable stages only write: no op of theirs reads, so the
/// device's reply is left unread and cannot change the outcome.
pub proof fn lemma_reporting_reply_unread(stage: Stage, mouse_found: bool, pc: u8)
    requires
        stage == Stage::KeyboardReporting || stage == Stage::MouseReporting,
        pc <= last_pc(stage_exchange(stage, mouse_found).0),
    ensures
        ex_op(stage_exchange(stage, mouse_found).0, pc) != OpKind::Read,
        !stage_exchange(stage, mouse_found).1,
{
}

/// One step keeps a machine well formed.
pub proof fn lemma_step_wf(p: Ps2, ev: Event)
    requires
        p.wf(),
    ensures
        ps2_transition(p, ev).0.wf(),
{
    if p.outcome is None {
        lemma_ex_wf(p.exchange, ev);
        let (ex, st) = ex_transition(p.exchange, ev);
        if let OpStep::Done(r) = st {
            lemma_advance_progress(p.stage, r, p.ctx);
        }
    }
}

/// The state after answering each event of `evs` in turn.
pub open spec fn run(p: Ps2, evs: Seq<Event>) -> Ps2
    decreases evs.len(),
{
    if evs.len() == 0 {
        p
    } else {
        run(ps2_transition(p, evs[0]).0, evs.drop_first())
    }
}

/// A machine that has not passed the controller self test: still at or
/// before it, or ended with an error.
pub open spec fn held_at_self_test(p: Ps2) -> bool {
    &&& p.outcome is None ==> position(p.stage) <= position(Stage::SelfTestResult)
    &&& p.outcome matches Some(res) ==> res is Err
}

/// A controller that never answers `0x55`.
pub open spec fn never_passes(evs: Seq<Event>) -> bool {
    forall|i: int| 0 <= i < evs.len() ==> #[trigger] evs[i] != Event::Data(SELF_TEST_PASSED)
}

proof fn lemma_self_test_step(p: Ps2, ev: Event)
    requires
        p.wf(),
        held_at_self_test(p),
        ev != Event::Data(SELF_TEST_PASSED),
    ensures
        held_at_self_test(ps2_transition(p, ev).0),
{
    if p.outcome is None {
        let (ex, st) = ex_transition(p.exchange, ev);
        if p.stage == Stage::SelfTestResult {
            assert(p.exchange.kind == ExKind::ReadByte && !p.exchange.retried);
            assert(p.exchange.op.kind == OpKind::Read);
        }
    }
}

/// When the controller never answers `0x55`, full bring-up never gets past
/// the self test: whatever it is told, it stays at or before that stage, so
/// neither port is enabled and no device command is written, or it ends
/// with an error. With [`lemma_progress`] it does end.
pub proof fn lemma_failed_self_test_stops(p: Ps2, evs: Seq<Event>)
    requires
        p.wf(),
        held_at_self_test(p),
        never_passes(evs),
    ensures
        held_at_self_test(run(p, evs)),
        run(p, evs).wf(),
    decreases evs.len(),
{
    if evs.len() > 0 {
        assert(evs[0] != Event::Data(SELF_TEST_PASSED));
        lemma_self_test_step(p, evs[0]);
        lemma_step_wf(p, evs[0]);
        let rest = evs.drop_first();
        assert forall|i: int| 0 <= i < rest.len() implies #[trigger] rest[i] != Event::Data(
            SELF_TEST_PASSED,
        ) by {
            assert(rest[i] == evs[i + 1]);
        }
        lemma_failed_self_test_stops(ps2_transition(p, evs[0]).0, rest);
    }
}

/// A machine fresh from [`Ps2::new`] or [`Ps2::init`] is held at the self test.
pub proof fn lemma_started_held(p: Ps2)
    requires
        started(p, Stage::InitFlush, Scope::Full),
    ensures
        held_at_self_test(p),
        p.wf(),
{
}

} // verus!
