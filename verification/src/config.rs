//! Fixed-point conventions and the immutable configuration surface.
//!
//! One world unit is `SCALE` fixed-point units; camera positions are stored
//! in sub-units of `1 / (SCALE * SCALE)` world units so that one simulation
//! tick of movement is an exact integer. Speeds are chosen to match a viewer
//! that moves 0.2 world units and turns 2 radians per second.

use vstd::prelude::*;

verus! {

/// Fixed-point units per world unit (and per radian for angles).
pub const SCALE: i64 = 3000;

/// Camera translation speed: 0.2 world units per second, in fixed point.
pub const MOVE_SPEED_FP: i64 = 600;

/// Camera turn speed: 2 radians per second, in fixed point.
pub const TURN_SPEED_FP: i64 = 6000;

/// Largest accepted screen edge, in pixels.
pub const MAX_SCREEN_DIM: u32 = 100_000;

/// Largest accepted tick rate, in ticks per second.
pub const MAX_TICK_RATE: u32 = 1000;

/// Why a configuration was rejected at initialization.
#[derive(Clone, Copy, PartialEq, Eq, Structural, Debug)]
pub enum ConfigError {
    ZeroWidth,
    ZeroHeight,
    ZeroTickRate,
    OversizedScreen,
    TickRateTooHigh,
}

/// The immutable per-process configuration: screen geometry, tick rate, and
/// the per-tick motion steps derived from them.
#[derive(Clone, Copy, PartialEq, Eq, Structural, Debug)]
pub struct Config {
    /// Screen width in pixels.
    pub width: u32,
    /// Screen height in pixels.
    pub height: u32,
    /// Simulation ticks per second.
    pub target_fps: u32,
    /// Seconds per tick, in fixed point: `SCALE / target_fps`.
    pub tick_fp: i64,
    /// Camera movement per tick, in fixed-point world units per tick:
    /// `MOVE_SPEED_FP / target_fps`.
    pub move_step: i64,
    /// Heading change per tick, in fixed-point radians: `TURN_SPEED_FP / target_fps`.
    pub turn_step: i64,
}

impl Config {
    /// A configuration the rest of the crate can run on without overflow.
    pub open spec fn wf(&self) -> bool {
        &&& 1 <= self.width <= MAX_SCREEN_DIM
        &&& 1 <= self.height <= MAX_SCREEN_DIM
        &&& 1 <= self.target_fps <= MAX_TICK_RATE
        &&& 1 <= self.tick_fp <= SCALE
        &&& 0 <= self.move_step <= MOVE_SPEED_FP
        &&& 0 <= self.turn_step <= TURN_SPEED_FP
    }

    /// Validates the raw configuration surface and derives the per-tick
    /// steps. A zero-size screen or a zero tick rate is rejected here, at
    /// initialization, never masked later.
    pub fn checked(width: u32, height: u32, target_fps: u32) -> (r: Result<Config, ConfigError>)
        ensures
            match r {
                Ok(c) => {
                    &&& 1 <= width <= MAX_SCREEN_DIM
                    &&& 1 <= height <= MAX_SCREEN_DIM
                    &&& 1 <= target_fps <= MAX_TICK_RATE
                    &&& c.width == width
                    &&& c.height == height
                    &&& c.target_fps == target_fps
                    &&& c.tick_fp == SCALE as u32 / target_fps
                    &&& c.move_step == MOVE_SPEED_FP as u32 / target_fps
                    &&& c.turn_step == TURN_SPEED_FP as u32 / target_fps
                    &&& c.wf()
                },
                Err(e) => {
                    &&& e == ConfigError::ZeroWidth <==> width == 0
                    &&& e == ConfigError::ZeroHeight <==> width >= 1 && height == 0
                    &&& e == ConfigError::ZeroTickRate
                        <==> width >= 1 && height >= 1 && target_fps == 0
                    &&& e == ConfigError::OversizedScreen
                        <==> width >= 1 && height >= 1 && target_fps >= 1
                            && (width > MAX_SCREEN_DIM || height > MAX_SCREEN_DIM)
                    &&& e == ConfigError::TickRateTooHigh
                        <==> width >= 1 && height >= 1 && target_fps >= 1
                            && width <= MAX_SCREEN_DIM && height <= MAX_SCREEN_DIM
                            && target_fps > MAX_TICK_RATE
                },
            },
            r is Ok <==> 1 <= width <= MAX_SCREEN_DIM && 1 <= height <= MAX_SCREEN_DIM
                && 1 <= target_fps <= MAX_TICK_RATE,
    {
        if width == 0 {
            Err(ConfigError::ZeroWidth)
        } else if height == 0 {
            Err(ConfigError::ZeroHeight)
        } else if target_fps == 0 {
            Err(ConfigError::ZeroTickRate)
        } else if width > MAX_SCREEN_DIM || height > MAX_SCREEN_DIM {
            Err(ConfigError::OversizedScreen)
        } else if target_fps > MAX_TICK_RATE {
            Err(ConfigError::TickRateTooHigh)
        } else {
            proof {
                assert(1 <= 3000u32 as int / target_fps as int <= 3000) by (nonlinear_arith)
                    requires
                        1 <= target_fps <= 1000,
                ;
                assert(0 <= 600u32 as int / target_fps as int <= 600) by (nonlinear_arith)
                    requires
                        1 <= target_fps <= 1000,
                ;
                assert(1 <= 6000u32 as int / target_fps as int <= 6000) by (nonlinear_arith)
                    requires
                        1 <= target_fps <= 1000,
                ;
            }
            Ok(Config {
                width,
                height,
                target_fps,
                tick_fp: (SCALE as u32 / target_fps) as i64,
                move_step: (MOVE_SPEED_FP as u32 / target_fps) as i64,
                turn_step: (TURN_SPEED_FP as u32 / target_fps) as i64,
            })
        }
    }
}

impl Default for Config {
    /// The documented defaults: an 800 by 600 window simulated at 60 ticks
    /// per second, which gives a tick of 50 fixed-point seconds, a movement
    /// step of 10 and a turn step of 100 fixed-point units.
    fn default() -> (c: Config)
        ensures
            c.width == 800,
            c.height == 600,
            c.target_fps == 60,
            c.tick_fp == 50,
            c.move_step == 10,
            c.turn_step == 100,
            c.wf(),
    {
        Config {
            width: 800,
            height: 600,
            target_fps: 60,
            tick_fp: 50,
            move_step: 10,
            turn_step: 100,
        }
    }
}

} // verus!
