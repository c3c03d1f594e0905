//! The loop driver: the run/pause/step state machine and the per-tick
//! algorithm that feeds events to it, advances the world, and says whether a
//! frame should be drawn.
//!
//! Each tick first drains all pending events, then exits if the loop was
//! stopped, otherwise runs the update stage exactly when the loop is running
//! unpaused or a one-shot step was requested while paused, and finally asks
//! for a frame to be rendered whatever the pause state. The unverified driver
//! around this core performs the actual event pumping, frame pacing and
//! drawing.

use vstd::prelude::*;

use crate::camera::{step_camera, CamV};
use crate::config::{Config, SCALE};
use crate::input::{apply_event_input, Event, Input, Key};
use crate::world::{update, update_safe, WorldState};

verus! {

/// The loop's own state: `running` is cleared exactly by the quit event or
/// the escape key (the terminal `Stopped` state), `paused` freezes the update
/// stage, and `step` requests exactly one tick of update while paused.
#[derive(Clone, Copy, PartialEq, Eq, Structural, Debug)]
pub struct LoopState {
    pub running: bool,
    pub paused: bool,
    pub step: bool,
}

impl LoopState {
    /// The initial state: running, unpaused, no step pending.
    pub fn new() -> (ls: LoopState)
        ensures
            ls.running,
            !ls.paused,
            !ls.step,
    {
        LoopState { running: true, paused: false, step: false }
    }
}

/// What one tick asks of the caller: stop the loop and tear down, or render
/// a frame (always, even while paused, so the display stays live).
#[derive(Clone, Copy, PartialEq, Eq, Structural, Debug)]
pub enum TickOutcome {
    Stopped,
    Rendered,
}

/// The effect of one event on the loop state: quit or escape stops the loop
/// from any state, P toggles pause, Space requests a single step, and every
/// other event leaves the loop state alone.
pub open spec fn apply_event_loop(ls: LoopState, e: Event) -> LoopState {
    match e {
        Event::Quit => LoopState { running: false, ..ls },
        Event::KeyDown(k) => match k {
            Key::Escape => LoopState { running: false, ..ls },
            Key::P => LoopState { paused: !ls.paused, ..ls },
            Key::Space => LoopState { step: true, ..ls },
            _ => ls,
        },
        _ => ls,
    }
}

/// The loop state after a whole queue of events, applied in order.
pub open spec fn loop_after(ls: LoopState, evs: Seq<Event>) -> LoopState
    decreases evs.len(),
{
    if evs.len() == 0 {
        ls
    } else {
        apply_event_loop(loop_after(ls, evs.drop_last()), evs.last())
    }
}

/// The held input after a whole queue of events, applied in order.
pub open spec fn input_after(i: Input, evs: Seq<Event>) -> Input
    decreases evs.len(),
{
    if evs.len() == 0 {
        i
    } else {
        apply_event_input(input_after(i, evs.drop_last()), evs.last())
    }
}

/// Dispatches one event: quit and escape stop the loop, P toggles pause,
/// Space requests a step, movement and turn keys set or clear their input
/// flag, and unrecognized events are an explicit no-op. Camera, time and
/// objects are never touched here.
pub fn parse_event(loop_state: &mut LoopState, world_state: &mut WorldState, event: Event)
    ensures
        *final(loop_state) == apply_event_loop(*old(loop_state), event),
        final(world_state).input == apply_event_input(old(world_state).input, event),
        final(world_state).camera == old(world_state).camera,
        final(world_state).time == old(world_state).time,
        final(world_state).objects == old(world_state).objects,
{
    match event {
        Event::Quit => {
            loop_state.running = false;
        },
        Event::KeyDown(k) => match k {
            Key::Escape => {
                loop_state.running = false;
            },
            Key::P => {
                loop_state.paused = !loop_state.paused;
            },
            Key::Space => {
                loop_state.step = true;
            },
            Key::W => {
                world_state.input.move_forward = true;
            },
            Key::A => {
                world_state.input.move_left = true;
            },
            Key::S => {
                world_state.input.move_back = true;
            },
            Key::D => {
                world_state.input.move_right = true;
            },
            Key::Q => {
                world_state.input.turn_right = true;
            },
            Key::E => {
                world_state.input.turn_left = true;
            },
            Key::Other => {},
        },
        Event::KeyUp(k) => match k {
            Key::W => {
                world_state.input.move_forward = false;
            },
            Key::A => {
                world_state.input.move_left = false;
            },
            Key::S => {
                world_state.input.move_back = false;
            },
            Key::D => {
                world_state.input.move_right = false;
            },
            Key::Q => {
                world_state.input.turn_right = false;
            },
            Key::E => {
                world_state.input.turn_left = false;
            },
            _ => {},
        },
        Event::Other => {},
    }
}

/// The part of the simulation one tick can change, as unbounded values: the
/// loop state, the camera, the time accumulator and the held input. The
/// object collection is fixed at initialization and therefore not part of it.
#[verifier::ext_equal]
pub struct SimState {
    pub ls: LoopState,
    pub cam: CamV,
    pub time: int,
    pub inp: Input,
}

/// The simulation-visible part of a loop-state / world-state pair.
pub open spec fn sim_of(ls: LoopState, w: WorldState) -> SimState {
    SimState { ls, cam: w.camera@, time: w.time as int, inp: w.input }
}

/// The state after the event-draining stage of a tick.
pub open spec fn drain_events(st: SimState, evs: Seq<Event>) -> SimState {
    SimState { ls: loop_after(st.ls, evs), cam: st.cam, time: st.time, inp: input_after(st.inp, evs) }
}

/// One whole tick: drain the events, then stop, update, or stay frozen.
/// The update stage runs exactly when the loop is running and either not
/// paused or carrying a pending step; a step consumed while paused is
/// cleared, so it unfreezes exactly one tick.
pub open spec fn tick_state(
    st: SimState,
    evs: Seq<Event>,
    s: int,
    c: int,
    move_step: int,
    turn_step: int,
    tick_fp: int,
) -> SimState {
    let st1 = drain_events(st, evs);
    if !st1.ls.running {
        st1
    } else if !st1.ls.paused || st1.ls.step {
        SimState {
            ls: LoopState {
                step: if st1.ls.paused {
                    false
                } else {
                    st1.ls.step
                },
                ..st1.ls
            },
            cam: step_camera(st1.cam, st1.inp, s, c, move_step, turn_step),
            time: st1.time + tick_fp,
            inp: st1.inp,
        }
    } else {
        st1
    }
}

/// What a tick asks of the caller: stop once the drained events have cleared
/// `running`, otherwise render.
pub open spec fn tick_outcome(st: SimState, evs: Seq<Event>) -> TickOutcome {
    if loop_after(st.ls, evs).running {
        TickOutcome::Rendered
    } else {
        TickOutcome::Stopped
    }
}

/// Runs one tick of the loop: drains `events` in order, then — unless a quit
/// arrived — advances the world exactly when running unpaused or when a
/// pending step unfreezes a paused loop, consuming that step. Returns
/// [`TickOutcome::Stopped`] exactly when the loop has left its running state,
/// in which case no update ran this tick and no frame is requested;
/// otherwise the caller renders the (possibly frozen) world.
pub fn tick(
    loop_state: &mut LoopState,
    world_state: &mut WorldState,
    events: &Vec<Event>,
    dir: &crate::camera::DirBasis,
    config: &Config,
) -> (outcome: TickOutcome)
    requires
        config.wf(),
        -SCALE <= dir.s <= SCALE,
        -SCALE <= dir.c <= SCALE,
        update_safe(*old(world_state)),
    ensures
        sim_of(*final(loop_state), *final(world_state)) == tick_state(
            sim_of(*old(loop_state), *old(world_state)),
            events@,
            dir.s as int,
            dir.c as int,
            config.move_step as int,
            config.turn_step as int,
            config.tick_fp as int,
        ),
        final(world_state).objects == old(world_state).objects,
        outcome == tick_outcome(sim_of(*old(loop_state), *old(world_state)), events@),
        outcome == TickOutcome::Stopped <==> !final(loop_state).running,
{
    let mut i: usize = 0;
    while i < events.len()
        invariant
            i <= events.len(),
            *loop_state == loop_after(*old(loop_state), events@.take(i as int)),
            world_state.input == input_after(old(world_state).input, events@.take(i as int)),
            world_state.camera == old(world_state).camera,
            world_state.time == old(world_state).time,
            world_state.objects == old(world_state).objects,
        decreases events.len() - i,
    {
        let ev = events[i];
        parse_event(loop_state, world_state, ev);
        proof {
            assert(events@.take(i as int + 1).drop_last() =~= events@.take(i as int));
            assert(events@.take(i as int + 1).last() == events@[i as int]);
        }
        i = i + 1;
    }
    proof {
        assert(events@.take(events@.len() as int) =~= events@);
    }

    if !loop_state.running {
        proof {
            assert(sim_of(*loop_state, *world_state) =~= drain_events(
                sim_of(*old(loop_state), *old(world_state)),
                events@,
            ));
        }
        return TickOutcome::Stopped;
    }

    if !loop_state.paused || loop_state.step {
        update(world_state, dir, config);
        if loop_state.paused {
            loop_state.step = false;
        }
    }
    proof {
        assert(sim_of(*loop_state, *world_state) =~= tick_state(
            sim_of(*old(loop_state), *old(world_state)),
            events@,
            dir.s as int,
            dir.c as int,
            config.move_step as int,
            config.turn_step as int,
            config.tick_fp as int,
        ));
    }
    TickOutcome::Rendered
}

/// The simulation after `n` further ticks during which no events arrive,
/// with the same heading basis supplied each tick.
pub open spec fn ticks_idle(
    st: SimState,
    n: nat,
    s: int,
    c: int,
    move_step: int,
    turn_step: int,
    tick_fp: int,
) -> SimState
    decreases n,
{
    if n == 0 {
        st
    } else {
        tick_state(
            ticks_idle(st, (n - 1) as nat, s, c, move_step, turn_step, tick_fp),
            Seq::<Event>::empty(),
            s,
            c,
            move_step,
            turn_step,
            tick_fp,
        )
    }
}

/// Pause freezes the simulation: once the loop is paused with no step
/// pending, any number of event-free ticks leaves the whole simulation state
/// -- time accumulator and camera included -- exactly unchanged.
pub proof fn lemma_paused_stays_frozen(
    st: SimState,
    n: nat,
    s: int,
    c: int,
    move_step: int,
    turn_step: int,
    tick_fp: int,
)
    requires
        st.ls.running,
        st.ls.paused,
        !st.ls.step,
    ensures
        ticks_idle(st, n, s, c, move_step, turn_step, tick_fp) == st,
    decreases n,
{
    if n > 0 {
        lemma_paused_stays_frozen(st, (n - 1) as nat, s, c, move_step, turn_step, tick_fp);
        assert(drain_events(st, Seq::<Event>::empty()) =~= st);
    }
}

/// A step request while paused unfreezes exactly one tick: the first
/// event-free tick advances the camera and the time accumulator by exactly
/// one update and consumes the step, and every later tick leaves that state
/// frozen again.
pub proof fn lemma_paused_step_advances_once(
    st: SimState,
    n: nat,
    s: int,
    c: int,
    move_step: int,
    turn_step: int,
    tick_fp: int,
)
    requires
        st.ls.running,
        st.ls.paused,
        st.ls.step,
        n >= 1,
    ensures
        ({
            let once = tick_state(st, Seq::<Event>::empty(), s, c, move_step, turn_step, tick_fp);
            &&& ticks_idle(st, n, s, c, move_step, turn_step, tick_fp) == once
            &&& once.cam == step_camera(st.cam, st.inp, s, c, move_step, turn_step)
            &&& once.time == st.time + tick_fp
            &&& once.ls == (LoopState { step: false, ..st.ls })
            &&& once.inp == st.inp
        }),
    decreases n,
{
    let once = tick_state(st, Seq::<Event>::empty(), s, c, move_step, turn_step, tick_fp);
    assert(drain_events(st, Seq::<Event>::empty()) =~= st);
    assert(ticks_idle(st, 0, s, c, move_step, turn_step, tick_fp) == st);
    if n > 1 {
        lemma_paused_step_advances_once(st, (n - 1) as nat, s, c, move_step, turn_step, tick_fp);
        lemma_paused_stays_frozen(once, 1, s, c, move_step, turn_step, tick_fp);
        assert(ticks_idle(once, 0, s, c, move_step, turn_step, tick_fp) == once);
        assert(ticks_idle(once, 1, s, c, move_step, turn_step, tick_fp) == tick_state(
            once,
            Seq::<Event>::empty(),
            s,
            c,
            move_step,
            turn_step,
            tick_fp,
        ));
    }
}

/// An event is a stop request: the window's quit signal or the escape key.
pub open spec fn is_stop_event(e: Event) -> bool {
    e == Event::Quit || e == Event::KeyDown(Key::Escape)
}

/// A stopped loop stays stopped: no event sets `running` again.
pub proof fn lemma_stopped_survives_events(ls: LoopState, evs: Seq<Event>)
    requires
        !ls.running,
    ensures
        !loop_after(ls, evs).running,
    decreases evs.len(),
{
    if evs.len() > 0 {
        lemma_stopped_survives_events(ls, evs.drop_last());
    }
}

/// A quit event or the escape key anywhere in the queue leaves the loop
/// stopped after the queue is drained, from any starting state.
pub proof fn lemma_stop_event_stops(ls: LoopState, evs: Seq<Event>)
    requires
        exists|i: int| 0 <= i < evs.len() && is_stop_event(evs[i]),
    ensures
        !loop_after(ls, evs).running,
    decreases evs.len(),
{
    let i = choose|i: int| 0 <= i < evs.len() && is_stop_event(evs[i]);
    if i < evs.len() - 1 {
        assert(0 <= i < evs.drop_last().len() && is_stop_event(evs.drop_last()[i]));
        lemma_stop_event_stops(ls, evs.drop_last());
    } else {
        assert(evs.last() == evs[i]);
    }
}

/// A quit event or the escape key, from any state, stops the loop within its
/// tick, and that tick performs no update: camera, time and input leave the
/// event-draining stage untouched, and the outcome tells the caller to render
/// nothing and tear down. Together with [`lemma_stopped_is_terminal`], the
/// loop performs no further update after that tick.
pub proof fn lemma_quit_stops_tick(
    st: SimState,
    evs: Seq<Event>,
    s: int,
    c: int,
    move_step: int,
    turn_step: int,
    tick_fp: int,
)
    requires
        exists|i: int| 0 <= i < evs.len() && is_stop_event(evs[i]),
    ensures
        ({
            let r = tick_state(st, evs, s, c, move_step, turn_step, tick_fp);
            &&& !r.ls.running
            &&& r.cam == st.cam
            &&& r.time == st.time
        }),
        tick_outcome(st, evs) == TickOutcome::Stopped,
{
    lemma_stop_event_stops(st.ls, evs);
}

/// A stopped loop performs no further update whatever arrives: any later
/// tick, with any events, leaves the camera and the time accumulator exactly
/// unchanged and the loop stopped.
pub proof fn lemma_stopped_tick_frozen(
    st: SimState,
    evs: Seq<Event>,
    s: int,
    c: int,
    move_step: int,
    turn_step: int,
    tick_fp: int,
)
    requires
        !st.ls.running,
    ensures
        ({
            let r = tick_state(st, evs, s, c, move_step, turn_step, tick_fp);
            &&& !r.ls.running
            &&& r.cam == st.cam
            &&& r.time == st.time
        }),
        tick_outcome(st, evs) == TickOutcome::Stopped,
{
    lemma_stopped_survives_events(st.ls, evs);
}

/// `Stopped` is terminal: a stopped simulation is left exactly unchanged by
/// any number of further event-free ticks.
pub proof fn lemma_stopped_is_terminal(
    st: SimState,
    n: nat,
    s: int,
    c: int,
    move_step: int,
    turn_step: int,
    tick_fp: int,
)
    requires
        !st.ls.running,
    ensures
        ticks_idle(st, n, s, c, move_step, turn_step, tick_fp) == st,
    decreases n,
{
    if n > 0 {
        lemma_stopped_is_terminal(st, (n - 1) as nat, s, c, move_step, turn_step, tick_fp);
        assert(drain_events(st, Seq::<Event>::empty()) =~= st);
    }
}

} // verus!
