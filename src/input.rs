use vstd::prelude::*;

use crate::action::{ActionQueue, InputAction};
use crate::keycode::Keycode;
use crate::keymap::holds_key;
use crate::mode::Mode;
use crate::pointer::{committed_position, PointerAccumulator, PointerInfo, WindowInfo};

verus! {

/// The keys that end the polling loop when held together: Control, Super and Q.
pub open spec fn quit_requested(keys: Seq<Keycode>) -> bool {
    keys.contains(Keycode::Control) && keys.contains(Keycode::Super) && keys.contains(Keycode::Q)
}

/// `I` asks for `INSERT`.
pub open spec fn asks_insert(keys: Seq<Keycode>) -> bool {
    keys.contains(Keycode::I)
}

/// Escape with Control asks for `NORMAL`.
pub open spec fn asks_normal(keys: Seq<Keycode>) -> bool {
    keys.contains(Keycode::Escape) && keys.contains(Keycode::Control)
}

/// Whether the held keys ask for a mode, which is then to be stored.
pub open spec fn asks_mode(keys: Seq<Keycode>) -> bool {
    asks_insert(keys) || asks_normal(keys)
}

/// The mode after the held keys are taken into account: a request for
/// `NORMAL` is applied after one for `INSERT`, so it wins.
pub open spec fn mode_after(keys: Seq<Keycode>, stored: Mode) -> Mode {
    if asks_normal(keys) {
        Mode::NORMAL
    } else if asks_insert(keys) {
        Mode::INSERT
    } else {
        stored
    }
}

/// The coefficient chosen by the digit keys 1, 2 and 3 (the highest held one
/// wins), or `c` where none is held.
pub open spec fn coefficient_after(keys: Seq<Keycode>, c: int) -> int {
    if keys.contains(Keycode::Key3) {
        3
    } else if keys.contains(Keycode::Key2) {
        2
    } else if keys.contains(Keycode::Key1) {
        1
    } else {
        c
    }
}

/// The coefficient in force after a tick in `mode`: only `NORMAL` reads the
/// digit keys.
pub open spec fn tick_coefficient(keys: Seq<Keycode>, mode: Mode, c: int) -> int {
    match mode {
        Mode::NORMAL => coefficient_after(keys, c),
        Mode::INSERT => c,
    }
}

/// `c` where `k` is held, else nothing.
pub open spec fn step_if_held(keys: Seq<Keycode>, k: Keycode, c: int) -> int {
    if keys.contains(k) {
        c
    } else {
        0
    }
}

/// The pointer motion of a tick in `mode` with coefficient `c`: in `NORMAL`,
/// H moves left, L right, J down and K up, by `c` each; in `INSERT`, none.
pub open spec fn tick_motion(keys: Seq<Keycode>, mode: Mode, c: int) -> (int, int) {
    match mode {
        Mode::NORMAL => (
            step_if_held(keys, Keycode::L, c) - step_if_held(keys, Keycode::H, c),
            step_if_held(keys, Keycode::J, c) - step_if_held(keys, Keycode::K, c),
        ),
        Mode::INSERT => (0, 0),
    }
}

/// The actions a tick in `mode` enqueues: in `NORMAL`, a click where Space is
/// held, then the keyboard grab; in `INSERT`, the release of the grab.
pub open spec fn tick_actions(keys: Seq<Keycode>, mode: Mode) -> Seq<InputAction> {
    match mode {
        Mode::NORMAL => if keys.contains(Keycode::Space) {
            seq![InputAction::ClickMouse, InputAction::FreezeKeyboard]
        } else {
            seq![InputAction::FreezeKeyboard]
        },
        Mode::INSERT => seq![InputAction::UnfreezeKeyboard],
    }
}

/// What a tick that goes on hands back to the loop that drives the display.
pub struct TickOutput {
    /// The mode in force for this tick.
    pub mode: Mode,
    /// Whether `mode` is to be written to the durable flag.
    pub store_mode: bool,
    /// The actions to execute, oldest first.
    pub actions: Vec<InputAction>,
    /// The absolute position to move the pointer to.
    pub position: (i32, i32),
}

/// The outcome of one tick.
pub enum Tick {
    /// The quit keys are held: the loop ends, with nothing more sent to the display.
    Quit,
    /// The loop goes on after the display has done what the output asks.
    Run(TickOutput),
}

/// The controller's state between ticks: pending actions, pending pointer
/// motion and the movement coefficient.
pub struct Input {
    pointer: PointerAccumulator,
    queue: ActionQueue,
    coefficient: i32,
}

impl Input {
    /// The actions queued and not yet handed out.
    pub closed spec fn pending_actions(&self) -> Seq<InputAction> {
        self.queue@
    }

    /// The factor that scales the pointer motion of a key.
    pub closed spec fn movement_coefficient(&self) -> int {
        self.coefficient as int
    }

    /// The pointer motion gathered and not yet committed.
    pub closed spec fn pending_offset(&self) -> (int, int) {
        (self.pointer.x_offset as int, self.pointer.y_offset as int)
    }

    /// The state between ticks: a coefficient of 1, 2 or 3 and no pending motion.
    pub open spec fn wf(&self) -> bool {
        1 <= self.movement_coefficient() <= 3 && self.pending_offset() == (0int, 0int)
    }

    /// A controller with coefficient 1, nothing queued and no pending motion.
    pub fn new() -> (r: Input)
        ensures
            r.wf(),
            r.movement_coefficient() == 1,
            r.pending_actions() == Seq::<InputAction>::empty(),
    {
        Input { pointer: PointerAccumulator::new(), queue: ActionQueue::new(), coefficient: 1 }
    }

    /// The movement coefficient.
    pub fn coefficient(&self) -> (r: i32)
        ensures
            r == self.movement_coefficient(),
    {
        self.coefficient
    }

    /// Appends `action` behind the pending actions.
    pub fn queue_action(&mut self, action: InputAction)
        ensures
            final(self).pending_actions() == old(self).pending_actions().push(action),
            final(self).movement_coefficient() == old(self).movement_coefficient(),
            final(self).pending_offset() == old(self).pending_offset(),
    {
        self.queue.enqueue(action);
    }

    /// Hands out the pending actions oldest first and commits the pending
    /// motion against the pointer's current position and the screen bounds.
    /// Afterwards nothing is pending.
    pub fn update(&mut self, current: PointerInfo, bounds: WindowInfo) -> (r: (
        Vec<InputAction>,
        (i32, i32),
    ))
        requires
            bounds.wf(),
        ensures
            r.0@ == old(self).pending_actions(),
            (r.1.0 as int, r.1.1 as int) == committed_position(
                current,
                old(self).pending_offset().0,
                old(self).pending_offset().1,
                bounds,
            ),
            final(self).pending_actions() == Seq::<InputAction>::empty(),
            final(self).pending_offset() == (0int, 0int),
            final(self).movement_coefficient() == old(self).movement_coefficient(),
    {
        let actions = self.queue.drain();
        let position = self.pointer.commit(current, bounds);
        (actions, position)
    }

    /// One tick of the modal state machine on the held keys, the mode read
    /// from the durable flag, the pointer's current position and the screen
    /// bounds. The quit keys end the loop and change nothing. Otherwise the
    /// mode is updated from the keys; in `NORMAL` the digit keys choose the
    /// coefficient, H/L/J/K move the pointer, Space clicks and the keyboard is
    /// grabbed; in `INSERT` the grab is released and nothing moves. The
    /// actions are handed out and the motion committed.
    pub fn tick(
        &mut self,
        keys: &Vec<Keycode>,
        stored: Mode,
        current: PointerInfo,
        bounds: WindowInfo,
    ) -> (r: Tick)
        requires
            old(self).wf(),
            bounds.wf(),
        ensures
            final(self).wf(),
            match r {
                Tick::Quit => quit_requested(keys@) && *final(self) == *old(self),
                Tick::Run(out) => {
                    let mode = mode_after(keys@, stored);
                    let c = tick_coefficient(keys@, mode, old(self).movement_coefficient());
                    let motion = tick_motion(keys@, mode, c);
                    &&& !quit_requested(keys@)
                    &&& out.mode == mode
                    &&& out.store_mode == asks_mode(keys@)
                    &&& out.actions@ == old(self).pending_actions() + tick_actions(keys@, mode)
                    &&& (out.position.0 as int, out.position.1 as int) == committed_position(
                        current,
                        motion.0,
                        motion.1,
                        bounds,
                    )
                    &&& final(self).movement_coefficient() == c
                    &&& final(self).pending_actions() == Seq::<InputAction>::empty()
                },
            },
    {
        let control = holds_key(keys, Keycode::Control);
        if control && holds_key(keys, Keycode::Super) && holds_key(keys, Keycode::Q) {
            return Tick::Quit;
        }
        let ask_insert = holds_key(keys, Keycode::I);
        let ask_normal = holds_key(keys, Keycode::Escape) && control;
        let mut mode = stored;
        if ask_insert {
            mode = Mode::INSERT;
        }
        if ask_normal {
            mode = Mode::NORMAL;
        }
        let ghost before = self.queue@;
        match mode {
            Mode::NORMAL => {
                if holds_key(keys, Keycode::Key1) {
                    self.coefficient = 1;
                }
                if holds_key(keys, Keycode::Key2) {
                    self.coefficient = 2;
                }
                if holds_key(keys, Keycode::Key3) {
                    self.coefficient = 3;
                }
                let c = self.coefficient;
                if holds_key(keys, Keycode::H) {
                    self.pointer.accumulate(-c, 0);
                }
                if holds_key(keys, Keycode::L) {
                    self.pointer.accumulate(c, 0);
                }
                if holds_key(keys, Keycode::J) {
                    self.pointer.accumulate(0, c);
                }
                if holds_key(keys, Keycode::K) {
                    self.pointer.accumulate(0, -c);
                }
                if holds_key(keys, Keycode::Space) {
                    self.queue.enqueue(InputAction::ClickMouse);
                }
                self.queue.enqueue(InputAction::FreezeKeyboard);
            },
            Mode::INSERT => {
                self.queue.enqueue(InputAction::UnfreezeKeyboard);
            },
        }
        assert(self.queue@ =~= before + tick_actions(keys@, mode));
        let (actions, position) = self.update(current, bounds);
        Tick::Run(TickOutput { mode, store_mode: ask_insert || ask_normal, actions, position })
    }
}

} // verus!
