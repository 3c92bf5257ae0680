use vstd::prelude::*;

verus! {

/// A side effect that a tick asks of the display.
#[derive(Debug, Copy, Clone, PartialEq, Eq, Structural)]
pub enum InputAction {
    NoAction,
    ClickMouse,
    ScrollMouse,
    FreezeKeyboard,
    UnfreezeKeyboard,
}

/// Pending actions, oldest first: they leave in the order they came in.
pub struct ActionQueue {
    actions: Vec<InputAction>,
}

impl View for ActionQueue {
    type V = Seq<InputAction>;

    closed spec fn view(&self) -> Seq<InputAction> {
        self.actions@
    }
}

impl ActionQueue {
    /// An empty queue.
    pub fn new() -> (r: ActionQueue)
        ensures
            r@ == Seq::<InputAction>::empty(),
    {
        ActionQueue { actions: Vec::new() }
    }

    /// Number of pending actions.
    pub fn len(&self) -> (r: usize)
        ensures
            r == self@.len(),
    {
        self.actions.len()
    }

    /// Appends `action` behind every pending one.
    pub fn enqueue(&mut self, action: InputAction)
        ensures
            final(self)@ == old(self)@.push(action),
    {
        self.actions.push(action);
    }

    /// Removes every pending action and hands them out oldest first, which is
    /// the order they are to be executed in. The queue is empty afterwards.
    pub fn drain(&mut self) -> (r: Vec<InputAction>)
        ensures
            r@ == old(self)@,
            final(self)@ == Seq::<InputAction>::empty(),
    {
        let mut out: Vec<InputAction> = Vec::new();
        std::mem::swap(&mut out, &mut self.actions);
        out
    }
}

/// Two actions enqueued one after the other leave behind every action that
/// was pending before them, and in the order they were enqueued.
pub proof fn lemma_queue_fifo(pending: Seq<InputAction>, first: InputAction, second: InputAction)
    ensures
        pending.push(first).push(second) == pending + seq![first, second],
        pending.push(first).push(second)[pending.len() as int] == first,
        pending.push(first).push(second)[pending.len() as int + 1] == second,
{
    assert(pending.push(first).push(second) =~= pending + seq![first, second]);
}

} // verus!
