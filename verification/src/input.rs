use vstd::prelude::*;

verus! {

/// The lossless FIFO queue carrying translated input events from the
/// render loop back to the producer. Unlike the scene mailbox it never
/// overwrites: every pushed event is observed, in arrival order.
///
/// The queue is a sequential value over an arbitrary event type; the two
/// sides share it under a mutual-exclusion lock owned by the embedding
/// program, which is also where a shared handle is cloned.
#[derive(Debug)]
pub struct PistonVisualiserInputProvider<E> {
    input_queue: Vec<E>,
}

impl<E> View for PistonVisualiserInputProvider<E> {
    type V = Seq<E>;

    closed spec fn view(&self) -> Seq<E> {
        self.input_queue@
    }
}

impl<E> PistonVisualiserInputProvider<E> {
    /// A fresh, empty queue.
    pub fn new() -> (q: Self)
        ensures
            q@ == Seq::<E>::empty(),
    {
        PistonVisualiserInputProvider { input_queue: Vec::new() }
    }

    /// Appends one event at the back.
    pub fn push_back(&mut self, input: E)
        ensures
            final(self)@ == old(self)@.push(input),
    {
        self.input_queue.push(input);
    }

    /// Discards every queued event.
    pub fn clear(&mut self)
        ensures
            final(self)@ == Seq::<E>::empty(),
    {
        self.input_queue.clear();
    }

    /// The front event, if any, without removing it.
    pub fn peek(&self) -> (r: Option<&E>)
        ensures
            r is Some <==> self@.len() > 0,
            r matches Some(e) ==> *e == self@[0],
    {
        if self.input_queue.len() > 0 {
            Some(&self.input_queue[0])
        } else {
            None
        }
    }

    /// Removes and returns the front event, if any.
    pub fn pop(&mut self) -> (r: Option<E>)
        ensures
            old(self)@.len() == 0 ==> r is None && final(self)@ == old(self)@,
            old(self)@.len() > 0 ==> r == Some(old(self)@[0]) && final(self)@ == old(
                self,
            )@.subrange(1, old(self)@.len() as int),
    {
        if self.input_queue.len() > 0 {
            Some(self.input_queue.remove(0))
        } else {
            None
        }
    }

    /// Removes and returns every queued event, in arrival order.
    pub fn pop_all(&mut self) -> (r: Vec<E>)
        ensures
            r@ == old(self)@,
            final(self)@ == Seq::<E>::empty(),
    {
        let mut r: Vec<E> = Vec::new();
        core::mem::swap(&mut self.input_queue, &mut r);
        r
    }
}

impl<E> Default for PistonVisualiserInputProvider<E> {
    /// The default queue is empty.
    fn default() -> (q: Self)
        ensures
            q@ == Seq::<E>::empty(),
    {
        PistonVisualiserInputProvider::new()
    }
}

/// Law: three events pushed in order are popped in the same order by a
/// single `pop_all`, which leaves the queue empty; `clear` also leaves it
/// empty.
pub proof fn lemma_queue_fifo_order<E>(q: Seq<E>, e1: E, e2: E, e3: E)
    ensures
        q.push(e1).push(e2).push(e3) == q + seq![e1, e2, e3],
        q.len() == 0 ==> q.push(e1).push(e2).push(e3) =~= seq![e1, e2, e3],
{
    assert(q.push(e1).push(e2).push(e3) =~= q + seq![e1, e2, e3]);
}

} // verus!
