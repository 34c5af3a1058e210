//! The bounded line queue between the producers and the sink.
//!
//! Producers enqueue completed lines; one drain worker dequeues them oldest
//! first and writes them to the sink; at teardown the guard closes the queue
//! and writes whatever is left. The queue decides, the caller acts: it waits
//! where the queue says that a producer has to wait, and it writes what the
//! queue hands out.
//!
//! A full queue follows one of two policies. A blocking queue takes nothing
//! until a slot is free, and never loses a line. A lossy queue always takes
//! the line and evicts the oldest one to make room.

use std::collections::VecDeque;
use vstd::prelude::*;

verus! {

/// The state of a queue, as plain values.
pub struct QueueState {
    /// How many lines the queue holds at most.
    pub capacity: nat,
    /// Whether a full queue evicts its oldest line instead of making the
    /// producer wait.
    pub lossy: bool,
    /// Whether teardown has begun: a closed queue takes no line.
    pub closed: bool,
    /// The lines, oldest first.
    pub lines: Seq<Seq<char>>,
}

/// What became of a line that a producer enqueued, as plain values.
pub enum Outcome {
    /// The line was queued.
    Queued,
    /// The line was queued, and the oldest line was evicted to make room.
    Evicted(Seq<char>),
    /// The queue is full and does not lose lines: nothing was queued, and the
    /// producer has to wait until a slot is free.
    Blocked,
    /// Teardown has begun: nothing was queued, and waiting will not help.
    Closed,
}

impl QueueState {
    /// No line is held.
    pub open spec fn is_empty(self) -> bool {
        self.lines.len() == 0
    }

    /// No slot is free.
    pub open spec fn is_full(self) -> bool {
        self.lines.len() >= self.capacity
    }

    /// The capacity is positive and not exceeded, and a closed queue is
    /// empty.
    pub open spec fn well_formed(self) -> bool {
        &&& 0 < self.capacity
        &&& self.lines.len() <= self.capacity
        &&& self.closed ==> self.lines.len() == 0
    }

    /// What becomes of `line` when a producer enqueues it.
    pub open spec fn outcome(self, line: Seq<char>) -> Outcome {
        if self.closed {
            Outcome::Closed
        } else if !self.is_full() {
            Outcome::Queued
        } else if self.lossy {
            Outcome::Evicted(self.lines.first())
        } else {
            Outcome::Blocked
        }
    }

    /// The state after a producer has enqueued `line`.
    pub open spec fn after_enqueue(self, line: Seq<char>) -> QueueState {
        if self.closed {
            self
        } else if !self.is_full() {
            QueueState { lines: self.lines.push(line), ..self }
        } else if self.lossy {
            QueueState { lines: self.lines.drop_first().push(line), ..self }
        } else {
            self
        }
    }

    /// The state after the drain worker has taken the oldest line, if there
    /// was one.
    pub open spec fn after_dequeue(self) -> QueueState {
        if self.is_empty() {
            self
        } else {
            QueueState { lines: self.lines.drop_first(), ..self }
        }
    }

    /// The state after teardown has begun: closed and empty.
    pub open spec fn after_close(self) -> QueueState {
        QueueState { closed: true, lines: Seq::empty(), ..self }
    }
}

/// What became of a line that a producer enqueued.
pub enum Enqueued {
    /// The line was queued.
    Queued,
    /// The line was queued, and this line, the oldest, was evicted to make
    /// room.
    Evicted(String),
    /// The queue is full and does not lose lines. Nothing was queued; the
    /// line is handed back, and the producer has to wait until a slot is free.
    Blocked(String),
    /// Teardown has begun. Nothing was queued; the line is handed back.
    Closed(String),
}

impl Enqueued {
    /// The outcome as plain values.
    pub open spec fn outcome(&self) -> Outcome {
        match self {
            Enqueued::Queued => Outcome::Queued,
            Enqueued::Evicted(oldest) => Outcome::Evicted(oldest@),
            Enqueued::Blocked(_) => Outcome::Blocked,
            Enqueued::Closed(_) => Outcome::Closed,
        }
    }
}

/// The texts of a sequence of lines.
pub open spec fn texts_of(lines: Seq<String>) -> Seq<Seq<char>> {
    Seq::new(lines.len(), |i: int| lines[i]@)
}

/// A bounded queue of lines with a fixed policy for the full queue.
pub struct WriterQueue {
    capacity: usize,
    lossy: bool,
    closed: bool,
    lines: VecDeque<String>,
}

impl View for WriterQueue {
    type V = QueueState;

    closed spec fn view(&self) -> QueueState {
        QueueState {
            capacity: self.capacity as nat,
            lossy: self.lossy,
            closed: self.closed,
            lines: texts_of(self.lines@),
        }
    }
}

impl WriterQueue {
    /// What every queue satisfies: its capacity is positive and not
    /// exceeded, and once closed it is empty.
    #[verifier::type_invariant]
    pub open spec fn well_formed(&self) -> bool {
        self@.well_formed()
    }

    /// An open, empty queue for at most `capacity` lines. There is no queue
    /// without a slot.
    pub fn new(capacity: usize, lossy: bool) -> (queue: Option<WriterQueue>)
        ensures
            queue is Some == (capacity > 0),
            queue matches Some(q) ==> q@ == (QueueState {
                capacity: capacity as nat,
                lossy,
                closed: false,
                lines: Seq::empty(),
            }),
    {
        if capacity == 0 {
            return None;
        }
        let lines: VecDeque<String> = VecDeque::new();
        assert(texts_of(lines@) =~= Seq::<Seq<char>>::empty());
        Some(WriterQueue { capacity, lossy, closed: false, lines })
    }

    /// How many lines the queue holds at most.
    pub fn capacity(&self) -> (capacity: usize)
        ensures
            capacity == self@.capacity,
            capacity > 0,
    {
        proof {
            use_type_invariant(self);
        }
        self.capacity
    }

    /// Whether a full queue evicts its oldest line.
    pub fn is_lossy(&self) -> (lossy: bool)
        ensures
            lossy == self@.lossy,
    {
        self.lossy
    }

    /// Whether teardown has begun.
    pub fn is_closed(&self) -> (closed: bool)
        ensures
            closed == self@.closed,
    {
        self.closed
    }

    /// How many lines are queued.
    pub fn len(&self) -> (n: usize)
        ensures
            n == self@.lines.len(),
            n <= self@.capacity,
    {
        proof {
            use_type_invariant(self);
        }
        self.lines.len()
    }

    /// Whether no line is queued.
    pub fn is_empty(&self) -> (empty: bool)
        ensures
            empty == self@.is_empty(),
    {
        self.lines.len() == 0
    }

    /// Whether no slot is free.
    pub fn is_full(&self) -> (full: bool)
        ensures
            full == self@.is_full(),
    {
        self.lines.len() >= self.capacity
    }

    /// Enqueues `line` for a producer. A queue with a free slot takes it. A
    /// full lossy queue takes it too and hands out the oldest line, which is
    /// lost. A full blocking queue takes nothing and hands the line back, and
    /// so does a closed queue.
    pub fn enqueue(&mut self, line: String) -> (enqueued: Enqueued)
        ensures
            final(self)@ == old(self)@.after_enqueue(line@),
            enqueued.outcome() == old(self)@.outcome(line@),
            enqueued matches Enqueued::Blocked(back) ==> back == line,
            enqueued matches Enqueued::Closed(back) ==> back == line,
    {
        proof {
            use_type_invariant(&*self);
        }
        if self.closed {
            return Enqueued::Closed(line);
        }
        let full = self.lines.len() >= self.capacity;
        if full && !self.lossy {
            return Enqueued::Blocked(line);
        }
        let mut lines: VecDeque<String> = VecDeque::new();
        assert(texts_of(lines@) =~= Seq::<Seq<char>>::empty());
        core::mem::swap(&mut self.lines, &mut lines);
        let ghost before = texts_of(lines@);
        let evicted = if full {
            lines.pop_front()
        } else {
            None
        };
        lines.push_back(line);
        proof {
            if full {
                assert(texts_of(lines@) =~= before.drop_first().push(line@));
            } else {
                assert(texts_of(lines@) =~= before.push(line@));
            }
        }
        core::mem::swap(&mut self.lines, &mut lines);
        match evicted {
            Some(oldest) => Enqueued::Evicted(oldest),
            None => Enqueued::Queued,
        }
    }

    /// Takes the oldest line for the drain worker, if there is one.
    pub fn dequeue(&mut self) -> (line: Option<String>)
        ensures
            final(self)@ == old(self)@.after_dequeue(),
            line is Some == !old(self)@.is_empty(),
            line matches Some(oldest) ==> oldest@ == old(self)@.lines.first(),
    {
        proof {
            use_type_invariant(&*self);
        }
        let mut lines: VecDeque<String> = VecDeque::new();
        assert(texts_of(lines@) =~= Seq::<Seq<char>>::empty());
        core::mem::swap(&mut self.lines, &mut lines);
        let ghost before = texts_of(lines@);
        let line = lines.pop_front();
        proof {
            if line is Some {
                assert(texts_of(lines@) =~= before.drop_first());
            }
        }
        core::mem::swap(&mut self.lines, &mut lines);
        line
    }

    /// Begins teardown: closes the queue and takes every queued line, oldest
    /// first, for the guard to write to the sink. From here on the queue
    /// takes no line.
    pub fn close(&mut self) -> (flushed: Vec<String>)
        ensures
            final(self)@ == old(self)@.after_close(),
            flushed@.len() == old(self)@.lines.len(),
            forall|i: int|
                0 <= i < flushed@.len() ==> (#[trigger] flushed@[i])@ == old(self)@.lines[i],
    {
        proof {
            use_type_invariant(&*self);
        }
        let mut lines: VecDeque<String> = VecDeque::new();
        assert(texts_of(lines@) =~= Seq::<Seq<char>>::empty());
        core::mem::swap(&mut self.lines, &mut lines);
        let ghost before = texts_of(lines@);
        let mut flushed: Vec<String> = Vec::new();
        loop
            invariant
                texts_of(flushed@) + texts_of(lines@) == before,
            ensures
                lines@.len() == 0,
            decreases lines@.len(),
        {
            let ghost queued = texts_of(lines@);
            let ghost written = texts_of(flushed@);
            match lines.pop_front() {
                Some(line) => {
                    flushed.push(line);
                    proof {
                        assert(texts_of(flushed@) =~= written.push(queued.first()));
                        assert(texts_of(lines@) =~= queued.drop_first());
                        assert(written.push(queued.first()) + queued.drop_first() =~= written
                            + queued);
                    }
                },
                None => {
                    break ;
                },
            }
        }
        proof {
            assert(texts_of(flushed@) =~= before);
        }
        self.closed = true;
        flushed
    }
}

// ---------------------------------------------------------------------------
// Runs: a queue, its sink, and what happens to them
// ---------------------------------------------------------------------------

/// One thing that happens to a queue and its sink.
pub enum Step {
    /// A producer enqueues a line.
    Enqueue(Seq<char>),
    /// The drain worker takes the oldest line and writes it to the sink.
    Drain,
    /// Teardown begins: the guard closes the queue and writes every queued
    /// line to the sink.
    Teardown,
}

/// A queue together with the history of its lines.
pub struct Run {
    pub queue: QueueState,
    /// The lines that the queue took from producers, in the order in which
    /// it took them. A line that met a full blocking queue is not among
    /// them until its producer has enqueued it again with success; a line
    /// that met a closed queue never is.
    pub taken: Seq<Seq<char>>,
    /// The lines written to the sink, in order.
    pub sink: Seq<Seq<char>>,
    /// The lines evicted by a full lossy queue, in order.
    pub evicted: Seq<Seq<char>>,
}

impl Run {
    /// The run of a new queue: nothing taken, written or evicted yet.
    pub open spec fn start(capacity: nat, lossy: bool) -> Run {
        Run {
            queue: QueueState { capacity, lossy, closed: false, lines: Seq::empty() },
            taken: Seq::empty(),
            sink: Seq::empty(),
            evicted: Seq::empty(),
        }
    }

    /// The run after `step`.
    pub open spec fn after(self, step: Step) -> Run {
        match step {
            Step::Enqueue(line) => Run {
                queue: self.queue.after_enqueue(line),
                taken: match self.queue.outcome(line) {
                    Outcome::Blocked | Outcome::Closed => self.taken,
                    _ => self.taken.push(line),
                },
                sink: self.sink,
                evicted: match self.queue.outcome(line) {
                    Outcome::Evicted(oldest) => self.evicted.push(oldest),
                    _ => self.evicted,
                },
            },
            Step::Drain => Run {
                queue: self.queue.after_dequeue(),
                taken: self.taken,
                sink: if self.queue.is_empty() {
                    self.sink
                } else {
                    self.sink.push(self.queue.lines.first())
                },
                evicted: self.evicted,
            },
            Step::Teardown => Run {
                queue: self.queue.after_close(),
                taken: self.taken,
                sink: self.sink + self.queue.lines,
                evicted: self.evicted,
            },
        }
    }

    /// The run after each of `steps` in turn.
    pub open spec fn after_all(self, steps: Seq<Step>) -> Run
        decreases steps.len(),
    {
        if steps.len() == 0 {
            self
        } else {
            self.after_all(steps.drop_last()).after(steps.last())
        }
    }
}

/// The steps in which one producer enqueues `lines` in order while the drain
/// worker is paused.
pub open spec fn enqueue_steps(lines: Seq<Seq<char>>) -> Seq<Step> {
    Seq::new(lines.len(), |i: int| Step::Enqueue(lines[i]))
}

/// Whatever happens, a queue keeps its settings and never holds more lines
/// than its capacity.
pub proof fn lemma_run_well_formed(capacity: nat, lossy: bool, steps: Seq<Step>)
    requires
        capacity > 0,
    ensures
        Run::start(capacity, lossy).after_all(steps).queue.well_formed(),
        Run::start(capacity, lossy).after_all(steps).queue.capacity == capacity,
        Run::start(capacity, lossy).after_all(steps).queue.lossy == lossy,
    decreases steps.len(),
{
    if steps.len() > 0 {
        lemma_run_well_formed(capacity, lossy, steps.drop_last());
    }
}

/// A blocking queue loses nothing and keeps the order: at every moment the
/// lines in the sink followed by the lines in the queue are the lines taken
/// from the producers, in the order in which they were taken.
pub proof fn lemma_blocking_run_keeps_every_line(capacity: nat, steps: Seq<Step>)
    requires
        capacity > 0,
    ensures
        ({
            let run = Run::start(capacity, false).after_all(steps);
            run.sink + run.queue.lines == run.taken && run.evicted.len() == 0
        }),
    decreases steps.len(),
{
    let start = Run::start(capacity, false);
    if steps.len() == 0 {
        assert(start.sink + start.queue.lines =~= start.taken);
    } else {
        let before = start.after_all(steps.drop_last());
        let run = before.after(steps.last());
        lemma_blocking_run_keeps_every_line(capacity, steps.drop_last());
        lemma_run_well_formed(capacity, false, steps.drop_last());
        match steps.last() {
            Step::Enqueue(line) => {
                if !before.queue.closed && !before.queue.is_full() {
                    assert(run.sink + run.queue.lines =~= (before.sink + before.queue.lines).push(
                        line,
                    ));
                }
            },
            Step::Drain => {
                if !before.queue.is_empty() {
                    assert(run.sink + run.queue.lines =~= before.sink + before.queue.lines);
                }
            },
            Step::Teardown => {
                assert(run.sink + run.queue.lines =~= before.sink + before.queue.lines);
            },
        }
    }
}

/// Teardown delivers: once teardown has begun, the queue of a blocking
/// writer is closed and empty, and the sink holds every line that the queue
/// had taken before, in order, however far the drain worker had fallen
/// behind. Whatever is tried afterwards changes neither.
pub proof fn lemma_teardown_delivers_every_line(
    capacity: nat,
    before: Seq<Step>,
    afterwards: Seq<Step>,
)
    requires
        capacity > 0,
    ensures
        ({
            let run = Run::start(capacity, false).after_all(before);
            let end = run.after(Step::Teardown).after_all(afterwards);
            end.sink == run.taken && end.taken == run.taken && end.queue.closed
                && end.queue.is_empty()
        }),
    decreases afterwards.len(),
{
    lemma_blocking_run_keeps_every_line(capacity, before);
    if afterwards.len() > 0 {
        lemma_teardown_delivers_every_line(capacity, before, afterwards.drop_last());
        let run = Run::start(capacity, false).after_all(before);
        let earlier = run.after(Step::Teardown).after_all(afterwards.drop_last());
        assert(earlier.sink + earlier.queue.lines =~= earlier.sink);
    }
}

/// A lossy queue accounts for every line: each line taken is in the sink, in
/// the queue, or among the evicted.
pub proof fn lemma_lossy_run_counts_every_line(capacity: nat, steps: Seq<Step>)
    requires
        capacity > 0,
    ensures
        ({
            let run = Run::start(capacity, true).after_all(steps);
            run.taken.len() == run.sink.len() + run.queue.lines.len() + run.evicted.len()
        }),
    decreases steps.len(),
{
    if steps.len() > 0 {
        lemma_lossy_run_counts_every_line(capacity, steps.drop_last());
        lemma_run_well_formed(capacity, true, steps.drop_last());
    }
}

/// While the drain worker is paused, a new queue takes as many lines as it
/// has slots, whatever its policy: each is queued, none is evicted, and the
/// queue holds them in order.
pub proof fn lemma_queue_fills(capacity: nat, lossy: bool, lines: Seq<Seq<char>>)
    requires
        capacity > 0,
        lines.len() <= capacity,
    ensures
        ({
            let run = Run::start(capacity, lossy).after_all(enqueue_steps(lines));
            &&& run.queue == (QueueState { capacity, lossy, closed: false, lines })
            &&& run.taken == lines
            &&& run.sink.len() == 0
            &&& run.evicted.len() == 0
        }),
    decreases lines.len(),
{
    let start = Run::start(capacity, lossy);
    if lines.len() == 0 {
        assert(start.queue.lines =~= lines);
        assert(start.taken =~= lines);
    } else {
        let earlier = lines.drop_last();
        lemma_queue_fills(capacity, lossy, earlier);
        assert(enqueue_steps(lines).drop_last() =~= enqueue_steps(earlier));
        assert(enqueue_steps(lines).last() == Step::Enqueue(lines.last()));
        assert(earlier.push(lines.last()) =~= lines);
    }
}

/// A full blocking queue makes the producer wait: the line is not taken and
/// nothing changes, and once the drain worker has taken one line, the same
/// line is queued.
pub proof fn lemma_full_blocking_queue_waits_for_a_slot(queue: QueueState, line: Seq<char>)
    requires
        queue.well_formed(),
        !queue.closed,
        queue.is_full(),
        !queue.lossy,
    ensures
        queue.outcome(line) == Outcome::Blocked,
        queue.after_enqueue(line) == queue,
        queue.after_dequeue().outcome(line) == Outcome::Queued,
        queue.after_dequeue().after_enqueue(line).lines == queue.lines.drop_first().push(line),
{
}

/// A full lossy queue never makes the producer wait: the line is queued
/// behind the others, exactly one line is evicted, and it is the oldest.
pub proof fn lemma_full_lossy_queue_evicts_the_oldest(queue: QueueState, line: Seq<char>)
    requires
        queue.well_formed(),
        !queue.closed,
        queue.is_full(),
        queue.lossy,
    ensures
        queue.outcome(line) == Outcome::Evicted(queue.lines[0]),
        queue.after_enqueue(line).lines == queue.lines.drop_first().push(line),
        queue.after_enqueue(line).lines.len() == queue.lines.len(),
        queue.after_enqueue(line).lines.last() == line,
        forall|i: int|
            1 <= i < queue.lines.len() ==> queue.after_enqueue(line).lines[i - 1]
                == #[trigger] queue.lines[i],
{
}

/// One line more than the queue has slots, enqueued while the drain worker
/// is paused: the last line meets a full queue that holds all the others.
pub proof fn lemma_one_line_too_many(capacity: nat, lossy: bool, lines: Seq<Seq<char>>)
    requires
        capacity > 0,
        lines.len() == capacity + 1,
    ensures
        ({
            let full = Run::start(capacity, lossy).after_all(enqueue_steps(lines.drop_last()));
            let end = Run::start(capacity, lossy).after_all(enqueue_steps(lines));
            &&& full.queue.is_full()
            &&& full.queue.lines == lines.drop_last()
            &&& end == full.after(Step::Enqueue(lines.last()))
            &&& !lossy ==> end == full
            &&& lossy ==> end.queue.lines == lines.drop_first() && end.evicted == seq![lines[0]]
                && end.taken == lines
        }),
{
    let earlier = lines.drop_last();
    lemma_queue_fills(capacity, lossy, earlier);
    assert(enqueue_steps(lines).drop_last() =~= enqueue_steps(earlier));
    assert(enqueue_steps(lines).last() == Step::Enqueue(lines.last()));
    let full = Run::start(capacity, lossy).after_all(enqueue_steps(earlier));
    let end = full.after(Step::Enqueue(lines.last()));
    if lossy {
        assert(end.queue.lines =~= lines.drop_first());
        assert(end.evicted =~= seq![lines[0]]);
        assert(end.taken =~= lines);
    }
}

} // verus!
