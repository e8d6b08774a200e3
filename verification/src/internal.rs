//! The logging pipeline core: the command queue, the dispatch loop and
//! the owning [`Logger`] facade.
//!
//! Producers turn records into [`Command`]s on a bounded queue; the
//! dispatch side pops commands in arrival order and fans each record
//! out to every handler in order. A `Flush` therefore observes every
//! record queued before it. In the threaded runtime around the library
//! the dispatch side runs on one background thread; here the pipeline
//! is the sequential state machine of that worker, with the producer
//! draining the queue in the worker's stead wherever a threaded
//! producer would block (backpressure) or wait (flush).

use crate::builder::Builder;
use crate::handler::{Flag, HandlerKind};
use crate::level::LevelFilter;
use crate::log_msg::LogMsg;
use vstd::prelude::*;

verus! {

/// The default capacity of the command queue, in commands.
pub const BUF_SIZE: usize = 16;

/// The largest accepted command-queue capacity.
pub const MAX_BUF_SIZE: usize = 0x1000000;

/// A command sent through the bounded queue to the dispatch side.
///
/// Commands serialize ordering: a `Flush` observes every record queued
/// before it, and `Terminate` ends dispatch after everything earlier.
pub enum Command {
    /// Persist every handler's buffered output.
    Flush,
    /// Fan this record out to every handler.
    Log(LogMsg),
    /// End dispatch.
    Terminate,
}

/// A record carried by a command is well formed.
pub open spec fn cmd_wf(c: Command) -> bool {
    match c {
        Command::Log(m) => m.wf(),
        _ => true,
    }
}

/// `b` holds the same record as `a`: equal body, location, time and
/// level. A copy made for the queue is similar to the record it was
/// made from.
pub open spec fn similar(a: LogMsg, b: LogMsg) -> bool {
    &&& a.body() == b.body()
    &&& a.spec_location() == b.spec_location()
    &&& a.spec_time() == b.spec_time()
    &&& a.spec_level() == b.spec_level()
}

#[verifier::external_type_specification]
#[verifier::external_body]
#[verifier::reject_recursive_types(T)]
pub struct ExArrayQueue<T>(crossbeam_queue::ArrayQueue<T>);

/// The commands a queue holds, oldest first. Named, not defined: the
/// queue is the outside crate's, and its wrappers below say how each
/// call moves this sequence.
pub uninterp spec fn queue_contents(q: crossbeam_queue::ArrayQueue<Command>) -> Seq<Command>;

/// The fixed capacity a queue was made with.
pub uninterp spec fn queue_capacity(q: crossbeam_queue::ArrayQueue<Command>) -> usize;

/// Relies on `crossbeam_queue::ArrayQueue::new`: makes an empty queue
/// of the given capacity; it panics on a zero (or absurdly large)
/// capacity, which the precondition rules out.
#[verifier::external_body]
fn cq_new(cap: usize) -> (r: crossbeam_queue::ArrayQueue<Command>)
    requires
        1 <= cap <= MAX_BUF_SIZE,
    ensures
        queue_contents(r) == Seq::<Command>::empty(),
        queue_capacity(r) == cap,
{
    crossbeam_queue::ArrayQueue::new(cap)
}

/// Relies on `crossbeam_queue::ArrayQueue::push_mut`: appends the value
/// as the newest element, or hands it back unchanged when the queue is
/// full.
#[verifier::external_body]
fn cq_push(q: &mut crossbeam_queue::ArrayQueue<Command>, value: Command) -> (r: Result<
    (),
    Command,
>)
    ensures
        queue_capacity(*final(q)) == queue_capacity(*old(q)),
        queue_contents(*old(q)).len() < queue_capacity(*old(q)) ==> r is Ok && queue_contents(
            *final(q),
        ) == queue_contents(*old(q)).push(value),
        queue_contents(*old(q)).len() >= queue_capacity(*old(q)) ==> (r matches Err(v) && v
            == value) && queue_contents(*final(q)) == queue_contents(*old(q)),
{
    q.push_mut(value)
}

/// Relies on `crossbeam_queue::ArrayQueue::pop_mut`: removes and
/// returns the oldest element, or `None` when the queue is empty.
#[verifier::external_body]
fn cq_pop(q: &mut crossbeam_queue::ArrayQueue<Command>) -> (r: Option<Command>)
    ensures
        queue_capacity(*final(q)) == queue_capacity(*old(q)),
        queue_contents(*old(q)).len() == 0 ==> r is None && queue_contents(*final(q))
            == queue_contents(*old(q)),
        queue_contents(*old(q)).len() > 0 ==> (r matches Some(v) && v == queue_contents(
            *old(q),
        )[0]) && queue_contents(*final(q)) == queue_contents(*old(q)).drop_first(),
{
    q.pop_mut()
}

/// Relies on `crossbeam_queue::ArrayQueue::len`: the number of elements
/// the queue holds.
#[verifier::external_body]
fn cq_len(q: &crossbeam_queue::ArrayQueue<Command>) -> (r: usize)
    ensures
        r == queue_contents(*q).len(),
{
    q.len()
}

/// How one command moves the ordered handler list from `a` to `b`: a
/// record is written to every handler, a flush flushes every handler,
/// and `Terminate` changes nothing.
pub open spec fn step_rel(a: Seq<HandlerKind>, b: Seq<HandlerKind>, cmd: Command) -> bool {
    &&& b.len() == a.len()
    &&& match cmd {
        Command::Log(m) => forall|i: int|
            0 <= i < a.len() ==> #[trigger] HandlerKind::write_rel(a[i], b[i], m),
        Command::Flush => forall|i: int|
            0 <= i < a.len() ==> #[trigger] HandlerKind::flush_rel(a[i], b[i]),
        Command::Terminate => b == a,
    }
}

/// How a whole sequence of commands moves the handler list from `a` to
/// `b`: the commands act one after the other, in order.
pub open spec fn run_rel(a: Seq<HandlerKind>, b: Seq<HandlerKind>, cmds: Seq<Command>) -> bool
    decreases cmds.len(),
{
    if cmds.len() == 0 {
        b == a
    } else {
        exists|mid: Seq<HandlerKind>|
            #[trigger] step_rel(a, mid, cmds[0]) && run_rel(mid, b, cmds.drop_first())
    }
}

/// Acting by `cmds` and then by one more command is acting by
/// `cmds.push(cmd)`.
pub proof fn lemma_run_rel_snoc(
    a: Seq<HandlerKind>,
    b: Seq<HandlerKind>,
    c: Seq<HandlerKind>,
    cmds: Seq<Command>,
    cmd: Command,
)
    requires
        run_rel(a, b, cmds),
        step_rel(b, c, cmd),
    ensures
        run_rel(a, c, cmds.push(cmd)),
    decreases cmds.len(),
{
    let snoc = cmds.push(cmd);
    if cmds.len() == 0 {
        assert(b == a);
        assert(snoc[0] == cmd);
        assert(snoc.drop_first() =~= Seq::<Command>::empty());
        assert(step_rel(a, c, snoc[0]));
        assert(run_rel(c, c, snoc.drop_first()));
    } else {
        let mid = choose|mid: Seq<HandlerKind>|
            #[trigger] step_rel(a, mid, cmds[0]) && run_rel(mid, b, cmds.drop_first());
        lemma_run_rel_snoc(mid, b, c, cmds.drop_first(), cmd);
        assert(snoc[0] == cmds[0]);
        assert(snoc.drop_first() =~= cmds.drop_first().push(cmd));
        assert(step_rel(a, mid, snoc[0]) && run_rel(mid, c, snoc.drop_first()));
    }
}

/// Acting by a single command is one step.
pub proof fn lemma_run_rel_single(a: Seq<HandlerKind>, b: Seq<HandlerKind>, cmd: Command)
    requires
        run_rel(a, b, seq![cmd]),
    ensures
        step_rel(a, b, cmd),
{
    let cmds = seq![cmd];
    let mid = choose|mid: Seq<HandlerKind>|
        #[trigger] step_rel(a, mid, cmds[0]) && run_rel(mid, b, cmds.drop_first());
    assert(cmds.drop_first() =~= Seq::<Command>::empty());
    assert(b == mid);
}

/// The dispatch side: the ordered handler list and the stdout flag,
/// executing commands one at a time.
pub struct Thread {
    handlers: Vec<HandlerKind>,
    enable_stdout: Flag,
}

impl Thread {
    /// The ordered handler list, at the specification level.
    pub closed spec fn handlers(self) -> Seq<HandlerKind> {
        self.handlers@
    }

    /// The stdout flag value, at the specification level.
    pub closed spec fn spec_enable_stdout(self) -> bool {
        self.enable_stdout.spec_enabled()
    }

    /// Every handler satisfies its own invariant.
    pub open spec fn wf(self) -> bool {
        forall|i: int| 0 <= i < self.handlers().len() ==> (#[trigger] self.handlers()[i]).wf()
    }

    /// Creates the dispatch side over an ordered handler list.
    pub fn new(handlers: Vec<HandlerKind>, enable_stdout: Flag) -> (r: Thread)
        requires
            forall|i: int| 0 <= i < handlers@.len() ==> (#[trigger] handlers@[i]).wf(),
        ensures
            r.wf(),
            r.handlers() == handlers@,
            r.spec_enable_stdout() == enable_stdout.spec_enabled(),
    {
        Thread { handlers, enable_stdout }
    }

    /// Installs every handler, in order, handing each the stdout flag.
    pub fn install_all(&mut self)
        requires
            old(self).wf(),
        ensures
            final(self).wf(),
            final(self).spec_enable_stdout() == old(self).spec_enable_stdout(),
            final(self).handlers().len() == old(self).handlers().len(),
            forall|i: int|
                0 <= i < old(self).handlers().len() ==> #[trigger] HandlerKind::install_rel(
                    old(self).handlers()[i],
                    final(self).handlers()[i],
                    old(self).spec_enable_stdout(),
                ),
    {
        let flag = self.enable_stdout;
        let n = self.handlers.len();
        let mut i: usize = 0;
        while i < n
            invariant
                n == self.handlers@.len() == old(self).handlers().len(),
                0 <= i <= n,
                self.enable_stdout == old(self).enable_stdout,
                flag == old(self).enable_stdout,
                forall|j: int| i <= j < n ==> self.handlers@[j] == old(self).handlers()[j],
                forall|j: int| 0 <= j < n ==> (#[trigger] self.handlers@[j]).wf(),
                forall|j: int|
                    0 <= j < i ==> #[trigger] HandlerKind::install_rel(
                        old(self).handlers()[j],
                        self.handlers@[j],
                        old(self).spec_enable_stdout(),
                    ),
            decreases n - i,
        {
            let mut h = HandlerKind::Std(StdDummy::make());
            vstd::pervasive::VecAdditionalExecFns::set_and_swap(&mut self.handlers, i, &mut h);
            h.install(&flag);
            vstd::pervasive::VecAdditionalExecFns::set_and_swap(&mut self.handlers, i, &mut h);
            i = i + 1;
        }
    }

    /// Forwards a new stdout-enable value to the flag and to every
    /// handler.
    pub fn set_stdout(&mut self, flag: bool)
        requires
            old(self).wf(),
        ensures
            final(self).wf(),
            final(self).spec_enable_stdout() == flag,
            final(self).handlers().len() == old(self).handlers().len(),
            forall|i: int|
                0 <= i < old(self).handlers().len() ==> #[trigger] HandlerKind::set_stdout_rel(
                    old(self).handlers()[i],
                    final(self).handlers()[i],
                    flag,
                ),
    {
        self.enable_stdout.set(flag);
        let n = self.handlers.len();
        let mut i: usize = 0;
        while i < n
            invariant
                n == self.handlers@.len() == old(self).handlers().len(),
                0 <= i <= n,
                self.enable_stdout.spec_enabled() == flag,
                forall|j: int| i <= j < n ==> self.handlers@[j] == old(self).handlers()[j],
                forall|j: int| 0 <= j < n ==> (#[trigger] self.handlers@[j]).wf(),
                forall|j: int|
                    0 <= j < i ==> #[trigger] HandlerKind::set_stdout_rel(
                        old(self).handlers()[j],
                        self.handlers@[j],
                        flag,
                    ),
            decreases n - i,
        {
            let mut h = HandlerKind::Std(StdDummy::make());
            vstd::pervasive::VecAdditionalExecFns::set_and_swap(&mut self.handlers, i, &mut h);
            h.set_stdout(flag);
            vstd::pervasive::VecAdditionalExecFns::set_and_swap(&mut self.handlers, i, &mut h);
            i = i + 1;
        }
    }

    /// Executes one command against every handler, in order, and says
    /// whether dispatch should end.
    pub fn exec_command(&mut self, cmd: Command) -> (exit: bool)
        requires
            old(self).wf(),
            cmd_wf(cmd),
        ensures
            final(self).wf(),
            exit == (cmd is Terminate),
            final(self).spec_enable_stdout() == old(self).spec_enable_stdout(),
            step_rel(old(self).handlers(), final(self).handlers(), cmd),
    {
        match cmd {
            Command::Terminate => true,
            Command::Flush => {
                let n = self.handlers.len();
                let mut i: usize = 0;
                while i < n
                    invariant
                        n == self.handlers@.len() == old(self).handlers().len(),
                        0 <= i <= n,
                        self.enable_stdout == old(self).enable_stdout,
                        forall|j: int| i <= j < n ==> self.handlers@[j] == old(self).handlers()[j],
                        forall|j: int| 0 <= j < n ==> (#[trigger] self.handlers@[j]).wf(),
                        forall|j: int|
                            0 <= j < i ==> #[trigger] HandlerKind::flush_rel(
                                old(self).handlers()[j],
                                self.handlers@[j],
                            ),
                    decreases n - i,
                {
                    let mut h = HandlerKind::Std(StdDummy::make());
                    vstd::pervasive::VecAdditionalExecFns::set_and_swap(
                        &mut self.handlers,
                        i,
                        &mut h,
                    );
                    h.flush();
                    vstd::pervasive::VecAdditionalExecFns::set_and_swap(
                        &mut self.handlers,
                        i,
                        &mut h,
                    );
                    i = i + 1;
                }
                false
            },
            Command::Log(buffer) => {
                let n = self.handlers.len();
                let mut i: usize = 0;
                while i < n
                    invariant
                        n == self.handlers@.len() == old(self).handlers().len(),
                        0 <= i <= n,
                        buffer.wf(),
                        self.enable_stdout == old(self).enable_stdout,
                        forall|j: int| i <= j < n ==> self.handlers@[j] == old(self).handlers()[j],
                        forall|j: int| 0 <= j < n ==> (#[trigger] self.handlers@[j]).wf(),
                        forall|j: int|
                            0 <= j < i ==> #[trigger] HandlerKind::write_rel(
                                old(self).handlers()[j],
                                self.handlers@[j],
                                buffer,
                            ),
                    decreases n - i,
                {
                    let mut h = HandlerKind::Std(StdDummy::make());
                    vstd::pervasive::VecAdditionalExecFns::set_and_swap(
                        &mut self.handlers,
                        i,
                        &mut h,
                    );
                    h.write(&buffer);
                    vstd::pervasive::VecAdditionalExecFns::set_and_swap(
                        &mut self.handlers,
                        i,
                        &mut h,
                    );
                    i = i + 1;
                }
                false
            },
        }
    }

    /// Hands the handler list out, ending the dispatch side.
    pub fn into_handlers(self) -> (r: Vec<HandlerKind>)
        ensures
            r@ == self.handlers(),
    {
        self.handlers
    }
}

/// A placeholder handler swapped into the list while one entry is being
/// worked on.
struct StdDummy {}

impl StdDummy {
    fn make() -> (r: crate::handler::StdHandler)
        ensures
            r.lines() == Seq::<crate::handler::StdLine>::empty(),
    {
        crate::handler::StdHandler::new(false, crate::builder::Colors::Disabled)
    }
}

/// The main Logger type: it controls the entire logger state and admits
/// and queues messages for dispatch.
pub struct Logger {
    queue: crossbeam_queue::ArrayQueue<Command>,
    level: LevelFilter,
    thread: Thread,
}

/// First index of the capture sink among the handlers, or `-1`.
pub open spec fn first_queue(handlers: Seq<HandlerKind>) -> int
    decreases handlers.len(),
{
    if handlers.len() == 0 {
        -1
    } else if handlers[0] is Queue {
        0
    } else {
        let r = first_queue(handlers.drop_first());
        if r < 0 {
            -1
        } else {
            r + 1
        }
    }
}

/// `first_queue` finds a capture sink, and the first one.
pub proof fn lemma_first_queue_correct(handlers: Seq<HandlerKind>)
    ensures
        first_queue(handlers) >= 0 ==> {
            &&& first_queue(handlers) < handlers.len()
            &&& handlers[first_queue(handlers)] is Queue
            &&& forall|j: int| 0 <= j < first_queue(handlers) ==> !(handlers[j] is Queue)
        },
        first_queue(handlers) < 0 ==> forall|j: int|
            0 <= j < handlers.len() ==> !(handlers[j] is Queue),
    decreases handlers.len(),
{
    if handlers.len() == 0 {
    } else if handlers[0] is Queue {
    } else {
        let t = handlers.drop_first();
        lemma_first_queue_correct(t);
        assert forall|j: int| 1 <= j < handlers.len() implies handlers[j] == t[j - 1] by {
            assert(t[j - 1] == handlers[j]);
        }
        if first_queue(t) >= 0 {
            assert(handlers[first_queue(handlers)] == t[first_queue(t)]);
        }
    }
}

impl Logger {
    /// The current level filter, at the specification level.
    pub closed spec fn spec_filter(self) -> LevelFilter {
        self.level
    }

    /// The commands waiting on the bounded queue, oldest first.
    pub closed spec fn queued(self) -> Seq<Command> {
        queue_contents(self.queue)
    }

    /// The capacity of the command queue.
    pub closed spec fn spec_capacity(self) -> usize {
        queue_capacity(self.queue)
    }

    /// The ordered handler list on the dispatch side.
    pub closed spec fn handlers(self) -> Seq<HandlerKind> {
        self.thread.handlers()
    }

    /// The stdout flag value.
    pub closed spec fn spec_enable_stdout(self) -> bool {
        self.thread.spec_enable_stdout()
    }

    /// The queue respects its bounds and carries well-formed records;
    /// every handler satisfies its invariant.
    pub closed spec fn wf(self) -> bool {
        &&& self.thread.wf()
        &&& 1 <= self.spec_capacity() <= MAX_BUF_SIZE
        &&& self.queued().len() <= self.spec_capacity()
        &&& forall|i: int| 0 <= i < self.queued().len() ==> #[trigger] cmd_wf(self.queued()[i])
    }

    /// Builds the logger: the bounded command queue at the configured
    /// capacity, and the handler list installed in order with stdout
    /// enabled.
    pub fn new(builder: Builder) -> (r: Logger)
        requires
            builder.wf(),
        ensures
            r.wf(),
            r.spec_filter() == builder.spec_filter(),
            r.queued() == Seq::<Command>::empty(),
            r.spec_capacity() == match builder.spec_buf_size() {
                Some(n) => n,
                None => BUF_SIZE as usize,
            },
            r.handlers().len() == builder.spec_handlers().len(),
            forall|i: int|
                0 <= i < builder.spec_handlers().len() ==> #[trigger] HandlerKind::install_rel(
                    builder.spec_handlers()[i],
                    r.handlers()[i],
                    true,
                ),
            r.spec_enable_stdout(),
    {
        let (_colors, _smart, buf, handlers, filter) = builder.take();
        proof {
            assert forall|i: int|
                0 <= i < handlers@.len() implies (#[trigger] handlers@[i]).wf() by {
                assert(handlers@[i] == builder.spec_handlers()[i]);
            }
        }
        let buf_size = match buf {
            Some(n) => n,
            None => BUF_SIZE,
        };
        let queue = cq_new(buf_size);
        let mut thread = Thread::new(handlers, Flag::new(true));
        thread.install_all();
        Logger { queue, level: filter, thread }
    }

    /// Enables or disables the stdout/stderr sink.
    ///
    /// # Arguments
    ///
    /// * `flag`: true to enable stdout, false to disable stdout.
    pub fn enable_stdout(&mut self, flag: bool)
        requires
            old(self).wf(),
        ensures
            final(self).wf(),
            final(self).spec_filter() == old(self).spec_filter(),
            final(self).queued() == old(self).queued(),
            final(self).spec_capacity() == old(self).spec_capacity(),
            final(self).spec_enable_stdout() == flag,
            final(self).handlers().len() == old(self).handlers().len(),
            forall|i: int|
                0 <= i < old(self).handlers().len() ==> #[trigger] HandlerKind::set_stdout_rel(
                    old(self).handlers()[i],
                    final(self).handlers()[i],
                    flag,
                ),
    {
        self.thread.set_stdout(flag);
    }

    /// Processes every queued command, in order, leaving the queue
    /// empty.
    fn pump_all(&mut self)
        requires
            old(self).wf(),
        ensures
            final(self).wf(),
            final(self).spec_filter() == old(self).spec_filter(),
            final(self).spec_capacity() == old(self).spec_capacity(),
            final(self).spec_enable_stdout() == old(self).spec_enable_stdout(),
            final(self).queued() == Seq::<Command>::empty(),
            run_rel(old(self).handlers(), final(self).handlers(), old(self).queued()),
    {
        let ghost all = old(self).queued();
        let ghost mut done: int = 0;
        proof {
            assert(all.take(0) =~= Seq::<Command>::empty());
        }
        while cq_len(&self.queue) > 0
            invariant
                0 <= done <= all.len(),
                self.thread.wf(),
                self.level == old(self).level,
                queue_capacity(self.queue) == old(self).spec_capacity(),
                1 <= queue_capacity(self.queue) <= MAX_BUF_SIZE,
                self.thread.spec_enable_stdout() == old(self).spec_enable_stdout(),
                queue_contents(self.queue) == all.skip(done),
                forall|i: int| 0 <= i < all.len() ==> #[trigger] cmd_wf(all[i]),
                run_rel(old(self).handlers(), self.thread.handlers(), all.take(done)),
            decreases all.len() - done,
        {
            let ghost pre = self.thread.handlers();
            match cq_pop(&mut self.queue) {
                Some(cmd) => {
                    proof {
                        assert(all.skip(done)[0] == all[done]);
                        assert(cmd_wf(all[done]));
                    }
                    let _ = self.thread.exec_command(cmd);
                    proof {
                        lemma_run_rel_snoc(
                            old(self).handlers(),
                            pre,
                            self.thread.handlers(),
                            all.take(done),
                            all[done],
                        );
                        assert(all.take(done).push(all[done]) =~= all.take(done + 1));
                        assert(all.skip(done).drop_first() =~= all.skip(done + 1));
                        done = done + 1;
                    }
                },
                None => {
                    proof {
                        assert(false);
                    }
                },
            }
        }
        proof {
            assert(all.take(done) =~= all);
            assert(all.skip(done) =~= queue_contents(self.queue));
        }
    }

    /// Low-level log function: queues the record for dispatch without
    /// checking the level filter.
    ///
    /// A copy of the record goes on the bounded queue. When the queue is
    /// full the producer first drains it through the handlers — the
    /// sequential form of blocking on a full channel — so no record is
    /// ever dropped.
    pub fn raw_log(&mut self, msg: &LogMsg)
        requires
            old(self).wf(),
            msg.wf(),
        ensures
            final(self).wf(),
            final(self).spec_filter() == old(self).spec_filter(),
            final(self).spec_capacity() == old(self).spec_capacity(),
            final(self).spec_enable_stdout() == old(self).spec_enable_stdout(),
            exists|m2: LogMsg|
                #![auto]
                similar(m2, *msg) && if old(self).queued().len() < old(self).spec_capacity() {
                    final(self).handlers() == old(self).handlers() && final(self).queued() == old(
                        self,
                    ).queued().push(Command::Log(m2))
                } else {
                    run_rel(old(self).handlers(), final(self).handlers(), old(self).queued())
                        && final(self).queued() == seq![Command::Log(m2)]
                },
    {
        let copy = msg.clone();
        if cq_len(&self.queue) >= self.capacity_internal() {
            self.pump_all();
        }
        let ghost m2 = copy;
        match cq_push(&mut self.queue, Command::Log(copy)) {
            Ok(_) => (),
            Err(_) => {
                proof {
                    assert(false);
                }
            },
        }
        proof {
            assert(similar(m2, *msg));
            if old(self).queued().len() >= old(self).spec_capacity() {
                assert(Seq::<Command>::empty().push(Command::Log(m2)) =~= seq![Command::Log(m2)]);
            }
        }
    }

    fn capacity_internal(&self) -> (r: usize)
        ensures
            r == self.spec_capacity(),
    {
        cq_capacity(&self.queue)
    }

    /// Main log function: queues the record only if this logger's
    /// filter admits its level.
    pub fn log(&mut self, msg: &LogMsg)
        requires
            old(self).wf(),
            msg.wf(),
        ensures
            final(self).wf(),
            final(self).spec_filter() == old(self).spec_filter(),
            final(self).spec_capacity() == old(self).spec_capacity(),
            final(self).spec_enable_stdout() == old(self).spec_enable_stdout(),
            !old(self).spec_filter().spec_admits(msg.spec_level()) ==> *final(self) == *old(self),
            old(self).spec_filter().spec_admits(msg.spec_level()) ==> exists|m2: LogMsg|
                #![auto]
                similar(m2, *msg) && if old(self).queued().len() < old(self).spec_capacity() {
                    final(self).handlers() == old(self).handlers() && final(self).queued() == old(
                        self,
                    ).queued().push(Command::Log(m2))
                } else {
                    run_rel(old(self).handlers(), final(self).handlers(), old(self).queued())
                        && final(self).queued() == seq![Command::Log(m2)]
                },
    {
        if self.level.admits(msg.level()) {
            self.raw_log(msg);
        }
    }

    /// Returns the filter level of this logger instance.
    pub fn filter(&self) -> (r: LevelFilter)
        ensures
            r == self.spec_filter(),
    {
        self.level
    }

    /// Sets the new level filter for this logger.
    ///
    /// # Arguments
    ///
    /// * `filter`: the new level filter.
    pub fn set_filter(&mut self, filter: LevelFilter)
        requires
            old(self).wf(),
        ensures
            final(self).wf(),
            final(self).spec_filter() == filter,
            final(self).queued() == old(self).queued(),
            final(self).spec_capacity() == old(self).spec_capacity(),
            final(self).handlers() == old(self).handlers(),
            final(self).spec_enable_stdout() == old(self).spec_enable_stdout(),
    {
        self.level = filter;
    }

    /// Returns true if the logger is currently enabled and admits at
    /// least error records.
    pub fn is_enabled(&self) -> (r: bool)
        ensures
            r == !(self.spec_filter() is Off),
    {
        match self.level {
            LevelFilter::Off => false,
            _ => true,
        }
    }

    /// Flushes all pending records: every queued record reaches every
    /// handler, and then every handler is flushed, before this returns.
    ///
    /// With the filter `Off` the call is a no-op.
    pub fn flush(&mut self)
        requires
            old(self).wf(),
        ensures
            final(self).wf(),
            final(self).spec_filter() == old(self).spec_filter(),
            final(self).spec_capacity() == old(self).spec_capacity(),
            final(self).spec_enable_stdout() == old(self).spec_enable_stdout(),
            old(self).spec_filter() is Off ==> *final(self) == *old(self),
            !(old(self).spec_filter() is Off) ==> final(self).queued() == Seq::<Command>::empty()
                && run_rel(
                old(self).handlers(),
                final(self).handlers(),
                old(self).queued().push(Command::Flush),
            ),
    {
        if !self.is_enabled() {
            return ;
        }
        if cq_len(&self.queue) >= self.capacity_internal() {
            self.pump_all();
        }
        let ghost mid0 = self.thread.handlers();
        match cq_push(&mut self.queue, Command::Flush) {
            Ok(_) => (),
            Err(_) => {
                proof {
                    assert(false);
                }
            },
        }
        self.pump_all();
        proof {
            if old(self).queued().len() < old(self).spec_capacity() {
                assert(run_rel(
                    old(self).handlers(),
                    final(self).handlers(),
                    old(self).queued().push(Command::Flush),
                ));
            } else {
                lemma_run_rel_flush_after(
                    old(self).handlers(),
                    mid0,
                    final(self).handlers(),
                    old(self).queued(),
                );
            }
        }
    }

    /// Pops the oldest record from the capture sink, when one of the
    /// handlers is a capture sink and it holds a record.
    ///
    /// Records reach the capture sink when they are dispatched, so a
    /// [`flush`](Logger::flush) makes every earlier submission
    /// readable here.
    pub fn read_captured(&mut self) -> (r: Option<LogMsg>)
        requires
            old(self).wf(),
        ensures
            final(self).wf(),
            final(self).spec_filter() == old(self).spec_filter(),
            final(self).queued() == old(self).queued(),
            final(self).spec_capacity() == old(self).spec_capacity(),
            final(self).spec_enable_stdout() == old(self).spec_enable_stdout(),
            final(self).handlers().len() == old(self).handlers().len(),
            ({
                let i = first_queue(old(self).handlers());
                if i < 0 {
                    r is None && final(self).handlers() == old(self).handlers()
                } else {
                    &&& forall|j: int|
                        0 <= j < old(self).handlers().len() && j != i ==> final(self).handlers()[j]
                            == old(self).handlers()[j]
                    &&& match (old(self).handlers()[i], final(self).handlers()[i]) {
                        (HandlerKind::Queue(q), HandlerKind::Queue(p)) => {
                            &&& p.spec_capacity() == q.spec_capacity()
                            &&& if q.records().len() == 0 {
                                r is None && p.records() == q.records()
                            } else {
                                (r matches Some(v) && v == q.records()[0]) && p.records()
                                    == q.records().drop_first()
                            }
                        },
                        _ => false,
                    }
                }
            }),
    {
        proof {
            lemma_first_queue_correct(old(self).handlers());
        }
        let n = self.thread.handlers.len();
        let mut i: usize = 0;
        while i < n
            invariant
                n == self.thread.handlers@.len() == old(self).handlers().len(),
                0 <= i <= n,
                old(self).wf(),
                *self == *old(self),
                forall|j: int| 0 <= j < i ==> !(old(self).handlers()[j] is Queue),
            decreases n - i,
        {
            if self.thread.handlers[i].is_queue() {
                proof {
                    assert(first_queue(old(self).handlers()) == i as int) by {
                        lemma_first_queue_correct(old(self).handlers());
                        if first_queue(old(self).handlers()) < 0 {
                        }
                        if 0 <= first_queue(old(self).handlers()) < i as int {
                        }
                        if first_queue(old(self).handlers()) > i as int {
                        }
                    }
                }
                proof {
                    assert(old(self).thread.wf());
                    assert((old(self).thread.handlers()[i as int]).wf());
                }
                let mut h = HandlerKind::Std(StdDummy::make());
                vstd::pervasive::VecAdditionalExecFns::set_and_swap(
                    &mut self.thread.handlers,
                    i,
                    &mut h,
                );
                let r = h.pop_captured();
                vstd::pervasive::VecAdditionalExecFns::set_and_swap(
                    &mut self.thread.handlers,
                    i,
                    &mut h,
                );
                proof {
                    assert forall|j: int|
                        0 <= j < self.thread.handlers().len() implies (
                    #[trigger] self.thread.handlers()[j]).wf() by {
                        if j != i as int {
                            assert(self.thread.handlers()[j] == old(self).thread.handlers()[j]);
                        }
                    }
                }
                return r;
            }
            i = i + 1;
        }
        proof {
            assert(first_queue(old(self).handlers()) < 0) by {
                lemma_first_queue_correct(old(self).handlers());
                if first_queue(old(self).handlers()) >= 0 {
                }
            }
        }
        None
    }

    /// Clears the capture sink, when one of the handlers is one.
    pub fn clear_captured(&mut self)
        requires
            old(self).wf(),
        ensures
            final(self).wf(),
            final(self).spec_filter() == old(self).spec_filter(),
            final(self).queued() == old(self).queued(),
            final(self).spec_capacity() == old(self).spec_capacity(),
            final(self).spec_enable_stdout() == old(self).spec_enable_stdout(),
            final(self).handlers().len() == old(self).handlers().len(),
            ({
                let i = first_queue(old(self).handlers());
                if i < 0 {
                    final(self).handlers() == old(self).handlers()
                } else {
                    &&& forall|j: int|
                        0 <= j < old(self).handlers().len() && j != i ==> final(self).handlers()[j]
                            == old(self).handlers()[j]
                    &&& match (old(self).handlers()[i], final(self).handlers()[i]) {
                        (HandlerKind::Queue(q), HandlerKind::Queue(p)) => p.spec_capacity()
                            == q.spec_capacity() && p.records() == Seq::<LogMsg>::empty(),
                        _ => false,
                    }
                }
            }),
    {
        proof {
            lemma_first_queue_correct(old(self).handlers());
        }
        let n = self.thread.handlers.len();
        let mut i: usize = 0;
        while i < n
            invariant
                n == self.thread.handlers@.len() == old(self).handlers().len(),
                0 <= i <= n,
                old(self).wf(),
                *self == *old(self),
                forall|j: int| 0 <= j < i ==> !(old(self).handlers()[j] is Queue),
            decreases n - i,
        {
            if self.thread.handlers[i].is_queue() {
                proof {
                    assert(first_queue(old(self).handlers()) == i as int) by {
                        lemma_first_queue_correct(old(self).handlers());
                    }
                }
                proof {
                    assert(old(self).thread.wf());
                    assert((old(self).thread.handlers()[i as int]).wf());
                }
                let mut h = HandlerKind::Std(StdDummy::make());
                vstd::pervasive::VecAdditionalExecFns::set_and_swap(
                    &mut self.thread.handlers,
                    i,
                    &mut h,
                );
                h.clear_captured();
                vstd::pervasive::VecAdditionalExecFns::set_and_swap(
                    &mut self.thread.handlers,
                    i,
                    &mut h,
                );
                proof {
                    assert forall|j: int|
                        0 <= j < self.thread.handlers().len() implies (
                    #[trigger] self.thread.handlers()[j]).wf() by {
                        if j != i as int {
                            assert(self.thread.handlers()[j] == old(self).thread.handlers()[j]);
                        }
                    }
                }
                return ;
            }
            i = i + 1;
        }
        proof {
            assert(first_queue(old(self).handlers()) < 0) by {
                lemma_first_queue_correct(old(self).handlers());
            }
        }
    }

    /// Shuts the logger down: the filter goes to `Off`, every queued
    /// record is dispatched, every handler is flushed, and the dispatch
    /// side is handed back. After this the handle is gone.
    pub fn shutdown(self) -> (t: Thread)
        requires
            self.wf(),
        ensures
            t.wf(),
            t.handlers().len() == self.handlers().len(),
            run_rel(self.handlers(), t.handlers(), self.queued().push(Command::Flush)),
    {
        let mut this = self;
        this.set_filter(LevelFilter::Off);
        if cq_len(&this.queue) >= this.capacity_internal() {
            this.pump_all();
        }
        let ghost mid0 = this.thread.handlers();
        match cq_push(&mut this.queue, Command::Flush) {
            Ok(_) => (),
            Err(_) => {
                proof {
                    assert(false);
                }
            },
        }
        this.pump_all();
        proof {
            if self.queued().len() < self.spec_capacity() {
            } else {
                lemma_run_rel_flush_after(
                    self.handlers(),
                    mid0,
                    this.thread.handlers(),
                    self.queued(),
                );
            }
            lemma_run_rel_len(self.handlers(), this.thread.handlers(), self.queued().push(
                Command::Flush,
            ));
        }
        this.thread
    }
}

/// Relies on `crossbeam_queue::ArrayQueue::capacity`: the fixed
/// capacity the queue was made with.
#[verifier::external_body]
fn cq_capacity(q: &crossbeam_queue::ArrayQueue<Command>) -> (r: usize)
    ensures
        r == queue_capacity(*q),
{
    q.capacity()
}

/// Draining, then queueing a flush and acting by it, is acting by the
/// earlier queue contents followed by the flush.
proof fn lemma_run_rel_flush_after(
    a: Seq<HandlerKind>,
    b: Seq<HandlerKind>,
    c: Seq<HandlerKind>,
    cmds: Seq<Command>,
)
    requires
        run_rel(a, b, cmds),
        run_rel(b, c, seq![Command::Flush]),
    ensures
        run_rel(a, c, cmds.push(Command::Flush)),
{
    lemma_run_rel_single(b, c, Command::Flush);
    lemma_run_rel_snoc(a, b, c, cmds, Command::Flush);
}

/// Acting by any command sequence keeps the length of the handler list.
pub proof fn lemma_run_rel_len(a: Seq<HandlerKind>, b: Seq<HandlerKind>, cmds: Seq<Command>)
    requires
        run_rel(a, b, cmds),
    ensures
        b.len() == a.len(),
    decreases cmds.len(),
{
    if cmds.len() == 0 {
    } else {
        let mid = choose|mid: Seq<HandlerKind>|
            #[trigger] step_rel(a, mid, cmds[0]) && run_rel(mid, b, cmds.drop_first());
        lemma_run_rel_len(mid, b, cmds.drop_first());
    }
}

} // verus!
// The laws of the pipeline, stated over the dispatch relations that the
// executable functions above ensure.

verus! {

/// Acting by `cmds.push(cmd)` is acting by `cmds` and then by `cmd`:
/// there is an intermediate handler state between the two.
pub proof fn lemma_run_rel_unsnoc(
    a: Seq<HandlerKind>,
    b: Seq<HandlerKind>,
    cmds: Seq<Command>,
    cmd: Command,
)
    requires
        run_rel(a, b, cmds.push(cmd)),
    ensures
        exists|mid: Seq<HandlerKind>| run_rel(a, mid, cmds) && #[trigger] step_rel(mid, b, cmd),
    decreases cmds.len(),
{
    let snoc = cmds.push(cmd);
    if cmds.len() == 0 {
        let m1 = choose|m1: Seq<HandlerKind>|
            #[trigger] step_rel(a, m1, snoc[0]) && run_rel(m1, b, snoc.drop_first());
        assert(snoc.drop_first() =~= Seq::<Command>::empty());
        assert(b == m1);
        assert(run_rel(a, a, cmds) && step_rel(a, b, cmd));
    } else {
        let m1 = choose|m1: Seq<HandlerKind>|
            #[trigger] step_rel(a, m1, snoc[0]) && run_rel(m1, b, snoc.drop_first());
        assert(snoc.drop_first() =~= cmds.drop_first().push(cmd));
        lemma_run_rel_unsnoc(m1, b, cmds.drop_first(), cmd);
        let mid = choose|mid: Seq<HandlerKind>|
            run_rel(m1, mid, cmds.drop_first()) && #[trigger] step_rel(mid, b, cmd);
        assert(snoc[0] == cmds[0]);
        assert(step_rel(a, m1, cmds[0]) && run_rel(m1, mid, cmds.drop_first()));
        assert(run_rel(a, mid, cmds));
    }
}

/// Every record submitted before a flush reaches every handler before
/// the flush does: what [`Logger::flush`] ensures decomposes into a
/// state `mid` in which every previously queued command has acted, and
/// from which every handler is flushed.
pub proof fn lemma_flush_observes_prior_records(
    a: Seq<HandlerKind>,
    b: Seq<HandlerKind>,
    cmds: Seq<Command>,
)
    requires
        run_rel(a, b, cmds.push(Command::Flush)),
    ensures
        exists|mid: Seq<HandlerKind>|
            run_rel(a, mid, cmds) && mid.len() == b.len() && forall|i: int|
                0 <= i < b.len() ==> #[trigger] HandlerKind::flush_rel(mid[i], b[i]),
{
    lemma_run_rel_unsnoc(a, b, cmds, Command::Flush);
    let mid = choose|mid: Seq<HandlerKind>|
        run_rel(a, mid, cmds) && #[trigger] step_rel(mid, b, Command::Flush);
    assert(run_rel(a, mid, cmds) && mid.len() == b.len() && forall|i: int|
        0 <= i < b.len() ==> #[trigger] HandlerKind::flush_rel(mid[i], b[i]));
}

/// A capture sink observes every dispatched record exactly once, in
/// dispatch order: after a sequence of record commands that fits in its
/// capacity, its content is its old content followed by copies of the
/// records, in order.
pub proof fn lemma_capture_observes_in_order(
    a: Seq<HandlerKind>,
    b: Seq<HandlerKind>,
    msgs: Seq<LogMsg>,
    cmds: Seq<Command>,
    i: int,
)
    requires
        run_rel(a, b, cmds),
        cmds.len() == msgs.len(),
        forall|k: int| 0 <= k < cmds.len() ==> cmds[k] == Command::Log(msgs[k]),
        0 <= i < a.len(),
        a[i] matches HandlerKind::Queue(q) && q.records().len() + msgs.len()
            <= q.spec_capacity(),
    ensures
        b.len() == a.len(),
        match (a[i], b[i]) {
            (HandlerKind::Queue(q), HandlerKind::Queue(p)) => {
                &&& p.spec_capacity() == q.spec_capacity()
                &&& p.records().len() == q.records().len() + msgs.len()
                &&& forall|k: int|
                    0 <= k < q.records().len() ==> #[trigger] p.records()[k] == q.records()[k]
                &&& forall|k: int|
                    0 <= k < msgs.len() ==> #[trigger] similar(
                        p.records()[q.records().len() + k],
                        msgs[k],
                    )
            },
            _ => false,
        },
    decreases cmds.len(),
{
    if cmds.len() == 0 {
    } else {
        let mid = choose|mid: Seq<HandlerKind>|
            #[trigger] step_rel(a, mid, cmds[0]) && run_rel(mid, b, cmds.drop_first());
        assert(cmds[0] == Command::Log(msgs[0]));
        assert(cmds[0]->Log_0 == msgs[0]);
        assert(HandlerKind::write_rel(a[i], mid[i], msgs[0]));
        let q = a[i]->Queue_0;
        let m = mid[i]->Queue_0;
        assert(m.records().drop_last() == q.records());
        assert(m.records().len() == q.records().len() + 1);
        assert forall|k: int| 0 <= k < q.records().len() implies #[trigger] m.records()[k]
            == q.records()[k] by {
            assert(m.records().drop_last()[k] == m.records()[k]);
        }
        assert(similar(m.records()[q.records().len() as int], msgs[0])) by {
            assert(m.records().last() == m.records()[m.records().len() - 1]);
        }
        lemma_capture_observes_in_order(
            mid,
            b,
            msgs.drop_first(),
            cmds.drop_first(),
            i,
        );
        let p = b[i]->Queue_0;
        assert forall|k: int| 0 <= k < msgs.len() implies #[trigger] similar(
            p.records()[q.records().len() + k],
            msgs[k],
        ) by {
            if k == 0 {
                assert(p.records()[q.records().len() + 0int] == m.records()[q.records().len() as int]);
            } else {
                assert(similar(p.records()[m.records().len() + (k - 1)], msgs.drop_first()[k - 1]));
                assert(msgs.drop_first()[k - 1] == msgs[k]);
            }
        }
    }
}

/// A chain of handler states that observes each record exactly once,
/// in order: one write step per record, each from the state the
/// previous record left behind.
pub open spec fn observes_each_once(states: Seq<HandlerKind>, msgs: Seq<LogMsg>) -> bool {
    &&& states.len() == msgs.len() + 1
    &&& forall|k: int|
        0 <= k < msgs.len() ==> #[trigger] HandlerKind::write_rel(states[k], states[k + 1], msgs[k])
}

/// Every handler, of any kind, observes every dispatched record exactly
/// once, in dispatch order: under a run of record commands, each
/// handler passes through a chain of exactly one write step per record,
/// in command order. The per-sink lemmas below refine what each such
/// step does to the sink's content.
pub proof fn lemma_every_handler_observes_in_order(
    a: Seq<HandlerKind>,
    b: Seq<HandlerKind>,
    msgs: Seq<LogMsg>,
    cmds: Seq<Command>,
    i: int,
)
    requires
        run_rel(a, b, cmds),
        cmds.len() == msgs.len(),
        forall|k: int| 0 <= k < cmds.len() ==> cmds[k] == Command::Log(msgs[k]),
        0 <= i < a.len(),
    ensures
        b.len() == a.len(),
        exists|states: Seq<HandlerKind>|
            states[0] == a[i] && states[states.len() - 1] == b[i] && #[trigger] observes_each_once(
                states,
                msgs,
            ),
    decreases cmds.len(),
{
    lemma_run_rel_len(a, b, cmds);
    if cmds.len() == 0 {
        let states = seq![a[i]];
        assert(b == a);
        assert(states[0] == a[i] && states[states.len() - 1] == b[i]);
        assert(observes_each_once(states, msgs));
    } else {
        let mid = choose|mid: Seq<HandlerKind>|
            #[trigger] step_rel(a, mid, cmds[0]) && run_rel(mid, b, cmds.drop_first());
        assert(cmds[0] == Command::Log(msgs[0]));
        assert(cmds[0]->Log_0 == msgs[0]);
        assert(HandlerKind::write_rel(a[i], mid[i], msgs[0]));
        lemma_every_handler_observes_in_order(mid, b, msgs.drop_first(), cmds.drop_first(), i);
        let tail = choose|tail: Seq<HandlerKind>|
            tail[0] == mid[i] && tail[tail.len() - 1] == b[i] && #[trigger] observes_each_once(
                tail,
                msgs.drop_first(),
            );
        let states = seq![a[i]] + tail;
        assert(states.len() == msgs.len() + 1);
        assert forall|k: int| 0 <= k < msgs.len() implies #[trigger] HandlerKind::write_rel(
            states[k],
            states[k + 1],
            msgs[k],
        ) by {
            if k == 0 {
                assert(states[0] == a[i]);
                assert(states[1] == tail[0]);
            } else {
                assert(states[k] == tail[k - 1]);
                assert(states[k + 1] == tail[k]);
                assert(HandlerKind::write_rel(tail[k - 1], tail[k], msgs.drop_first()[k - 1]));
                assert(msgs.drop_first()[k - 1] == msgs[k]);
            }
        }
        assert(states[0] == a[i]);
        assert(states[states.len() - 1] == tail[tail.len() - 1]);
        assert(observes_each_once(states, msgs));
    }
}

/// An enabled terminal sink observes every dispatched record exactly
/// once, in dispatch order: after a sequence of record commands, its
/// buffered lines are its old lines followed by one line per record,
/// in order, each routed and colored by the decision table.
pub proof fn lemma_std_observes_in_order(
    a: Seq<HandlerKind>,
    b: Seq<HandlerKind>,
    msgs: Seq<LogMsg>,
    cmds: Seq<Command>,
    i: int,
)
    requires
        run_rel(a, b, cmds),
        cmds.len() == msgs.len(),
        forall|k: int| 0 <= k < cmds.len() ==> cmds[k] == Command::Log(msgs[k]),
        0 <= i < a.len(),
        a[i] matches HandlerKind::Std(x) && x.spec_enable(),
    ensures
        b.len() == a.len(),
        match (a[i], b[i]) {
            (HandlerKind::Std(x), HandlerKind::Std(y)) => {
                &&& crate::handler::StdHandler::same_config(y, x)
                &&& y.lines().len() == x.lines().len() + msgs.len()
                &&& forall|k: int| 0 <= k < x.lines().len() ==> #[trigger] y.lines()[k] == x.lines()[k]
                &&& forall|k: int|
                    0 <= k < msgs.len() ==> {
                        let l = #[trigger] y.lines()[x.lines().len() + k];
                        &&& l.stderr == crate::handler::spec_is_stderr(
                            x.spec_smart_stderr(),
                            msgs[k].spec_level(),
                        )
                        &&& l.colored == crate::handler::spec_use_color(
                            x.spec_colors(),
                            if l.stderr {
                                x.spec_tty_err()
                            } else {
                                x.spec_tty_out()
                            },
                        )
                        &&& l.level == msgs[k].spec_level()
                        &&& exists|ts: crate::timestamp::Timestamp|
                            ts.wf() && ts.spec_unix_seconds()
                                == msgs[k].spec_time().spec_unix_seconds() && l.text@
                                == crate::handler::spec_std_text(msgs[k], ts)
                    }
            },
            _ => false,
        },
    decreases cmds.len(),
{
    if cmds.len() == 0 {
    } else {
        let mid = choose|mid: Seq<HandlerKind>|
            #[trigger] step_rel(a, mid, cmds[0]) && run_rel(mid, b, cmds.drop_first());
        assert(cmds[0] == Command::Log(msgs[0]));
        assert(cmds[0]->Log_0 == msgs[0]);
        assert(HandlerKind::write_rel(a[i], mid[i], msgs[0]));
        let x = a[i]->Std_0;
        let m = mid[i]->Std_0;
        assert(m.lines().drop_last() == x.lines());
        assert forall|k: int| 0 <= k < x.lines().len() implies #[trigger] m.lines()[k]
            == x.lines()[k] by {
            assert(m.lines().drop_last()[k] == m.lines()[k]);
        }
        assert(m.lines()[x.lines().len() as int] == m.lines().last());
        lemma_std_observes_in_order(mid, b, msgs.drop_first(), cmds.drop_first(), i);
        let y = b[i]->Std_0;
        assert forall|k: int| 0 <= k < msgs.len() implies {
            let l = #[trigger] y.lines()[x.lines().len() + k];
            &&& l.stderr == crate::handler::spec_is_stderr(
                x.spec_smart_stderr(),
                msgs[k].spec_level(),
            )
            &&& l.colored == crate::handler::spec_use_color(
                x.spec_colors(),
                if l.stderr {
                    x.spec_tty_err()
                } else {
                    x.spec_tty_out()
                },
            )
            &&& l.level == msgs[k].spec_level()
            &&& exists|ts: crate::timestamp::Timestamp|
                ts.wf() && ts.spec_unix_seconds() == msgs[k].spec_time().spec_unix_seconds()
                    && l.text@ == crate::handler::spec_std_text(msgs[k], ts)
        } by {
            if k == 0 {
                assert(y.lines()[x.lines().len() + 0int] == m.lines()[x.lines().len() as int]);
            } else {
                assert(y.lines()[m.lines().len() + (k - 1)] == y.lines()[x.lines().len() + k]);
                assert(msgs.drop_first()[k - 1] == msgs[k]);
            }
        }
    }
}

/// A file sink observes every dispatched record of one target exactly
/// once, in dispatch order: after a sequence of record commands all
/// aimed at a target whose entry exists, that entry's pending lines are
/// its old pending lines followed by one laid-out line per record, in
/// order, and its persisted lines are untouched.
pub proof fn lemma_file_observes_in_order(
    a: Seq<HandlerKind>,
    b: Seq<HandlerKind>,
    msgs: Seq<LogMsg>,
    cmds: Seq<Command>,
    i: int,
    t: Seq<char>,
)
    requires
        run_rel(a, b, cmds),
        cmds.len() == msgs.len(),
        forall|k: int| 0 <= k < cmds.len() ==> cmds[k] == Command::Log(msgs[k]),
        forall|k: int|
            0 <= k < msgs.len() ==> crate::util::spec_target(
                (#[trigger] msgs[k]).spec_location().spec_mod_path(),
            ) == t,
        0 <= i < a.len(),
        a[i] matches HandlerKind::File(f) && crate::handler::entry_index(f.entries(), t) >= 0,
    ensures
        b.len() == a.len(),
        match (a[i], b[i]) {
            (HandlerKind::File(f), HandlerKind::File(g)) => {
                let e = crate::handler::entry_index(f.entries(), t);
                &&& g.spec_path() == f.spec_path()
                &&& crate::handler::entry_index(g.entries(), t) == e
                &&& g.entries()[e].target == f.entries()[e].target
                &&& g.entries()[e].flushed == f.entries()[e].flushed
                &&& g.entries()[e].pending@.len() == f.entries()[e].pending@.len() + msgs.len()
                &&& forall|k: int|
                    0 <= k < f.entries()[e].pending@.len() ==> #[trigger] g.entries()[
                        e].pending@[k] == f.entries()[e].pending@[k]
                &&& forall|k: int|
                    0 <= k < msgs.len() ==> (#[trigger] g.entries()[e].pending@[f.entries()[
                        e].pending@.len() + k])@ == crate::handler::spec_file_text(msgs[k])
            },
            _ => false,
        },
    decreases cmds.len(),
{
    if cmds.len() == 0 {
    } else {
        let mid = choose|mid: Seq<HandlerKind>|
            #[trigger] step_rel(a, mid, cmds[0]) && run_rel(mid, b, cmds.drop_first());
        assert(cmds[0] == Command::Log(msgs[0]));
        assert(cmds[0]->Log_0 == msgs[0]);
        assert(HandlerKind::write_rel(a[i], mid[i], msgs[0]));
        let f = a[i]->File_0;
        let m = mid[i]->File_0;
        let e = crate::handler::entry_index(f.entries(), t);
        crate::handler::lemma_entry_index_correct(f.entries(), t);
        assert(m.entries()[e].pending@.drop_last() == f.entries()[e].pending@);
        assert forall|k: int| 0 <= k < f.entries()[e].pending@.len() implies #[trigger] m.entries()[
            e].pending@[k] == f.entries()[e].pending@[k] by {
            assert(m.entries()[e].pending@.drop_last()[k] == m.entries()[e].pending@[k]);
        }
        assert(m.entries()[e].pending@[f.entries()[e].pending@.len() as int] == m.entries()[
            e].pending@.last());
        assert(crate::handler::entry_index(m.entries(), t) == e) by {
            crate::handler::lemma_entry_index_correct(m.entries(), t);
            let me = crate::handler::entry_index(m.entries(), t);
            assert(m.entries()[e].target@ == t);
            if me < 0 {
            } else if me < e {
                assert(m.entries()[me] == f.entries()[me]);
            } else if me > e {
                assert(!(m.entries()[e].target@ == t));
            }
        }
        lemma_file_observes_in_order(mid, b, msgs.drop_first(), cmds.drop_first(), i, t);
        let g = b[i]->File_0;
        assert forall|k: int| 0 <= k < msgs.len() implies (#[trigger] g.entries()[e].pending@[
            f.entries()[e].pending@.len() + k])@ == crate::handler::spec_file_text(msgs[k]) by {
            if k == 0 {
                assert(g.entries()[e].pending@[f.entries()[e].pending@.len() + 0int]
                    == m.entries()[e].pending@[f.entries()[e].pending@.len() as int]);
            } else {
                assert((g.entries()[e].pending@[m.entries()[e].pending@.len() + (k - 1)])@
                    == crate::handler::spec_file_text(msgs.drop_first()[k - 1]));
                assert(msgs.drop_first()[k - 1] == msgs[k]);
            }
        }
    }
}

/// A record written to a capture sink stands at its end, with the same
/// body, location, time and level: reading the newest captured record
/// after dispatching a submission gives that submission back.
pub proof fn lemma_capture_round_trip(
    a: Seq<HandlerKind>,
    b: Seq<HandlerKind>,
    m: LogMsg,
    i: int,
)
    requires
        step_rel(a, b, Command::Log(m)),
        0 <= i < a.len(),
        a[i] is Queue,
    ensures
        match b[i] {
            HandlerKind::Queue(p) => p.records().len() >= 1 && similar(p.records().last(), m),
            _ => false,
        },
{
    let cmd = Command::Log(m);
    assert(cmd->Log_0 == m);
    assert(HandlerKind::write_rel(a[i], b[i], m));
}

/// Two successive flushes leave every handler exactly as one flush
/// does: the terminal and capture sinks are untouched by a flush, and
/// the file sink's pending lines, once moved, stay moved.
pub proof fn lemma_flush_idempotent(a: Seq<HandlerKind>, b: Seq<HandlerKind>, c: Seq<HandlerKind>)
    requires
        step_rel(a, b, Command::Flush),
        step_rel(b, c, Command::Flush),
    ensures
        c.len() == b.len(),
        forall|i: int| 0 <= i < b.len() ==> #[trigger] HandlerKind::obs_eq(c[i], b[i]),
{
    assert forall|i: int| 0 <= i < b.len() implies #[trigger] HandlerKind::obs_eq(c[i], b[i]) by {
        assert(HandlerKind::flush_rel(a[i], b[i]));
        assert(HandlerKind::flush_rel(b[i], c[i]));
        match (b[i], c[i]) {
            (HandlerKind::File(x), HandlerKind::File(y)) => {
                assert forall|j: int| 0 <= j < x.entries().len() implies {
                    &&& (#[trigger] x.entries()[j]).target@ == y.entries()[j].target@
                    &&& x.entries()[j].pending@ == y.entries()[j].pending@
                    &&& x.entries()[j].flushed@ == y.entries()[j].flushed@
                } by {
                    assert(y.entries()[j].flushed@ == x.entries()[j].flushed@
                        + x.entries()[j].pending@);
                    assert(x.entries()[j].pending@ == Seq::<String>::empty());
                    assert(x.entries()[j].flushed@ + Seq::<String>::empty() =~= x.entries()[
                        j].flushed@);
                }
            },
            _ => {},
        }
    }
}

} // verus!
