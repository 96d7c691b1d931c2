//! Sequencing one run: open the output once, transcode each input in order
//! into it, close it, and stop at the first failure.
//!
//! The dispatcher decides and the caller acts: each call hands back the next
//! [`Action`] to perform, and the caller reports how it went as an [`Event`].
use vstd::prelude::*;

use crate::select::Transform;

verus! {

/// Where one input of a run is read from.
#[derive(Debug, Clone, Copy, PartialEq, Eq, Structural)]
pub enum Source {
    /// The implicit input stream, read when no input is named.
    Implicit,
    /// The named input at this position of the input list.
    Named(usize),
}

/// Which part of a run failed.
#[derive(Debug, Clone, Copy, PartialEq, Eq, Structural)]
pub enum ErrorKind {
    /// The output could not be opened; no input was read.
    OpenSink,
    /// An input could not be opened or read.
    ReadSource(Source),
    /// The codec rejected an input.
    Transcode(Source),
    /// Writing to the output failed.
    WriteSink,
    /// Closing the output failed.
    CloseSink,
}

/// A failed run: what failed, and the cause in words.
#[derive(Debug)]
pub struct RunError {
    pub kind: ErrorKind,
    pub detail: String,
}

/// Where a run stands.
#[derive(Debug, Clone, Copy, PartialEq, Eq, Structural)]
pub enum Phase {
    /// Waiting for the output to open.
    OpeningSink,
    /// Waiting for the current input's bytes.
    Reading,
    /// Waiting for the current input's output to be written.
    Writing,
    /// Waiting for the output to close.
    Closing,
    /// The run is over.
    Finished,
}

/// The state of a run.
#[derive(Debug, Clone, Copy, PartialEq, Eq, Structural)]
pub struct State {
    pub transform: Transform,
    /// The number of named inputs; zero means the implicit input stream.
    pub inputs: usize,
    /// The position of the current input.
    pub index: usize,
    pub phase: Phase,
    /// The first failure met, if any.
    pub failure: Option<ErrorKind>,
}

/// What the caller is asked to do next.
pub enum Action {
    /// Open the output, once for the whole run.
    OpenSink,
    /// Open the source and read it to its end.
    ReadSource(Source),
    /// Append these bytes to the output.
    Write(Vec<u8>),
    /// Close the output.
    CloseSink,
    /// End the run with this result.
    Exit(Result<(), RunError>),
}

/// How the caller's last action went.
pub enum Event {
    /// Opening, writing or closing succeeded.
    Done,
    /// Reading succeeded with these bytes.
    Data(Vec<u8>),
    /// The action failed, for this reason.
    Failed(String),
}

/// An [`Action`] as contracts see it.
pub enum Step {
    OpenSink,
    ReadSource(Source),
    Write(Seq<u8>),
    CloseSink,
    Exit(Option<ErrorKind>),
}

/// An [`Event`] as contracts see it.
pub enum Signal {
    Done,
    Data(Seq<u8>),
    Failed,
}

impl View for Action {
    type V = Step;

    open spec fn view(&self) -> Step {
        match self {
            Action::OpenSink => Step::OpenSink,
            Action::ReadSource(s) => Step::ReadSource(*s),
            Action::Write(b) => Step::Write(b@),
            Action::CloseSink => Step::CloseSink,
            Action::Exit(Ok(())) => Step::Exit(None),
            Action::Exit(Err(e)) => Step::Exit(Some(e.kind)),
        }
    }
}

impl View for Event {
    type V = Signal;

    open spec fn view(&self) -> Signal {
        match self {
            Event::Done => Signal::Done,
            Event::Data(b) => Signal::Data(b@),
            Event::Failed(_) => Signal::Failed,
        }
    }
}

impl State {
    /// How many sources the run reads: the named inputs, or the implicit one.
    pub open spec fn sources(self) -> nat {
        if self.inputs == 0 {
            1
        } else {
            self.inputs as nat
        }
    }

    /// The source read at position `i`.
    pub open spec fn source_at(self, i: usize) -> Source {
        if self.inputs == 0 {
            Source::Implicit
        } else {
            Source::Named(i)
        }
    }

    pub open spec fn wf(self) -> bool {
        &&& self.transform.wf()
        &&& self.index < self.sources()
    }

    /// Whether `e` reports on the action that this state asked for.
    pub open spec fn accepts(self, e: Signal) -> bool {
        match self.phase {
            Phase::Reading => !(e is Done),
            Phase::Finished => false,
            _ => !(e is Data),
        }
    }
}

/// The state of a run of `transform` over `inputs` named inputs when it starts.
pub open spec fn initial(transform: Transform, inputs: usize) -> State {
    State { transform, inputs, index: 0, phase: Phase::OpeningSink, failure: None }
}

/// The state and action that follow the transform's result on the current
/// input (`None` where the codec failed).
pub open spec fn after_output(s: State, out: Option<Seq<u8>>) -> (State, Step) {
    match out {
        Some(o) => (State { phase: Phase::Writing, ..s }, Step::Write(o)),
        None => (
            State {
                phase: Phase::Closing,
                failure: Some(ErrorKind::Transcode(s.source_at(s.index))),
                ..s
            },
            Step::CloseSink,
        ),
    }
}

/// The state and action that follow event `e` in state `s`.
pub open spec fn next(s: State, e: Signal) -> (State, Step) {
    match (s.phase, e) {
        (Phase::OpeningSink, Signal::Done) => (
            State { phase: Phase::Reading, index: 0, ..s },
            Step::ReadSource(s.source_at(0)),
        ),
        (Phase::OpeningSink, _) => (
            State { phase: Phase::Finished, failure: Some(ErrorKind::OpenSink), ..s },
            Step::Exit(Some(ErrorKind::OpenSink)),
        ),
        (Phase::Reading, Signal::Data(d)) => after_output(s, s.transform.output(d)),
        (Phase::Reading, _) => (
            State {
                phase: Phase::Closing,
                failure: Some(ErrorKind::ReadSource(s.source_at(s.index))),
                ..s
            },
            Step::CloseSink,
        ),
        (Phase::Writing, Signal::Done) => if s.index + 1 < s.sources() {
            (
                State { phase: Phase::Reading, index: (s.index + 1) as usize, ..s },
                Step::ReadSource(s.source_at((s.index + 1) as usize)),
            )
        } else {
            (State { phase: Phase::Closing, ..s }, Step::CloseSink)
        },
        (Phase::Writing, _) => (
            State { phase: Phase::Closing, failure: Some(ErrorKind::WriteSink), ..s },
            Step::CloseSink,
        ),
        (Phase::Closing, Signal::Done) => (
            State { phase: Phase::Finished, ..s },
            Step::Exit(s.failure),
        ),
        (Phase::Closing, _) => {
            let failure = if s.failure is Some {
                s.failure
            } else {
                Some(ErrorKind::CloseSink)
            };
            (State { phase: Phase::Finished, failure, ..s }, Step::Exit(failure))
        },
        (Phase::Finished, _) => (s, Step::Exit(s.failure)),
    }
}

/// The state reached and the actions asked for when the events `events`
/// arrive one by one from state `s`.
pub open spec fn run(s: State, events: Seq<Signal>) -> (State, Seq<Step>)
    decreases events.len(),
{
    if events.len() == 0 {
        (s, seq![])
    } else {
        let (s1, a) = next(s, events[0]);
        let (s2, rest) = run(s1, events.drop_first());
        (s2, seq![a] + rest)
    }
}

/// The bytes that the actions `steps` append to the output, in order.
pub open spec fn written(steps: Seq<Step>) -> Seq<u8>
    decreases steps.len(),
{
    if steps.len() == 0 {
        seq![]
    } else {
        let tail = match steps.last() {
            Step::Write(b) => b,
            _ => seq![],
        };
        written(steps.drop_last()) + tail
    }
}

/// One run of a transform over a list of inputs into one output.
pub struct Dispatcher {
    state: State,
    detail: String,
}

impl View for Dispatcher {
    type V = State;

    closed spec fn view(&self) -> State {
        self.state
    }
}

impl Dispatcher {
    /// Starts a run of `transform` over `inputs` named inputs (zero: the
    /// implicit input stream); the first action opens the output.
    pub fn new(transform: Transform, inputs: usize) -> (r: (Dispatcher, Action))
        requires
            transform.wf(),
        ensures
            r.0@ == initial(transform, inputs),
            r.0@.wf(),
            r.1@ == Step::OpenSink,
    {
        let state = State { transform, inputs, index: 0, phase: Phase::OpeningSink, failure: None };
        (Dispatcher { state, detail: String::new() }, Action::OpenSink)
    }

    /// The state of this run.
    pub fn state(&self) -> (r: State)
        ensures
            r == self@,
    {
        self.state
    }

    fn source_at(&self, i: usize) -> (r: Source)
        ensures
            r == self@.source_at(i),
    {
        if self.state.inputs == 0 {
            Source::Implicit
        } else {
            Source::Named(i)
        }
    }

    fn fail(&mut self, kind: ErrorKind, detail: String)
        ensures
            final(self)@ == (State { failure: Some(kind), ..old(self)@ }),
    {
        self.state.failure = Some(kind);
        self.detail = detail;
    }

    fn exit(&self) -> (r: Action)
        ensures
            r@ == Step::Exit(self@.failure),
    {
        match self.state.failure {
            None => Action::Exit(Ok(())),
            Some(kind) => Action::Exit(Err(RunError { kind, detail: self.detail.clone() })),
        }
    }

    /// Takes the transform's result on the current input: its bytes are
    /// written out, or the codec's error ends the run once the output is closed.
    pub fn deliver(&mut self, out: Result<Vec<u8>, String>) -> (r: Action)
        requires
            old(self)@.wf(),
            old(self)@.phase == Phase::Reading,
        ensures
            final(self)@.wf(),
            (final(self)@, r@) == after_output(
                old(self)@,
                match out {
                    Ok(v) => Some(v@),
                    Err(_) => None,
                },
            ),
    {
        match out {
            Ok(v) => {
                self.state.phase = Phase::Writing;
                Action::Write(v)
            },
            Err(e) => {
                let source = self.source_at(self.state.index);
                self.fail(ErrorKind::Transcode(source), e);
                self.state.phase = Phase::Closing;
                Action::CloseSink
            },
        }
    }

    /// Whether `event` reports on the action that this run asked for last.
    pub fn accepts(&self, event: &Event) -> (r: bool)
        ensures
            r == self@.accepts(event@),
    {
        match self.state.phase {
            Phase::Reading => !matches!(event, Event::Done),
            Phase::Finished => false,
            _ => !matches!(event, Event::Data(_)),
        }
    }

    /// Takes the outcome of the last action and hands back the next one.
    pub fn step(&mut self, event: Event) -> (r: Action)
        requires
            old(self)@.wf(),
            old(self)@.accepts(event@),
        ensures
            final(self)@.wf(),
            (final(self)@, r@) == next(old(self)@, event@),
    {
        match (self.state.phase, event) {
            (Phase::OpeningSink, Event::Done) => {
                self.state.phase = Phase::Reading;
                self.state.index = 0;
                Action::ReadSource(self.source_at(0))
            },
            (Phase::OpeningSink, Event::Failed(e)) => {
                self.fail(ErrorKind::OpenSink, e);
                self.state.phase = Phase::Finished;
                self.exit()
            },
            (Phase::Reading, Event::Data(d)) => {
                let out = self.state.transform.apply(d.as_slice());
                self.deliver(out)
            },
            (Phase::Reading, Event::Failed(e)) => {
                let source = self.source_at(self.state.index);
                self.fail(ErrorKind::ReadSource(source), e);
                self.state.phase = Phase::Closing;
                Action::CloseSink
            },
            (Phase::Writing, Event::Done) => {
                let sources: usize = if self.state.inputs == 0 {
                    1
                } else {
                    self.state.inputs
                };
                if self.state.index + 1 < sources {
                    self.state.index = self.state.index + 1;
                    self.state.phase = Phase::Reading;
                    Action::ReadSource(self.source_at(self.state.index))
                } else {
                    self.state.phase = Phase::Closing;
                    Action::CloseSink
                }
            },
            (Phase::Writing, Event::Failed(e)) => {
                self.fail(ErrorKind::WriteSink, e);
                self.state.phase = Phase::Closing;
                Action::CloseSink
            },
            (Phase::Closing, Event::Done) => {
                self.state.phase = Phase::Finished;
                self.exit()
            },
            (Phase::Closing, Event::Failed(e)) => {
                if self.state.failure.is_none() {
                    self.fail(ErrorKind::CloseSink, e);
                }
                self.state.phase = Phase::Finished;
                self.exit()
            },
            (_, _) => self.exit(),
        }
    }
}

/// The events of a run in which every input reads as `contents` says, in
/// order, and every output write succeeds.
pub open spec fn feed(contents: Seq<Seq<u8>>) -> Seq<Signal>
    decreases contents.len(),
{
    if contents.len() == 0 {
        seq![]
    } else {
        seq![Signal::Data(contents[0]), Signal::Done] + feed(contents.drop_first())
    }
}

/// The transform of each of `contents`, one after the other.
pub open spec fn members(transform: Transform, contents: Seq<Seq<u8>>) -> Seq<u8>
    decreases contents.len(),
{
    if contents.len() == 0 {
        seq![]
    } else {
        transform.output(contents[0])->0 + members(transform, contents.drop_first())
    }
}

proof fn lemma_run_append(s: State, a: Seq<Signal>, b: Seq<Signal>)
    ensures
        run(s, a + b) == ({
            let (mid, first) = run(s, a);
            let (end, second) = run(mid, b);
            (end, first + second)
        }),
    decreases a.len(),
{
    if a.len() > 0 {
        let (s1, _) = next(s, a[0]);
        assert((a + b).drop_first() =~= a.drop_first() + b);
        lemma_run_append(s1, a.drop_first(), b);
        let (mid, first) = run(s1, a.drop_first());
        let (end, second) = run(mid, b);
        assert(seq![next(s, a[0]).1] + (first + second) =~= (seq![next(s, a[0]).1] + first)
            + second);
    } else {
        assert(a + b =~= b);
    }
}

proof fn lemma_written_append(x: Seq<Step>, y: Seq<Step>)
    ensures
        written(x + y) == written(x) + written(y),
    decreases y.len(),
{
    if y.len() == 0 {
        assert(x + y =~= x);
        assert(written(y) =~= seq![]);
        assert(written(x) + seq![] =~= written(x));
    } else {
        assert((x + y).drop_last() =~= x + y.drop_last());
        lemma_written_append(x, y.drop_last());
        let tail = match y.last() {
            Step::Write(b) => b,
            _ => seq![],
        };
        assert(written(x) + written(y.drop_last()) + tail =~= written(x) + (written(
            y.drop_last(),
        ) + tail));
    }
}

/// From the read of input `s.index`, the remaining `contents` are written
/// in order, each once, and then the output is closed.
proof fn lemma_reading(s: State, contents: Seq<Seq<u8>>)
    requires
        s.wf(),
        s.phase == Phase::Reading,
        s.inputs >= 1,
        contents.len() >= 1,
        s.index + contents.len() == s.inputs,
        forall|i: int| 0 <= i < contents.len() ==> #[trigger] s.transform.output(contents[i]) is Some,
    ensures
        ({
            let (end, steps) = run(s, feed(contents));
            &&& end == State { phase: Phase::Closing, index: (s.inputs - 1) as usize, ..s }
            &&& steps.len() == 2 * contents.len()
            &&& forall|j: int|
                0 <= j < contents.len() ==> steps[2 * j] == Step::Write(
                    #[trigger] s.transform.output(contents[j])->0,
                )
            &&& forall|j: int|
                0 <= j < contents.len() - 1 ==> #[trigger] steps[2 * j + 1] == Step::ReadSource(
                    Source::Named((s.index + j + 1) as usize),
                )
            &&& steps[2 * contents.len() - 1] == Step::CloseSink
            &&& written(steps) == members(s.transform, contents)
        }),
    decreases contents.len(),
{
    let t = s.transform;
    let c0 = contents[0];
    let rest = contents.drop_first();
    let head = seq![Signal::Data(c0), Signal::Done];
    assert(t.output(contents[0]) is Some);
    assert(feed(contents) == head + feed(rest));
    lemma_run_append(s, head, feed(rest));
    reveal_with_fuel(run, 3);
    assert(head.drop_first().drop_first() =~= seq![]);
    let (mid, first) = run(s, head);
    let o0 = t.output(c0)->0;
    reveal_with_fuel(written, 3);
    assert(first.drop_last().drop_last() =~= seq![]);
    assert(written(first) =~= o0);
    if rest.len() == 0 {
        assert(feed(rest) =~= seq![]);
        assert(first + seq![] =~= first);
        assert(members(t, rest) =~= seq![]);
        assert(o0 + seq![] =~= o0);
    } else {
        assert forall|i: int| 0 <= i < rest.len() implies #[trigger] mid.transform.output(
            rest[i],
        ) is Some by {
            assert(rest[i] == contents[i + 1]);
        }
        lemma_reading(mid, rest);
        let (end, second) = run(mid, feed(rest));
        lemma_written_append(first, second);
        let steps = first + second;
        assert forall|j: int| 0 <= j < contents.len() implies steps[2 * j] == Step::Write(
            #[trigger] t.output(contents[j])->0,
        ) by {
            if j > 0 {
                assert(contents[j] == rest[j - 1]);
                assert(steps[2 * j] == second[2 * (j - 1)]);
            }
        }
        assert forall|j: int| 0 <= j < contents.len() - 1 implies #[trigger] steps[2 * j + 1]
            == Step::ReadSource(Source::Named((s.index + j + 1) as usize)) by {
            if j > 0 {
                assert(steps[2 * j + 1] == second[2 * (j - 1) + 1]);
            }
        }
        assert(steps[2 * contents.len() - 1] == second[2 * rest.len() - 1]);
    }
}

/// Named inputs that all read and write without error give an output that
/// is the transform of each input in turn: independent members back to
/// back, in input order, each input read once and in order.
pub proof fn lemma_inputs_concatenate(transform: Transform, contents: Seq<Seq<u8>>)
    requires
        transform.wf(),
        1 <= contents.len() <= usize::MAX,
        forall|i: int| 0 <= i < contents.len() ==> #[trigger] transform.output(contents[i]) is Some,
    ensures
        ({
            let n = contents.len() as int;
            let events = seq![Signal::Done] + feed(contents) + seq![Signal::Done];
            let (end, steps) = run(initial(transform, n as usize), events);
            &&& steps.len() == 2 * n + 2
            &&& forall|i: int|
                0 <= i < n ==> #[trigger] steps[2 * i] == Step::ReadSource(Source::Named(i as usize))
            &&& forall|i: int|
                0 <= i < n ==> steps[2 * i + 1] == Step::Write(
                    #[trigger] transform.output(contents[i])->0,
                )
            &&& steps[2 * n] == Step::CloseSink
            &&& steps[2 * n + 1] == Step::Exit(None)
            &&& written(steps) == members(transform, contents)
            &&& end.phase == Phase::Finished
        }),
{
    let n = contents.len() as int;
    let s0 = initial(transform, n as usize);
    let opened = seq![Signal::Done];
    let closed = seq![Signal::Done];
    reveal_with_fuel(run, 2);
    let (s1, open_steps) = run(s0, opened);
    assert(opened.drop_first() =~= seq![]);
    lemma_reading(s1, contents);
    let (s2, mid_steps) = run(s1, feed(contents));
    let (s3, close_steps) = run(s2, closed);
    assert(closed.drop_first() =~= seq![]);
    lemma_run_append(s0, opened, feed(contents));
    lemma_run_append(s0, opened + feed(contents), closed);
    let steps = open_steps + mid_steps + close_steps;
    reveal_with_fuel(written, 2);
    assert(open_steps.drop_last() =~= seq![]);
    assert(close_steps.drop_last() =~= seq![]);
    lemma_written_append(open_steps, mid_steps);
    lemma_written_append(open_steps + mid_steps, close_steps);
    assert(written(open_steps) =~= seq![]);
    assert(written(close_steps) =~= seq![]);
    assert(seq![] + written(mid_steps) =~= written(mid_steps));
    assert(written(mid_steps) + seq![] =~= written(mid_steps));
    assert forall|i: int| 0 <= i < n implies #[trigger] steps[2 * i] == Step::ReadSource(
        Source::Named(i as usize),
    ) by {
        if i > 0 {
            assert(steps[2 * i] == mid_steps[2 * (i - 1) + 1]);
        }
    }
    assert forall|i: int| 0 <= i < n implies steps[2 * i + 1] == Step::Write(
        #[trigger] transform.output(contents[i])->0,
    ) by {
        assert(steps[2 * i + 1] == mid_steps[2 * i]);
    }
}

/// A source that cannot be read ends the run: the output is closed, no
/// further source is asked for, and the run exits with that source's error.
pub proof fn lemma_fail_fast(s: State)
    requires
        s.wf(),
        s.phase == Phase::Reading,
    ensures
        ({
            let (closing, action) = next(s, Signal::Failed);
            &&& action == Step::CloseSink
            &&& closing.wf()
            &&& forall|e: Signal| #[trigger]
                closing.accepts(e) ==> {
                    let (end, last) = next(closing, e);
                    &&& last == Step::Exit(Some(ErrorKind::ReadSource(s.source_at(s.index))))
                    &&& forall|f: Signal| !#[trigger] end.accepts(f)
                }
        }),
{
}

/// With no named input and an empty implicit input stream, the run reads
/// that stream once and writes exactly the transform of the empty input;
/// where the codec fails on it, nothing is written and the run fails.
pub proof fn lemma_empty_implicit_input(transform: Transform)
    requires
        transform.wf(),
    ensures
        transform.output(seq![]) matches Some(o) ==> run(
            initial(transform, 0),
            seq![Signal::Done, Signal::Data(seq![]), Signal::Done, Signal::Done],
        ).1 == seq![Step::ReadSource(Source::Implicit), Step::Write(o), Step::CloseSink, Step::Exit(None)],
        transform.output(seq![]) is None ==> run(
            initial(transform, 0),
            seq![Signal::Done, Signal::Data(seq![]), Signal::Done],
        ).1 == seq![
            Step::ReadSource(Source::Implicit),
            Step::CloseSink,
            Step::Exit(Some(ErrorKind::Transcode(Source::Implicit))),
        ],
{
    reveal_with_fuel(run, 5);
    let s0 = initial(transform, 0);
    if transform.output(seq![]) is Some {
        let events = seq![Signal::Done, Signal::Data(seq![]), Signal::Done, Signal::Done];
        assert(run(s0, events).1 =~= seq![
            Step::ReadSource(Source::Implicit),
            Step::Write(transform.output(seq![])->0),
            Step::CloseSink,
            Step::Exit(None),
        ]);
    } else {
        let events = seq![Signal::Done, Signal::Data(seq![]), Signal::Done];
        assert(run(s0, events).1 =~= seq![
            Step::ReadSource(Source::Implicit),
            Step::CloseSink,
            Step::Exit(Some(ErrorKind::Transcode(Source::Implicit))),
        ]);
    }
}

} // verus!
