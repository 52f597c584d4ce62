//! The shared visualization state and the transitions the analyzer's output
//! drives: every line read becomes the current frame, and the end of the
//! stream or a read error crashes the pipeline, which clears the frame.

use vstd::prelude::*;

verus! {

/// What a reader of the state can observe.
pub struct FrameView {
    pub frame: Seq<char>,
    pub crashed: bool,
}

/// The state before the first frame: no frame, not crashed.
pub open spec fn idle() -> FrameView {
    FrameView { frame: Seq::empty(), crashed: false }
}

/// The crashed state: no frame, crashed.
pub open spec fn crashed_view() -> FrameView {
    FrameView { frame: Seq::empty(), crashed: true }
}

/// A reader never sees a frame on a crashed state.
pub open spec fn consistent(v: FrameView) -> bool {
    v.crashed ==> v.frame.len() == 0
}

/// One read of the analyzer's output as the state machine sees it: a line, or
/// `None` when the stream ended or could not be read.
pub open spec fn step(v: FrameView, read: Option<Seq<char>>) -> FrameView {
    match read {
        Some(line) => if v.crashed {
            v
        } else {
            FrameView { frame: line, crashed: false }
        },
        None => crashed_view(),
    }
}

/// The state after a sequence of reads, applied in order.
pub open spec fn run(v: FrameView, reads: Seq<Option<Seq<char>>>) -> FrameView
    decreases reads.len(),
{
    if reads.len() == 0 {
        v
    } else {
        step(run(v, reads.drop_last()), reads.last())
    }
}

/// The reads of a stream that delivered `lines` in order.
pub open spec fn as_reads(lines: Seq<Seq<char>>) -> Seq<Option<Seq<char>>> {
    lines.map_values(|l: Seq<char>| Some(l))
}

/// The outcome of waiting for the next line of the analyzer's output.
pub enum ReadOutcome {
    /// A complete line, already turned into glyphs.
    Line(String),
    /// The stream ended: the analyzer exited.
    End,
    /// The stream could not be read.
    Failed,
}

impl ReadOutcome {
    /// The read as the state machine sees it.
    pub open spec fn read(&self) -> Option<Seq<char>> {
        match self {
            ReadOutcome::Line(l) => Some(l@),
            _ => None,
        }
    }
}

/// Why a pipeline crashed.
#[derive(Clone, Copy, Debug, PartialEq, Eq, Structural)]
pub enum StreamCrash {
    /// The analyzer's output ended.
    EndOfStream,
    /// The analyzer's output could not be read.
    ReadError,
}

/// The latest frame and the crash flag of one pipeline. The parser task is its
/// only writer; consumers read it.
pub struct VisualizationState {
    frame: String,
    crashed: bool,
}

impl View for VisualizationState {
    type V = FrameView;

    closed spec fn view(&self) -> FrameView {
        FrameView { frame: self.frame@, crashed: self.crashed }
    }
}

impl VisualizationState {
    #[verifier::type_invariant]
    spec fn inv(&self) -> bool {
        consistent(self@)
    }

    /// The idle state: no frame yet, not crashed.
    pub fn new() -> (r: VisualizationState)
        ensures
            r@ == idle(),
    {
        VisualizationState { frame: String::new(), crashed: false }
    }

    /// A copy of the latest complete frame (empty before the first one and
    /// after a crash).
    pub fn current_frame(&self) -> (r: String)
        ensures
            r@ == self@.frame,
            consistent(self@),
    {
        proof {
            use_type_invariant(self);
        }
        self.frame.clone()
    }

    /// The frame and the crash flag, read together. A reader never sees the
    /// crash flag together with a non-empty frame.
    pub fn snapshot(&self) -> (r: (String, bool))
        ensures
            r.0@ == self@.frame,
            r.1 == self@.crashed,
            r.1 ==> r.0@.len() == 0,
    {
        proof {
            use_type_invariant(self);
        }
        (self.frame.clone(), self.crashed)
    }

    /// Whether the pipeline has crashed.
    pub fn crashed(&self) -> (r: bool)
        ensures
            r == self@.crashed,
            consistent(self@),
    {
        proof {
            use_type_invariant(self);
        }
        self.crashed
    }

    /// Applies one read of the analyzer's output. A line becomes the current
    /// frame unless the pipeline has already crashed; the end of the stream
    /// and a read error crash it, and are reported as the error.
    pub fn apply_read(&mut self, outcome: ReadOutcome) -> (r: Result<(), StreamCrash>)
        ensures
            final(self)@ == step(old(self)@, outcome.read()),
            r is Ok <==> outcome is Line,
            r == Err::<(), StreamCrash>(StreamCrash::EndOfStream) <==> outcome is End,
            r == Err::<(), StreamCrash>(StreamCrash::ReadError) <==> outcome is Failed,
    {
        match outcome {
            ReadOutcome::Line(line) => {
                if !self.crashed {
                    self.frame = line;
                }
                Ok(())
            },
            ReadOutcome::End => Err(on_cava_crashed(self, StreamCrash::EndOfStream)),
            ReadOutcome::Failed => Err(on_cava_crashed(self, StreamCrash::ReadError)),
        }
    }
}

/// Moves `state` to the crashed state: the crash flag is set and the frame
/// cleared in one step, so no reader sees a stale frame as live. Hands `cause`
/// back, for the owner of the pipeline to decide on a restart.
pub fn on_cava_crashed(state: &mut VisualizationState, cause: StreamCrash) -> (r: StreamCrash)
    ensures
        final(state)@ == crashed_view(),
        r == cause,
{
    state.frame = String::new();
    state.crashed = true;
    cause
}

/// From a consistent state, every sequence of reads leads to a consistent
/// state.
pub proof fn lemma_run_consistent(v: FrameView, reads: Seq<Option<Seq<char>>>)
    requires
        consistent(v),
    ensures
        consistent(run(v, reads)),
    decreases reads.len(),
{
    if reads.len() > 0 {
        lemma_run_consistent(v, reads.drop_last());
    }
}

/// Frames are applied in the order the analyzer produced them: after the
/// first `k` lines of a stream, the frame is exactly the `k`-th line, so no
/// earlier line can show once a later one has been applied.
pub proof fn lemma_frames_in_order(lines: Seq<Seq<char>>, k: int)
    requires
        1 <= k <= lines.len(),
    ensures
        run(idle(), as_reads(lines.subrange(0, k))) == (FrameView {
            frame: lines[k - 1],
            crashed: false,
        }),
    decreases k,
{
    let reads = as_reads(lines.subrange(0, k));
    assert(reads.drop_last() =~= as_reads(lines.subrange(0, k - 1)));
    assert(reads.len() == k);
    assert(reads.last() == Some(lines[k - 1]));
    if k > 1 {
        lemma_frames_in_order(lines, k - 1);
        assert(!run(idle(), reads.drop_last()).crashed);
    } else {
        assert(reads.drop_last() =~= Seq::<Option<Seq<char>>>::empty());
        assert(run(idle(), reads.drop_last()) == idle());
    }
    assert(run(idle(), reads) == step(run(idle(), reads.drop_last()), reads.last()));
}

/// A stream of `n > 0` lines followed by its end: after the lines the frame
/// is the last line, and after the end the pipeline has crashed with an empty
/// frame.
pub proof fn lemma_lines_then_end(lines: Seq<Seq<char>>)
    requires
        lines.len() > 0,
    ensures
        run(idle(), as_reads(lines)) == (FrameView { frame: lines.last(), crashed: false }),
        run(idle(), as_reads(lines).push(None)) == crashed_view(),
{
    lemma_frames_in_order(lines, lines.len() as int);
    assert(lines.subrange(0, lines.len() as int) =~= lines);
    assert(as_reads(lines).push(None).drop_last() =~= as_reads(lines));
}

} // verus!
