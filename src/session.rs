use vstd::prelude::*;

verus! {

/// Abstract state of a recording session: whether capture is active and the
/// samples buffered so far.
pub ghost struct SessionState {
    pub recording: bool,
    pub samples: Seq<i16>,
}

/// Next state after a start request, and whether capture must begin.
pub open spec fn start_step(s: SessionState) -> (SessionState, bool) {
    if s.recording {
        (s, false)
    } else {
        (SessionState { recording: true, samples: s.samples }, true)
    }
}

/// Next state after a stop request, and the samples handed off for encoding.
pub open spec fn stop_step(s: SessionState) -> (SessionState, Option<Seq<i16>>) {
    if s.recording {
        (SessionState { recording: false, samples: Seq::empty() }, Some(s.samples))
    } else {
        (s, None)
    }
}

/// Next state after the capture callback delivers a buffer of samples: the
/// buffer is kept while recording and dropped while idle, so a stopped
/// session's file never receives later audio.
pub open spec fn capture_step(s: SessionState, buffer: Seq<i16>) -> SessionState {
    if s.recording {
        SessionState { recording: true, samples: s.samples + buffer }
    } else {
        s
    }
}

/// An idle session holds no samples.
pub open spec fn idle_is_empty(s: SessionState) -> bool {
    !s.recording ==> s.samples.len() == 0
}

/// A recording session: a flag telling whether capture is active, and the
/// buffer that the capture callback appends to while it is. The buffer is
/// empty whenever the session is idle.
pub struct RecordingSession {
    recording: bool,
    samples: Vec<i16>,
}

impl View for RecordingSession {
    type V = SessionState;

    closed spec fn view(&self) -> SessionState {
        SessionState { recording: self.recording, samples: self.samples@ }
    }
}

impl RecordingSession {
    /// An idle session with an empty buffer.
    pub fn new() -> (r: RecordingSession)
        ensures
            !r@.recording,
            r@.samples == Seq::<i16>::empty(),
            idle_is_empty(r@),
    {
        RecordingSession { recording: false, samples: Vec::new() }
    }

    /// Whether capture is active.
    pub fn is_recording(&self) -> (r: bool)
        ensures
            r == self@.recording,
    {
        self.recording
    }

    /// Number of samples buffered.
    pub fn buffered_len(&self) -> (r: usize)
        ensures
            r == self@.samples.len(),
    {
        self.samples.len()
    }

    /// Marks the session as recording. Returns `true` when the caller must
    /// begin capturing; a start while already recording changes nothing.
    pub fn start(&mut self) -> (r: bool)
        ensures
            (final(self)@, r) == start_step(old(self)@),
            idle_is_empty(old(self)@) ==> idle_is_empty(final(self)@),
    {
        if self.recording {
            false
        } else {
            self.recording = true;
            true
        }
    }

    /// Appends a buffer delivered by the capture callback; ignored while idle.
    pub fn capture(&mut self, buffer: &[i16])
        ensures
            final(self)@ == capture_step(old(self)@, buffer@),
            idle_is_empty(old(self)@) ==> idle_is_empty(final(self)@),
    {
        if !self.recording {
            return;
        }
        let mut i: usize = 0;
        while i < buffer.len()
            invariant
                0 <= i <= buffer@.len(),
                self.recording,
                self.samples@ == old(self).samples@ + buffer@.subrange(0, i as int),
            decreases buffer@.len() - i,
        {
            self.samples.push(buffer[i]);
            i = i + 1;
            assert(buffer@.subrange(0, i as int) =~= buffer@.subrange(0, i - 1 as int).push(
                buffer@[i - 1],
            ));
        }
        assert(buffer@.subrange(0, i as int) =~= buffer@);
    }

    /// Marks the session as idle and hands off the buffered samples, leaving
    /// the buffer empty. A stop while idle changes nothing and returns `None`.
    pub fn stop(&mut self) -> (r: Option<Vec<i16>>)
        ensures
            final(self)@ == stop_step(old(self)@).0,
            r is Some <==> stop_step(old(self)@).1 is Some,
            r is Some ==> stop_step(old(self)@).1 == Some(r->0@),
            idle_is_empty(old(self)@) ==> idle_is_empty(final(self)@),
    {
        if self.recording {
            self.recording = false;
            let mut taken: Vec<i16> = Vec::new();
            std::mem::swap(&mut taken, &mut self.samples);
            Some(taken)
        } else {
            None
        }
    }
}

/// Starting an idle session and then stopping it hands off exactly the
/// samples that were buffered, and leaves the session idle and empty.
pub proof fn start_then_stop(s: SessionState)
    requires
        !s.recording,
    ensures
        start_step(s).1,
        stop_step(start_step(s).0).1 == Some(s.samples),
        !stop_step(start_step(s).0).0.recording,
        stop_step(start_step(s).0).0.samples == Seq::<i16>::empty(),
{
}

/// A recording's file holds exactly what was captured between its start and
/// its stop: nothing from before the start, since an idle session is empty.
pub proof fn recording_holds_only_its_samples(s: SessionState, b: Seq<i16>)
    requires
        !s.recording,
        idle_is_empty(s),
    ensures
        stop_step(capture_step(start_step(s).0, b)).1 == Some(b),
{
    assert(s.samples + b =~= b);
}

/// Audio that arrives after a stop is dropped: it reaches no later recording.
pub proof fn capture_after_stop_is_dropped(s: SessionState, b: Seq<i16>)
    ensures
        capture_step(stop_step(s).0, b) == stop_step(s).0,
        idle_is_empty(s) ==> idle_is_empty(stop_step(s).0),
{
}

/// A second start in a row changes nothing and begins no capture.
pub proof fn start_twice(s: SessionState)
    ensures
        start_step(start_step(s).0) == (start_step(s).0, false),
{
}

/// A second stop in a row changes nothing and hands off no samples.
pub proof fn stop_twice(s: SessionState)
    ensures
        stop_step(stop_step(s).0) == (stop_step(s).0, None::<Seq<i16>>),
{
}

} // verus!
