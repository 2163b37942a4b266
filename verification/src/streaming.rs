//! Streaming pipeline supervisor: the per-endpoint record of which
//! background loops run — screen capture, sensor simulation, audio
//! routing — with idempotent start, cancellation of every loop on
//! teardown, and the single-slot latest-frame holder.

use vstd::prelude::*;
use crate::strutil::str_eq;

verus! {

/// The single-slot holder of the newest captured frame. Publishing
/// replaces the slot: a slow consumer sees the newest frame, never a
/// backlog.
#[derive(Debug)]
pub struct ScreenCapture {
    pub current_frame: Option<Vec<u8>>,
    pub capture_active: bool,
}

impl ScreenCapture {
    pub fn new() -> (r: ScreenCapture)
        ensures
            r.current_frame is None,
            !r.capture_active,
    {
        ScreenCapture { current_frame: None, capture_active: false }
    }
}

/// Which of the three loop kinds an endpoint should run.
#[derive(Debug, Clone, Copy, PartialEq, Eq, Structural)]
pub struct LoopPlan {
    pub screen: bool,
    pub sensor: bool,
    pub audio: bool,
}

/// The background loops of one endpoint; exists only while the endpoint
/// is live.
#[derive(Debug)]
pub struct StreamingSession {
    pub endpoint_id: String,
    pub screen_running: bool,
    pub sensor_running: bool,
    pub audio_running: bool,
    pub capture: ScreenCapture,
}

impl StreamingSession {
    /// How many of the session's loops run.
    pub open spec fn spec_loops_running(&self) -> int {
        (if self.screen_running { 1int } else { 0int })
        + (if self.sensor_running { 1int } else { 0int })
        + (if self.audio_running { 1int } else { 0int })
    }
}

/// What starting does to a session's flags: each applicable loop kind
/// runs afterwards, and a loop of a kind already running is left alone —
/// there is never a second loop of the same kind.
pub open spec fn spec_started_flags(pre: (bool, bool, bool), plan: LoopPlan) -> (bool, bool, bool) {
    (pre.0 || plan.screen, pre.1 || plan.sensor, pre.2 || plan.audio)
}

/// Starting is idempotent: applying the same plan a second time changes
/// nothing — afterwards exactly the loops of the first start exist, not
/// duplicates.
pub proof fn lemma_start_idempotent(pre: (bool, bool, bool), plan: LoopPlan)
    ensures
        spec_started_flags(spec_started_flags(pre, plan), plan) == spec_started_flags(pre, plan),
{
}

/// The session's three flags.
pub open spec fn session_flags(s: &StreamingSession) -> (bool, bool, bool) {
    (s.screen_running, s.sensor_running, s.audio_running)
}

/// No two sessions share an endpoint id.
pub open spec fn sess_ids_unique(s: Seq<StreamingSession>) -> bool {
    forall|i: int, j: int| 0 <= i < j < s.len() ==> s[i].endpoint_id@ != s[j].endpoint_id@
}

/// Some session belongs to this endpoint.
pub open spec fn sess_has_id(s: Seq<StreamingSession>, id: Seq<char>) -> bool {
    exists|i: int| 0 <= i < s.len() && s[i].endpoint_id@ == id
}

/// The index of this endpoint's session.
pub open spec fn sess_idx_of(s: Seq<StreamingSession>, id: Seq<char>) -> int {
    choose|i: int| 0 <= i < s.len() && s[i].endpoint_id@ == id
}

/// This endpoint's session.
pub open spec fn sess_at(s: Seq<StreamingSession>, id: Seq<char>) -> StreamingSession {
    s[sess_idx_of(s, id)]
}

/// With unique ids, any matching index is the one `sess_at` denotes.
pub proof fn lemma_sess_at(s: Seq<StreamingSession>, id: Seq<char>, i: int)
    requires
        sess_ids_unique(s),
        0 <= i < s.len(),
        s[i].endpoint_id@ == id,
    ensures
        sess_has_id(s, id),
        sess_idx_of(s, id) == i,
        sess_at(s, id) == s[i],
{
    assert(sess_has_id(s, id));
    let j = sess_idx_of(s, id);
    if i != j {
        if i < j {
            assert(s[i].endpoint_id@ != s[j].endpoint_id@);
        } else {
            assert(s[j].endpoint_id@ != s[i].endpoint_id@);
        }
    }
}

/// The supervisor of every endpoint's background loops.
#[derive(Debug)]
pub struct StreamingSupervisor {
    sessions: Vec<StreamingSession>,
}

impl View for StreamingSupervisor {
    type V = Seq<StreamingSession>;

    closed spec fn view(&self) -> Seq<StreamingSession> {
        self.sessions@
    }
}

impl StreamingSupervisor {
    /// Unique session ids; every operation preserves this.
    pub open spec fn wf(&self) -> bool {
        sess_ids_unique(self@)
    }

    pub fn new() -> (r: StreamingSupervisor)
        ensures
            r@ == Seq::<StreamingSession>::empty(),
            r.wf(),
    {
        StreamingSupervisor { sessions: Vec::new() }
    }

    fn find(&self, id: &str) -> (r: Option<usize>)
        ensures
            match r {
                Some(i) => i < self@.len() && self@[i as int].endpoint_id@ == id@,
                None => !sess_has_id(self@, id@),
            },
    {
        let n = self.sessions.len();
        let mut i: usize = 0;
        while i < n
            invariant
                0 <= i <= n,
                n == self@.len(),
                forall|j: int| 0 <= j < i ==> (#[trigger] self@[j]).endpoint_id@ != id@,
            decreases n - i,
        {
            if str_eq(self.sessions[i].endpoint_id.as_str(), id) {
                return Some(i);
            }
            i += 1;
        }
        None
    }

    /// Whether this endpoint has a session.
    pub fn has_session(&self, id: &str) -> (r: bool)
        ensures
            r == sess_has_id(self@, id@),
    {
        self.find(id).is_some()
    }

    /// How many loops run for this endpoint; zero without a session.
    pub fn loops_running(&self, id: &str) -> (r: usize)
        requires
            self.wf(),
        ensures
            !sess_has_id(self@, id@) ==> r == 0,
            sess_has_id(self@, id@) ==> r as int == sess_at(self@, id@).spec_loops_running(),
    {
        match self.find(id) {
            Some(i) => {
                proof {
                    lemma_sess_at(self@, id@, i as int);
                }
                let s = &self.sessions[i];
                let mut n: usize = 0;
                if s.screen_running {
                    n += 1;
                }
                if s.sensor_running {
                    n += 1;
                }
                if s.audio_running {
                    n += 1;
                }
                n
            },
            None => 0,
        }
    }

    /// Starts the applicable loops for this endpoint. A fresh endpoint
    /// gets a session running exactly the planned loops; an endpoint
    /// already streaming keeps its session, with each planned loop
    /// running and no loop duplicated (`lemma_start_idempotent`).
    pub fn start(&mut self, id: &str, plan: LoopPlan)
        requires
            old(self).wf(),
        ensures
            final(self).wf(),
            sess_has_id(final(self)@, id@),
            session_flags(&sess_at(final(self)@, id@)) == spec_started_flags(
                if sess_has_id(old(self)@, id@) {
                    session_flags(&sess_at(old(self)@, id@))
                } else {
                    (false, false, false)
                },
                plan,
            ),
            !sess_has_id(old(self)@, id@) ==> final(self)@ == old(self)@.push(
                sess_at(final(self)@, id@),
            ) && sess_at(final(self)@, id@).capture.current_frame is None,
            sess_has_id(old(self)@, id@) ==> {
                let pre = sess_at(old(self)@, id@);
                let post = sess_at(final(self)@, id@);
                &&& final(self)@ == old(self)@.update(sess_idx_of(old(self)@, id@), post)
                &&& post.endpoint_id@ == pre.endpoint_id@
                &&& post.capture == pre.capture
            },
    {
        match self.find(id) {
            Some(i) => {
                proof {
                    lemma_sess_at(self@, id@, i as int);
                }
                if plan.screen {
                    self.sessions[i].screen_running = true;
                }
                if plan.sensor {
                    self.sessions[i].sensor_running = true;
                }
                if plan.audio {
                    self.sessions[i].audio_running = true;
                }
                proof {
                    lemma_sess_at(self@, id@, i as int);
                    assert(final(self)@ =~= old(self)@.update(
                        sess_idx_of(old(self)@, id@),
                        sess_at(final(self)@, id@),
                    ));
                }
            },
            None => {
                let fresh = StreamingSession {
                    endpoint_id: String::from_str(id),
                    screen_running: plan.screen,
                    sensor_running: plan.sensor,
                    audio_running: plan.audio,
                    capture: ScreenCapture::new(),
                };
                self.sessions.push(fresh);
                proof {
                    assert forall|a: int, b: int|
                        0 <= a < b < self@.len() implies self@[a].endpoint_id@
                        != self@[b].endpoint_id@ by {
                        if b == self@.len() - 1 {
                            assert(!(old(self)@[a].endpoint_id@ == id@));
                        }
                    }
                    lemma_sess_at(self@, id@, self@.len() - 1);
                }
            },
        }
    }

    /// Cancels every loop of this endpoint and discards its session:
    /// afterwards no loop of the endpoint runs. Safe to call when no
    /// session exists, or when some loops already exited on their own.
    pub fn stop_all(&mut self, id: &str)
        requires
            old(self).wf(),
        ensures
            final(self).wf(),
            !sess_has_id(final(self)@, id@),
            !sess_has_id(old(self)@, id@) ==> final(self)@ == old(self)@,
            sess_has_id(old(self)@, id@) ==> final(self)@ == old(self)@.remove(
                sess_idx_of(old(self)@, id@),
            ),
    {
        match self.find(id) {
            Some(i) => {
                proof {
                    lemma_sess_at(self@, id@, i as int);
                }
                self.sessions.remove(i);
                proof {
                    assert forall|a: int, b: int|
                        0 <= a < b < self@.len() implies self@[a].endpoint_id@
                        != self@[b].endpoint_id@ by {
                        let s = old(self)@;
                        let ai = if a < i as int { a } else { a + 1 };
                        let bi = if b < i as int { b } else { b + 1 };
                        assert(self@[a] == s[ai]);
                        assert(self@[b] == s[bi]);
                    }
                    assert forall|k: int|
                        0 <= k < self@.len() implies (#[trigger] self@[k]).endpoint_id@ != id@ by {
                        let s = old(self)@;
                        let ki = if k < i as int { k } else { k + 1 };
                        assert(self@[k] == s[ki]);
                        if ki != i as int {
                            if ki < i as int {
                                assert(s[ki].endpoint_id@ != s[i as int].endpoint_id@);
                            } else {
                                assert(s[i as int].endpoint_id@ != s[ki].endpoint_id@);
                            }
                        }
                    }
                }
            },
            None => {},
        }
    }

    /// Records that one loop exited on its own (the backend vanished or
    /// the task failed upstream): its flag is cleared, everything else
    /// kept. A later stop or disconnect is still safe.
    pub fn loop_exited(&mut self, id: &str, screen: bool, sensor: bool, audio: bool)
        requires
            old(self).wf(),
        ensures
            final(self).wf(),
            !sess_has_id(old(self)@, id@) ==> final(self)@ == old(self)@,
            sess_has_id(old(self)@, id@) ==> {
                let pre = sess_at(old(self)@, id@);
                let post = sess_at(final(self)@, id@);
                &&& final(self)@ == old(self)@.update(sess_idx_of(old(self)@, id@), post)
                &&& post.endpoint_id@ == pre.endpoint_id@
                &&& post.screen_running == (pre.screen_running && !screen)
                &&& post.sensor_running == (pre.sensor_running && !sensor)
                &&& post.audio_running == (pre.audio_running && !audio)
                &&& post.capture == pre.capture
            },
    {
        match self.find(id) {
            Some(i) => {
                proof {
                    lemma_sess_at(self@, id@, i as int);
                }
                if screen {
                    self.sessions[i].screen_running = false;
                }
                if sensor {
                    self.sessions[i].sensor_running = false;
                }
                if audio {
                    self.sessions[i].audio_running = false;
                }
                proof {
                    lemma_sess_at(self@, id@, i as int);
                    assert(final(self)@ =~= old(self)@.update(
                        sess_idx_of(old(self)@, id@),
                        sess_at(final(self)@, id@),
                    ));
                }
            },
            None => {},
        }
    }

    /// Replaces the audio loop of an endpoint's session: the previous
    /// audio loop stops, and a new one runs exactly when the routing
    /// asks for one. Everything else, and an endpoint without a
    /// session, is untouched.
    pub fn set_audio_loop(&mut self, id: &str, active: bool)
        requires
            old(self).wf(),
        ensures
            final(self).wf(),
            !sess_has_id(old(self)@, id@) ==> final(self)@ == old(self)@,
            sess_has_id(old(self)@, id@) ==> {
                let pre = sess_at(old(self)@, id@);
                let post = sess_at(final(self)@, id@);
                &&& final(self)@ == old(self)@.update(sess_idx_of(old(self)@, id@), post)
                &&& post.endpoint_id@ == pre.endpoint_id@
                &&& post.screen_running == pre.screen_running
                &&& post.sensor_running == pre.sensor_running
                &&& post.audio_running == active
                &&& post.capture == pre.capture
            },
    {
        match self.find(id) {
            Some(i) => {
                proof {
                    lemma_sess_at(self@, id@, i as int);
                }
                self.sessions[i].audio_running = active;
                proof {
                    lemma_sess_at(self@, id@, i as int);
                    assert(final(self)@ =~= old(self)@.update(
                        sess_idx_of(old(self)@, id@),
                        sess_at(final(self)@, id@),
                    ));
                }
            },
            None => {},
        }
    }

    /// Publishes a captured frame into the endpoint's single slot,
    /// dropping whatever older frame was there. True when a session
    /// exists.
    pub fn publish_frame(&mut self, id: &str, frame: Vec<u8>) -> (r: bool)
        requires
            old(self).wf(),
        ensures
            final(self).wf(),
            r == sess_has_id(old(self)@, id@),
            !sess_has_id(old(self)@, id@) ==> final(self)@ == old(self)@,
            sess_has_id(old(self)@, id@) ==> {
                let pre = sess_at(old(self)@, id@);
                let post = sess_at(final(self)@, id@);
                &&& final(self)@ == old(self)@.update(sess_idx_of(old(self)@, id@), post)
                &&& post.endpoint_id@ == pre.endpoint_id@
                &&& session_flags(&post) == session_flags(&pre)
                &&& post.capture.capture_active
                &&& post.capture.current_frame matches Some(f) && f@ == frame@
            },
    {
        match self.find(id) {
            Some(i) => {
                proof {
                    lemma_sess_at(self@, id@, i as int);
                }
                self.sessions[i].capture.current_frame = Some(frame);
                self.sessions[i].capture.capture_active = true;
                proof {
                    lemma_sess_at(self@, id@, i as int);
                    assert(final(self)@ =~= old(self)@.update(
                        sess_idx_of(old(self)@, id@),
                        sess_at(final(self)@, id@),
                    ));
                }
                true
            },
            None => false,
        }
    }

    /// The newest published frame of this endpoint, if any.
    pub fn latest_frame(&self, id: &str) -> (r: Option<&Vec<u8>>)
        requires
            self.wf(),
        ensures
            match r {
                Some(f) => sess_has_id(self@, id@) && (sess_at(
                    self@,
                    id@,
                ).capture.current_frame matches Some(g) && g == *f),
                None => !sess_has_id(self@, id@) || sess_at(
                    self@,
                    id@,
                ).capture.current_frame is None,
            },
    {
        match self.find(id) {
            Some(i) => {
                proof {
                    lemma_sess_at(self@, id@, i as int);
                }
                match &self.sessions[i].capture.current_frame {
                    Some(f) => Some(f),
                    None => None,
                }
            },
            None => None,
        }
    }
}

} // verus!
