use vstd::prelude::*;
use vstd::string::*;
use crate::message::{StudentCapabilities, TeacherToStudent};

verus! {

/// One connected student, owned by the registry.
pub struct StudentSession {
    pub connection_id: u128,
    pub addr: String,
    pub student_id: String,
    pub student_name: String,
    pub capabilities: StudentCapabilities,
    pub last_seen_ms: u64,
    /// Messages waiting for the connection's writer, oldest first.
    pub outbox: Vec<TeacherToStudent>,
}

/// What a listing of the connected students shows of each.
#[derive(Debug, Clone, PartialEq, Eq)]
pub struct StudentSummary {
    pub student_id: String,
    pub display_name: String,
    pub addr: String,
}

impl StudentSession {
    /// A session just past its handshake, with nothing queued.
    pub fn new(
        connection_id: u128,
        addr: String,
        student_id: String,
        student_name: String,
        capabilities: StudentCapabilities,
        now_ms: u64,
    ) -> (r: Self)
        ensures
            r.connection_id == connection_id,
            r.addr == addr,
            r.student_id == student_id,
            r.student_name == student_name,
            r.capabilities == capabilities,
            r.last_seen_ms == now_ms,
            r.outbox@.len() == 0,
    {
        StudentSession {
            connection_id,
            addr,
            student_id,
            student_name,
            capabilities,
            last_seen_ms: now_ms,
            outbox: Vec::new(),
        }
    }

    /// `self` and `o` agree on everything but the queued messages.
    pub open spec fn same_but_outbox(&self, o: &StudentSession) -> bool {
        &&& self.connection_id == o.connection_id
        &&& self.addr == o.addr
        &&& self.student_id == o.student_id
        &&& self.student_name == o.student_name
        &&& self.capabilities == o.capabilities
        &&& self.last_seen_ms == o.last_seen_ms
    }

    /// `after` is `self` with a copy of `m` queued behind what was there.
    pub open spec fn queued(&self, after: &StudentSession, m: &TeacherToStudent) -> bool {
        &&& self.same_but_outbox(after)
        &&& after.outbox@.len() == self.outbox@.len() + 1
        &&& after.outbox@.subrange(0, self.outbox@.len() as int) == self.outbox@
        &&& after.outbox@.last().same_as(m)
    }
}

/// The first session in `s` of the student with id `student_id`.
pub open spec fn first_of_student(s: Seq<StudentSession>, student_id: Seq<char>) -> Option<
    StudentSession,
>
    decreases s.len(),
{
    if s.len() == 0 {
        None
    } else if s[0].student_id@ == student_id {
        Some(s[0])
    } else {
        first_of_student(s.drop_first(), student_id)
    }
}

/// Whether a session with connection `id` is in `s`.
pub open spec fn has_connection(s: Seq<StudentSession>, id: u128) -> bool {
    exists|k: int| 0 <= k < s.len() && s[k].connection_id == id
}

/// Whether `after` is `before` with the session of connection `id` last seen at `now_ms`.
pub open spec fn touched(
    before: Seq<StudentSession>,
    after: Seq<StudentSession>,
    id: u128,
    now_ms: u64,
) -> bool {
    &&& after.len() == before.len()
    &&& forall|i: int|
        0 <= i < before.len() ==> if before[i].connection_id == id {
            (#[trigger] after[i]).last_seen_ms == now_ms && after[i].outbox == before[i].outbox
                && after[i].connection_id == id && after[i].addr == before[i].addr
                && after[i].student_id == before[i].student_id && after[i].student_name
                == before[i].student_name && after[i].capabilities == before[i].capabilities
        } else {
            after[i] == before[i]
        }
}

/// Whether `after` is `before` with `m` queued for connection `id` alone.
pub open spec fn sent_to(
    before: Seq<StudentSession>,
    after: Seq<StudentSession>,
    id: u128,
    m: TeacherToStudent,
) -> bool {
    &&& !has_connection(before, id) ==> after == before
    &&& has_connection(before, id) ==> exists|k: int|
        0 <= k < before.len() && before[k].connection_id == id && after == before.update(
            k,
            after[k],
        ) && before[k].queued(&after[k], &m)
}

/// Whether `after` is `before` with `m` queued for every session but `exclude`.
pub open spec fn delivered_except(
    before: Seq<StudentSession>,
    after: Seq<StudentSession>,
    m: TeacherToStudent,
    exclude: Option<u128>,
) -> bool {
    &&& after.len() == before.len()
    &&& forall|i: int|
        0 <= i < before.len() ==> if exclude == Some(before[i].connection_id) {
            #[trigger] after[i] == before[i]
        } else {
            before[i].queued(&after[i], &m)
        }
}

/// The connected students, each under a connection id that no other holds.
pub struct Registry {
    sessions: Vec<StudentSession>,
}

impl View for Registry {
    type V = Seq<StudentSession>;

    closed spec fn view(&self) -> Seq<StudentSession> {
        self.sessions@
    }
}

impl Registry {
    /// No connection id appears twice.
    pub open spec fn wf(&self) -> bool {
        forall|i: int, j: int|
            0 <= i < j < self@.len() ==> #[trigger] self@[i].connection_id
                != #[trigger] self@[j].connection_id
    }

    pub fn new() -> (r: Self)
        ensures
            r@ == Seq::<StudentSession>::empty(),
            r.wf(),
    {
        Registry { sessions: Vec::new() }
    }

    pub fn len(&self) -> (r: usize)
        ensures
            r == self@.len(),
    {
        self.sessions.len()
    }

    /// Where the session of connection `id` stands.
    pub fn position(&self, id: u128) -> (r: Option<usize>)
        ensures
            match r {
                Some(k) => k < self@.len() && self@[k as int].connection_id == id,
                None => !has_connection(self@, id),
            },
    {
        let mut k: usize = 0;
        while k < self.sessions.len()
            invariant
                k <= self@.len(),
                forall|j: int| 0 <= j < k ==> self@[j].connection_id != id,
            decreases self@.len() - k,
        {
            if self.sessions[k].connection_id == id {
                return Some(k);
            }
            k = k + 1;
        }
        None
    }

    /// Registers `session`; one already under its connection id is replaced.
    pub fn add(&mut self, session: StudentSession)
        requires
            old(self).wf(),
        ensures
            final(self).wf(),
            !has_connection(old(self)@, session.connection_id) ==> final(self)@ == old(self)@.push(session),
            has_connection(old(self)@, session.connection_id) ==> exists|k: int|
                0 <= k < old(self)@.len() && old(self)@[k].connection_id == session.connection_id
                    && final(self)@ == old(self)@.update(k, session),
    {
        match self.position(session.connection_id) {
            Some(k) => {
                self.sessions.set(k, session);
            },
            None => {
                self.sessions.push(session);
            },
        }
    }

    /// Drops the session of connection `id`; without one, nothing changes.
    pub fn remove(&mut self, id: u128)
        requires
            old(self).wf(),
        ensures
            final(self).wf(),
            !has_connection(old(self)@, id) ==> final(self)@ == old(self)@,
            has_connection(old(self)@, id) ==> exists|k: int|
                0 <= k < old(self)@.len() && old(self)@[k].connection_id == id && final(self)@
                    == old(self)@.remove(k),
            !has_connection(final(self)@, id),
    {
        match self.position(id) {
            Some(k) => {
                self.sessions.remove(k);
                assert forall|j: int| 0 <= j < self@.len() implies self@[j].connection_id
                    != id by {
                    if j < k {
                        assert(self@[j] == old(self)@[j]);
                    } else {
                        assert(self@[j] == old(self)@[j + 1]);
                    }
                }
            },
            None => {},
        }
    }

    /// Drops every session.
    pub fn clear(&mut self)
        ensures
            final(self)@ == Seq::<StudentSession>::empty(),
            final(self).wf(),
    {
        self.sessions.clear();
    }

    /// A listing of the sessions, in registry order.
    pub fn list(&self) -> (r: Vec<StudentSummary>)
        ensures
            r@.len() == self@.len(),
            forall|i: int|
                0 <= i < self@.len() ==> (#[trigger] r@[i]).student_id == self@[i].student_id
                    && r@[i].display_name == self@[i].student_name && r@[i].addr
                    == self@[i].addr,
    {
        let mut r: Vec<StudentSummary> = Vec::new();
        let mut k: usize = 0;
        while k < self.sessions.len()
            invariant
                k <= self@.len(),
                r@.len() == k,
                forall|i: int|
                    0 <= i < k ==> (#[trigger] r@[i]).student_id == self@[i].student_id
                        && r@[i].display_name == self@[i].student_name && r@[i].addr
                        == self@[i].addr,
            decreases self@.len() - k,
        {
            let s = &self.sessions[k];
            r.push(
                StudentSummary {
                    student_id: s.student_id.clone(),
                    display_name: s.student_name.clone(),
                    addr: s.addr.clone(),
                },
            );
            k = k + 1;
        }
        r
    }

    /// The first session, in registry order, of the student with id `student_id`.
    pub fn find_by_student_id(&self, student_id: &str) -> (r: Option<&StudentSession>)
        ensures
            match r {
                Some(s) => first_of_student(self@, student_id@) == Some(*s),
                None => first_of_student(self@, student_id@) is None,
            },
    {
        let key = String::from_str(student_id);
        let mut k: usize = 0;
        assert(self@.skip(0) =~= self@);
        while k < self.sessions.len()
            invariant
                key@ == student_id@,
                k <= self@.len(),
                first_of_student(self@.skip(k as int), student_id@) == first_of_student(
                    self@,
                    student_id@,
                ),
            decreases self@.len() - k,
        {
            if self.sessions[k].student_id == key {
                return Some(&self.sessions[k]);
            }
            assert(self@.skip(k as int).drop_first() =~= self@.skip(k + 1));
            k = k + 1;
        }
        None
    }

    /// Notes that connection `id` was heard from at `now_ms`.
    pub fn touch(&mut self, id: u128, now_ms: u64)
        requires
            old(self).wf(),
        ensures
            final(self).wf(),
            touched(old(self)@, final(self)@, id, now_ms),
    {
        match self.position(id) {
            Some(k) => {
                let mut s = self.sessions.remove(k);
                s.last_seen_ms = now_ms;
                self.sessions.insert(k, s);
                assert(self@ =~= old(self)@.update(k as int, s));
                proof {
                    assert forall|i: int| 0 <= i < old(self)@.len() && i != k implies
                        old(self)@[i].connection_id != id by {
                        if i < k {
                            assert(old(self)@[i].connection_id != old(self)@[k as int].connection_id);
                        } else {
                            assert(old(self)@[k as int].connection_id != old(self)@[i].connection_id);
                        }
                    }
                }
            },
            None => {},
        }
    }

    /// Queues a copy of `m` for session `k`.
    fn enqueue_at(&mut self, k: usize, m: &TeacherToStudent)
        requires
            old(self).wf(),
            k < old(self)@.len(),
        ensures
            final(self).wf(),
            final(self)@ == old(self)@.update(k as int, final(self)@[k as int]),
            old(self)@[k as int].queued(&final(self)@[k as int], m),
    {
        let mut s = self.sessions.remove(k);
        let ghost before = s;
        s.outbox.push(m.duplicate());
        assert(s.outbox@.subrange(0, before.outbox@.len() as int) =~= before.outbox@);
        self.sessions.insert(k, s);
        assert(self@ =~= old(self)@.update(k as int, s));
    }

    /// Queues a copy of `m` for every session but the one of connection `exclude`.
    pub fn broadcast_except(&mut self, m: &TeacherToStudent, exclude: Option<u128>)
        requires
            old(self).wf(),
        ensures
            final(self).wf(),
            delivered_except(old(self)@, final(self)@, *m, exclude),
    {
        let mut k: usize = 0;
        while k < self.sessions.len()
            invariant
                self.wf(),
                k <= self@.len(),
                self@.len() == old(self)@.len(),
                forall|i: int|
                    0 <= i < k ==> if exclude == Some(old(self)@[i].connection_id) {
                        #[trigger] self@[i] == old(self)@[i]
                    } else {
                        old(self)@[i].queued(&self@[i], m)
                    },
                forall|i: int| k <= i < self@.len() ==> #[trigger] self@[i] == old(self)@[i],
            decreases self@.len() - k,
        {
            let skip = match exclude {
                Some(x) => self.sessions[k].connection_id == x,
                None => false,
            };
            if !skip {
                self.enqueue_at(k, m);
            }
            k = k + 1;
        }
    }

    /// Queues a copy of `m` for connection `id` alone.
    pub fn send_to(&mut self, id: u128, m: &TeacherToStudent)
        requires
            old(self).wf(),
        ensures
            final(self).wf(),
            sent_to(old(self)@, final(self)@, id, *m),
    {
        match self.position(id) {
            Some(k) => {
                self.enqueue_at(k, m);
            },
            None => {},
        }
    }

    /// Hands out what is queued for connection `id`, oldest first, and empties its queue.
    pub fn take_outbox(&mut self, id: u128) -> (r: Vec<TeacherToStudent>)
        requires
            old(self).wf(),
        ensures
            final(self).wf(),
            !has_connection(old(self)@, id) ==> final(self)@ == old(self)@ && r@.len() == 0,
            has_connection(old(self)@, id) ==> exists|k: int|
                0 <= k < old(self)@.len() && old(self)@[k].connection_id == id && final(self)@
                    == old(self)@.update(k, final(self)@[k]) && final(self)@[k].same_but_outbox(
                    &old(self)@[k],
                ) && final(self)@[k].outbox@.len() == 0 && r@ == old(self)@[k].outbox@,
    {
        match self.position(id) {
            Some(k) => {
                let mut s = self.sessions.remove(k);
                let mut out: Vec<TeacherToStudent> = Vec::new();
                std::mem::swap(&mut out, &mut s.outbox);
                self.sessions.insert(k, s);
                assert(self@ =~= old(self)@.update(k as int, s));
                out
            },
            None => Vec::new(),
        }
    }
}

} // verus!
