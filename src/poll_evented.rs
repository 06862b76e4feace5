//! The readiness stream: an I/O object together with its cached readiness.
use vstd::prelude::*;

use crate::ready::{read_class_bits, Ready, WRITABLE};

verus! {

/// The outcome of a readiness query: ready with a value, or not ready yet.
#[derive(Clone, Copy, Debug, PartialEq, Eq, Structural)]
pub enum Async<T> {
    Ready(T),
    NotReady,
}

/// One of the two classes of readiness: the writable bit, or every other bit.
#[derive(Clone, Copy, Debug, PartialEq, Eq, Structural)]
pub enum Class {
    Read,
    Write,
}

/// What is known of one class: nothing, or a readiness snapshot not yet
/// admitted to be stale.
#[derive(Clone, Copy, Debug, PartialEq, Eq, Structural)]
pub enum Slot {
    Unknown,
    Cached(Ready),
}

/// The registration operation that a class needs next.
///
/// `Poll` asks the event loop for fresh readiness and, when there is none,
/// arranges for the current task to be woken; `Drain` only takes readiness
/// that the event loop has buffered since.
#[derive(Clone, Copy, Debug, PartialEq, Eq, Structural)]
pub enum Query {
    Poll,
    Drain,
}

/// What the registration answered to a `Query`.
#[derive(Clone, Copy, Debug, PartialEq, Eq, Structural)]
pub enum Answer {
    Polled(Async<Ready>),
    Drained(Option<Ready>),
}

/// What the readiness logic reads of an I/O error.
#[derive(Clone, Copy, Debug, PartialEq, Eq, Structural)]
pub enum ErrorKind {
    WouldBlock,
    Other,
}

/// The cached readiness of both classes.
#[derive(Clone, Copy, Debug, PartialEq, Eq, Structural)]
pub struct ReadinessState {
    pub read: Slot,
    pub write: Slot,
}

/// Whether `s` is a slot that may stand in the cache: a cached snapshot is
/// never empty.
pub open spec fn slot_ok(s: Slot) -> bool {
    s matches Slot::Cached(m) ==> m.bits != 0
}

impl ReadinessState {
    /// Both slots may stand in the cache.
    pub open spec fn wf(self) -> bool {
        slot_ok(self.read) && slot_ok(self.write)
    }
}

/// Whether the readiness `r` that a refresh of `class` returned makes the
/// class ready: the read class needs a read-class bit, the write class any
/// bit at all.
pub open spec fn class_ready(class: Class, r: Async<Ready>) -> bool {
    match r {
        Async::Ready(v) => match class {
            Class::Read => read_class_bits(v.bits) != 0,
            Class::Write => v.bits != 0,
        },
        Async::NotReady => false,
    }
}

/// Whether the answer `a` brings no readiness at all.
pub open spec fn brings_nothing(a: Answer) -> bool {
    match a {
        Answer::Polled(Async::Ready(m)) => m.bits == 0,
        Answer::Polled(Async::NotReady) => true,
        Answer::Drained(Some(m)) => m.bits == 0,
        Answer::Drained(None) => true,
    }
}

/// The query that a slot needs: a poll when nothing is cached, else a drain.
pub open spec fn query_of(s: Slot) -> Query {
    match s {
        Slot::Unknown => Query::Poll,
        Slot::Cached(_) => Query::Drain,
    }
}

/// Whether `a` answers the query that `s` needs.
pub open spec fn answers(s: Slot, a: Answer) -> bool {
    match a {
        Answer::Polled(_) => s is Unknown,
        Answer::Drained(_) => s is Cached,
    }
}

/// The slot and the readiness after refreshing `s` with the answer `a`.
///
/// A poll that reports a non-empty readiness is cached; an empty one is
/// returned, but nothing is cached. A drain unions what it took into the
/// cached snapshot.
pub open spec fn refreshed(s: Slot, a: Answer) -> (Slot, Async<Ready>) {
    match (s, a) {
        (Slot::Cached(old), Answer::Drained(None)) => (Slot::Cached(old), Async::Ready(old)),
        (Slot::Cached(old), Answer::Drained(Some(m))) => {
            let n = Ready { bits: old.bits | m.bits };
            (Slot::Cached(n), Async::Ready(n))
        },
        (_, Answer::Polled(Async::Ready(m))) => if m.bits == 0 {
            (Slot::Unknown, Async::Ready(m))
        } else {
            (Slot::Cached(m), Async::Ready(m))
        },
        _ => (Slot::Unknown, Async::NotReady),
    }
}

/// The answer that carries no new activity for the query that `s` needs.
pub open spec fn quiet_answer(s: Slot) -> Answer {
    match s {
        Slot::Unknown => Answer::Polled(Async::NotReady),
        Slot::Cached(_) => Answer::Drained(None),
    }
}

/// The slot of `class` in `st`.
pub open spec fn slot_of(st: ReadinessState, class: Class) -> Slot {
    match class {
        Class::Read => st.read,
        Class::Write => st.write,
    }
}

/// `st` with the slot of `class` replaced by `s`.
pub open spec fn with_slot(st: ReadinessState, class: Class, s: Slot) -> ReadinessState {
    match class {
        Class::Read => ReadinessState { read: s, ..st },
        Class::Write => ReadinessState { write: s, ..st },
    }
}

/// Whether `mask` holds a read-class condition.
pub open spec fn has_read_class(mask: Ready) -> bool {
    read_class_bits(mask.bits) != 0
}

/// The writable bit where the write-class refresh `w` found the class ready.
pub open spec fn write_bits(w: Option<Async<Ready>>) -> usize {
    match w {
        Some(x) => if class_ready(Class::Write, x) { WRITABLE } else { 0 },
        None => 0,
    }
}

/// The conditions of `mask`'s read class that the read-class refresh `r`
/// reported.
pub open spec fn read_bits(mask: Ready, r: Option<Async<Ready>>) -> usize {
    match r {
        Some(Async::Ready(v)) => v.bits & read_class_bits(mask.bits),
        _ => 0,
    }
}

/// The conditions that a composite query finds ready, given what the
/// write-class and read-class refreshes reported (`None` where the class was
/// not consulted).
pub open spec fn found_bits(
    mask: Ready,
    w: Option<Async<Ready>>,
    r: Option<Async<Ready>>,
) -> usize {
    write_bits(w) | read_bits(mask, r)
}

/// The refreshed slot and readiness of `s` when `a` is given, else `s`
/// untouched.
pub open spec fn refreshed_opt(s: Slot, a: Option<Answer>) -> (Slot, Option<Async<Ready>>) {
    match a {
        Some(x) => (refreshed(s, x).0, Some(refreshed(s, x).1)),
        None => (s, None),
    }
}

/// The state and the result of a composite readiness query for `mask`.
///
/// An empty mask is ready with nothing at once. Otherwise the write class is
/// consulted where the mask holds the writable bit, the read class where it
/// holds any other bit, and the result is what they report within the mask.
/// When nothing is found, each consulted class is declared blocked: its slot
/// is cleared.
pub open spec fn polled_ready(
    st: ReadinessState,
    mask: Ready,
    write: Option<Answer>,
    read: Option<Answer>,
) -> (ReadinessState, Async<Ready>) {
    if mask.bits == 0 {
        (st, Async::Ready(Ready { bits: 0 }))
    } else {
        let (w1, wr) = refreshed_opt(st.write, write);
        let (r1, rr) = refreshed_opt(st.read, read);
        let found = found_bits(mask, wr, rr);
        if found == 0 {
            (
                ReadinessState {
                    read: if has_read_class(mask) { Slot::Unknown } else { r1 },
                    write: if mask.spec_is_writable() { Slot::Unknown } else { w1 },
                },
                Async::NotReady,
            )
        } else {
            (ReadinessState { read: r1, write: w1 }, Async::Ready(Ready { bits: found }))
        }
    }
}

/// The classes that a composite query for `mask` consults, and re-arms when
/// it finds nothing: the write class where `mask` holds the writable bit,
/// the read class where it holds any other bit.
pub fn classes_of(mask: Ready) -> (r: (bool, bool))
    ensures
        r.0 == mask.spec_is_writable(),
        r.1 == has_read_class(mask),
{
    (mask.is_writable(), !mask.read_class().is_empty())
}

/// Whether `r` failed because the operation would block.
pub open spec fn spec_is_wouldblock<T>(r: Result<T, ErrorKind>) -> bool {
    match r {
        Ok(_) => false,
        Err(k) => k == ErrorKind::WouldBlock,
    }
}

/// Whether `r` failed because the operation would block.
pub fn is_wouldblock<T>(r: &Result<T, ErrorKind>) -> (b: bool)
    ensures
        b == spec_is_wouldblock(*r),
{
    match r {
        Ok(_) => false,
        Err(k) => match k {
            ErrorKind::WouldBlock => true,
            ErrorKind::Other => false,
        },
    }
}

/// The bits that a composite query finds are within its mask.
proof fn lemma_found_within(m: usize, wb: usize, vb: usize)
    requires
        wb == 0 || (wb == WRITABLE && m & WRITABLE != 0),
    ensures
        (wb | (vb & (m & !WRITABLE))) & m == wb | (vb & (m & !WRITABLE)),
{
    assert(wb == 0 || (wb == 2 && m & 2 != 0) ==> (wb | (vb & (m & !2usize))) & m == wb | (vb & (m
        & !2usize))) by (bit_vector);
}

/// How `found_bits` is assembled from the parts of a composite query.
proof fn lemma_found_bits(mask: Ready, w: Option<Async<Ready>>, r: Option<Async<Ready>>)
    requires
        w is Some ==> mask.spec_is_writable(),
    ensures
        found_bits(mask, w, r) & mask.bits == found_bits(mask, w, r),
        write_bits(w) == 0 ==> found_bits(mask, w, r) == read_bits(mask, r),
        read_bits(mask, r) == 0 ==> found_bits(mask, w, r) == write_bits(w),
{
    let m = mask.bits;
    let vb: usize = match r {
        Some(Async::Ready(v)) => v.bits,
        _ => 0,
    };
    assert(0usize & (m & !WRITABLE) == 0usize) by (bit_vector);
    assert(forall|x: usize| 0usize | x == x) by (bit_vector);
    assert(forall|x: usize| x | 0usize == x) by (bit_vector);
    lemma_found_within(m, write_bits(w), vb);
}

/// The slot after replaying the answers `answers`, in order, on `s`.
pub open spec fn replay(s: Slot, answers: Seq<Answer>) -> Slot
    decreases answers.len(),
{
    if answers.len() == 0 {
        s
    } else {
        refreshed(replay(s, answers.drop_last()), answers.last()).0
    }
}

/// Answers that bring nothing leave an empty slot empty.
proof fn lemma_replay_nothing(answers: Seq<Answer>)
    requires
        forall|i: int| 0 <= i < answers.len() ==> brings_nothing(#[trigger] answers[i]),
    ensures
        replay(Slot::Unknown, answers) == Slot::Unknown,
    decreases answers.len(),
{
    if answers.len() > 0 {
        let prefix = answers.drop_last();
        assert forall|i: int| 0 <= i < prefix.len() implies brings_nothing(#[trigger] prefix[i]) by {
            assert(prefix[i] == answers[i]);
        }
        lemma_replay_nothing(prefix);
        assert(brings_nothing(answers[answers.len() - 1]));
    }
}

/// Once a class has been declared blocked (`need_class`) and the poll that
/// went with it brought nothing, the class reports not ready at every later
/// query, for as long as the registration brings nothing: its slot stays
/// empty, so only polls are asked, and no drain can hand in a mask either.
pub proof fn lemma_need_blocks_until_fresh(
    st: ReadinessState,
    class: Class,
    polled: Async<Ready>,
    later: Seq<Answer>,
)
    requires
        brings_nothing(Answer::Polled(polled)),
        forall|i: int| 0 <= i < later.len() ==> brings_nothing(#[trigger] later[i]),
    ensures
        ({
            let after = with_slot(st, class, refreshed(Slot::Unknown, Answer::Polled(polled)).0);
            &&& slot_of(after, class) == Slot::Unknown
            &&& replay(slot_of(after, class), later) == Slot::Unknown
            &&& forall|i: int|
                0 <= i < later.len() ==> {
                    let before = #[trigger] replay(slot_of(after, class), later.take(i));
                    &&& query_of(before) == Query::Poll
                    &&& !class_ready(class, refreshed(before, later[i]).1)
                }
        }),
{
    assert(0usize & !WRITABLE == 0usize) by (bit_vector);
    lemma_replay_nothing(later);
    assert forall|i: int| 0 <= i < later.len() implies {
        let before = #[trigger] replay(Slot::Unknown, later.take(i));
        &&& query_of(before) == Query::Poll
        &&& !class_ready(class, refreshed(before, later[i]).1)
    } by {
        let t = later.take(i);
        assert forall|j: int| 0 <= j < t.len() implies brings_nothing(#[trigger] t[j]) by {
            assert(t[j] == later[j]);
        }
        lemma_replay_nothing(t);
        assert(brings_nothing(later[i]));
    }
}

/// Asking a class twice in a row, with no admission in between and no new
/// activity from the event loop, leaves the slot as the first query left it
/// and reports the same readiness of the class both times.
pub proof fn lemma_query_idempotent(s: Slot, a: Answer, class: Class)
    requires
        answers(s, a),
    ensures
        answers(refreshed(s, a).0, quiet_answer(refreshed(s, a).0)),
        refreshed(refreshed(s, a).0, quiet_answer(refreshed(s, a).0)).0 == refreshed(s, a).0,
        class_ready(class, refreshed(refreshed(s, a).0, quiet_answer(refreshed(s, a).0)).1)
            == class_ready(class, refreshed(s, a).1),
{
    assert(0usize & !WRITABLE == 0usize) by (bit_vector);
}

/// An I/O operation on a class ends in would-block either before it starts
/// (`io_begin` found the class not ready) or at the object itself
/// (`io_finished` clears the class, and `need_class` polls it again). Either
/// way, unless the event loop brings new readiness, the next query of the
/// class finds it not ready.
pub proof fn lemma_wouldblock_then_not_ready(s: Slot, first: Answer, polled: Async<Ready>, class: Class)
    requires
        answers(s, first),
        brings_nothing(Answer::Polled(polled)),
    ensures
        !class_ready(class, refreshed(s, first).1) ==> !class_ready(
            class,
            refreshed(refreshed(s, first).0, quiet_answer(refreshed(s, first).0)).1,
        ),
        ({
            let cleared = refreshed(Slot::Unknown, Answer::Polled(polled)).0;
            &&& cleared == Slot::Unknown
            &&& !class_ready(class, refreshed(cleared, quiet_answer(cleared)).1)
        }),
{
    lemma_query_idempotent(s, first, class);
}

/// A composite query for an empty mask is ready with nothing and changes no
/// slot; one whose mask lacks a class leaves that class's slot alone.
pub proof fn lemma_poll_ready_classes(
    st: ReadinessState,
    mask: Ready,
    write: Option<Answer>,
    read: Option<Answer>,
)
    requires
        write is Some == mask.spec_is_writable(),
        read is Some == has_read_class(mask),
    ensures
        mask.bits == 0 ==> polled_ready(st, mask, write, read) == (st, Async::Ready(Ready { bits: 0 })),
        !has_read_class(mask) ==> polled_ready(st, mask, write, read).0.read == st.read,
        !mask.spec_is_writable() ==> polled_ready(st, mask, write, read).0.write == st.write,
{
}

/// An I/O object together with the readiness that its event loop reported.
///
/// Once a class is reported ready it stays ready, answered from the cache,
/// until the owner admits with `need_read` or `need_write` that an operation
/// on the object would block. The read class is ready when its snapshot
/// holds a read-class bit; the write class is ready when its slot holds a
/// snapshot, whatever bits the snapshot holds.
pub struct PollEvented<E> {
    io: E,
    cache: Cache,
}

/// The two slots, kept well formed.
struct Cache {
    state: ReadinessState,
}

impl Cache {
    /// No cached snapshot is empty.
    #[verifier::type_invariant]
    spec fn cache_ok(self) -> bool {
        self.state.wf()
    }

    fn set(&mut self, class: Class, s: Slot)
        requires
            slot_ok(s),
        ensures
            final(self).state == with_slot(old(self).state, class, s),
    {
        proof {
            use_type_invariant(&*self);
        }
        match class {
            Class::Read => self.state = ReadinessState { read: s, ..self.state },
            Class::Write => self.state = ReadinessState { write: s, ..self.state },
        }
    }
}

impl<E> PollEvented<E> {
    /// The cached readiness of both classes.
    pub closed spec fn view(&self) -> ReadinessState {
        self.cache.state
    }

    /// The wrapped I/O object.
    pub closed spec fn io(&self) -> E {
        self.io
    }

    /// Wraps `io`, of which nothing is known yet.
    pub fn new(io: E) -> (r: Self)
        ensures
            r@ == (ReadinessState { read: Slot::Unknown, write: Slot::Unknown }),
            r.io() == io,
    {
        PollEvented {
            io,
            cache: Cache { state: ReadinessState { read: Slot::Unknown, write: Slot::Unknown } },
        }
    }

    /// The registration operation that `class` needs next.
    pub fn query(&self, class: Class) -> (q: Query)
        ensures
            q == query_of(slot_of(self@, class)),
    {
        match self.slot(class) {
            Slot::Unknown => Query::Poll,
            Slot::Cached(_) => Query::Drain,
        }
    }

    fn slot(&self, class: Class) -> (s: Slot)
        ensures
            s == slot_of(self@, class),
            slot_ok(s),
    {
        proof {
            use_type_invariant(&self.cache);
        }
        match class {
            Class::Read => self.cache.state.read,
            Class::Write => self.cache.state.write,
        }
    }

    fn set_slot(&mut self, class: Class, s: Slot)
        requires
            slot_ok(s),
        ensures
            final(self)@ == with_slot(old(self)@, class, s),
            final(self).io() == old(self).io(),
    {
        self.cache.set(class, s);
    }

    /// Refreshes `class` with what the registration answered to the query
    /// that `query` names for it, and returns what the refresh reported.
    pub fn poll_class(&mut self, class: Class, answer: Answer) -> (r: Async<Ready>)
        requires
            answers(slot_of(old(self)@, class), answer),
        ensures
            r == refreshed(slot_of(old(self)@, class), answer).1,
            final(self)@ == with_slot(
                old(self)@,
                class,
                refreshed(slot_of(old(self)@, class), answer).0,
            ),
            final(self).io() == old(self).io(),
    {
        let s = self.slot(class);
        match answer {
            Answer::Polled(p) => match p {
                Async::Ready(m) => {
                    if !m.is_empty() {
                        self.set_slot(class, Slot::Cached(m));
                    }
                    Async::Ready(m)
                },
                Async::NotReady => Async::NotReady,
            },
            Answer::Drained(extra) => {
                let old_mask = match s {
                    Slot::Cached(m) => m,
                    Slot::Unknown => Ready::empty(),
                };
                match extra {
                    Some(m) => {
                        let n = old_mask.union(m);
                        let (o, e) = (old_mask.bits, m.bits);
                        assert(o != 0 ==> o | e != 0) by (bit_vector);
                        self.set_slot(class, Slot::Cached(n));
                        Async::Ready(n)
                    },
                    None => Async::Ready(old_mask),
                }
            },
        }
    }

    /// Whether a refresh of `class` that reported `r` makes the class ready.
    pub fn class_ready(class: Class, r: Async<Ready>) -> (b: bool)
        ensures
            b == class_ready(class, r),
    {
        match r {
            Async::Ready(v) => match class {
                Class::Read => !v.read_class().is_empty(),
                Class::Write => !v.is_empty(),
            },
            Async::NotReady => false,
        }
    }

    /// Whether the object is ready to be read from, given what the
    /// registration answered to the read-class query: whether the refreshed
    /// snapshot holds a read-class bit.
    pub fn poll_read(&mut self, answer: Answer) -> (r: Async<()>)
        requires
            answers(old(self)@.read, answer),
        ensures
            (r is Ready) == class_ready(Class::Read, refreshed(old(self)@.read, answer).1),
            final(self)@ == (ReadinessState { read: refreshed(old(self)@.read, answer).0, ..old(self)@ }),
            final(self).io() == old(self).io(),
    {
        let v = self.poll_class(Class::Read, answer);
        if Self::class_ready(Class::Read, v) {
            Async::Ready(())
        } else {
            Async::NotReady
        }
    }

    /// Whether the object is ready to be written to, given what the
    /// registration answered to the write-class query: whether a snapshot is
    /// cached for the class after the refresh.
    pub fn poll_write(&mut self, answer: Answer) -> (r: Async<()>)
        requires
            answers(old(self)@.write, answer),
        ensures
            (r is Ready) == class_ready(Class::Write, refreshed(old(self)@.write, answer).1),
            (r is Ready) == (refreshed(old(self)@.write, answer).0 is Cached),
            final(self)@ == (ReadinessState { write: refreshed(old(self)@.write, answer).0, ..old(self)@ }),
            final(self).io() == old(self).io(),
    {
        proof {
            use_type_invariant(&self.cache);
            if let Answer::Drained(Some(m)) = answer {
                if let Slot::Cached(o) = old(self)@.write {
                    let (ob, mb) = (o.bits, m.bits);
                    assert(ob != 0 ==> ob | mb != 0) by (bit_vector);
                }
            }
        }
        let v = self.poll_class(Class::Write, answer);
        if Self::class_ready(Class::Write, v) {
            Async::Ready(())
        } else {
            Async::NotReady
        }
    }

    /// Admits that the cached readiness of `class` was stale: clears the slot,
    /// then takes `polled`, the answer of a fresh poll of the registration.
    /// Returns whether that poll found the class ready already, in which case
    /// the current task has to be woken at once.
    pub fn need_class(&mut self, class: Class, polled: Async<Ready>) -> (wake: bool)
        ensures
            wake == class_ready(class, polled),
            final(self)@ == with_slot(
                old(self)@,
                class,
                refreshed(Slot::Unknown, Answer::Polled(polled)).0,
            ),
            final(self).io() == old(self).io(),
    {
        self.set_slot(class, Slot::Unknown);
        let v = self.poll_class(class, Answer::Polled(polled));
        Self::class_ready(class, v)
    }

    /// Admits that the object was not readable after all; see `need_class`.
    pub fn need_read(&mut self, polled: Async<Ready>) -> (wake: bool)
        ensures
            wake == class_ready(Class::Read, polled),
            final(self)@ == (ReadinessState {
                read: refreshed(Slot::Unknown, Answer::Polled(polled)).0,
                ..old(self)@
            }),
            final(self).io() == old(self).io(),
    {
        self.need_class(Class::Read, polled)
    }

    /// Admits that the object was not writable after all; see `need_class`.
    pub fn need_write(&mut self, polled: Async<Ready>) -> (wake: bool)
        ensures
            wake == class_ready(Class::Write, polled),
            final(self)@ == (ReadinessState {
                write: refreshed(Slot::Unknown, Answer::Polled(polled)).0,
                ..old(self)@
            }),
            final(self).io() == old(self).io(),
    {
        self.need_class(Class::Write, polled)
    }

    /// What precedes an I/O operation on `class`: refreshes the class with
    /// the registration's answer, and fails with would-block unless the class
    /// is ready.
    pub fn io_begin(&mut self, class: Class, answer: Answer) -> (r: Result<(), ErrorKind>)
        requires
            answers(slot_of(old(self)@, class), answer),
        ensures
            r == (if class_ready(class, refreshed(slot_of(old(self)@, class), answer).1) {
                Ok::<(), ErrorKind>(())
            } else {
                Err::<(), ErrorKind>(ErrorKind::WouldBlock)
            }),
            final(self)@ == with_slot(
                old(self)@,
                class,
                refreshed(slot_of(old(self)@, class), answer).0,
            ),
            final(self).io() == old(self).io(),
    {
        let v = self.poll_class(class, answer);
        if Self::class_ready(class, v) {
            Ok(())
        } else {
            Err(ErrorKind::WouldBlock)
        }
    }

    /// What follows an I/O operation on `class` that returned `r`: where it
    /// would block, the cached readiness was stale, so the class is cleared
    /// and the result says that the class has to be re-armed (`need_class`);
    /// any other result leaves the cache alone.
    pub fn io_finished<T>(&mut self, class: Class, r: &Result<T, ErrorKind>) -> (rearm: bool)
        ensures
            rearm == spec_is_wouldblock(*r),
            final(self)@ == (if rearm {
                with_slot(old(self)@, class, Slot::Unknown)
            } else {
                old(self)@
            }),
            final(self).io() == old(self).io(),
    {
        if is_wouldblock(r) {
            self.set_slot(class, Slot::Unknown);
            true
        } else {
            false
        }
    }

    /// Tests whether the object fulfils any condition of `mask`.
    ///
    /// `write` is the registration's answer to the write-class query, given
    /// exactly when `mask` holds the writable bit; `read` the answer to the
    /// read-class query, given exactly when `mask` holds any other bit. When
    /// nothing in `mask` is ready, every consulted class is cleared, and the
    /// caller then declares the need of each with `need_class`.
    pub fn poll_ready(&mut self, mask: Ready, write: Option<Answer>, read: Option<Answer>) -> (r: Async<Ready>)
        requires
            write is Some == mask.spec_is_writable(),
            read is Some == has_read_class(mask),
            write matches Some(a) ==> answers(old(self)@.write, a),
            read matches Some(a) ==> answers(old(self)@.read, a),
        ensures
            (final(self)@, r) == polled_ready(old(self)@, mask, write, read),
            mask.bits == 0 ==> r == Async::Ready(Ready { bits: 0 }) && final(self)@ == old(self)@,
            r matches Async::Ready(m) ==> m.bits & mask.bits == m.bits,
            r matches Async::Ready(m) ==> (m.bits != 0 || mask.bits == 0),
            !mask.spec_is_writable() ==> final(self)@.write == old(self)@.write,
            !has_read_class(mask) ==> final(self)@.read == old(self)@.read,
            final(self).io() == old(self).io(),
    {
        if mask.is_empty() {
            assert(0usize & mask.bits == 0usize) by (bit_vector);
            return Async::Ready(Ready::empty());
        }
        let mut found = Ready::empty();
        let ghost w_res: Option<Async<Ready>> = None;
        let ghost r_res: Option<Async<Ready>> = None;
        match write {
            Some(a) => {
                let w = self.poll_class(Class::Write, a);
                proof { w_res = Some(w); }
                if Self::class_ready(Class::Write, w) {
                    found = Ready::writable();
                }
            },
            None => {},
        }
        let rest = mask.read_class();
        match read {
            Some(a) => {
                let v = self.poll_class(Class::Read, a);
                proof { r_res = Some(v); }
                if let Async::Ready(v) = v {
                    found = found.union(v.intersection(rest));
                }
            },
            None => {},
        }
        proof {
            lemma_found_bits(mask, w_res, r_res);
        }
        if found.is_empty() {
            if mask.is_writable() {
                self.set_slot(Class::Write, Slot::Unknown);
            }
            if !rest.is_empty() {
                self.set_slot(Class::Read, Slot::Unknown);
            }
            Async::NotReady
        } else {
            Async::Ready(found)
        }
    }

    /// The cached readiness of both classes.
    pub fn state(&self) -> (r: ReadinessState)
        ensures
            r == self@,
            r.wf(),
    {
        proof {
            use_type_invariant(&self.cache);
        }
        self.cache.state
    }

    /// Gives up the object's registration. Nothing has to happen here: the
    /// I/O object is deregistered from its event loop when it is dropped, so
    /// this always succeeds.
    pub fn deregister(self) -> (r: Result<(), ErrorKind>)
        ensures
            r == Ok::<(), ErrorKind>(()),
    {
        Ok(())
    }

    /// A shared reference to the wrapped I/O object.
    pub fn get_ref(&self) -> (r: &E)
        ensures
            *r == self.io(),
    {
        &self.io
    }

    /// An exclusive reference to the wrapped I/O object; the cached readiness
    /// stays as it is.
    pub fn get_mut(&mut self) -> (r: &mut E)
        ensures
            *r == old(self).io(),
            final(self).io() == *final(r),
            final(self)@ == old(self)@,
    {
        &mut self.io
    }
}

} // verus!
