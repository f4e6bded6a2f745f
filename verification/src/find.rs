//! The subject/issuer search engine: a verified driver for the platform's
//! stateful "find next certificate" cursor.
//!
//! The native primitive returns, for a store, a search kind and search text,
//! either a transient certificate handle (a candidate match) or null (no
//! more matches). A transient handle is invalidated by the next probe, so it
//! must be duplicated into an independently owned handle before the search
//! goes on, and the transient handle itself — never the duplicate — is the
//! cursor of the next probe. [`FindSession`] keeps that discipline: the
//! application performs the two native calls and reports each outcome, and
//! the session decides every next step.
//!
//! A terminal null probe is treated as the normal end of the results, never
//! as an error; the native primitive does not let a caller tell a genuine
//! empty result from an underlying failure that also yields null, and the
//! session preserves that known limitation rather than inventing a stricter
//! error path.

use vstd::prelude::*;

use crate::cert::CertContext;

verus! {

/// The abstract state of a search session.
#[verifier::ext_equal]
pub struct FindModel {
    /// The native handle of the store being searched.
    pub store: usize,
    /// The native "find type" word: subject-substring or issuer-substring.
    pub find_type: u32,
    /// The UTF-16 units of the search text.
    pub text: Seq<u16>,
    /// The transient handle of the previous probe, fed back as the cursor of
    /// the next one; null before the first probe.
    pub cursor: usize,
    /// The owned handles collected so far, in the order the store yields
    /// them.
    pub certs: Seq<usize>,
    /// Whether the last probe found a match whose duplication is still owed.
    pub awaiting_dup: bool,
    /// Whether a probe has returned null, ending the search.
    pub done: bool,
}

impl FindModel {
    /// Well-formedness of a session state: the store handle is non-null, a
    /// finished search owes no duplication, and a pending duplication always
    /// has the matching transient handle as its cursor.
    pub open spec fn wf(self) -> bool {
        &&& self.store != 0
        &&& !(self.awaiting_dup && self.done)
        &&& (self.awaiting_dup ==> self.cursor != 0)
    }
}

/// One outcome reported by the application while driving a search.
pub enum FindEvent {
    /// The find primitive returned this transient handle; null means no
    /// more matches.
    Found(usize),
    /// The duplicate primitive turned the pending transient handle into
    /// this independently owned handle.
    Duplicated(usize),
}

/// How a probe outcome advances the state: null ends the search; a
/// transient handle becomes the next cursor and leaves a duplication owed.
pub open spec fn step_find(m: FindModel, found: usize) -> FindModel {
    if found == 0 {
        FindModel { done: true, ..m }
    } else {
        FindModel { cursor: found, awaiting_dup: true, ..m }
    }
}

/// How a duplication advances the state: the owned handle is appended and
/// the search may probe again.
pub open spec fn step_dup(m: FindModel, dup: usize) -> FindModel {
    FindModel { certs: m.certs.push(dup), awaiting_dup: false, ..m }
}

/// Which events the protocol admits in a given state.
pub open spec fn valid_event(m: FindModel, e: FindEvent) -> bool {
    match e {
        FindEvent::Found(_) => !m.done && !m.awaiting_dup,
        FindEvent::Duplicated(d) => m.awaiting_dup && d != 0,
    }
}

/// The state after one event.
pub open spec fn step(m: FindModel, e: FindEvent) -> FindModel {
    match e {
        FindEvent::Found(h) => step_find(m, h),
        FindEvent::Duplicated(d) => step_dup(m, d),
    }
}

/// Whether a whole event sequence follows the protocol from state `m`.
pub open spec fn valid_run(m: FindModel, evs: Seq<FindEvent>) -> bool
    decreases evs.len(),
{
    evs.len() == 0 || (valid_event(m, evs[0]) && valid_run(step(m, evs[0]), evs.drop_first()))
}

/// The state after a whole event sequence.
pub open spec fn run(m: FindModel, evs: Seq<FindEvent>) -> FindModel
    decreases evs.len(),
{
    if evs.len() == 0 {
        m
    } else {
        run(step(m, evs[0]), evs.drop_first())
    }
}

/// The owned handles produced by the duplication events of a sequence, in
/// order.
pub open spec fn dups_of(evs: Seq<FindEvent>) -> Seq<usize>
    decreases evs.len(),
{
    if evs.len() == 0 {
        Seq::empty()
    } else {
        match evs[0] {
            FindEvent::Duplicated(d) => seq![d] + dups_of(evs.drop_first()),
            FindEvent::Found(_) => dups_of(evs.drop_first()),
        }
    }
}

/// Each protocol step keeps the session state well formed.
pub proof fn lemma_step_preserves_wf(m: FindModel, e: FindEvent)
    requires
        m.wf(),
        valid_event(m, e),
    ensures
        step(m, e).wf(),
{
}

/// Well-formedness is an invariant of the whole protocol: however long a
/// valid run, the session state stays well formed.
pub proof fn lemma_run_preserves_wf(m: FindModel, evs: Seq<FindEvent>)
    requires
        m.wf(),
        valid_run(m, evs),
    ensures
        run(m, evs).wf(),
    decreases evs.len(),
{
    if evs.len() != 0 {
        lemma_step_preserves_wf(m, evs[0]);
        lemma_run_preserves_wf(step(m, evs[0]), evs.drop_first());
    }
}

/// A search yields exactly the handles its duplication events produced, in
/// their order — no omission, no repetition, no invention — and never
/// touches the store handle, the search kind or the search text.
///
/// With no duplication events at all (a store with zero matches) the run
/// adds no certificates, and the protocol offers no error outcome: an empty
/// result is an empty sequence, not a failure.
pub proof fn lemma_run_yields_duplicates(m: FindModel, evs: Seq<FindEvent>)
    requires
        valid_run(m, evs),
    ensures
        run(m, evs).certs == m.certs + dups_of(evs),
        run(m, evs).store == m.store,
        run(m, evs).find_type == m.find_type,
        run(m, evs).text == m.text,
    decreases evs.len(),
{
    if evs.len() == 0 {
        assert(m.certs + dups_of(evs) =~= m.certs);
    } else {
        let m1 = step(m, evs[0]);
        lemma_run_yields_duplicates(m1, evs.drop_first());
        match evs[0] {
            FindEvent::Duplicated(d) => {
                assert(m.certs + (seq![d] + dups_of(evs.drop_first())) =~= m.certs.push(d)
                    + dups_of(evs.drop_first()));
            },
            FindEvent::Found(_) => {},
        }
    }
}

/// Two searches that start with nothing collected and whose duplication
/// events produce the same handles — in any order — end with the same
/// certificates, compared as multisets; in particular they collect equally
/// many. A repeated search against an unchanged store is the special case
/// where the platform hands both runs the same handles.
pub proof fn lemma_find_repeatable(
    m1: FindModel,
    m2: FindModel,
    evs1: Seq<FindEvent>,
    evs2: Seq<FindEvent>,
)
    requires
        m1.certs == Seq::<usize>::empty(),
        m2.certs == Seq::<usize>::empty(),
        valid_run(m1, evs1),
        valid_run(m2, evs2),
        dups_of(evs1).to_multiset() == dups_of(evs2).to_multiset(),
    ensures
        run(m1, evs1).certs.to_multiset() == run(m2, evs2).certs.to_multiset(),
        run(m1, evs1).certs.len() == run(m2, evs2).certs.len(),
{
    lemma_run_yields_duplicates(m1, evs1);
    lemma_run_yields_duplicates(m2, evs2);
    assert(run(m1, evs1).certs =~= dups_of(evs1));
    assert(run(m2, evs2).certs =~= dups_of(evs2));
    dups_of(evs1).to_multiset_ensures();
    dups_of(evs2).to_multiset_ensures();
}

/// A search with no matches collects nothing: a run whose duplication
/// events produce no handles ends with an empty result (and, the protocol
/// having no error outcome, with no error). The shortest such run is the
/// single null probe against a store with zero matching certificates.
pub proof fn lemma_empty_search(m: FindModel, evs: Seq<FindEvent>)
    requires
        m.certs == Seq::<usize>::empty(),
        valid_run(m, evs),
        dups_of(evs) == Seq::<usize>::empty(),
    ensures
        run(m, evs).certs.len() == 0,
{
    lemma_run_yields_duplicates(m, evs);
}

/// A live search over one store.
///
/// The application drives it: it makes each native call with the parameters
/// the session exposes, and reports the outcome through [`on_find_result`]
/// and [`on_duplicated`]. Every transition is fixed by [`step_find`] and
/// [`step_dup`], so what the session collects is decided by the platform's
/// answers alone.
///
/// [`on_find_result`]: FindSession::on_find_result
/// [`on_duplicated`]: FindSession::on_duplicated
pub struct FindSession {
    store: usize,
    find_type: u32,
    text: Vec<u16>,
    cursor: usize,
    certs: Vec<CertContext>,
    awaiting_dup: bool,
    done: bool,
}

impl View for FindSession {
    type V = FindModel;

    closed spec fn view(&self) -> FindModel {
        FindModel {
            store: self.store,
            find_type: self.find_type,
            text: self.text@,
            cursor: self.cursor,
            certs: self.certs@.map_values(|c: CertContext| c@),
            awaiting_dup: self.awaiting_dup,
            done: self.done,
        }
    }
}

impl FindSession {
    /// Starts a search over the store with the given native handle, search
    /// kind and search text.
    pub(crate) fn start(store: usize, find_type: u32, text: Vec<u16>) -> (s: FindSession)
        requires
            store != 0,
        ensures
            s@ == (FindModel {
                store,
                find_type,
                text: text@,
                cursor: 0,
                certs: Seq::<usize>::empty(),
                awaiting_dup: false,
                done: false,
            }),
            s@.wf(),
    {
        let s = FindSession {
            store,
            find_type,
            text,
            cursor: 0,
            certs: Vec::new(),
            awaiting_dup: false,
            done: false,
        };
        proof {
            assert(s@.certs =~= Seq::<usize>::empty());
        }
        s
    }

    /// The native handle of the store being searched.
    pub fn store_handle(&self) -> (h: usize)
        ensures
            h == self@.store,
    {
        self.store
    }

    /// The native "find type" word of this search.
    pub fn find_type(&self) -> (t: u32)
        ensures
            t == self@.find_type,
    {
        self.find_type
    }

    /// The UTF-16 units of the search text, without a terminator.
    pub fn text(&self) -> (t: &Vec<u16>)
        ensures
            t@ == self@.text,
    {
        &self.text
    }

    /// The cursor for the next probe: the transient handle of the previous
    /// probe, or null before the first one.
    pub fn cursor(&self) -> (c: usize)
        ensures
            c == self@.cursor,
    {
        self.cursor
    }

    /// Whether a pending match still owes its duplication.
    pub fn awaiting_duplicate(&self) -> (b: bool)
        ensures
            b == self@.awaiting_dup,
    {
        self.awaiting_dup
    }

    /// Whether the search has ended.
    pub fn is_done(&self) -> (b: bool)
        ensures
            b == self@.done,
    {
        self.done
    }

    /// Takes the outcome of one find probe: the transient handle it
    /// returned, or null for no more matches. Returns whether a match is
    /// pending, in which case its handle must be duplicated — and reported
    /// through [`on_duplicated`](FindSession::on_duplicated) — before the
    /// next probe.
    pub fn on_find_result(&mut self, found: usize) -> (more: bool)
        requires
            old(self)@.wf(),
            !old(self)@.done,
            !old(self)@.awaiting_dup,
        ensures
            final(self)@ == step_find(old(self)@, found),
            final(self)@.wf(),
            more == (found != 0),
    {
        if found == 0 {
            self.done = true;
            false
        } else {
            self.cursor = found;
            self.awaiting_dup = true;
            true
        }
    }

    /// Takes the owned handle that duplicating the pending transient handle
    /// produced, and appends it to the results.
    pub fn on_duplicated(&mut self, dup: usize)
        requires
            old(self)@.wf(),
            old(self)@.awaiting_dup,
            dup != 0,
        ensures
            final(self)@ == step_dup(old(self)@, dup),
            final(self)@.wf(),
    {
        let c = CertContext::owned(dup);
        self.certs.push(c);
        self.awaiting_dup = false;
        proof {
            assert(self@.certs =~= old(self)@.certs.push(dup as usize));
            assert(self@ =~= step_dup(old(self)@, dup));
        }
    }

    /// Hands out the collected certificates of a finished search, in the
    /// order the store yielded them.
    pub fn into_certs(self) -> (certs: Vec<CertContext>)
        requires
            self@.done,
        ensures
            certs@.map_values(|c: CertContext| c@) == self@.certs,
            certs@.len() == self@.certs.len(),
    {
        self.certs
    }
}

} // verus!
