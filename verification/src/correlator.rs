//! The request correlator: the table of requests that wait for their response.
//!
//! An entry lives from the moment a request is registered until a response
//! with its id arrives, its deadline passes or the session closes. The table
//! also remembers every id that it ever admitted, so that no two requests of
//! a session share an id whatever the id generator hands out.
use crate::json::same_text;
use vstd::prelude::*;

verus! {

/// One waiting request, as mathematical values.
pub struct Pending {
    pub id: Seq<char>,
    /// The time, in milliseconds, from which the request counts as timed out.
    pub deadline: u64,
}

/// What the correlator holds: the waiting requests in the order in which
/// they were registered, and the ids of all requests ever registered.
pub struct CorrelatorView {
    pub pending: Seq<Pending>,
    pub issued: Seq<Seq<char>>,
}

/// Which entries an operation takes out of the table.
pub enum Cut {
    /// The entry of this id.
    Id(Seq<char>),
    /// The entries whose deadline is not after this time.
    Due(u64),
    /// Every entry.
    All,
}

/// Whether the cut takes this entry.
pub open spec fn takes(cut: Cut, p: Pending) -> bool {
    match cut {
        Cut::Id(id) => p.id == id,
        Cut::Due(now) => p.deadline <= now,
        Cut::All => true,
    }
}

/// The entries that the cut takes, in their order.
pub open spec fn taken(s: Seq<Pending>, cut: Cut) -> Seq<Pending> {
    s.filter(|p: Pending| takes(cut, p))
}

/// The entries that the cut leaves, in their order.
pub open spec fn left(s: Seq<Pending>, cut: Cut) -> Seq<Pending> {
    s.filter(|p: Pending| !takes(cut, p))
}

/// The ids of some entries, in their order.
pub open spec fn ids(s: Seq<Pending>) -> Seq<Seq<char>> {
    s.map_values(|p: Pending| p.id)
}

/// The deadline of a request registered at `now` with the given timeout: the
/// sum, or the largest time where the sum does not fit.
pub open spec fn deadline_after(now: u64, timeout: u64) -> u64 {
    if now + timeout > u64::MAX {
        u64::MAX
    } else {
        (now + timeout) as u64
    }
}

impl CorrelatorView {
    pub open spec fn empty() -> CorrelatorView {
        CorrelatorView { pending: Seq::empty(), issued: Seq::empty() }
    }

    /// No two waiting requests share an id, no id was issued twice, and every
    /// waiting request was issued.
    pub open spec fn wf(self) -> bool {
        &&& ids(self.pending).no_duplicates()
        &&& self.issued.no_duplicates()
        &&& forall|i: int|
            0 <= i < self.pending.len() ==> self.issued.contains(#[trigger] self.pending[i].id)
    }

    pub open spec fn is_pending(self, id: Seq<char>) -> bool {
        ids(self.pending).contains(id)
    }

    /// The table after a request of a fresh id was registered.
    pub open spec fn register(self, id: Seq<char>, deadline: u64) -> CorrelatorView {
        CorrelatorView {
            pending: self.pending.push(Pending { id, deadline }),
            issued: self.issued.push(id),
        }
    }

    /// The table after the entries of a cut left it.
    pub open spec fn without(self, cut: Cut) -> CorrelatorView {
        CorrelatorView { pending: left(self.pending, cut), issued: self.issued }
    }
}

/// An operation on the correlator, for statements about whole histories.
pub enum Step {
    /// A request of this id is to be registered with this deadline.
    Register(Seq<char>, u64),
    /// A response to this id arrives.
    Resolve(Seq<char>),
    /// Time has advanced to this instant.
    Expire(u64),
    /// The session closes.
    Close,
}

/// The table after one operation. A request whose id was issued before is
/// refused and leaves the table as it was.
pub open spec fn step(c: CorrelatorView, s: Step) -> CorrelatorView {
    match s {
        Step::Register(id, deadline) => if c.issued.contains(id) {
            c
        } else {
            c.register(id, deadline)
        },
        Step::Resolve(id) => c.without(Cut::Id(id)),
        Step::Expire(now) => c.without(Cut::Due(now)),
        Step::Close => c.without(Cut::All),
    }
}

/// The table after a history of operations on an empty table.
pub open spec fn run(history: Seq<Step>) -> CorrelatorView
    decreases history.len(),
{
    if history.len() == 0 {
        CorrelatorView::empty()
    } else {
        step(run(history.drop_last()), history.last())
    }
}

/// What a filter keeps comes from the sequence, in the same order.
proof fn lemma_filter_ids(s: Seq<Pending>, pred: spec_fn(Pending) -> bool)
    ensures
        forall|i: int|
            0 <= i < s.filter(pred).len() ==> s.contains(#[trigger] s.filter(pred)[i]) && pred(
                s.filter(pred)[i],
            ),
        ids(s).no_duplicates() ==> ids(s.filter(pred)).no_duplicates(),
        forall|i: int| 0 <= i < s.len() && pred(s[i]) ==> s.filter(pred).contains(#[trigger] s[i]),
    decreases s.len(),
{
    reveal(Seq::filter);
    if s.len() > 0 {
        let t = s.drop_last();
        lemma_filter_ids(t, pred);
        let f = s.filter(pred);
        let g = t.filter(pred);
        assert forall|i: int| 0 <= i < f.len() implies s.contains(#[trigger] f[i]) && pred(
            f[i],
        ) by {
            if i < g.len() {
                assert(f[i] == g[i]);
                assert(t.contains(g[i]));
                let k = choose|k: int| 0 <= k < t.len() && t[k] == g[i];
                assert(s[k] == g[i]);
            } else {
                assert(f[i] == s.last());
                assert(s[s.len() - 1] == s.last());
            }
        }
        assert forall|i: int| 0 <= i < s.len() && pred(s[i]) implies f.contains(
            #[trigger] s[i],
        ) by {
            if i < t.len() {
                assert(t[i] == s[i]);
                assert(g.contains(t[i]));
                let k = choose|k: int| 0 <= k < g.len() && g[k] == t[i];
                assert(f[k] == s[i]);
            } else {
                assert(f[f.len() - 1] == s[i]);
            }
        }
        if ids(s).no_duplicates() {
            assert forall|i: int, j: int| 0 <= i < t.len() && 0 <= j < t.len() && i != j implies ids(
                t,
            )[i] != ids(t)[j] by {
                assert(ids(s)[i] == ids(t)[i]);
                assert(ids(s)[j] == ids(t)[j]);
            }
            assert(ids(t).no_duplicates());
            if pred(s.last()) {
                assert forall|i: int, j: int|
                    0 <= i < f.len() && 0 <= j < f.len() && i != j implies ids(f)[i] != ids(
                    f,
                )[j] by {
                    if i < g.len() && j < g.len() {
                        assert(ids(g)[i] == ids(f)[i]);
                        assert(ids(g)[j] == ids(f)[j]);
                    } else {
                        let a = if i < g.len() {
                            i
                        } else {
                            j
                        };
                        assert(t.contains(g[a]));
                        let k = choose|k: int| 0 <= k < t.len() && t[k] == g[a];
                        assert(ids(s)[k] == g[a].id);
                        assert(ids(s)[s.len() - 1] == s.last().id);
                    }
                }
            }
        }
    }
}

/// Taking entries out of a well-formed table leaves it well formed.
pub proof fn lemma_without_wf(c: CorrelatorView, cut: Cut)
    requires
        c.wf(),
    ensures
        c.without(cut).wf(),
{
    let pred = |p: Pending| !takes(cut, p);
    lemma_filter_ids(c.pending, pred);
    let l = left(c.pending, cut);
    assert forall|i: int| 0 <= i < l.len() implies c.issued.contains(#[trigger] l[i].id) by {
        assert(c.pending.contains(l[i]));
        let k = choose|k: int| 0 <= k < c.pending.len() && c.pending[k] == l[i];
        assert(c.issued.contains(c.pending[k].id));
    }
}

/// Registering a request of an id never issued leaves a well-formed table well
/// formed.
pub proof fn lemma_register_wf(c: CorrelatorView, id: Seq<char>, deadline: u64)
    requires
        c.wf(),
        !c.issued.contains(id),
    ensures
        c.register(id, deadline).wf(),
{
    let r = c.register(id, deadline);
    assert forall|i: int, j: int|
        0 <= i < r.pending.len() && 0 <= j < r.pending.len() && i != j implies ids(r.pending)[i]
        != ids(r.pending)[j] by {
        if i < c.pending.len() && j < c.pending.len() {
            assert(ids(c.pending)[i] == ids(r.pending)[i]);
            assert(ids(c.pending)[j] == ids(r.pending)[j]);
        } else {
            let a = if i < c.pending.len() {
                i
            } else {
                j
            };
            assert(c.issued.contains(c.pending[a].id));
        }
    }
    assert forall|i: int| 0 <= i < r.pending.len() implies r.issued.contains(
        #[trigger] r.pending[i].id,
    ) by {
        if i < c.pending.len() {
            assert(c.issued.contains(c.pending[i].id));
            let k = choose|k: int| 0 <= k < c.issued.len() && c.issued[k] == c.pending[i].id;
            assert(r.issued[k] == c.pending[i].id);
        } else {
            assert(r.issued[r.issued.len() - 1] == id);
        }
    }
}

/// Whatever the history of a session, the ids of the requests that it sent
/// are pairwise distinct, and so are the ids of those that still wait.
pub proof fn lemma_request_ids_distinct(history: Seq<Step>)
    ensures
        run(history).wf(),
        forall|i: int, j: int|
            0 <= i < j < run(history).issued.len() ==> run(history).issued[i] != run(
                history,
            ).issued[j],
    decreases history.len(),
{
    if history.len() > 0 {
        let c = run(history.drop_last());
        lemma_request_ids_distinct(history.drop_last());
        match history.last() {
            Step::Register(id, deadline) => {
                if !c.issued.contains(id) {
                    lemma_register_wf(c, id, deadline);
                }
            },
            Step::Resolve(id) => {
                lemma_without_wf(c, Cut::Id(id));
            },
            Step::Expire(now) => {
                lemma_without_wf(c, Cut::Due(now));
            },
            Step::Close => {
                lemma_without_wf(c, Cut::All);
            },
        }
    }
}

/// A request registered at `now` with a timeout that fits the clock is not
/// taken as timed out before `now + timeout`, and is taken from then on.
pub proof fn lemma_timeout_not_early(id: Seq<char>, now: u64, timeout: u64, later: u64)
    requires
        now + timeout <= u64::MAX,
    ensures
        takes(Cut::Due(later), Pending { id, deadline: deadline_after(now, timeout) }) <==> later
            >= now + timeout,
{
}

/// A response to a request that no longer waits changes nothing: it may come
/// late, come twice, or come after the timeout.
pub proof fn lemma_late_response_ignored(c: CorrelatorView, id: Seq<char>)
    requires
        !c.is_pending(id),
    ensures
        c.without(Cut::Id(id)) == c,
        taken(c.pending, Cut::Id(id)).len() == 0,
{
    let keep = |p: Pending| !takes(Cut::Id(id), p);
    let take = |p: Pending| takes(Cut::Id(id), p);
    lemma_filter_ids(c.pending, take);
    let t = c.pending.filter(take);
    if t.len() > 0 {
        assert(c.pending.contains(t[0]));
        let k = choose|k: int| 0 <= k < c.pending.len() && c.pending[k] == t[0];
        assert(ids(c.pending)[k] == id);
    }
    lemma_filter_all(c.pending, keep);
}

/// A filter whose predicate holds of every element keeps the sequence.
proof fn lemma_filter_all(s: Seq<Pending>, pred: spec_fn(Pending) -> bool)
    requires
        forall|i: int| 0 <= i < s.len() ==> pred(#[trigger] s[i]),
    ensures
        s.filter(pred) == s,
    decreases s.len(),
{
    reveal(Seq::filter);
    if s.len() > 0 {
        let t = s.drop_last();
        assert forall|i: int| 0 <= i < t.len() implies pred(#[trigger] t[i]) by {
            assert(t[i] == s[i]);
        }
        lemma_filter_all(t, pred);
        assert(pred(s[s.len() - 1]));
        assert(t.push(s.last()) =~= s);
    }
}

/// After the session closed, no request waits.
pub proof fn lemma_close_empties(c: CorrelatorView)
    ensures
        c.without(Cut::All).pending.len() == 0,
        taken(c.pending, Cut::All) == c.pending,
{
    let keep = |p: Pending| !takes(Cut::All, p);
    let take = |p: Pending| takes(Cut::All, p);
    lemma_filter_ids(c.pending, keep);
    let l = c.pending.filter(keep);
    if l.len() > 0 {
        assert(keep(l[0]));
    }
    lemma_filter_all(c.pending, take);
}

/// A waiting request.
#[derive(Debug)]
pub struct PendingRequest {
    pub id: String,
    pub deadline: u64,
}

impl View for PendingRequest {
    type V = Pending;

    open spec fn view(&self) -> Pending {
        Pending { id: self.id@, deadline: self.deadline }
    }
}

/// The entries of a vector, each by its view.
pub open spec fn entries_view(v: Seq<PendingRequest>) -> Seq<Pending> {
    v.map_values(|e: PendingRequest| e@)
}

/// The strings of a vector, each by its view.
pub open spec fn texts(v: Seq<String>) -> Seq<Seq<char>> {
    v.map_values(|s: String| s@)
}

/// Why a request was not registered.
#[derive(Debug, Clone, Copy, PartialEq, Eq, Structural)]
pub enum RegisterError {
    /// A request of this id was registered before in this session.
    DuplicateId,
}

/// The table of waiting requests of one session.
pub struct Correlator {
    pending: Vec<PendingRequest>,
    issued: Vec<String>,
}

impl View for Correlator {
    type V = CorrelatorView;

    closed spec fn view(&self) -> CorrelatorView {
        CorrelatorView { pending: entries_view(self.pending@), issued: texts(self.issued@) }
    }
}

/// The cut that an operation asks for, with its id borrowed.
enum Wanted<'a> {
    Id(&'a str),
    Due(u64),
    All,
}

impl<'a> Wanted<'a> {
    spec fn cut(self) -> Cut {
        match self {
            Wanted::Id(id) => Cut::Id(id@),
            Wanted::Due(now) => Cut::Due(now),
            Wanted::All => Cut::All,
        }
    }

    fn hits(&self, e: &PendingRequest) -> (r: bool)
        ensures
            r == takes(self.cut(), e@),
    {
        match self {
            Wanted::Id(id) => same_text(e.id.as_str(), id),
            Wanted::Due(now) => e.deadline <= *now,
            Wanted::All => true,
        }
    }
}

fn contains_text(v: &Vec<String>, id: &str) -> (r: bool)
    ensures
        r == texts(v@).contains(id@),
{
    let mut i: usize = 0;
    while i < v.len()
        invariant
            i <= v.len(),
            forall|k: int| 0 <= k < i ==> texts(v@)[k] != id@,
        decreases v.len() - i,
    {
        if same_text(v[i].as_str(), id) {
            assert(texts(v@)[i as int] == id@);
            return true;
        }
        i = i + 1;
    }
    false
}

impl Correlator {
    #[verifier::type_invariant]
    spec fn inv(self) -> bool {
        self@.wf()
    }

    /// A table without entries.
    pub fn new() -> (c: Correlator)
        ensures
            c@ == CorrelatorView::empty(),
    {
        let c = Correlator { pending: Vec::new(), issued: Vec::new() };
        assert(c@.pending =~= Seq::empty());
        assert(c@.issued =~= Seq::empty());
        c
    }

    /// The number of waiting requests.
    pub fn len(&self) -> (n: usize)
        ensures
            n == self@.pending.len(),
    {
        self.pending.len()
    }

    /// Whether a request of this id waits.
    pub fn is_pending(&self, id: &str) -> (r: bool)
        ensures
            r == self@.is_pending(id@),
    {
        let mut i: usize = 0;
        while i < self.pending.len()
            invariant
                i <= self.pending.len(),
                forall|k: int| 0 <= k < i ==> ids(self@.pending)[k] != id@,
            decreases self.pending.len() - i,
        {
            if same_text(self.pending[i].id.as_str(), id) {
                assert(ids(self@.pending)[i as int] == id@);
                return true;
            }
            i = i + 1;
        }
        false
    }

    /// Whether a request of this id was ever registered.
    pub fn was_issued(&self, id: &str) -> (r: bool)
        ensures
            r == self@.issued.contains(id@),
    {
        contains_text(&self.issued, id)
    }

    /// Registers a request sent at `now` that times out after `timeout`
    /// milliseconds. An id that this session used before is refused.
    pub fn register(&mut self, id: String, now: u64, timeout: u64) -> (r: Result<(), RegisterError>)
        ensures
            final(self)@.wf(),
            old(self)@.issued.contains(id@) ==> r == Err::<(), RegisterError>(
                RegisterError::DuplicateId,
            ) && final(self)@ == old(self)@,
            !old(self)@.issued.contains(id@) ==> r is Ok && final(self)@ == old(self)@.register(
                id@,
                deadline_after(now, timeout),
            ),
            r is Ok ==> final(self)@.is_pending(id@) && final(self)@.issued.contains(id@),
    {
        proof {
            use_type_invariant(&*self);
        }
        if contains_text(&self.issued, id.as_str()) {
            return Err(RegisterError::DuplicateId);
        }
        let deadline = if timeout > u64::MAX - now {
            u64::MAX
        } else {
            now + timeout
        };
        let ghost before = self@;
        let mut pending = Vec::new();
        let mut issued = Vec::new();
        std::mem::swap(&mut pending, &mut self.pending);
        std::mem::swap(&mut issued, &mut self.issued);
        issued.push(id.clone());
        pending.push(PendingRequest { id, deadline });
        proof {
            lemma_register_wf(before, id@, deadline);
            assert(entries_view(pending@) =~= before.register(id@, deadline).pending);
            assert(texts(issued@) =~= before.register(id@, deadline).issued);
            assert(texts(issued@)[issued.len() - 1] == id@);
            assert(ids(entries_view(pending@))[pending.len() - 1] == id@);
        }
        *self = Correlator { pending, issued };
        Ok(())
    }

    /// Takes the entries of a cut out of the table and returns their ids.
    fn take(&mut self, wanted: Wanted) -> (r: Vec<String>)
        ensures
            final(self)@.wf(),
            final(self)@ == old(self)@.without(wanted.cut()),
            texts(r@) == ids(taken(old(self)@.pending, wanted.cut())),
    {
        proof {
            use_type_invariant(&*self);
        }
        let ghost before = self@;
        let ghost cut = wanted.cut();
        let ghost take = |p: Pending| takes(cut, p);
        let ghost keep = |p: Pending| !takes(cut, p);
        let mut source = Vec::new();
        let mut issued = Vec::new();
        std::mem::swap(&mut source, &mut self.pending);
        std::mem::swap(&mut issued, &mut self.issued);
        let mut kept: Vec<PendingRequest> = Vec::new();
        let mut out: Vec<String> = Vec::new();
        let mut i: usize = 0;
        proof {
            reveal(Seq::filter);
            assert(before.pending.take(0) =~= Seq::empty());
            assert(entries_view(kept@) =~= before.pending.take(0).filter(keep));
            assert(texts(out@) =~= ids(before.pending.take(0).filter(take)));
        }
        while i < source.len()
            invariant
                i <= source.len(),
                cut == wanted.cut(),
                take == |p: Pending| takes(cut, p),
                keep == |p: Pending| !takes(cut, p),
                entries_view(source@) == before.pending,
                entries_view(kept@) == before.pending.take(i as int).filter(keep),
                texts(out@) == ids(before.pending.take(i as int).filter(take)),
            decreases source.len() - i,
        {
            let ghost head = before.pending.take(i as int);
            let e = &source[i];
            proof {
                assert(e@ == before.pending[i as int]);
                assert(before.pending.take(i + 1) =~= head.push(e@));
                head.lemma_filter_push(e@, keep);
                head.lemma_filter_push(e@, take);
            }
            if wanted.hits(e) {
                let ghost prev = out@;
                out.push(e.id.clone());
                proof {
                    assert(out@ =~= prev.push(e.id));
                    assert(texts(prev.push(e.id)) =~= texts(prev).push(e.id@));
                    assert(ids(head.filter(take).push(e@)) =~= ids(head.filter(take)).push(e@.id));
                }
            } else {
                kept.push(PendingRequest { id: e.id.clone(), deadline: e.deadline });
                proof {
                    assert(entries_view(kept@) =~= head.filter(keep).push(e@));
                }
            }
            i = i + 1;
        }
        proof {
            assert(before.pending.take(source.len() as int) =~= before.pending);
            lemma_without_wf(before, cut);
        }
        *self = Correlator { pending: kept, issued };
        out
    }

    /// Routes a response to the request that it answers. Returns whether such
    /// a request waited; if so its entry leaves the table, and the caller
    /// delivers the response to the waiter. Otherwise nothing changes: the
    /// response is late or a duplicate, and is dropped.
    pub fn resolve(&mut self, correlates_to: &str) -> (found: bool)
        ensures
            final(self)@.wf(),
            found == old(self)@.is_pending(correlates_to@),
            final(self)@ == old(self)@.without(Cut::Id(correlates_to@)),
            !found ==> final(self)@ == old(self)@,
    {
        proof {
            use_type_invariant(&*self);
        }
        let ghost before = self@;
        if !self.is_pending(correlates_to) {
            proof {
                lemma_late_response_ignored(before, correlates_to@);
            }
            return false;
        }
        let _ = self.take(Wanted::Id(correlates_to));
        true
    }

    /// Takes out the requests whose deadline is not after `now` and returns
    /// their ids, in the order of registration: these requests fail with a
    /// timeout.
    pub fn expire(&mut self, now: u64) -> (r: Vec<String>)
        ensures
            final(self)@.wf(),
            final(self)@ == old(self)@.without(Cut::Due(now)),
            texts(r@) == ids(taken(old(self)@.pending, Cut::Due(now))),
    {
        self.take(Wanted::Due(now))
    }

    /// Takes out every waiting request and returns their ids, in the order of
    /// registration: the session closes, and these requests fail with it.
    pub fn close(&mut self) -> (r: Vec<String>)
        ensures
            final(self)@.wf(),
            final(self)@ == old(self)@.without(Cut::All),
            final(self)@.pending.len() == 0,
            final(self)@.issued == old(self)@.issued,
            texts(r@) == ids(old(self)@.pending),
            r@.len() == old(self)@.pending.len(),
    {
        let ghost before = self@;
        proof {
            lemma_close_empties(before);
        }
        let r = self.take(Wanted::All);
        assert(texts(r@).len() == r@.len());
        assert(ids(before.pending).len() == before.pending.len());
        r
    }
}

} // verus!
