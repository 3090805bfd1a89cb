use vstd::prelude::*;

use crate::error::{ClientError, ErrorModel};
use crate::result::{PageModel, PageResult};

verus! {

/// A cursor after which no further page is requested: absent or empty.
pub open spec fn cursor_exhausted(cursor: Option<Seq<char>>) -> bool {
    match cursor {
        None => true,
        Some(c) => c.len() == 0,
    }
}

/// Whether the driver stops once a page's items have been appended: the
/// page's cursor is exhausted, or a limit is set and the accumulated count
/// stands strictly above it. The limit is checked after the append, so a
/// run may overshoot it by up to one page's length; that is by design. A
/// page with no items but a live cursor never stops the run.
pub open spec fn stops_after(cursor: Option<Seq<char>>, gathered: nat, limit: Option<usize>) -> bool {
    cursor_exhausted(cursor) || (match limit {
        Some(l) => l < gathered,
        None => false,
    })
}

/// A page with no items but a live cursor never ends a run that has not
/// passed its limit: the stop rule reads only the cursor and the
/// accumulated count, so a server that paginates sparsely is followed to
/// the end rather than silently truncated.
pub proof fn lemma_empty_page_never_stops(
    cursor: Option<Seq<char>>,
    count: nat,
    limit: Option<usize>,
)
    requires
        !cursor_exhausted(cursor),
        limit matches Some(l) ==> count <= l,
    ensures
        !stops_after(cursor, count, limit),
{
}

/// With a limit set and a live cursor, a run stops exactly when the
/// accumulated count stands strictly above the limit: a page that reaches
/// the limit without passing it keeps the run going, and the page that
/// passes it is kept whole rather than truncated.
pub proof fn lemma_limit_overshoot(cursor: Option<Seq<char>>, count: nat, l: usize)
    requires
        !cursor_exhausted(cursor),
    ensures
        stops_after(cursor, count, Some(l)) <==> count > l,
{
}

/// Appends one page's items to the accumulator and decides how the run goes
/// on: the cursor to feed into the next request, or `None` where the run
/// stops under the rule of `stops_after`.
pub fn drive_step<T>(list: &mut Vec<T>, page: PageResult<T>, limit: Option<usize>) -> (next:
    Option<String>)
    ensures
        final(list)@ == old(list)@ + page@.data,
        match next {
            None => stops_after(page@.cursor, final(list)@.len(), limit),
            Some(c) => !stops_after(page@.cursor, final(list)@.len(), limit) && page@.cursor
                == Some(c@),
        },
{
    let mut page = page;
    list.append(&mut page.data);
    let exhausted = match &page.cursor {
        None => true,
        Some(c) => c.as_str().is_empty(),
    };
    let over = match limit {
        Some(l) => l < list.len(),
        None => false,
    };
    if exhausted || over {
        None
    } else {
        match page.cursor {
            Some(c) => Some(c),
            None => None,  // an absent cursor was found exhausted above
        }
    }
}

/// The model of one answered page request: the page, or the error the
/// request failed with.
pub open spec fn outcome_model<T>(o: Result<PageResult<T>, ClientError>) -> Result<
    PageModel<T>,
    ErrorModel,
> {
    match o {
        Ok(p) => Ok(p@),
        Err(e) => Err(e@),
    }
}

/// A source of pages, answered one per call: the page-fetch operation is
/// supplied by the caller, so the types that can serve pages are left open.
/// `outcome(i)` is the answer the fetcher gives to its `i`-th call — the
/// fetcher's model, fixed across calls — `calls()` is how many calls it has
/// answered so far, and `asked_cursor(i)` the cursor its `i`-th call
/// carried.
pub trait PageFetcher<T> {
    spec fn outcome(&self, i: int) -> Result<PageModel<T>, ErrorModel>;

    spec fn calls(&self) -> nat;

    spec fn asked_cursor(&self, i: int) -> Option<Seq<char>>;

    /// Requests the next page, under the given cursor; the first request of
    /// a run carries no cursor.
    fn fetch(&mut self, cursor: &Option<String>) -> (r: Result<PageResult<T>, ClientError>)
        ensures
            final(self).calls() == old(self).calls() + 1,
            forall|i: int| #[trigger] final(self).outcome(i) == old(self).outcome(i),
            outcome_model(r) == old(self).outcome(old(self).calls() as int),
            final(self).asked_cursor(old(self).calls() as int) == cursor.deep_view(),
            forall|i: int|
                i != old(self).calls() as int ==> #[trigger] final(self).asked_cursor(i) == old(
                    self,
                ).asked_cursor(i),
    ;
}

/// The items of the pages that calls `from` (inclusive) to `upto`
/// (exclusive) of the fetcher answered, in call order, each page's items in
/// page order; a failed call contributes nothing.
pub open spec fn gathered<T, F: PageFetcher<T>>(f: &F, from: int, upto: int) -> Seq<T>
    decreases upto - from,
{
    if upto <= from {
        Seq::empty()
    } else {
        gathered(f, from, upto - 1) + (match f.outcome(upto - 1) {
            Ok(p) => p.data,
            Err(_) => Seq::empty(),
        })
    }
}

/// What pages two fetchers answer depends on their models alone: equal
/// models gather equal items.
pub proof fn lemma_gathered_congruence<T, F: PageFetcher<T>>(f1: &F, f2: &F, from: int, upto: int)
    requires
        forall|i: int| #[trigger] f1.outcome(i) == f2.outcome(i),
    ensures
        gathered(f1, from, upto) == gathered(f2, from, upto),
    decreases upto - from,
{
    if upto > from {
        lemma_gathered_congruence(f1, f2, from, upto - 1);
    }
}

/// The same, over every range at once.
pub proof fn lemma_gathered_congruence_all<T, F: PageFetcher<T>>(f1: &F, f2: &F)
    requires
        forall|i: int| #[trigger] f1.outcome(i) == f2.outcome(i),
    ensures
        forall|from: int, upto: int| #[trigger] gathered(f1, from, upto) == gathered(
            f2,
            from,
            upto,
        ),
{
    assert forall|from: int, upto: int| #[trigger] gathered(f1, from, upto) == gathered(
        f2,
        from,
        upto,
    ) by {
        lemma_gathered_congruence(f1, f2, from, upto);
    }
}

/// A call whose answer necessarily ends a run: a failure, or a page whose
/// cursor is exhausted.
pub open spec fn halting<T, F: PageFetcher<T>>(f: &F, i: int) -> bool {
    match f.outcome(i) {
        Ok(p) => cursor_exhausted(p.cursor),
        Err(_) => true,
    }
}

/// Whether a run that began at call `from` can go no further than call `i`:
/// that call's answer halts every run, or the items gathered by then stand
/// strictly above the limit.
pub open spec fn run_stops_by<T, F: PageFetcher<T>>(
    f: &F,
    from: int,
    i: int,
    limit: Option<usize>,
) -> bool {
    halting(f, i) || (match limit {
        Some(l) => gathered(f, from, i + 1).len() > l,
        None => false,
    })
}

/// Repeatedly requests pages, feeding each returned cursor back into the
/// next request, and accumulates the items in order, first page first.
///
/// The contract pins the whole run down against the fetcher's model: the
/// first call carries no cursor and every later one carries the previous
/// page's cursor verbatim; every answered call but the last was a page
/// that did not meet the stop rule — in particular, a page with no items
/// but a live cursor does not end the run — and the last call either met
/// it, in which case every gathered item is returned, or failed, in which
/// case that error is returned unchanged and no partial accumulation
/// survives.
///
/// The caller owes a run that ends: some later call must answer with a
/// failure or an exhausted cursor, or push the total past the limit, as
/// every finite page source does.
pub fn get_all<T, F: PageFetcher<T>>(fetcher: &mut F, limit: Option<usize>) -> (r: Result<
    Vec<T>,
    ClientError,
>)
    requires
        exists|i: int| i >= old(fetcher).calls() && run_stops_by(
            old(fetcher),
            old(fetcher).calls() as int,
            i,
            limit,
        ),
    ensures
        final(fetcher).calls() > old(fetcher).calls(),
        forall|i: int| #[trigger] final(fetcher).outcome(i) == old(fetcher).outcome(i),
        final(fetcher).asked_cursor(old(fetcher).calls() as int) is None,
        forall|i: int|
            old(fetcher).calls() < i < final(fetcher).calls() ==> (final(fetcher).outcome(i - 1)
                matches Ok(p) && #[trigger] final(fetcher).asked_cursor(i) == p.cursor),
        forall|i: int|
            old(fetcher).calls() <= i < final(fetcher).calls() as int - 1 ==> ((
            #[trigger] final(fetcher).outcome(i)) matches Ok(p) && !stops_after(
                p.cursor,
                gathered(final(fetcher), old(fetcher).calls() as int, i + 1).len(),
                limit,
            )),
        match r {
            Ok(v) => {
                &&& final(fetcher).outcome(final(fetcher).calls() as int - 1) matches Ok(p)
                    && stops_after(
                    p.cursor,
                    gathered(
                        final(fetcher),
                        old(fetcher).calls() as int,
                        final(fetcher).calls() as int,
                    ).len(),
                    limit,
                )
                &&& v@ == gathered(
                    final(fetcher),
                    old(fetcher).calls() as int,
                    final(fetcher).calls() as int,
                )
            },
            Err(e) => final(fetcher).outcome(final(fetcher).calls() as int - 1) == Err::<
                PageModel<T>,
                ErrorModel,
            >(e@),
        },
{
    let ghost orig: F = *fetcher;
    let ghost start: int = fetcher.calls() as int;
    let ghost stop_i: int = choose|i: int| i >= start && run_stops_by(&orig, start, i, limit);
    proof {
        assert(stop_i >= start && run_stops_by(&orig, start, stop_i, limit));
    }
    let mut list: Vec<T> = Vec::new();
    let mut current: Option<String> = None;
    loop
        invariant
            orig == *old(fetcher),
            start == old(fetcher).calls() as int,
            forall|i: int| #[trigger] fetcher.outcome(i) == orig.outcome(i),
            fetcher.calls() >= start,
            fetcher.calls() <= stop_i,
            run_stops_by(&orig, start, stop_i, limit),
            list@ == gathered(fetcher, start, fetcher.calls() as int),
            fetcher.calls() == start ==> current is None,
            fetcher.calls() > start ==> (fetcher.outcome(fetcher.calls() as int - 1) matches Ok(p)
                && current.deep_view() == p.cursor),
            fetcher.calls() > start ==> fetcher.asked_cursor(start) is None,
            forall|i: int|
                start < i < fetcher.calls() as int ==> (fetcher.outcome(i - 1) matches Ok(p) && (
                #[trigger] fetcher.asked_cursor(i)) == p.cursor),
            forall|i: int|
                start <= i < fetcher.calls() as int ==> ((#[trigger] fetcher.outcome(i)) matches
                Ok(p) && !stops_after(
                    p.cursor,
                    gathered(fetcher, start, i + 1).len(),
                    limit,
                )),
        decreases stop_i - fetcher.calls(),
    {
        let ghost before: F = *fetcher;
        let ghost k: int = fetcher.calls() as int;
        let fetched = fetcher.fetch(&current);
        proof {
            lemma_gathered_congruence_all(&before, fetcher);
        }
        match fetched {
            Ok(page) => {
                let ghost page_model: PageModel<T> = page@;
                match drive_step(&mut list, page, limit) {
                    Some(c) => {
                        proof {
                            assert(gathered(fetcher, start, k + 1) == gathered(fetcher, start, k)
                                + page_model.data);
                            // the run went on past call k, so the run does
                            // not stop by k, and the stopping call still
                            // lies ahead
                            lemma_gathered_congruence_all(&orig, fetcher);
                            assert(orig.outcome(k) == Ok::<PageModel<T>, ErrorModel>(page_model));
                            assert(!cursor_exhausted(page_model.cursor));
                            assert(!run_stops_by(&orig, start, k, limit));
                            assert(k < stop_i);
                        }
                        current = Some(c);
                    },
                    None => {
                        proof {
                            assert(gathered(fetcher, start, k + 1) == gathered(fetcher, start, k)
                                + page_model.data);
                        }
                        return Ok(list);
                    },
                }
            },
            Err(e) => {
                return Err(e);
            },
        }
    }
}

/// The answer a replay fetcher gives once its script has run out.
pub open spec fn replay_exhausted_message() -> Seq<char> {
    "no scripted page remains"@
}

/// A fetcher that answers calls from a fixed script of outcomes, in order;
/// a call past the end of the script is answered with a transport error. It
/// records the cursor each call carried, so a caller can check what the
/// driver asked for.
pub struct ReplayFetcher<T> {
    script: Vec<Result<PageResult<T>, ClientError>>,
    asked: Vec<Option<String>>,
    full: Ghost<Seq<Result<PageModel<T>, ErrorModel>>>,
}

impl<T> ReplayFetcher<T> {
    #[verifier::type_invariant]
    spec fn wf(self) -> bool {
        &&& self.script@.len() <= self.full@.len()
        &&& self.asked@.len() + self.script@.len() >= self.full@.len()
        &&& self.script@.len() > 0 ==> self.asked@.len() + self.script@.len() == self.full@.len()
        &&& forall|i: int|
            0 <= i < self.script@.len() ==> self.full@[self.full@.len() - self.script@.len() + i]
                == outcome_model(#[trigger] self.script@[i])
    }

    pub fn new(script: Vec<Result<PageResult<T>, ClientError>>) -> (f: ReplayFetcher<T>)
        ensures
            f.calls() == 0,
            forall|i: int|
                0 <= i < script@.len() ==> f.outcome(i) == outcome_model(#[trigger] script@[i]),
            forall|i: int|
                i >= script@.len() ==> #[trigger] f.outcome(i) == Err::<PageModel<T>, ErrorModel>(
                    ErrorModel::Transport(replay_exhausted_message()),
                ),
    {
        let ghost full = script@.map_values(
            |o: Result<PageResult<T>, ClientError>| outcome_model(o),
        );
        ReplayFetcher { script, asked: Vec::new(), full: Ghost(full) }
    }

    /// The cursors the driver has passed in so far, one per call, in call
    /// order.
    pub fn asked_cursors(&self) -> (r: &Vec<Option<String>>)
        ensures
            r@.len() == self.calls(),
            forall|i: int|
                0 <= i < r@.len() ==> #[trigger] r@[i].deep_view() == self.asked_cursor(i),
    {
        &self.asked
    }
}

impl<T> PageFetcher<T> for ReplayFetcher<T> {
    closed spec fn outcome(&self, i: int) -> Result<PageModel<T>, ErrorModel> {
        if 0 <= i < self.full@.len() {
            self.full@[i]
        } else {
            Err(ErrorModel::Transport(replay_exhausted_message()))
        }
    }

    closed spec fn calls(&self) -> nat {
        self.asked@.len()
    }

    closed spec fn asked_cursor(&self, i: int) -> Option<Seq<char>> {
        if 0 <= i < self.asked@.len() {
            self.asked@[i].deep_view()
        } else {
            None
        }
    }

    fn fetch(&mut self, cursor: &Option<String>) -> (r: Result<PageResult<T>, ClientError>) {
        proof {
            use_type_invariant(&*self);
        }
        let mut taken = ReplayFetcher {
            script: Vec::new(),
            asked: Vec::new(),
            full: Ghost(Seq::empty()),
        };
        core::mem::swap(self, &mut taken);
        let ReplayFetcher { mut script, mut asked, full } = taken;
        let received: Option<String> = match cursor {
            Some(c) => Some(c.clone()),
            None => None,
        };
        asked.push(received);
        let answer: Result<PageResult<T>, ClientError> = if script.len() > 0 {
            script.remove(0)
        } else {
            Err(ClientError::Transport("no scripted page remains".to_owned()))
        };
        *self = ReplayFetcher { script, asked, full };
        answer
    }
}

} // verus!
