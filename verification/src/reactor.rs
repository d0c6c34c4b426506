//! The reactor's token table: which task waker stands behind each
//! registration with the OS event loop.
//!
//! A registration is named by a token, the least one not in use, and the
//! table maps each live token to the waker of the task waiting on it. When
//! the event loop reports readiness for a token, that waker is woken.
use std::collections::HashMap;
use vstd::prelude::*;

verus! {

/// The token reserved for interrupting the event loop itself; events that
/// carry it never wake a task.
pub const WAKER_TOKEN: usize = usize::MAX;

/// `t` is the least token that `used` does not hold.
pub open spec fn is_least_free(used: Set<usize>, t: usize) -> bool {
    &&& !used.contains(t)
    &&& forall|i: usize| i < t ==> used.contains(i)
}

/// Some token other than the reserved one is still free.
pub open spec fn has_free_token(used: Set<usize>) -> bool {
    exists|t: usize| t < WAKER_TOKEN && !used.contains(t)
}

/// The least token that `used` does not hold.
pub open spec fn least_free_token(used: Set<usize>) -> usize {
    choose|t: usize| is_least_free(used, t)
}

/// Whether an event carrying `token` wakes a task in a table with tokens `used`.
pub open spec fn wakes(used: Set<usize>, token: usize) -> bool {
    token != WAKER_TOKEN && used.contains(token)
}

/// The token table of the reactor, over task wakers of type `W`.
pub struct Reactor<W> {
    wakers: HashMap<usize, W>,
}

impl<W> View for Reactor<W> {
    type V = Map<usize, W>;

    closed spec fn view(&self) -> Map<usize, W> {
        self.wakers@
    }
}

/// Among the first `n` tokens, all of which `s` holds, `s` has at least `n`.
proof fn lemma_prefix_len(s: Set<usize>, n: nat)
    requires
        s.finite(),
        n <= usize::MAX + 1,
        forall|i: usize| i < n ==> s.contains(i),
    ensures
        s.len() >= n,
    decreases n,
{
    if n > 0 {
        let last = (n - 1) as usize;
        assert(s.contains(last));
        let rest = s.remove(last);
        assert forall|i: usize| i < (n - 1) as nat implies rest.contains(i) by {
            assert(s.contains(i));
        }
        lemma_prefix_len(rest, (n - 1) as nat);
    }
}

/// A table holding fewer than `usize::MAX` registrations always has a free
/// token below the reserved one.
pub proof fn lemma_free_token_exists<W>(table: Map<usize, W>)
    requires
        table.dom().finite(),
        table.len() < usize::MAX,
    ensures
        has_free_token(table.dom()),
{
    if !has_free_token(table.dom()) {
        assert forall|i: usize| i < usize::MAX implies table.dom().contains(i) by {
            if !table.dom().contains(i) {
                assert(i < WAKER_TOKEN && !table.dom().contains(i));
            }
        }
        lemma_prefix_len(table.dom(), usize::MAX as nat);
    }
}

/// Searching upwards from `from`, below a free token `w`, finds a token that
/// is least free, provided every token below `from` is in use.
proof fn lemma_least_free_below(used: Set<usize>, from: usize, w: usize) -> (t: usize)
    requires
        from <= w,
        !used.contains(w),
        forall|j: usize| j < from ==> used.contains(j),
    ensures
        t <= w,
        is_least_free(used, t),
    decreases w - from,
{
    if !used.contains(from) {
        from
    } else {
        lemma_least_free_below(used, (from + 1) as usize, w)
    }
}

/// The least free token is unique, and, when some token below the reserved
/// one is free, it is below the reserved one too.
pub proof fn lemma_least_free_token(used: Set<usize>)
    requires
        has_free_token(used),
    ensures
        is_least_free(used, least_free_token(used)),
        least_free_token(used) < WAKER_TOKEN,
        forall|t: usize| is_least_free(used, t) ==> t == least_free_token(used),
{
    let w = choose|t: usize| t < WAKER_TOKEN && !used.contains(t);
    let i = lemma_least_free_below(used, 0, w);
    assert(is_least_free(used, i));
    let l = least_free_token(used);
    assert(is_least_free(used, l));
    assert forall|t: usize| is_least_free(used, t) implies t == l by {
        if t < l {
            assert(used.contains(t));
        } else if l < t {
            assert(used.contains(l));
        }
    }
    if l >= WAKER_TOKEN {
        assert(used.contains(w));
    }
}

/// A registration followed by its deregistration leaves the table as it was,
/// and the token it got is again the least free one, so the next
/// registration gets it back.
pub proof fn law_register_then_deregister<W>(table: Map<usize, W>, waker: W)
    requires
        has_free_token(table.dom()),
    ensures
        ({
            let t = least_free_token(table.dom());
            &&& table.insert(t, waker).remove(t) == table
            &&& least_free_token(table.insert(t, waker).remove(t).dom()) == t
        }),
{
    let t = least_free_token(table.dom());
    lemma_least_free_token(table.dom());
    assert(table.insert(t, waker).remove(t) =~= table);
}

/// A token whose registration is dropped, with every smaller token still in
/// use, is the token that the next registration gets.
pub proof fn law_deregistered_token_is_reused<W>(table: Map<usize, W>, token: usize)
    requires
        token < WAKER_TOKEN,
        table.contains_key(token),
        forall|i: usize| i < token ==> table.contains_key(i),
    ensures
        has_free_token(table.remove(token).dom()),
        least_free_token(table.remove(token).dom()) == token,
{
    let used = table.remove(token).dom();
    assert(!used.contains(token));
    assert(is_least_free(used, token));
    lemma_least_free_token(used);
}

/// Two registrations in a row, with no deregistration between them, get
/// different tokens, the second larger than the first, and the first stays
/// registered.
pub proof fn law_successive_tokens_differ<W>(table: Map<usize, W>, first: W)
    requires
        has_free_token(table.dom()),
        has_free_token(table.insert(least_free_token(table.dom()), first).dom()),
    ensures
        ({
            let t1 = least_free_token(table.dom());
            let after = table.insert(t1, first);
            let t2 = least_free_token(after.dom());
            &&& t1 < t2
            &&& after.contains_key(t1)
            &&& !after.contains_key(t2)
        }),
{
    let t1 = least_free_token(table.dom());
    lemma_least_free_token(table.dom());
    let after = table.insert(t1, first);
    lemma_least_free_token(after.dom());
    let t2 = least_free_token(after.dom());
    if t2 <= t1 {
        if t2 < t1 {
            assert(table.dom().contains(t2));
        }
        assert(after.dom().contains(t2));
    }
}

/// A task that registers or renews its waker under a token is the one woken
/// when the event loop next reports readiness for that token: the event
/// passes the filter of `tokens_to_wake` and the token maps to that waker.
pub proof fn law_registered_waker_is_woken<W>(table: Map<usize, W>, token: usize, waker: W)
    requires
        token != WAKER_TOKEN,
    ensures
        seq![token].filter(|t: usize| wakes(table.insert(token, waker).dom(), t)) == seq![token],
        table.insert(token, waker)[token] == waker,
{
    reveal_with_fuel(Seq::filter, 2);
    assert(seq![token].drop_last() =~= Seq::<usize>::empty());
}

/// Readiness reported for a token wakes the task registered under it, from
/// the moment it is registered until it is deregistered; readiness reported
/// for the reserved token never wakes a task.
pub proof fn law_wakes_exactly_registered<W>(table: Map<usize, W>, token: usize, waker: W)
    ensures
        token != WAKER_TOKEN ==> wakes(table.insert(token, waker).dom(), token),
        !wakes(table.remove(token).dom(), token),
        !wakes(table.dom(), WAKER_TOKEN),
{
}

impl<W> Reactor<W> {
    /// The table is finite and no registration holds the reserved token: a
    /// table starts so, and registering, renewing and deregistering keep it
    /// so.
    pub open spec fn well_formed(&self) -> bool {
        &&& self@.dom().finite()
        &&& !self@.contains_key(WAKER_TOKEN)
    }

    /// The table of a reactor is finite, so a reactor holding fewer than
    /// `usize::MAX` registrations has a free token (`lemma_free_token_exists`).
    pub proof fn lemma_finite(&self)
        ensures
            self@.dom().finite(),
    {
    }

    /// An empty table: no registrations.
    pub fn new() -> (r: Self)
        ensures
            r@ == Map::<usize, W>::empty(),
            r.well_formed(),
    {
        Reactor { wakers: HashMap::new() }
    }

    /// The number of live registrations.
    pub fn len(&self) -> (n: usize)
        ensures
            n == self@.len(),
    {
        self.wakers.len()
    }

    /// Whether `token` names a live registration.
    pub fn is_registered(&self, token: usize) -> (b: bool)
        ensures
            b == self@.contains_key(token),
    {
        self.wakers.contains_key(&token)
    }

    /// The waker registered under `token`, if any.
    pub fn waker(&self, token: usize) -> (w: Option<&W>)
        ensures
            match w {
                Some(w) => self@.contains_key(token) && *w == self@[token],
                None => !self@.contains_key(token),
            },
    {
        self.wakers.get(&token)
    }

    /// The least token not in use.
    pub fn next_token(&self) -> (t: usize)
        requires
            has_free_token(self@.dom()),
        ensures
            t == least_free_token(self@.dom()),
            t < WAKER_TOKEN,
    {
        proof {
            lemma_least_free_token(self@.dom());
        }
        let ghost l = least_free_token(self@.dom());
        let mut i: usize = 0;
        while self.wakers.contains_key(&i)
            invariant
                i <= l,
                is_least_free(self@.dom(), l),
                l < WAKER_TOKEN,
            decreases l - i,
        {
            i = i + 1;
        }
        i
    }

    /// Registers a source with the event loop under the least free token and
    /// records `waker` for it.
    ///
    /// `register_source` makes the registration with the event loop for the
    /// token it is given. When it fails, its error is returned and the table
    /// is left as it was; when it succeeds, the token is returned and now
    /// maps to `waker`.
    pub fn register<E, R>(&mut self, register_source: R, waker: W) -> (res: Result<usize, E>)
        where
            R: FnOnce(usize) -> Result<(), E>,
        requires
            has_free_token(old(self)@.dom()),
            register_source.requires((least_free_token(old(self)@.dom()),)),
        ensures
            ({
                let t = least_free_token(old(self)@.dom());
                &&& old(self).well_formed() ==> final(self).well_formed()
                &&& match res {
                    Ok(tok) => {
                        &&& tok == t
                        &&& !old(self)@.contains_key(tok)
                        &&& tok < WAKER_TOKEN
                        &&& forall|i: usize| i < tok ==> old(self)@.contains_key(i)
                        &&& register_source.ensures((t,), Ok(()))
                        &&& final(self)@ == old(self)@.insert(t, waker)
                    },
                    Err(e) => {
                        &&& register_source.ensures((t,), Err(e))
                        &&& final(self)@ == old(self)@
                    },
                }
            }),
    {
        proof {
            lemma_least_free_token(self@.dom());
        }
        let token = self.next_token();
        let registered = register_source(token);
        match registered {
            Ok(u) => {
                self.wakers.insert(token, waker);
                Ok(token)
            },
            Err(e) => Err(e),
        }
    }

    /// Renews the registration of a source under `token` with the event loop
    /// and makes `waker` the one woken for it, so that the task of the latest
    /// pending poll is the one woken.
    ///
    /// When `reregister_source` fails, its error is returned and the table is
    /// left as it was. When it succeeds and `token` names a live
    /// registration, that registration now holds `waker`; a token with no
    /// registration is not added.
    pub fn reregister<E, R>(&mut self, reregister_source: R, token: usize, waker: W) -> (res:
        Result<(), E>)
        where
            R: FnOnce(usize) -> Result<(), E>,
        requires
            reregister_source.requires((token,)),
        ensures
            reregister_source.ensures((token,), res),
            res is Ok && old(self)@.contains_key(token) ==> final(self)@ == old(self)@.insert(
                token,
                waker,
            ),
            !(res is Ok && old(self)@.contains_key(token)) ==> final(self)@ == old(self)@,
            old(self).well_formed() ==> final(self).well_formed(),
    {
        let renewed = reregister_source(token);
        if renewed.is_ok() && self.wakers.contains_key(&token) {
            self.wakers.insert(token, waker);
        }
        renewed
    }

    /// Deregisters a source from the event loop and forgets the waker of
    /// `token`.
    ///
    /// When `deregister_source` fails, its error is returned and the table is
    /// left as it was; otherwise `token` no longer names a registration.
    pub fn deregister<E, D>(&mut self, deregister_source: D, token: usize) -> (res: Result<(), E>)
        where
            D: FnOnce() -> Result<(), E>,
        requires
            deregister_source.requires(()),
        ensures
            deregister_source.ensures((), res),
            res is Ok ==> final(self)@ == old(self)@.remove(token),
            res is Err ==> final(self)@ == old(self)@,
            old(self).well_formed() ==> final(self).well_formed(),
    {
        let deregistered = deregister_source();
        if deregistered.is_ok() {
            self.wakers.remove(&token);
        }
        deregistered
    }

    /// The tokens, in the order of `events`, whose wakers an event loop round
    /// that reported `events` wakes: the reserved token and tokens with no
    /// registration are passed over.
    pub fn tokens_to_wake(&self, events: &Vec<usize>) -> (woken: Vec<usize>)
        ensures
            woken@ == events@.filter(|t: usize| wakes(self@.dom(), t)),
    {
        let mut woken: Vec<usize> = Vec::new();
        let mut i: usize = 0;
        while i < events.len()
            invariant
                i <= events@.len(),
                woken@ == events@.take(i as int).filter(|t: usize| wakes(self@.dom(), t)),
            decreases events@.len() - i,
        {
            let token = events[i];
            proof {
                reveal(Seq::filter);
                assert(events@.take(i as int + 1).drop_last() =~= events@.take(i as int));
            }
            if token != WAKER_TOKEN && self.wakers.contains_key(&token) {
                woken.push(token);
            }
            i = i + 1;
        }
        proof {
            assert(events@.take(events@.len() as int) =~= events@);
        }
        woken
    }
}

} // verus!
