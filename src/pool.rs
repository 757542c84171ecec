//! Idle connections and the first-in first-out pool that pairs them.
use vstd::prelude::*;

verus! {

/// An idle connection: its inbound line source and its outbound handle.
pub struct Client<R, W> {
    pub rx: R,
    pub writer: W,
}

/// A connection seated in a session, with the symbol it places.
pub struct Player<R, W> {
    pub symbol: char,
    pub rx: R,
    pub writer: W,
}

impl<R, W> Client<R, W> {
    /// Seats the connection with `symbol`, carrying both handles over.
    pub fn into_player(self, symbol: char) -> (r: Player<R, W>)
        ensures
            r.symbol == symbol,
            r.rx == self.rx,
            r.writer == self.writer,
    {
        Player { symbol, rx: self.rx, writer: self.writer }
    }
}

/// A player leaving its session becomes an idle connection again, with the
/// same handles and no memory of the session.
impl<R, W> From<Player<R, W>> for Client<R, W> {
    fn from(player: Player<R, W>) -> (r: Client<R, W>) {
        Client { rx: player.rx, writer: player.writer }
    }
}

impl<R, W> vstd::std_specs::convert::FromSpecImpl<Player<R, W>> for Client<R, W> {
    open spec fn obeys_from_spec() -> bool {
        true
    }

    open spec fn from_spec(player: Player<R, W>) -> Client<R, W> {
        Client { rx: player.rx, writer: player.writer }
    }
}

/// The pool after one arrival and the pair that it lets form, if any: the
/// newcomer joins the tail, then the two oldest leave together when there
/// are at least two.
pub open spec fn arrival_step<T>(pool: Seq<T>, c: T) -> (Seq<T>, Option<(T, T)>) {
    let q = pool.push(c);
    if q.len() >= 2 {
        (q.subrange(2, q.len() as int), Some((q[0], q[1])))
    } else {
        (q, None)
    }
}

/// The pool and the pairs formed, in order, after `arrivals` came one at a
/// time to an empty pool.
pub open spec fn arrivals_run<T>(arrivals: Seq<T>) -> (Seq<T>, Seq<(T, T)>)
    decreases arrivals.len(),
{
    if arrivals.len() == 0 {
        (Seq::empty(), Seq::empty())
    } else {
        let (pool, pairs) = arrivals_run(arrivals.drop_last());
        let (next, formed) = arrival_step(pool, arrivals.last());
        match formed {
            Some(pair) => (next, pairs.push(pair)),
            None => (next, pairs),
        }
    }
}

/// Consecutive arrivals taken two by two: the first with the second, the
/// third with the fourth, and so on.
pub open spec fn consecutive_pairs<T>(arrivals: Seq<T>) -> Seq<(T, T)> {
    Seq::new(arrivals.len() / 2, |k: int| (arrivals[2 * k], arrivals[2 * k + 1]))
}

/// Clients that arrive one at a time at an empty pool are paired strictly in
/// arrival order, the first with the second, the third with the fourth and
/// so on; no pairing mixes that order, and only the last of an odd number is
/// left waiting.
pub proof fn lemma_pairs_follow_arrival_order<T>(arrivals: Seq<T>)
    ensures
        arrivals_run(arrivals).1 == consecutive_pairs(arrivals),
        arrivals_run(arrivals).0 == if arrivals.len() % 2 == 1 {
            seq![arrivals.last()]
        } else {
            Seq::<T>::empty()
        },
    decreases arrivals.len(),
{
    let n = arrivals.len();
    if n == 0 {
        assert(consecutive_pairs(arrivals) =~= Seq::<(T, T)>::empty());
    } else {
        let p = arrivals.drop_last();
        lemma_pairs_follow_arrival_order(p);
        if n % 2 == 1 {
            assert(n / 2 == (n - 1) / 2);
            assert(seq![arrivals.last()] =~= Seq::<T>::empty().push(arrivals.last()));
            assert(consecutive_pairs(arrivals) =~= consecutive_pairs(p));
        } else {
            assert(n / 2 == (n - 1) / 2 + 1);
            let q = seq![p.last()].push(arrivals.last());
            assert(q.subrange(2, q.len() as int) =~= Seq::<T>::empty());
            assert(consecutive_pairs(arrivals) =~= consecutive_pairs(p).push(
                (arrivals[n - 2], arrivals[n - 1]),
            ));
        }
    }
}

/// Clients waiting for an opponent, oldest first.
pub struct WaitingPool<T> {
    items: Vec<T>,
}

impl<T> View for WaitingPool<T> {
    type V = Seq<T>;

    closed spec fn view(&self) -> Seq<T> {
        self.items@
    }
}

impl<T> WaitingPool<T> {
    /// An empty pool.
    pub fn new() -> (r: WaitingPool<T>)
        ensures
            r@ == Seq::<T>::empty(),
    {
        WaitingPool { items: Vec::new() }
    }

    /// How many clients wait.
    pub fn len(&self) -> (r: usize)
        ensures
            r == self@.len(),
    {
        self.items.len()
    }

    /// Appends a client at the tail.
    pub fn enqueue(&mut self, client: T)
        ensures
            final(self)@ == old(self)@.push(client),
    {
        self.items.push(client);
    }

    /// Takes the two oldest clients out together, if at least two wait;
    /// otherwise leaves the pool as it is.
    pub fn try_dequeue_pair(&mut self) -> (r: Option<(T, T)>)
        ensures
            old(self)@.len() >= 2 ==> r == Some((old(self)@[0], old(self)@[1])) && final(self)@
                == old(self)@.subrange(2, old(self)@.len() as int),
            old(self)@.len() < 2 ==> r is None && final(self)@ == old(self)@,
    {
        if self.items.len() < 2 {
            return None;
        }
        let a = self.items.remove(0);
        let b = self.items.remove(0);
        Some((a, b))
    }

    /// Takes in a newly arrived client and pairs the two oldest if it can.
    pub fn arrive(&mut self, client: T) -> (r: Option<(T, T)>)
        ensures
            (final(self)@, r) == arrival_step(old(self)@, client),
    {
        self.enqueue(client);
        self.try_dequeue_pair()
    }
}

} // verus!
