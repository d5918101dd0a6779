use vstd::prelude::*;

verus! {

/// The text of each string in `v`.
pub open spec fn string_views(v: Seq<String>) -> Seq<Seq<char>> {
    v.map_values(|s: String| s@)
}

/// One output of a worker, addressed to the widgets subscribed to it.
pub struct Emission<T> {
    pub config_hash: String,
    pub targets: Vec<String>,
    pub result: Result<T, String>,
}

/// Fan-out of one instance's outputs to its current subscribers.
///
/// A widget that subscribes twice is listed twice: each subscription is
/// released by its own unsubscribe.
pub struct Emitter {
    subscribers: Vec<String>,
}

impl View for Emitter {
    type V = Seq<Seq<char>>;

    closed spec fn view(&self) -> Seq<Seq<char>> {
        string_views(self.subscribers@)
    }
}

impl Emitter {
    pub fn new() -> (r: Emitter)
        ensures
            r@ == Seq::<Seq<char>>::empty(),
    {
        let r = Emitter { subscribers: Vec::new() };
        assert(r@ =~= Seq::<Seq<char>>::empty());
        r
    }

    /// The number of subscriptions.
    pub fn len(&self) -> (r: usize)
        ensures
            r == self@.len(),
    {
        self.subscribers.len()
    }

    pub fn subscribe(&mut self, widget: String)
        ensures
            final(self)@ == old(self)@.push(widget@),
    {
        self.subscribers.push(widget);
        assert(self@ =~= old(self)@.push(widget@));
    }

    /// Releases the first subscription of `widget`; returns whether there
    /// was one.
    pub fn unsubscribe(&mut self, widget: &String) -> (r: bool)
        ensures
            r == old(self)@.contains(widget@),
            final(self)@ == old(self)@.remove_value(widget@),
    {
        let n = self.subscribers.len();
        let mut i: usize = 0;
        while i < n
            invariant
                n == self.subscribers.len(),
                self == old(self),
                0 <= i <= n,
                forall|j: int| 0 <= j < i ==> self@[j] != widget@,
                self@.len() == n,
            decreases n - i,
        {
            if self.subscribers[i] == *widget {
                proof {
                    assert(self@[i as int] == self.subscribers@[i as int]@);
                    self@.index_of_first_ensures(widget@);
                    let k = self@.index_of_first(widget@)->0;
                    assert(k == i as int) by {
                        if k < i {
                        } else if k > i {
                            assert(self@[i as int] == widget@);
                        }
                    }
                }
                self.subscribers.remove(i);
                assert(self@ =~= old(self)@.remove(i as int));
                return true;
            }
            i = i + 1;
        }
        proof {
            old(self)@.index_of_first_ensures(widget@);
        }
        false
    }

    /// Wraps one result for delivery to every current subscriber, in the
    /// order in which they subscribed.
    pub fn emit<T>(&self, config_hash: &String, result: Result<T, String>) -> (r: Emission<T>)
        ensures
            r.config_hash@ == config_hash@,
            string_views(r.targets@) == self@,
            r.result == result,
    {
        let mut targets: Vec<String> = Vec::new();
        let n = self.subscribers.len();
        let mut i: usize = 0;
        while i < n
            invariant
                n == self.subscribers.len(),
                0 <= i <= n,
                string_views(targets@) =~= self@.subrange(0, i as int),
                self@.len() == n,
                targets@.len() == i,
            decreases n - i,
        {
            let s = self.subscribers[i].clone();
            proof {
                assert(self@[i as int] == s@);
            }
            let ghost before = targets@;
            targets.push(s);
            proof {
                assert forall|j: int| 0 <= j < i + 1 implies string_views(targets@)[j]
                    == self@.subrange(0, i + 1)[j] by {
                    if j < i {
                        assert(targets@[j] == before[j]);
                        assert(string_views(before)[j] == self@.subrange(0, i as int)[j]);
                    }
                }
            }
            i = i + 1;
        }
        assert(self@.subrange(0, n as int) =~= self@);
        Emission { config_hash: config_hash.clone(), targets, result }
    }
}

} // verus!
