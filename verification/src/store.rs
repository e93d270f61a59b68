use vstd::prelude::*;

use crate::stack;
use crate::stack::{Placement, Point};
use crate::toast::{Id, Level, Toast};

verus! {

/// Whether the sampled pointer position is over the rendered stack.
pub open spec fn hover_hit(placements: Seq<Placement>, pointer: Option<Point>) -> bool {
    match pointer {
        Some(q) => stack::spec_over_any(placements, q),
        None => false,
    }
}

/// Whether a toast is eligible for automatic removal at instant `now`.
pub open spec fn is_expired<T>(t: Toast<T>, now: u64) -> bool {
    t.expiry <= now
}

/// The toasts of `s` that are still live at `now`, in store order.
pub open spec fn live_entries<T>(s: Seq<Toast<T>>, now: u64) -> Seq<Toast<T>> {
    s.filter(|t: Toast<T>| !is_expired(t, now))
}

/// The toasts of `s` that have expired by `now`, in store order.
pub open spec fn expired_entries<T>(s: Seq<Toast<T>>, now: u64) -> Seq<Toast<T>> {
    s.filter(|t: Toast<T>| is_expired(t, now))
}

/// The dismissal payloads of the toasts of `s` that have expired by `now`,
/// in store order.
pub open spec fn expired_tokens<T>(s: Seq<Toast<T>>, now: u64) -> Seq<T> {
    expired_entries(s, now).map_values(|t: Toast<T>| t.on_dismiss)
}

/// The toast with its expiry raised to at least `now + grace`.
///
/// Only the expiry moves, and only forward; every other field is kept.
pub open spec fn extended<T>(t: Toast<T>, now: u64, grace: u64) -> Toast<T> {
    if t.expiry >= now + grace {
        t
    } else {
        Toast { expiry: (now + grace) as u64, ..t }
    }
}

/// Every toast of `s` with its expiry raised to at least `now + grace`.
pub open spec fn extended_all<T>(s: Seq<Toast<T>>, now: u64, grace: u64) -> Seq<Toast<T>> {
    s.map_values(|t: Toast<T>| extended(t, now, grace))
}

/// The toasts of `s` whose identifier is not `id`, in store order.
pub open spec fn without_id<T>(s: Seq<Toast<T>>, id: Id) -> Seq<Toast<T>> {
    s.filter(|t: Toast<T>| t.id != id)
}

/// How appending one toast changes the live and expired partitions.
proof fn lemma_expiry_split_push<T>(s: Seq<Toast<T>>, x: Toast<T>, now: u64)
    ensures
        !is_expired(x, now) ==> live_entries(s.push(x), now) == live_entries(s, now).push(x),
        is_expired(x, now) ==> live_entries(s.push(x), now) == live_entries(s, now),
        is_expired(x, now) ==> expired_tokens(s.push(x), now) == expired_tokens(s, now).push(
            x.on_dismiss,
        ),
        !is_expired(x, now) ==> expired_tokens(s.push(x), now) == expired_tokens(s, now),
{
    reveal(Seq::filter);
    let p = s.push(x);
    assert(p.drop_last() =~= s);
    assert(p.last() == x);
    if is_expired(x, now) {
        assert(expired_entries(p, now) == expired_entries(s, now).push(x));
        assert(expired_tokens(p, now) =~= expired_tokens(s, now).push(x.on_dismiss));
    } else {
        assert(expired_tokens(p, now) =~= expired_tokens(s, now));
    }
}

/// How appending one toast changes the result of a dismissal.
proof fn lemma_without_id_push<T>(s: Seq<Toast<T>>, x: Toast<T>, id: Id)
    ensures
        x.id != id ==> without_id(s.push(x), id) == without_id(s, id).push(x),
        x.id == id ==> without_id(s.push(x), id) == without_id(s, id),
{
    reveal(Seq::filter);
    let p = s.push(x);
    assert(p.drop_last() =~= s);
    assert(p.last() == x);
}

/// The single source of truth for which notifications are currently active.
///
/// The store owns the ordered collection of active toasts and the counter
/// from which identifiers are issued.  Store order is insertion order; it is
/// never re-sorted.  The store is generic over the opaque payload type `T`
/// that the host attaches to dismissals and actions.
pub struct ToastStore<T> {
    toasts: Vec<Toast<T>>,
    next_id: Id,
}

impl<T> View for ToastStore<T> {
    type V = Seq<Toast<T>>;

    /// The active toasts, in insertion order.
    closed spec fn view(&self) -> Seq<Toast<T>> {
        self.toasts@
    }
}

impl<T> ToastStore<T> {
    /// The counter value the next issued identifier will carry.
    pub closed spec fn counter(&self) -> usize {
        self.next_id.spec_val()
    }

    /// Well-formedness: identifiers are strictly increasing in store order
    /// (hence pairwise distinct), and all lie below the issue counter.
    pub open spec fn wf(&self) -> bool {
        &&& forall|i: int, j: int|
            0 <= i < j < self@.len() ==> self@[i].id.spec_val() < self@[j].id.spec_val()
        &&& forall|i: int| 0 <= i < self@.len() ==> #[trigger] self@[i].id.spec_val() < self.counter()
    }

    /// An empty store that will issue identifiers from zero.
    pub fn new() -> (store: ToastStore<T>)
        ensures
            store.wf(),
            store@ == Seq::<Toast<T>>::empty(),
            store.counter() == 0,
    {
        let store = ToastStore { toasts: Vec::new(), next_id: Id::new() };
        proof {
            assert(store@ =~= Seq::<Toast<T>>::empty());
        }
        store
    }

    /// The active toasts, in insertion order, for one layout or draw pass.
    pub fn active(&self) -> (toasts: &Vec<Toast<T>>)
        ensures
            toasts@ == self@,
    {
        &self.toasts
    }

    /// Appends a new notification and returns its freshly issued identifier.
    ///
    /// The new toast expires at `now + timeout` and is placed at the end of
    /// the store, so it is the newest in insertion order.  The returned
    /// identifier is strictly greater than every identifier in the store,
    /// and every identifier the store ever issued before.
    pub fn push(
        &mut self,
        level: Level,
        title: Option<String>,
        message: String,
        action: Option<(String, T)>,
        on_dismiss: T,
        now: u64,
        timeout: u64,
    ) -> (id: Id)
        requires
            old(self).wf(),
            old(self).counter() < usize::MAX,
            now + timeout <= u64::MAX,
        ensures
            final(self).wf(),
            id.spec_val() == old(self).counter(),
            final(self).counter() == old(self).counter() + 1,
            final(self)@ == old(self)@.push((Toast {
                id,
                expiry: (now + timeout) as u64,
                level,
                title,
                message,
                action,
                on_dismiss,
            })),
            forall|i: int|
                0 <= i < old(self)@.len() ==> #[trigger] old(self)@[i].id.spec_val() < id.spec_val(),
    {
        let id = self.next_id;
        let toast = Toast {
            id,
            expiry: now + timeout,
            level,
            title,
            message,
            action,
            on_dismiss,
        };
        self.toasts.push(toast);
        self.next_id = self.next_id.next();
        id
    }

    /// Removes the toast with the given identifier, if it is present.
    ///
    /// Removing an absent identifier is a silent no-op, not an error: the
    /// toast may have expired in the same tick.  Repeating a dismissal
    /// therefore changes nothing.
    pub fn dismiss(&mut self, id: Id)
        requires
            old(self).wf(),
        ensures
            final(self).wf(),
            final(self)@ == without_id(old(self)@, id),
            final(self).counter() == old(self).counter(),
    {
        let ghost s0 = self.toasts@;
        let ghost n = s0.len() as int;
        let mut i: usize = 0;
        let ghost mut j: int = 0;
        while i < self.toasts.len()
            invariant
                0 <= j <= n,
                n == s0.len(),
                i as int == without_id(s0.subrange(0, j), id).len(),
                self.toasts@ == without_id(s0.subrange(0, j), id) + s0.subrange(j, n),
                self.next_id == old(self).next_id,
                forall|a: int, b: int|
                    0 <= a < b < self.toasts@.len()
                        ==> self.toasts@[a].id.spec_val() < self.toasts@[b].id.spec_val(),
                forall|a: int|
                    0 <= a < self.toasts@.len()
                        ==> #[trigger] self.toasts@[a].id.spec_val() < self.counter(),
            decreases n - j,
        {
            proof {
                assert(s0.subrange(0, j + 1) =~= s0.subrange(0, j).push(s0[j]));
                lemma_without_id_push(s0.subrange(0, j), s0[j], id);
                assert(self.toasts@[i as int] == s0.subrange(j, n)[0]);
            }
            if self.toasts[i].id == id {
                self.toasts.remove(i);
                proof {
                    assert(self.toasts@ =~= without_id(s0.subrange(0, j + 1), id) + s0.subrange(
                        j + 1,
                        n,
                    ));
                }
            } else {
                i = i + 1;
                proof {
                    assert(self.toasts@ =~= without_id(s0.subrange(0, j + 1), id) + s0.subrange(
                        j + 1,
                        n,
                    ));
                }
            }
            proof {
                j = j + 1;
            }
        }
        proof {
            assert(s0.subrange(0, n) =~= s0);
            assert(s0.subrange(n, n) =~= Seq::<Toast<T>>::empty());
            assert(self.toasts@ =~= without_id(s0, id));
        }
    }

    /// Removes every toast whose expiry has been reached, in store order,
    /// and returns their dismissal payloads in removal order.
    ///
    /// This is the only path by which automatic removal happens: a toast is
    /// removed if and only if `expiry <= now`, and every removed toast is
    /// reported through the returned payloads.
    pub fn expire(&mut self, now: u64) -> (tokens: Vec<T>)
        requires
            old(self).wf(),
        ensures
            final(self).wf(),
            final(self)@ == live_entries(old(self)@, now),
            tokens@ == expired_tokens(old(self)@, now),
            final(self).counter() == old(self).counter(),
    {
        let ghost s0 = self.toasts@;
        let ghost n = s0.len() as int;
        let mut tokens: Vec<T> = Vec::new();
        let mut i: usize = 0;
        let ghost mut j: int = 0;
        while i < self.toasts.len()
            invariant
                0 <= j <= n,
                n == s0.len(),
                i as int == live_entries(s0.subrange(0, j), now).len(),
                self.toasts@ == live_entries(s0.subrange(0, j), now) + s0.subrange(j, n),
                tokens@ == expired_tokens(s0.subrange(0, j), now),
                self.next_id == old(self).next_id,
                forall|a: int, b: int|
                    0 <= a < b < self.toasts@.len()
                        ==> self.toasts@[a].id.spec_val() < self.toasts@[b].id.spec_val(),
                forall|a: int|
                    0 <= a < self.toasts@.len()
                        ==> #[trigger] self.toasts@[a].id.spec_val() < self.counter(),
            decreases n - j,
        {
            proof {
                assert(s0.subrange(0, j + 1) =~= s0.subrange(0, j).push(s0[j]));
                lemma_expiry_split_push(s0.subrange(0, j), s0[j], now);
                assert(self.toasts@[i as int] == s0.subrange(j, n)[0]);
            }
            if self.toasts[i].expiry <= now {
                let t = self.toasts.remove(i);
                tokens.push(t.on_dismiss);
                proof {
                    assert(self.toasts@ =~= live_entries(s0.subrange(0, j + 1), now) + s0.subrange(
                        j + 1,
                        n,
                    ));
                }
            } else {
                i = i + 1;
                proof {
                    assert(self.toasts@ =~= live_entries(s0.subrange(0, j + 1), now) + s0.subrange(
                        j + 1,
                        n,
                    ));
                }
            }
            proof {
                j = j + 1;
            }
        }
        proof {
            assert(s0.subrange(0, n) =~= s0);
            assert(s0.subrange(n, n) =~= Seq::<Toast<T>>::empty());
            assert(self.toasts@ =~= live_entries(s0, now));
        }
        tokens
    }

    /// Raises every active toast's expiry to at least `now + grace`.
    ///
    /// Used while the pointer hovers over the stack, so a toast being read
    /// never disappears mid-read.  Expiries only ever move forward: a toast
    /// already scheduled at or beyond `now + grace` is left untouched.
    pub fn extend_all(&mut self, now: u64, grace: u64)
        requires
            old(self).wf(),
            now + grace <= u64::MAX,
        ensures
            final(self).wf(),
            final(self)@ == extended_all(old(self)@, now, grace),
            final(self)@.len() == old(self)@.len(),
            forall|i: int|
                0 <= i < old(self)@.len() ==> #[trigger] final(self)@[i].expiry >= now + grace,
            forall|i: int|
                0 <= i < old(self)@.len() ==> #[trigger] final(self)@[i].expiry >= old(
                    self,
                )@[i].expiry,
            forall|i: int|
                0 <= i < old(self)@.len() && old(self)@[i].expiry >= now + grace
                    ==> #[trigger] final(self)@[i] == old(self)@[i],
            final(self).counter() == old(self).counter(),
    {
        let ghost s0 = self.toasts@;
        let ghost n = s0.len() as int;
        let bound = now + grace;
        let mut i: usize = 0;
        while i < self.toasts.len()
            invariant
                0 <= i as int <= n,
                self.toasts@.len() == n,
                n == s0.len(),
                bound == now + grace,
                forall|k: int| 0 <= k < i as int ==> self.toasts@[k] == extended(s0[k], now, grace),
                forall|k: int| i as int <= k < n ==> self.toasts@[k] == s0[k],
                self.next_id == old(self).next_id,
            decreases n - i as int,
        {
            if self.toasts[i].expiry < bound {
                let t = self.toasts.remove(i);
                self.toasts.insert(i, Toast { expiry: bound, ..t });
            }
            i = i + 1;
        }
        proof {
            assert(self.toasts@ =~= extended_all(s0, now, grace));
        }
    }

    /// The instant at which the earliest active toast expires, if any.
    ///
    /// The host schedules exactly one future wake-up at this instant rather
    /// than polling; an empty store needs no wake-up.
    pub fn next_wakeup(&self) -> (r: Option<u64>)
        ensures
            match r {
                Some(m) => self@.len() > 0 && (exists|i: int|
                    0 <= i < self@.len() && #[trigger] self@[i].expiry == m) && (forall|i: int|
                    0 <= i < self@.len() ==> m <= #[trigger] self@[i].expiry),
                None => self@.len() == 0,
            },
    {
        if self.toasts.len() == 0 {
            return None;
        }
        let mut m: u64 = self.toasts[0].expiry;
        let mut i: usize = 1;
        while i < self.toasts.len()
            invariant
                1 <= i as int <= self.toasts@.len(),
                exists|k: int| 0 <= k < i as int && #[trigger] self.toasts@[k].expiry == m,
                forall|k: int| 0 <= k < i as int ==> m <= #[trigger] self.toasts@[k].expiry,
            decreases self.toasts@.len() - i as int,
        {
            if self.toasts[i].expiry < m {
                m = self.toasts[i].expiry;
            }
            i = i + 1;
        }
        Some(m)
    }

    /// Applies one time sample: the hover check, then the hover extension,
    /// then the expiry check, in exactly that order.
    ///
    /// `placements` is the currently rendered arrangement and `pointer` the
    /// sampled pointer position, if one is available.  Because the hover
    /// extension runs before the expiry check of the same sample, a toast
    /// the pointer is resting on cannot expire in the very tick in which the
    /// extension would have saved it.  Returns the dismissal payloads of the
    /// toasts that expired, in store order.
    pub fn tick(
        &mut self,
        placements: &Vec<Placement>,
        pointer: Option<Point>,
        now: u64,
        grace: u64,
    ) -> (tokens: Vec<T>)
        requires
            old(self).wf(),
            now + grace <= u64::MAX,
        ensures
            final(self).wf(),
            final(self).counter() == old(self).counter(),
            hover_hit(placements@, pointer) ==> final(self)@ == live_entries(
                extended_all(old(self)@, now, grace),
                now,
            ) && tokens@ == expired_tokens(extended_all(old(self)@, now, grace), now),
            !hover_hit(placements@, pointer) ==> final(self)@ == live_entries(old(self)@, now)
                && tokens@ == expired_tokens(old(self)@, now),
    {
        let hovered = match pointer {
            Some(q) => stack::is_over(placements, q),
            None => false,
        };
        if hovered {
            self.extend_all(now, grace);
        }
        self.expire(now)
    }
}

/// Uniqueness: within a well-formed store, two toasts at distinct positions
/// carry distinct identifiers, so an issued identifier appears at most once
/// in the active list.
pub proof fn lemma_ids_distinct<T>(store: &ToastStore<T>)
    requires
        store.wf(),
    ensures
        forall|i: int, j: int|
            #![trigger store@[i].id, store@[j].id]
            0 <= i < store@.len() && 0 <= j < store@.len() && i != j ==> store@[i].id
                != store@[j].id,
{
    assert forall|i: int, j: int|
        0 <= i < store@.len() && 0 <= j < store@.len() && i != j implies #[trigger] store@[i].id
        != #[trigger] store@[j].id by {
        if i < j {
            assert(store@[i].id.spec_val() < store@[j].id.spec_val());
        } else {
            assert(store@[j].id.spec_val() < store@[i].id.spec_val());
        }
    }
}

/// Dismiss idempotence: dismissing an identifier a second time changes
/// nothing, because the first dismissal already removed every toast that
/// carried it.
pub proof fn lemma_dismiss_idempotent<T>(s: Seq<Toast<T>>, id: Id)
    ensures
        without_id(without_id(s, id), id) == without_id(s, id),
    decreases s.len(),
{
    if s.len() == 0 {
        reveal(Seq::filter);
        assert(without_id(s, id) =~= s);
        assert(without_id(without_id(s, id), id) =~= s);
    } else {
        let rest = s.drop_last();
        let last = s.last();
        lemma_dismiss_idempotent(rest, id);
        assert(rest.push(last) =~= s);
        lemma_without_id_push(rest, last, id);
        if last.id != id {
            lemma_without_id_push(without_id(rest, id), last, id);
        }
    }
}

/// Exactly which toasts a dismissal removes: a toast survives `dismiss(id)`
/// if and only if it was present and does not carry `id`; in particular a
/// dismissal for an identifier that no active toast carries is a no-op.
pub proof fn lemma_dismiss_exact<T>(s: Seq<Toast<T>>, id: Id)
    ensures
        forall|x: Toast<T>|
            #[trigger] without_id(s, id).contains(x) <==> s.contains(x) && x.id != id,
        (forall|i: int| 0 <= i < s.len() ==> (#[trigger] s[i].id) != id) ==> without_id(s, id)
            == s,
    decreases s.len(),
{
    broadcast use vstd::seq_lib::lemma_seq_contains_after_push;

    if s.len() == 0 {
        reveal(Seq::filter);
        assert(without_id(s, id) =~= s);
    } else {
        let rest = s.drop_last();
        let last = s.last();
        lemma_dismiss_exact(rest, id);
        assert(rest.push(last) =~= s);
        lemma_without_id_push(rest, last, id);
        if forall|i: int| 0 <= i < s.len() ==> (#[trigger] s[i].id) != id {
            assert(forall|i: int| 0 <= i < rest.len() ==> (#[trigger] rest[i].id) != id);
            assert(without_id(s, id) == without_id(rest, id).push(last));
            assert(without_id(rest, id).push(last) =~= s);
        }
    }
}

/// Expiry correctness: `expire(now)` removes a toast if and only if its
/// expiry has been reached, and every removed toast is reported — the live
/// part and the reported payloads together account for every toast.
pub proof fn lemma_expire_exact<T>(s: Seq<Toast<T>>, now: u64)
    ensures
        live_entries(s, now).len() + expired_tokens(s, now).len() == s.len(),
        forall|x: Toast<T>|
            #[trigger] live_entries(s, now).contains(x) <==> s.contains(x) && !is_expired(x, now),
    decreases s.len(),
{
    broadcast use vstd::seq_lib::lemma_seq_contains_after_push;

    if s.len() == 0 {
        reveal(Seq::filter);
        assert(live_entries(s, now) =~= s);
        assert(expired_entries(s, now) =~= s);
        assert(expired_tokens(s, now) =~= Seq::<T>::empty());
    } else {
        let rest = s.drop_last();
        let last = s.last();
        lemma_expire_exact(rest, now);
        assert(rest.push(last) =~= s);
        lemma_expiry_split_push(rest, last, now);
    }
}

} // verus!
