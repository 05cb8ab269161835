//! The per-webview event registry: repeatable and one-shot callbacks mapped
//! onto the flat `(kind, numeric id)` slots of the native layer.
//!
//! Callbacks themselves live in the embedding; the registry tracks them by
//! token and decides which tokens run, which are replaced, and which are
//! released when the owning webview is torn down.  Ids are handed out by a
//! counter that never repeats, so every registration of the same kind gets a
//! distinct id and removal by id touches exactly one handler.

use vstd::prelude::*;

verus! {

/// The kinds of events a webview or its window reports.
#[derive(Debug, Clone, Copy, PartialEq, Eq, Structural)]
pub enum EventKind {
    DomReady,
    Navigate,
    Navigated,
    Title,
    Favicon,
    Load,
    Decorated,
    Maximize,
    Minimize,
    Closed,
    Resize,
    Focus,
    Close,
}

/// A repeatable handler, stored under the id the native layer returned.
#[derive(Debug, Clone, Copy, PartialEq, Eq, Structural)]
pub struct HandlerEntry {
    pub kind: EventKind,
    pub id: u64,
    pub token: u64,
}

/// A one-shot handler.  The token sits behind an `Option` so that delivery
/// can take it exactly once; an emptied entry is reclaimed by the next
/// registration's opportunistic scan.
#[derive(Debug, Clone, Copy)]
pub struct OnceEntry {
    pub kind: EventKind,
    pub token: Option<u64>,
}

/// A scheme handler, keyed by the scheme's name.
#[derive(Debug)]
pub struct SchemeSlot {
    pub name: String,
    pub token: u64,
}

/// What one event delivery did: which handler tokens were invoked, in order,
/// and which one-shot tokens were discarded without running because the
/// owning handle was already gone.
#[derive(Debug)]
pub struct Delivery {
    pub ran: Vec<u64>,
    pub released: Vec<u64>,
}

/// The tokens of the repeatable handlers of `kind`, in registration order.
pub open spec fn repeat_tokens(s: Seq<HandlerEntry>, kind: EventKind) -> Seq<u64>
    decreases s.len(),
{
    if s.len() == 0 {
        Seq::empty()
    } else {
        let init = repeat_tokens(s.subrange(0, s.len() - 1), kind);
        if s.last().kind == kind {
            init.push(s.last().token)
        } else {
            init
        }
    }
}

/// The live one-shot tokens of `kind`, in registration order.
pub open spec fn once_tokens(s: Seq<OnceEntry>, kind: EventKind) -> Seq<u64>
    decreases s.len(),
{
    if s.len() == 0 {
        Seq::empty()
    } else {
        let init = once_tokens(s.subrange(0, s.len() - 1), kind);
        match s.last().token {
            Some(t) => if s.last().kind == kind {
                init.push(t)
            } else {
                init
            },
            None => init,
        }
    }
}

/// The one-shot entries still holding a token, in order: what survives the
/// opportunistic reclaim scan.
pub open spec fn retained_once(s: Seq<OnceEntry>) -> Seq<OnceEntry>
    decreases s.len(),
{
    if s.len() == 0 {
        Seq::empty()
    } else {
        let init = retained_once(s.subrange(0, s.len() - 1));
        if s.last().token is Some {
            init.push(s.last())
        } else {
            init
        }
    }
}

/// The repeatable entries that survive removing the one registered under
/// `(kind, id)`.
pub open spec fn without_entry(s: Seq<HandlerEntry>, kind: EventKind, id: u64) -> Seq<HandlerEntry>
    decreases s.len(),
{
    if s.len() == 0 {
        Seq::empty()
    } else {
        let init = without_entry(s.subrange(0, s.len() - 1), kind, id);
        if s.last().kind == kind && s.last().id == id {
            init
        } else {
            init.push(s.last())
        }
    }
}

/// The repeatable entries that survive clearing every handler of `kind`.
pub open spec fn without_kind(s: Seq<HandlerEntry>, kind: EventKind) -> Seq<HandlerEntry>
    decreases s.len(),
{
    if s.len() == 0 {
        Seq::empty()
    } else {
        let init = without_kind(s.subrange(0, s.len() - 1), kind);
        if s.last().kind == kind {
            init
        } else {
            init.push(s.last())
        }
    }
}

/// The tokens of every repeatable handler, all kinds, in order.
pub open spec fn all_entry_tokens(s: Seq<HandlerEntry>) -> Seq<u64>
    decreases s.len(),
{
    if s.len() == 0 {
        Seq::empty()
    } else {
        all_entry_tokens(s.subrange(0, s.len() - 1)).push(s.last().token)
    }
}

/// The live tokens of every one-shot handler, all kinds, in order.
pub open spec fn all_once_tokens(s: Seq<OnceEntry>) -> Seq<u64>
    decreases s.len(),
{
    if s.len() == 0 {
        Seq::empty()
    } else {
        let init = all_once_tokens(s.subrange(0, s.len() - 1));
        match s.last().token {
            Some(t) => init.push(t),
            None => init,
        }
    }
}

/// The tokens of every scheme handler, in order.
pub open spec fn all_scheme_tokens(s: Seq<SchemeSlot>) -> Seq<u64>
    decreases s.len(),
{
    if s.len() == 0 {
        Seq::empty()
    } else {
        all_scheme_tokens(s.subrange(0, s.len() - 1)).push(s.last().token)
    }
}

/// The registry of every callback one webview has registered.
pub struct EventRegistry {
    /// Repeatable handlers, in registration order.
    pub entries: Vec<HandlerEntry>,
    /// One-shot handlers, live until taken or reclaimed.
    pub once_entries: Vec<OnceEntry>,
    /// The next id to hand out.
    pub next_id: u64,
    /// The single message handler, if one is set.
    pub message_handler: Option<u64>,
    /// Scheme handlers, at most one per scheme name.
    pub scheme_handlers: Vec<SchemeSlot>,
}

impl EventRegistry {
    /// Well-formedness: ids are never reused, so handed-out ids stay below
    /// the counter and every pair of repeatable entries carries distinct ids;
    /// scheme names are unique.
    pub open spec fn wf(self) -> bool {
        &&& forall|i: int|
            0 <= i < self.entries@.len() ==> (#[trigger] self.entries@[i]).id < self.next_id
        &&& forall|i: int, j: int|
            0 <= i < j < self.entries@.len() ==> (#[trigger] self.entries@[i].id) != (
            #[trigger] self.entries@[j].id)
        &&& forall|i: int, j: int|
            0 <= i < j < self.scheme_handlers@.len() ==> (
            #[trigger] self.scheme_handlers@[i].name@) != (
            #[trigger] self.scheme_handlers@[j].name@)
    }

    /// An empty registry.
    pub fn new() -> (r: EventRegistry)
        ensures
            r.entries@ == Seq::<HandlerEntry>::empty(),
            r.once_entries@ == Seq::<OnceEntry>::empty(),
            r.next_id == 0,
            r.message_handler is None,
            r.scheme_handlers@ == Seq::<SchemeSlot>::empty(),
            r.wf(),
    {
        EventRegistry {
            entries: Vec::new(),
            once_entries: Vec::new(),
            next_id: 0,
            message_handler: None,
            scheme_handlers: Vec::new(),
        }
    }

    /// Registers a repeatable handler of `kind` and returns its id.  The id
    /// is fresh: it differs from the id of every handler already registered,
    /// of any kind.
    pub fn on(&mut self, kind: EventKind, token: u64) -> (id: u64)
        requires
            old(self).wf(),
            old(self).next_id < u64::MAX,
        ensures
            final(self).wf(),
            id == old(self).next_id,
            final(self).next_id == old(self).next_id + 1,
            final(self).entries@ == old(self).entries@.push(HandlerEntry { kind, id, token }),
            forall|i: int|
                0 <= i < old(self).entries@.len() ==> (#[trigger] old(self).entries@[i]).id != id,
            final(self).once_entries == old(self).once_entries,
            final(self).message_handler == old(self).message_handler,
            final(self).scheme_handlers == old(self).scheme_handlers,
    {
        let id = self.next_id;
        self.next_id = self.next_id + 1;
        self.entries.push(HandlerEntry { kind, id, token });
        id
    }

    /// Registers a one-shot handler of `kind`.  Because the native layer
    /// never says when a one-shot fired, the registry reclaims already-taken
    /// entries opportunistically on every new registration: the stored list
    /// afterwards holds exactly the previously live entries plus the new one.
    #[verifier::loop_isolation(false)]
    pub fn once(&mut self, kind: EventKind, token: u64)
        ensures
            final(self).once_entries@ == retained_once(old(self).once_entries@).push(
                OnceEntry { kind, token: Some(token) },
            ),
            final(self).entries == old(self).entries,
            final(self).next_id == old(self).next_id,
            final(self).message_handler == old(self).message_handler,
            final(self).scheme_handlers == old(self).scheme_handlers,
    {
        let ghost orig = self.once_entries@;
        let mut kept: Vec<OnceEntry> = Vec::new();
        let n = self.once_entries.len();
        let mut i: usize = 0;
        while i < n
            invariant
                i <= n,
                kept@ == retained_once(orig.subrange(0, i as int)),
            decreases n - i,
        {
            let e = self.once_entries[i];
            proof {
                assert(orig.subrange(0, i + 1).subrange(0, i as int) =~= orig.subrange(0, i as int));
                assert(orig.subrange(0, i + 1).last() == orig[i as int]);
            }
            if e.token.is_some() {
                kept.push(e);
            }
            i = i + 1;
        }
        proof {
            assert(orig.subrange(0, n as int) =~= orig);
        }
        kept.push(OnceEntry { kind, token: Some(token) });
        self.once_entries = kept;
    }

    /// Unregisters the repeatable handler of `kind` with the given id and
    /// returns its token.  Exactly the matching handler is removed — every
    /// other handler stays, in order — and removing an unknown id is a no-op.
    #[verifier::loop_isolation(false)]
    pub fn off(&mut self, kind: EventKind, id: u64) -> (removed: Option<u64>)
        requires
            old(self).wf(),
        ensures
            final(self).wf(),
            final(self).entries@ == without_entry(old(self).entries@, kind, id),
            removed is Some <==> exists|j: int|
                0 <= j < old(self).entries@.len() && (#[trigger] old(self).entries@[j]).kind == kind
                    && old(self).entries@[j].id == id,
            forall|j: int|
                0 <= j < old(self).entries@.len() && (#[trigger] old(self).entries@[j]).kind == kind
                    && old(self).entries@[j].id == id ==> removed == Some(
                    old(self).entries@[j].token,
                ),
            final(self).next_id == old(self).next_id,
            final(self).once_entries == old(self).once_entries,
            final(self).message_handler == old(self).message_handler,
            final(self).scheme_handlers == old(self).scheme_handlers,
    {
        let ghost orig = self.entries@;
        let mut kept: Vec<HandlerEntry> = Vec::new();
        let mut removed: Option<u64> = None;
        let n = self.entries.len();
        let mut i: usize = 0;
        while i < n
            invariant
                i <= n,
                kept@ == without_entry(orig.subrange(0, i as int), kind, id),
                forall|k: int|
                    0 <= k < kept@.len() ==> exists|m: int|
                        0 <= m < i && orig[m] == #[trigger] kept@[k],
                forall|a: int, b: int|
                    0 <= a < b < kept@.len() ==> (#[trigger] kept@[a].id) != (
                    #[trigger] kept@[b].id),
                forall|k: int| 0 <= k < kept@.len() ==> (#[trigger] kept@[k]).id < self.next_id,
                match removed {
                    Some(t) => exists|j: int|
                        0 <= j < i && (#[trigger] orig[j]).kind == kind && orig[j].id == id
                            && orig[j].token == t,
                    None => forall|j: int|
                        0 <= j < i ==> !((#[trigger] orig[j]).kind == kind && orig[j].id == id),
                },
            decreases n - i,
        {
            let e = self.entries[i];
            proof {
                assert(orig.subrange(0, i + 1).subrange(0, i as int) =~= orig.subrange(0, i as int));
                assert(orig.subrange(0, i + 1).last() == orig[i as int]);
            }
            if e.kind == kind && e.id == id {
                removed = Some(e.token);
            } else {
                proof {
                    assert forall|k: int| 0 <= k < kept@.len() implies (#[trigger] kept@[k]).id
                        != e.id by {
                        let m = choose|m: int| 0 <= m < i && orig[m] == kept@[k];
                        assert(orig[m].id != orig[i as int].id);
                    }
                }
                kept.push(e);
            }
            i = i + 1;
        }
        proof {
            assert(orig.subrange(0, n as int) =~= orig);
        }
        self.entries = kept;
        removed
    }

    /// Removes every repeatable handler of `kind` and returns their tokens in
    /// registration order.  Handlers of other kinds stay untouched.
    #[verifier::loop_isolation(false)]
    pub fn clear(&mut self, kind: EventKind) -> (dropped: Vec<u64>)
        requires
            old(self).wf(),
        ensures
            final(self).wf(),
            final(self).entries@ == without_kind(old(self).entries@, kind),
            dropped@ == repeat_tokens(old(self).entries@, kind),
            final(self).next_id == old(self).next_id,
            final(self).once_entries == old(self).once_entries,
            final(self).message_handler == old(self).message_handler,
            final(self).scheme_handlers == old(self).scheme_handlers,
    {
        let ghost orig = self.entries@;
        let mut kept: Vec<HandlerEntry> = Vec::new();
        let mut dropped: Vec<u64> = Vec::new();
        let n = self.entries.len();
        let mut i: usize = 0;
        while i < n
            invariant
                i <= n,
                kept@ == without_kind(orig.subrange(0, i as int), kind),
                dropped@ == repeat_tokens(orig.subrange(0, i as int), kind),
                forall|k: int|
                    0 <= k < kept@.len() ==> exists|m: int|
                        0 <= m < i && orig[m] == #[trigger] kept@[k],
                forall|a: int, b: int|
                    0 <= a < b < kept@.len() ==> (#[trigger] kept@[a].id) != (
                    #[trigger] kept@[b].id),
                forall|k: int| 0 <= k < kept@.len() ==> (#[trigger] kept@[k]).id < self.next_id,
            decreases n - i,
        {
            let e = self.entries[i];
            proof {
                assert(orig.subrange(0, i + 1).subrange(0, i as int) =~= orig.subrange(0, i as int));
                assert(orig.subrange(0, i + 1).last() == orig[i as int]);
            }
            if e.kind == kind {
                dropped.push(e.token);
            } else {
                proof {
                    assert forall|k: int| 0 <= k < kept@.len() implies (#[trigger] kept@[k]).id
                        != e.id by {
                        let m = choose|m: int| 0 <= m < i && orig[m] == kept@[k];
                        assert(orig[m].id != orig[i as int].id);
                    }
                }
                kept.push(e);
            }
            i = i + 1;
        }
        proof {
            assert(orig.subrange(0, n as int) =~= orig);
        }
        self.entries = kept;
        dropped
    }

    /// Delivers one native event of `kind`.  `alive` says whether the weak
    /// back reference to the owning webview still upgrades.
    ///
    /// Every repeatable handler of the kind is invoked, in registration
    /// order, followed by every live one-shot handler of the kind.  One-shot
    /// tokens are consumed whether or not the owner is alive: if it is, they
    /// run; if not, they are released unrun.  A dead owner invokes nothing.
    #[verifier::loop_isolation(false)]
    pub fn deliver(&mut self, kind: EventKind, alive: bool) -> (d: Delivery)
        ensures
            final(self).entries == old(self).entries,
            final(self).next_id == old(self).next_id,
            final(self).message_handler == old(self).message_handler,
            final(self).scheme_handlers == old(self).scheme_handlers,
            final(self).once_entries@.len() == old(self).once_entries@.len(),
            forall|j: int|
                0 <= j < old(self).once_entries@.len() ==> #[trigger] final(self).once_entries@[j]
                    == (if old(self).once_entries@[j].kind == kind {
                    OnceEntry { kind: old(self).once_entries@[j].kind, token: None::<u64> }
                } else {
                    old(self).once_entries@[j]
                }),
            alive ==> d.ran@ == repeat_tokens(old(self).entries@, kind) + once_tokens(
                old(self).once_entries@,
                kind,
            ),
            alive ==> d.released@ == Seq::<u64>::empty(),
            !alive ==> d.ran@ == Seq::<u64>::empty(),
            !alive ==> d.released@ == once_tokens(old(self).once_entries@, kind),
    {
        let ghost orig_entries = self.entries@;
        let ghost orig_once = self.once_entries@;
        let mut ran: Vec<u64> = Vec::new();
        let mut released: Vec<u64> = Vec::new();

        let n = self.entries.len();
        let mut i: usize = 0;
        while i < n
            invariant
                i <= n,
                alive ==> ran@ == repeat_tokens(orig_entries.subrange(0, i as int), kind),
                !alive ==> ran@ == Seq::<u64>::empty(),
                released@ == Seq::<u64>::empty(),
            decreases n - i,
        {
            let e = self.entries[i];
            proof {
                assert(orig_entries.subrange(0, i + 1).subrange(0, i as int) =~= orig_entries
                    .subrange(0, i as int));
                assert(orig_entries.subrange(0, i + 1).last() == orig_entries[i as int]);
            }
            if alive && e.kind == kind {
                ran.push(e.token);
            }
            i = i + 1;
        }
        proof {
            assert(orig_entries.subrange(0, n as int) =~= orig_entries);
        }

        let m = self.once_entries.len();
        let mut j: usize = 0;
        while j < m
            invariant
                j <= m,
                self.entries == old(self).entries,
                self.next_id == old(self).next_id,
                self.message_handler == old(self).message_handler,
                self.scheme_handlers == old(self).scheme_handlers,
                self.once_entries@.len() == orig_once.len(),
                forall|k: int|
                    0 <= k < j ==> #[trigger] self.once_entries@[k] == (if orig_once[k].kind
                        == kind {
                        OnceEntry { kind: orig_once[k].kind, token: None::<u64> }
                    } else {
                        orig_once[k]
                    }),
                forall|k: int| j <= k < orig_once.len() ==> self.once_entries@[k] == orig_once[k],
                alive ==> ran@ == repeat_tokens(orig_entries, kind) + once_tokens(
                    orig_once.subrange(0, j as int),
                    kind,
                ),
                !alive ==> ran@ == Seq::<u64>::empty(),
                alive ==> released@ == Seq::<u64>::empty(),
                !alive ==> released@ == once_tokens(orig_once.subrange(0, j as int), kind),
        decreases m - j,
        {
            let e = self.once_entries[j];
            proof {
                assert(orig_once.subrange(0, j + 1).subrange(0, j as int) =~= orig_once.subrange(
                    0,
                    j as int,
                ));
                assert(orig_once.subrange(0, j + 1).last() == orig_once[j as int]);
            }
            if e.kind == kind {
                match e.token {
                    Some(t) => {
                        if alive {
                            ran.push(t);
                        } else {
                            released.push(t);
                        }
                    },
                    None => {},
                }
                self.once_entries.set(j, OnceEntry { kind: e.kind, token: None });
            }
            j = j + 1;
        }
        proof {
            assert(orig_once.subrange(0, m as int) =~= orig_once);
        }

        Delivery { ran, released }
    }

    /// Sets the single message handler, returning the replaced one so that it
    /// can be dropped rather than leaked.
    pub fn set_message_handler(&mut self, token: u64) -> (replaced: Option<u64>)
        ensures
            final(self).message_handler == Some(token),
            replaced == old(self).message_handler,
            final(self).entries == old(self).entries,
            final(self).once_entries == old(self).once_entries,
            final(self).next_id == old(self).next_id,
            final(self).scheme_handlers == old(self).scheme_handlers,
    {
        let r = self.message_handler;
        self.message_handler = Some(token);
        r
    }

    /// Removes the message handler, if any, returning it.
    pub fn remove_message_handler(&mut self) -> (removed: Option<u64>)
        ensures
            final(self).message_handler is None,
            removed == old(self).message_handler,
            final(self).entries == old(self).entries,
            final(self).once_entries == old(self).once_entries,
            final(self).next_id == old(self).next_id,
            final(self).scheme_handlers == old(self).scheme_handlers,
    {
        let r = self.message_handler;
        self.message_handler = None;
        r
    }

    /// Sets the handler of the scheme called `name`, replacing and returning
    /// the previous one so that it can be dropped rather than leaked.  At
    /// most one handler exists per scheme name.
    #[verifier::loop_isolation(false)]
    pub fn set_scheme_handler(&mut self, name: String, token: u64) -> (replaced: Option<u64>)
        requires
            old(self).wf(),
        ensures
            final(self).wf(),
            final(self).entries == old(self).entries,
            final(self).once_entries == old(self).once_entries,
            final(self).next_id == old(self).next_id,
            final(self).message_handler == old(self).message_handler,
            replaced is Some <==> exists|j: int|
                0 <= j < old(self).scheme_handlers@.len() && (
                #[trigger] old(self).scheme_handlers@[j]).name@ == name@,
            forall|j: int|
                0 <= j < old(self).scheme_handlers@.len() && (
                #[trigger] old(self).scheme_handlers@[j]).name@ == name@ ==> replaced == Some(
                    old(self).scheme_handlers@[j].token,
                ) && final(self).scheme_handlers@ == old(self).scheme_handlers@.update(
                    j,
                    SchemeSlot { name, token },
                ),
            replaced is None ==> final(self).scheme_handlers@ == old(self).scheme_handlers@.push(
                SchemeSlot { name, token },
            ),
    {
        let n = self.scheme_handlers.len();
        let mut i: usize = 0;
        while i < n
            invariant
                i <= n,
                self == old(self),
                forall|j: int|
                    0 <= j < i ==> (#[trigger] self.scheme_handlers@[j]).name@ != name@,
            decreases n - i,
        {
            if self.scheme_handlers[i].name == name {
                let old_token = self.scheme_handlers[i].token;
                self.scheme_handlers.set(i, SchemeSlot { name, token });
                return Some(old_token);
            }
            i = i + 1;
        }
        self.scheme_handlers.push(SchemeSlot { name, token });
        None
    }

    /// Removes the handler of the scheme called `name`, if any, returning it.
    /// Removing an unknown scheme is a no-op.
    #[verifier::loop_isolation(false)]
    pub fn remove_scheme_handler(&mut self, name: &String) -> (removed: Option<u64>)
        requires
            old(self).wf(),
        ensures
            final(self).wf(),
            final(self).entries == old(self).entries,
            final(self).once_entries == old(self).once_entries,
            final(self).next_id == old(self).next_id,
            final(self).message_handler == old(self).message_handler,
            removed is Some <==> exists|j: int|
                0 <= j < old(self).scheme_handlers@.len() && (
                #[trigger] old(self).scheme_handlers@[j]).name@ == name@,
            forall|j: int|
                0 <= j < old(self).scheme_handlers@.len() && (
                #[trigger] old(self).scheme_handlers@[j]).name@ == name@ ==> removed == Some(
                    old(self).scheme_handlers@[j].token,
                ) && final(self).scheme_handlers@ == old(self).scheme_handlers@.remove(j),
            removed is None ==> final(self).scheme_handlers == old(self).scheme_handlers,
    {
        let n = self.scheme_handlers.len();
        let mut i: usize = 0;
        while i < n
            invariant
                i <= n,
                self == old(self),
                forall|j: int|
                    0 <= j < i ==> (#[trigger] self.scheme_handlers@[j]).name@ != name@,
            decreases n - i,
        {
            if self.scheme_handlers[i].name == *name {
                let old_token = self.scheme_handlers[i].token;
                self.scheme_handlers.remove(i);
                return Some(old_token);
            }
            i = i + 1;
        }
        None
    }

    /// Releases every stored callback token: the repeatable handlers, the
    /// live one-shots, the message handler and the scheme handlers, in that
    /// order.  Runs when the owning webview's cleanup job executes, so that
    /// no callback outlives its webview.
    #[verifier::loop_isolation(false)]
    pub fn release_all(&mut self) -> (released: Vec<u64>)
        ensures
            final(self).entries@ == Seq::<HandlerEntry>::empty(),
            final(self).once_entries@ == Seq::<OnceEntry>::empty(),
            final(self).message_handler is None,
            final(self).scheme_handlers@ == Seq::<SchemeSlot>::empty(),
            final(self).next_id == old(self).next_id,
            final(self).wf(),
            released@ == all_entry_tokens(old(self).entries@) + all_once_tokens(
                old(self).once_entries@,
            ) + (match old(self).message_handler {
                Some(t) => seq![t],
                None => Seq::<u64>::empty(),
            }) + all_scheme_tokens(old(self).scheme_handlers@),
    {
        let ghost orig_entries = self.entries@;
        let ghost orig_once = self.once_entries@;
        let ghost orig_schemes = self.scheme_handlers@;
        let mut released: Vec<u64> = Vec::new();

        let n = self.entries.len();
        let mut i: usize = 0;
        while i < n
            invariant
                i <= n,
                released@ == all_entry_tokens(orig_entries.subrange(0, i as int)),
            decreases n - i,
        {
            proof {
                assert(orig_entries.subrange(0, i + 1).subrange(0, i as int) =~= orig_entries
                    .subrange(0, i as int));
                assert(orig_entries.subrange(0, i + 1).last() == orig_entries[i as int]);
            }
            released.push(self.entries[i].token);
            i = i + 1;
        }
        proof {
            assert(orig_entries.subrange(0, n as int) =~= orig_entries);
        }

        let m = self.once_entries.len();
        let mut j: usize = 0;
        while j < m
            invariant
                j <= m,
                released@ == all_entry_tokens(orig_entries) + all_once_tokens(
                    orig_once.subrange(0, j as int),
                ),
            decreases m - j,
        {
            proof {
                assert(orig_once.subrange(0, j + 1).subrange(0, j as int) =~= orig_once.subrange(
                    0,
                    j as int,
                ));
                assert(orig_once.subrange(0, j + 1).last() == orig_once[j as int]);
            }
            match self.once_entries[j].token {
                Some(t) => released.push(t),
                None => {},
            }
            j = j + 1;
        }
        proof {
            assert(orig_once.subrange(0, m as int) =~= orig_once);
        }

        match self.message_handler {
            Some(t) => released.push(t),
            None => {},
        }

        let p = self.scheme_handlers.len();
        let ghost base = released@;
        let mut k: usize = 0;
        while k < p
            invariant
                k <= p,
                released@ == base + all_scheme_tokens(orig_schemes.subrange(0, k as int)),
            decreases p - k,
        {
            proof {
                assert(orig_schemes.subrange(0, k + 1).subrange(0, k as int) =~= orig_schemes
                    .subrange(0, k as int));
                assert(orig_schemes.subrange(0, k + 1).last() == orig_schemes[k as int]);
            }
            released.push(self.scheme_handlers[k].token);
            k = k + 1;
        }
        proof {
            assert(orig_schemes.subrange(0, p as int) =~= orig_schemes);
        }

        self.entries = Vec::new();
        self.once_entries = Vec::new();
        self.message_handler = None;
        self.scheme_handlers = Vec::new();
        released
    }
}

/// The ids handed out by `n` successive registrations, starting from a
/// registry whose counter stands at `c`.
pub open spec fn minted_ids(c: u64, n: nat) -> Seq<u64> {
    Seq::new(n, |k: int| (c + k) as u64)
}

/// Registering handlers for one event kind `n` times yields `n` pairwise
/// distinct ids: each registration returns the counter's current value and
/// advances it, so the `k`-th registration returns `c + k`.
pub proof fn lemma_on_ids_distinct(c: u64, n: nat)
    requires
        c + n <= u64::MAX,
    ensures
        forall|k: int| 0 <= k < n ==> minted_ids(c, n)[k] == c + k,
        forall|i: int, j: int|
            0 <= i < j < n ==> #[trigger] minted_ids(c, n)[i] != #[trigger] minted_ids(c, n)[j],
{
}

/// One-shot handlers fire at most once: delivering an event consumes the
/// token of every one-shot entry of that kind, so no live one-shot token of
/// the kind survives and a second delivery of the same kind invokes none.
pub proof fn lemma_once_fires_at_most_once(
    before: Seq<OnceEntry>,
    after: Seq<OnceEntry>,
    kind: EventKind,
)
    requires
        after.len() == before.len(),
        forall|j: int|
            0 <= j < before.len() ==> #[trigger] after[j] == (if before[j].kind == kind {
                OnceEntry { kind: before[j].kind, token: None::<u64> }
            } else {
                before[j]
            }),
    ensures
        once_tokens(after, kind) == Seq::<u64>::empty(),
    decreases before.len(),
{
    if before.len() > 0 {
        let b1 = before.subrange(0, before.len() - 1);
        let a1 = after.subrange(0, after.len() - 1);
        assert forall|j: int| 0 <= j < b1.len() implies #[trigger] a1[j] == (if b1[j].kind == kind {
            OnceEntry { kind: b1[j].kind, token: None::<u64> }
        } else {
            b1[j]
        }) by {
            assert(a1[j] == after[j]);
            assert(b1[j] == before[j]);
        }
        lemma_once_fires_at_most_once(b1, a1, kind);
        assert(after[before.len() - 1] == (if before[before.len() - 1].kind == kind {
            OnceEntry { kind: before[before.len() - 1].kind, token: None::<u64> }
        } else {
            before[before.len() - 1]
        }));
    }
}

} // verus!
