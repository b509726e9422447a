//! The single mirror of the server's game state.

use crate::types::GameData;
use crate::types::GameView;
use crate::types::SessionId;
use vstd::prelude::*;

verus! {

/// Holder of the latest snapshot, or of none before the first one arrived.
///
/// The only way to write is [`StateStore::replace`], which swaps the whole
/// snapshot: fields that belong together can never drift apart. Every
/// snapshot in the store is valid.
pub struct StateStore {
    game_data: Option<GameData>,
    revision: u64,
    writes: Ghost<nat>,
}

/// What a [`StateStore`] holds.
pub struct StoreView {
    /// The latest snapshot, if one was ever written.
    pub snapshot: Option<GameView>,
    /// How many times the store was written.
    pub revision: nat,
}

/// The number that a reader sees of a store that was written `revision`
/// times: the count itself as far as a `u64` can hold it, and its largest
/// value from then on.
pub open spec fn stamp(revision: nat) -> u64 {
    if revision < u64::MAX {
        revision as u64
    } else {
        u64::MAX
    }
}

/// The view of a snapshot that may be absent.
pub open spec fn snapshot_view(data: Option<GameData>) -> Option<GameView> {
    match data {
        Some(d) => Some(d@),
        None => None,
    }
}

impl StoreView {
    /// The store before the first snapshot.
    pub open spec fn empty() -> StoreView {
        StoreView { snapshot: None, revision: 0 }
    }

    /// Every snapshot in the store is valid, and the store holds one exactly
    /// when it was written.
    pub open spec fn wf(self) -> bool {
        &&& self.snapshot matches Some(g) ==> g.valid()
        &&& self.snapshot is Some <==> self.revision > 0
    }

    /// The store after one write of `data`.
    pub open spec fn replaced(self, data: GameView) -> StoreView {
        StoreView { snapshot: Some(data), revision: self.revision + 1 }
    }

    /// What a reader is told when it asks and the number it saw last was
    /// `seen`: the snapshot if the store shows another number by now, else
    /// nothing.
    pub open spec fn news_for(self, seen: u64) -> Option<GameView> {
        if seen != stamp(self.revision) {
            self.snapshot
        } else {
            None
        }
    }

    /// The session that the store mirrors.
    pub open spec fn session(self) -> Option<SessionId> {
        match self.snapshot {
            Some(g) => Some(g.session_id),
            None => None,
        }
    }
}

impl View for StateStore {
    type V = StoreView;

    closed spec fn view(&self) -> StoreView {
        StoreView { snapshot: snapshot_view(self.game_data), revision: self.writes@ }
    }
}

impl StateStore {
    #[verifier::type_invariant]
    spec fn inv(self) -> bool {
        &&& self@.wf()
        &&& self.revision == stamp(self.writes@)
    }

    /// A store that holds no snapshot yet.
    pub fn new() -> (store: StateStore)
        ensures
            store@ == StoreView::empty(),
    {
        StateStore { game_data: None, revision: 0, writes: Ghost(0) }
    }

    /// The latest snapshot, if any. It is valid.
    pub fn game_data(&self) -> (data: &Option<GameData>)
        ensures
            snapshot_view(*data) == self@.snapshot,
            self@.wf(),
    {
        proof {
            use_type_invariant(self);
        }
        &self.game_data
    }

    /// How many times the store was written, as far as a `u64` counts.
    pub fn revision(&self) -> (n: u64)
        ensures
            n == stamp(self@.revision),
    {
        proof {
            use_type_invariant(self);
        }
        self.revision
    }

    /// Swaps the whole snapshot for `data`: the one way to write. Every
    /// call is one write, however many went before.
    pub fn replace(&mut self, data: GameData)
        requires
            data@.valid(),
        ensures
            final(self)@ == old(self)@.replaced(data@),
    {
        proof {
            use_type_invariant(&*self);
        }
        let revision = if self.revision < u64::MAX {
            self.revision + 1
        } else {
            u64::MAX
        };
        let writes = Ghost(self.writes@ + 1);
        *self = StateStore { game_data: Some(data), revision, writes };
    }
}

impl Clone for StateStore {
    fn clone(&self) -> (store: Self)
        ensures
            store@ == self@,
    {
        proof {
            use_type_invariant(self);
        }
        let game_data = match &self.game_data {
            Some(data) => Some(data.clone()),
            None => None,
        };
        StateStore { game_data, revision: self.revision, writes: Ghost(self.writes@) }
    }
}

impl Default for StateStore {
    fn default() -> (store: StateStore)
        ensures
            store@ == StoreView::empty(),
    {
        StateStore::new()
    }
}

/// A reader of the store that wants to hear of every write once. It
/// remembers the number that the store showed when it last asked.
#[derive(Debug, Clone, Copy, PartialEq)]
pub struct Subscriber {
    seen: u64,
}

impl View for Subscriber {
    type V = u64;

    /// The number that the store showed when the reader last asked.
    closed spec fn view(&self) -> u64 {
        self.seen
    }
}

impl Subscriber {
    /// A reader that has seen nothing yet.
    pub fn new() -> (subscriber: Subscriber)
        ensures
            subscriber@ == 0,
    {
        Subscriber { seen: 0 }
    }

    /// Hands out the snapshot if the store was written since this reader
    /// last asked, and nothing if it was not, or if the store is empty.
    /// Either way the reader has now seen every write.
    pub fn poll<'a>(&mut self, store: &'a StateStore) -> (news: Option<&'a GameData>)
        ensures
            final(self)@ == stamp(store@.revision),
            match news {
                Some(data) => store@.news_for(old(self)@) == Some(data@),
                None => store@.news_for(old(self)@) is None,
            },
    {
        let revision = store.revision();
        if self.seen == revision {
            return None;
        }
        self.seen = revision;
        match store.game_data() {
            Some(data) => Some(data),
            None => None,
        }
    }
}

impl Default for Subscriber {
    fn default() -> (subscriber: Subscriber)
        ensures
            subscriber@ == 0,
    {
        Subscriber::new()
    }
}

/// Writes `game_data` into `store` as its new snapshot.
pub fn update_game_data(store: &mut StateStore, game_data: GameData)
    requires
        game_data@.valid(),
    ensures
        final(store)@ == old(store)@.replaced(game_data@),
{
    store.replace(game_data);
}

} // verus!
