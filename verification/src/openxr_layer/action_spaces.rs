//! The action spaces that applications have created, by the action and
//! subaction path they were created for.
//!
//! Applications create action spaces before the layer can know which action
//! is the gaze action, so every creation is remembered until the gaze
//! binding is suggested.

use vstd::prelude::*;

verus! {

/// One remembered creation of an action space.
#[derive(Debug, Clone, Copy, PartialEq, Eq, Structural)]
pub struct ActionSpace {
    pub action: u64,
    pub subaction_path: u64,
    pub space: u64,
}

/// The map that a list of creations stands for: a later creation for the
/// same action and subaction path replaces an earlier one.
pub open spec fn map_of(entries: Seq<ActionSpace>) -> Map<(u64, u64), u64>
    decreases entries.len(),
{
    if entries.len() == 0 {
        Map::empty()
    } else {
        let last = entries.last();
        map_of(entries.drop_last()).insert((last.action, last.subaction_path), last.space)
    }
}

/// Whether `path` is the one subaction path for which `spaces` holds a space
/// of `action`.
pub open spec fn is_sole_subaction_path(spaces: Map<(u64, u64), u64>, action: u64, path: u64) -> bool {
    &&& spaces.contains_key((action, path))
    &&& forall|other: u64| spaces.contains_key((action, other)) ==> other == path
}

/// Whether the creation at `i` of `entries` was made for `key`.
spec fn made_for(entries: Seq<ActionSpace>, i: int, key: (u64, u64)) -> bool {
    0 <= i < entries.len() && entries[i].action == key.0 && entries[i].subaction_path == key.1
}

proof fn lemma_map_of_keys(entries: Seq<ActionSpace>)
    ensures
        forall|key: (u64, u64)| #[trigger]
            map_of(entries).contains_key(key) <==> exists|i: int| made_for(entries, i, key),
    decreases entries.len(),
{
    if entries.len() > 0 {
        let front = entries.drop_last();
        let last = entries.last();
        lemma_map_of_keys(front);
        assert(map_of(entries) == map_of(front).insert(
            (last.action, last.subaction_path),
            last.space,
        ));
        assert forall|key: (u64, u64)| #[trigger]
            map_of(entries).contains_key(key) <==> exists|i: int| made_for(entries, i, key) by {
            if map_of(entries).contains_key(key) {
                if key == (last.action, last.subaction_path) {
                    assert(made_for(entries, entries.len() - 1, key));
                } else {
                    assert(map_of(front).contains_key(key));
                    let i = choose|i: int| made_for(front, i, key);
                    assert(made_for(front, i, key));
                    assert(front[i] == entries[i]);
                    assert(made_for(entries, i, key));
                }
                assert(exists|i: int| made_for(entries, i, key));
            }
            if exists|i: int| made_for(entries, i, key) {
                let i = choose|i: int| made_for(entries, i, key);
                if i < entries.len() - 1 {
                    assert(front[i] == entries[i]);
                    assert(made_for(front, i, key));
                    assert(map_of(front).contains_key(key));
                } else {
                    assert(key == (last.action, last.subaction_path));
                }
                assert(map_of(entries).contains_key(key));
            }
        }
    } else {
        assert forall|key: (u64, u64)| #[trigger]
            map_of(entries).contains_key(key) <==> exists|i: int| made_for(entries, i, key) by {
        }
    }
}

proof fn lemma_map_of_value(entries: Seq<ActionSpace>, i: int)
    requires
        0 <= i < entries.len(),
        forall|j: int|
            i < j < entries.len() ==> !((#[trigger] entries[j]).action == entries[i].action
                && entries[j].subaction_path == entries[i].subaction_path),
    ensures
        map_of(entries).contains_key((entries[i].action, entries[i].subaction_path)),
        map_of(entries)[(entries[i].action, entries[i].subaction_path)] == entries[i].space,
    decreases entries.len(),
{
    if i < entries.len() - 1 {
        let front = entries.drop_last();
        assert(front[i] == entries[i]);
        assert forall|j: int| i < j < front.len() implies !((#[trigger] front[j]).action
            == front[i].action && front[j].subaction_path == front[i].subaction_path) by {
            assert(front[j] == entries[j]);
        }
        lemma_map_of_value(front, i);
        let last = entries[entries.len() - 1];
        assert(!(last.action == entries[i].action && last.subaction_path
            == entries[i].subaction_path));
    }
}

/// The remembered action spaces.
pub struct ActionSpaces {
    entries: Vec<ActionSpace>,
}

impl View for ActionSpaces {
    type V = Map<(u64, u64), u64>;

    closed spec fn view(&self) -> Map<(u64, u64), u64> {
        map_of(self.entries@)
    }
}

impl ActionSpaces {
    /// No action space is remembered.
    pub fn new() -> (spaces: ActionSpaces)
        ensures
            spaces@ == Map::<(u64, u64), u64>::empty(),
    {
        ActionSpaces { entries: Vec::new() }
    }

    /// Remembers that `space` was created for `action` and `subaction_path`,
    /// in place of what was remembered for the two before.
    pub fn insert(&mut self, action: u64, subaction_path: u64, space: u64)
        ensures
            final(self)@ == old(self)@.insert((action, subaction_path), space),
    {
        self.entries.push(ActionSpace { action, subaction_path, space });
        assert(self.entries@.drop_last() =~= old(self).entries@);
    }

    /// The space remembered for `action` and `subaction_path`.
    pub fn get(&self, action: u64, subaction_path: u64) -> (space: Option<u64>)
        ensures
            space == if self@.contains_key((action, subaction_path)) {
                Some(self@[(action, subaction_path)])
            } else {
                None
            },
    {
        proof {
            lemma_map_of_keys(self.entries@);
        }
        let mut i: usize = self.entries.len();
        while i > 0
            invariant
                i <= self.entries@.len(),
                forall|j: int|
                    i <= j < self.entries@.len() ==> !((#[trigger] self.entries@[j]).action
                        == action && self.entries@[j].subaction_path == subaction_path),
            decreases i,
        {
            i -= 1;
            let entry = &self.entries[i];
            if entry.action == action && entry.subaction_path == subaction_path {
                proof {
                    lemma_map_of_value(self.entries@, i as int);
                }
                return Some(entry.space);
            }
        }
        None
    }

    /// The one subaction path for which a space of `action` is remembered;
    /// `None` where there is no such space, or there are several paths.
    pub fn sole_subaction_path(&self, action: u64) -> (path: Option<u64>)
        ensures
            match path {
                Some(path) => is_sole_subaction_path(self@, action, path),
                None => forall|path: u64| !is_sole_subaction_path(self@, action, path),
            },
    {
        proof {
            lemma_map_of_keys(self.entries@);
        }
        let mut found: Option<u64> = None;
        let ghost mut first: int = 0;
        let mut i: usize = 0;
        while i < self.entries.len()
            invariant
                i <= self.entries@.len(),
                match found {
                    Some(path) => {
                        &&& 0 <= first < i
                        &&& made_for(self.entries@, first, (action, path))
                        &&& forall|j: int|
                            0 <= j < i && (#[trigger] self.entries@[j]).action == action
                                ==> self.entries@[j].subaction_path == path
                    },
                    None => forall|j: int|
                        0 <= j < i ==> (#[trigger] self.entries@[j]).action != action,
                },
                forall|key: (u64, u64)| #[trigger]
                    map_of(self.entries@).contains_key(key) <==> exists|i: int|
                        made_for(self.entries@, i, key),
            decreases self.entries@.len() - i,
        {
            let entry = &self.entries[i];
            if entry.action == action {
                match found {
                    Some(path) => {
                        if entry.subaction_path != path {
                            proof {
                                assert(made_for(self.entries@, i as int, (action, entry.subaction_path)));
                                assert(self@.contains_key((action, path)));
                                assert(self@.contains_key((action, entry.subaction_path)));
                            }
                            return None;
                        }
                    },
                    None => {
                        found = Some(entry.subaction_path);
                        proof {
                            first = i as int;
                        }
                    },
                }
            }
            i += 1;
        }
        proof {
            match found {
                Some(path) => {
                    assert(self@.contains_key((action, path)));
                    assert forall|other: u64| self@.contains_key((action, other)) implies other
                        == path by {
                        let j = choose|j: int| made_for(self.entries@, j, (action, other));
                        assert(self.entries@[j].action == action);
                    }
                },
                None => {
                    assert forall|path: u64| !is_sole_subaction_path(self@, action, path) by {
                        if self@.contains_key((action, path)) {
                            let j = choose|j: int| made_for(self.entries@, j, (action, path));
                            assert(self.entries@[j].action == action);
                        }
                    }
                },
            }
        }
        found
    }

    /// Whether a space of `action` is remembered, for whatever subaction
    /// path.
    pub fn has_action(&self, action: u64) -> (found: bool)
        ensures
            found == exists|path: u64| self@.contains_key((action, path)),
    {
        proof {
            lemma_map_of_keys(self.entries@);
        }
        let mut i: usize = 0;
        while i < self.entries.len()
            invariant
                i <= self.entries@.len(),
                forall|j: int| 0 <= j < i ==> (#[trigger] self.entries@[j]).action != action,
                forall|key: (u64, u64)| #[trigger]
                    map_of(self.entries@).contains_key(key) <==> exists|i: int|
                        made_for(self.entries@, i, key),
            decreases self.entries@.len() - i,
        {
            if self.entries[i].action == action {
                proof {
                    let path = self.entries@[i as int].subaction_path;
                    assert(made_for(self.entries@, i as int, (action, path)));
                    assert(self@.contains_key((action, path)));
                }
                return true;
            }
            i += 1;
        }
        proof {
            assert forall|path: u64| !self@.contains_key((action, path)) by {
                if self@.contains_key((action, path)) {
                    let j = choose|j: int| made_for(self.entries@, j, (action, path));
                    assert(self.entries@[j].action == action);
                }
            }
        }
        false
    }

    /// Forgets every action space.
    pub fn clear(&mut self)
        ensures
            final(self)@ == Map::<(u64, u64), u64>::empty(),
    {
        self.entries = Vec::new();
    }
}

} // verus!
