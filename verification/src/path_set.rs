//! The selected paths of a checkout: a set of pattern texts that remembers the
//! order in which they came.

use vstd::prelude::*;
use crate::text::views;

verus! {

/// The list with `path` at its end, unless it holds `path` already.
pub open spec fn with_path(paths: Seq<Seq<char>>, path: Seq<char>) -> Seq<Seq<char>> {
    if paths.contains(path) {
        paths
    } else {
        paths.push(path)
    }
}

/// The list after each of `more` was added in turn: what was there stays where it
/// was, and each new text follows at its first occurrence.
pub open spec fn with_paths(paths: Seq<Seq<char>>, more: Seq<Seq<char>>) -> Seq<Seq<char>>
    decreases more.len(),
{
    if more.len() == 0 {
        paths
    } else {
        with_path(with_paths(paths, more.drop_last()), more.last())
    }
}

/// Whether `more` holds a text that `paths` lacks.
pub open spec fn adds_any(paths: Seq<Seq<char>>, more: Seq<Seq<char>>) -> bool {
    exists|i: int| 0 <= i < more.len() && !paths.contains(#[trigger] more[i])
}

/// Adding keeps a list free of duplicates, keeps what it had as a prefix, and
/// makes it hold exactly the texts of both lists.
pub proof fn lemma_with_paths(paths: Seq<Seq<char>>, more: Seq<Seq<char>>)
    ensures
        paths.no_duplicates() ==> with_paths(paths, more).no_duplicates(),
        paths.is_prefix_of(with_paths(paths, more)),
        forall|p: Seq<char>|
            with_paths(paths, more).contains(p) <==> paths.contains(p) || more.contains(p),
    decreases more.len(),
{
    if more.len() > 0 {
        let front = more.drop_last();
        let last = more.last();
        lemma_with_paths(paths, front);
        let before = with_paths(paths, front);
        let after = with_paths(paths, more);
        assert forall|p: Seq<char>| after.contains(p) <==> paths.contains(p) || more.contains(
            p,
        ) by {
            if more.contains(p) && p != last {
                let i = choose|i: int| 0 <= i < more.len() && more[i] == p;
                assert(front[i] == p);
            }
            if front.contains(p) {
                let i = choose|i: int| 0 <= i < front.len() && front[i] == p;
                assert(more[i] == p);
            }
            if !before.contains(last) {
                assert(after[after.len() - 1] == last);
                if before.contains(p) {
                    let i = choose|i: int| 0 <= i < before.len() && before[i] == p;
                    assert(after[i] == p);
                }
            }
        }
    }
}

/// The set of texts after adding is the union of the two sets.
pub proof fn lemma_with_paths_is_union(paths: Seq<Seq<char>>, more: Seq<Seq<char>>)
    ensures
        with_paths(paths, more).to_set() == paths.to_set().union(more.to_set()),
{
    lemma_with_paths(paths, more);
}

/// Adding changes a list exactly when it brings a text that the list lacks.
pub proof fn lemma_with_paths_changes(paths: Seq<Seq<char>>, more: Seq<Seq<char>>)
    ensures
        adds_any(paths, more) <==> with_paths(paths, more) != paths,
        !adds_any(paths, more) ==> with_paths(paths, more) == paths,
        adds_any(paths, more) ==> with_paths(paths, more).len() > paths.len(),
        with_paths(paths, more).len() >= paths.len(),
    decreases more.len(),
{
    if more.len() > 0 {
        let front = more.drop_last();
        lemma_with_paths_changes(paths, front);
        if !adds_any(paths, front) && paths.contains(more.last()) {
            assert forall|i: int| 0 <= i < more.len() implies paths.contains(
                #[trigger] more[i],
            ) by {
                if i < front.len() {
                    assert(front[i] == more[i]);
                }
            }
        }
    }
}

/// A set of path patterns. Nothing occurs twice; what came first stays first.
#[derive(Debug, PartialEq, Eq)]
pub struct PathSet {
    items: Vec<String>,
}

impl View for PathSet {
    type V = Seq<Seq<char>>;

    /// The texts, in the order of their first insertion.
    closed spec fn view(&self) -> Seq<Seq<char>> {
        views(self.items@)
    }
}

impl Clone for PathSet {
    fn clone(&self) -> (copy: Self)
        ensures
            copy@ == self@,
    {
        proof {
            use_type_invariant(self);
        }
        let mut items: Vec<String> = Vec::new();
        let mut i: usize = 0;
        while i < self.items.len()
            invariant
                i <= self.items@.len(),
                items@ == self.items@.take(i as int),
            decreases self.items@.len() - i,
        {
            items.push(self.items[i].clone());
            i += 1;
        }
        assert(items@ =~= self.items@);
        PathSet { items }
    }
}

impl PathSet {
    #[verifier::type_invariant]
    spec fn nothing_twice(self) -> bool {
        views(self.items@).no_duplicates()
    }

    /// The texts as a set.
    pub open spec fn as_set(&self) -> Set<Seq<char>> {
        self@.to_set()
    }

    /// An empty set.
    pub fn new() -> (set: Self)
        ensures
            set@ == Seq::<Seq<char>>::empty(),
    {
        PathSet { items: Vec::new() }
    }

    /// How many paths the set holds: the length of the list, and the size of
    /// the set, since nothing occurs twice.
    pub fn len(&self) -> (n: usize)
        ensures
            n == self@.len(),
            n == self.as_set().len(),
            self@.no_duplicates(),
    {
        proof {
            use_type_invariant(self);
            self@.unique_seq_to_set();
        }
        self.items.len()
    }

    /// Whether the set holds nothing.
    pub fn is_empty(&self) -> (empty: bool)
        ensures
            empty == (self@.len() == 0),
    {
        self.items.len() == 0
    }

    /// Whether the set holds the path.
    pub fn contains(&self, path: &str) -> (found: bool)
        ensures
            found == self@.contains(path@),
    {
        let wanted = path.to_owned();
        let mut i: usize = 0;
        while i < self.items.len()
            invariant
                i <= self.items@.len(),
                wanted@ == path@,
                forall|j: int| 0 <= j < i ==> self@[j] != path@,
            decreases self.items@.len() - i,
        {
            if self.items[i] == wanted {
                assert(self@[i as int] == path@);
                return true;
            }
            i += 1;
        }
        false
    }

    /// Adds the path unless the set holds it. Says whether it was added.
    pub fn insert(&mut self, path: String) -> (added: bool)
        ensures
            final(self)@ == with_path(old(self)@, path@),
            added == !old(self)@.contains(path@),
    {
        proof {
            use_type_invariant(&*self);
        }
        if self.contains(path.as_str()) {
            false
        } else {
            proof {
                let grown = views(self.items@.push(path));
                assert forall|i: int, j: int|
                    0 <= i < grown.len() && 0 <= j < grown.len() && i != j implies grown[i]
                    != grown[j] by {
                    if i < self@.len() && j < self@.len() {
                        assert(self@[i] != self@[j]);
                    } else if i < self@.len() {
                        assert(self@.contains(self@[i]));
                    } else {
                        assert(self@.contains(self@[j]));
                    }
                }
            }
            let mut items: Vec<String> = Vec::new();
            std::mem::swap(&mut self.items, &mut items);
            items.push(path);
            self.items = items;
            true
        }
    }

    /// The path at a place in the order of insertion.
    pub fn get(&self, index: usize) -> (path: &String)
        requires
            index < self@.len(),
        ensures
            path@ == self@[index as int],
    {
        &self.items[index]
    }

    /// The paths, in the order of insertion. None occurs twice.
    pub fn as_slice(&self) -> (paths: &[String])
        ensures
            views(paths@) == self@,
            self@.no_duplicates(),
    {
        proof {
            use_type_invariant(self);
        }
        self.items.as_slice()
    }

    /// The paths as a list of their own, in the order of insertion. None
    /// occurs twice.
    pub fn to_vec(&self) -> (paths: Vec<String>)
        ensures
            views(paths@) == self@,
            self@.no_duplicates(),
    {
        proof {
            use_type_invariant(self);
        }
        let copy = self.clone();
        copy.items
    }
}

} // verus!
