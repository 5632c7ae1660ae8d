//! The callback registry.
//!
//! The bridge delivers events from its own background threads as a plain
//! (window identity, element name) pair, so the host side keeps a table that
//! resolves such a pair to the handler the host registered.  Element names
//! are interned into dense slots, first registration wins the slot, and the
//! handler table is a fixed-capacity two-dimensional array of cells indexed
//! by (window slot, element slot).  A cell holds at most one handler;
//! registering the same pair again overwrites.  Exceeding a capacity is
//! reported at registration time as an explicit error instead of indexing
//! out of bounds.
//!
//! The abstract model of a registry is a finite map from
//! `(window identity, element name)` to the handler bound there.

use vstd::prelude::*;

verus! {

/// Number of window slots a registry holds.
pub const WINDOWS: usize = 64;

/// Number of element slots a registry holds per window.
pub const ELEMENTS: usize = 64;

/// Why a registration was refused.
#[derive(Clone, Copy, PartialEq, Eq, Structural, Debug)]
pub enum RegistryError {
    /// The window identity does not fit the window-slot table.
    WindowCapacity,
    /// Every element slot is already taken by a distinct element name.
    ElementCapacity,
}

/// Whether `name` occurs in the interned name sequence.
pub open spec fn contains_name(names: Seq<Seq<char>>, name: Seq<char>) -> bool {
    exists|i: int| 0 <= i < names.len() && names[i] == name
}

/// The slot of `name` in the interned name sequence (meaningful only when
/// `contains_name` holds and the names are distinct).
pub open spec fn index_of_name(names: Seq<Seq<char>>, name: Seq<char>) -> int {
    choose|i: int| 0 <= i < names.len() && names[i] == name
}

/// Whether no name occurs twice in the interned name sequence.
pub open spec fn distinct_names(names: Seq<Seq<char>>) -> bool {
    forall|i: int, j: int| 0 <= i < j < names.len() ==> names[i] != names[j]
}

/// With distinct names, the slot of an interned name is exactly the position
/// where it occurs.
proof fn lemma_index_of_name_unique(names: Seq<Seq<char>>, name: Seq<char>, i: int)
    requires
        distinct_names(names),
        0 <= i < names.len(),
        names[i] == name,
    ensures
        contains_name(names, name),
        index_of_name(names, name) == i,
{
    assert(contains_name(names, name));
    let j = index_of_name(names, name);
    if j != i {
        if i < j {
            assert(names[i] != names[j]);
        } else {
            assert(names[j] != names[i]);
        }
    }
}

/// The host-side handler table: element-name interning plus a fixed-capacity
/// grid of handler cells.
pub struct BindStore<T> {
    func_store: Vec<Vec<Option<T>>>,
    elements: Vec<String>,
}

impl<T: Copy> View for BindStore<T> {
    type V = Map<(int, Seq<char>), T>;

    /// The abstract contents: which (window identity, element name) pairs
    /// have a handler, and which one.
    closed spec fn view(&self) -> Map<(int, Seq<char>), T> {
        Map::new(
            |k: (int, Seq<char>)| self.cell(k.0, k.1) is Some,
            |k: (int, Seq<char>)| self.cell(k.0, k.1)->0,
        )
    }
}

impl<T: Copy> BindStore<T> {
    /// The interned element names, in slot order.
    pub closed spec fn spec_names(self) -> Seq<Seq<char>> {
        self.elements@.map(|i: int, e: String| e@)
    }

    /// The handler cell a pair resolves to.
    closed spec fn cell(self, w: int, name: Seq<char>) -> Option<T> {
        if 0 <= w < WINDOWS as int && contains_name(self.spec_names(), name)
            && 0 <= index_of_name(self.spec_names(), name) < ELEMENTS as int {
            self.func_store@[w]@[index_of_name(self.spec_names(), name)]
        } else {
            None
        }
    }

    /// Structural well-formedness: full grid, distinct interned names, and
    /// no handler in a slot that no name owns yet.
    pub closed spec fn wf(self) -> bool {
        &&& self.func_store@.len() == WINDOWS as int
        &&& (forall|w: int|
            0 <= w < WINDOWS as int ==> (#[trigger] self.func_store@[w])@.len()
                == ELEMENTS as int)
        &&& self.elements@.len() <= ELEMENTS as int
        &&& distinct_names(self.spec_names())
        &&& (forall|w: int, e: int|
            0 <= w < WINDOWS as int && self.elements@.len() <= e < ELEMENTS as int
                ==> (#[trigger] self.func_store@[w]@[e]) is None)
    }

    /// An empty registry: nothing interned, nothing bound.
    pub fn new() -> (s: BindStore<T>)
        ensures
            s.wf(),
            s@ == Map::<(int, Seq<char>), T>::empty(),
            s.spec_names() == Seq::<Seq<char>>::empty(),
    {
        let mut func_store: Vec<Vec<Option<T>>> = Vec::new();
        let mut w: usize = 0;
        while w < WINDOWS
            invariant
                w <= WINDOWS,
                func_store@.len() == w as int,
                forall|k: int|
                    0 <= k < w as int ==> (#[trigger] func_store@[k])@.len() == ELEMENTS as int,
                forall|k: int, e: int|
                    0 <= k < w as int && 0 <= e < ELEMENTS as int
                        ==> (#[trigger] func_store@[k]@[e]) is None,
            decreases WINDOWS - w,
        {
            let mut row: Vec<Option<T>> = Vec::new();
            let mut e: usize = 0;
            while e < ELEMENTS
                invariant
                    e <= ELEMENTS,
                    row@.len() == e as int,
                    forall|k: int| 0 <= k < e as int ==> (#[trigger] row@[k]) is None,
                decreases ELEMENTS - e,
            {
                row.push(None);
                e = e + 1;
            }
            func_store.push(row);
            w = w + 1;
        }
        let s = BindStore { func_store, elements: Vec::new() };
        proof {
            assert(s.spec_names() =~= Seq::<Seq<char>>::empty());
            assert(s@ =~= Map::<(int, Seq<char>), T>::empty());
        }
        s
    }

    /// Interns an element name: an already-known name keeps its slot
    /// (first registration wins the numbering), a new name takes the next
    /// free slot, and a new name finding every slot taken is refused.
    /// Never changes which handlers are bound.
    pub fn save_string(&mut self, s: &str) -> (r: Option<usize>)
        requires
            old(self).wf(),
        ensures
            final(self).wf(),
            final(self)@ == old(self)@,
            contains_name(old(self).spec_names(), s@) ==> {
                &&& final(self).spec_names() == old(self).spec_names()
                &&& r matches Some(i) && i as int == index_of_name(old(self).spec_names(), s@)
            },
            !contains_name(old(self).spec_names(), s@) && old(self).spec_names().len()
                < ELEMENTS as int ==> {
                &&& final(self).spec_names() == old(self).spec_names().push(s@)
                &&& r matches Some(i) && i as int == old(self).spec_names().len()
            },
            !contains_name(old(self).spec_names(), s@) && old(self).spec_names().len()
                == ELEMENTS as int ==> {
                &&& *final(self) == *old(self)
                &&& r is None
            },
    {
        let target: String = s.to_owned();
        let n = self.elements.len();
        let mut i: usize = 0;
        while i < n
            invariant
                *self == *old(self),
                self.wf(),
                target@ == s@,
                n == self.elements@.len(),
                i <= n,
                forall|k: int| 0 <= k < i as int ==> self.spec_names()[k] != s@,
            decreases n - i,
        {
            if self.elements[i] == target {
                proof {
                    assert(self.spec_names()[i as int] == s@);
                    lemma_index_of_name_unique(self.spec_names(), s@, i as int);
                }
                return Some(i);
            }
            i = i + 1;
        }
        proof {
            assert(!contains_name(self.spec_names(), s@));
        }
        if n == ELEMENTS {
            return None;
        }
        let ghost pre = *self;
        self.elements.push(target);
        proof {
            assert(self.spec_names() =~= pre.spec_names().push(s@));
            assert forall|w: int, name: Seq<char>| self.cell(w, name) == pre.cell(w, name) by {
                if contains_name(pre.spec_names(), name) {
                    let k = index_of_name(pre.spec_names(), name);
                    assert(pre.spec_names()[k] == name);
                    assert(self.spec_names()[k] == name);
                    lemma_index_of_name_unique(self.spec_names(), name, k);
                } else if name == s@ {
                    lemma_index_of_name_unique(self.spec_names(), name, n as int);
                    if 0 <= w < WINDOWS as int {
                        assert(pre.func_store@[w]@[n as int] is None);
                    }
                } else {
                    assert(!contains_name(self.spec_names(), name)) by {
                        if contains_name(self.spec_names(), name) {
                            let k = index_of_name(self.spec_names(), name);
                            assert(self.spec_names()[k] == name);
                            assert(k < n as int ==> pre.spec_names()[k] == name);
                        }
                    }
                }
            }
            assert(self@ =~= pre.view());
        }
        Some(n)
    }

    /// The slot an element name was interned at, or -1 when the name was
    /// never interned.  Never panics and never changes the registry.
    pub fn find_string(&self, s: &str) -> (r: isize)
        requires
            self.wf(),
        ensures
            contains_name(self.spec_names(), s@) ==> r >= 0 && r as int == index_of_name(
                self.spec_names(),
                s@,
            ),
            !contains_name(self.spec_names(), s@) ==> r == -1,
    {
        let target: String = s.to_owned();
        let n = self.elements.len();
        let mut i: usize = 0;
        while i < n
            invariant
                self.wf(),
                target@ == s@,
                n == self.elements@.len(),
                n <= ELEMENTS,
                i <= n,
                forall|k: int| 0 <= k < i as int ==> self.spec_names()[k] != s@,
            decreases n - i,
        {
            if self.elements[i] == target {
                proof {
                    assert(self.spec_names()[i as int] == s@);
                    lemma_index_of_name_unique(self.spec_names(), s@, i as int);
                }
                return i as isize;
            }
            i = i + 1;
        }
        -1
    }

    /// Registers a handler for a (window identity, element name) pair.
    ///
    /// On success the abstract contents gain exactly this binding — any
    /// handler previously bound to the same pair is overwritten — and the
    /// returned bind identifier is the element's stable slot.  A window
    /// identity outside the window-slot table, or a new element name with
    /// every slot taken, is refused and leaves the registry unchanged.
    pub fn add_function(&mut self, window: usize, element: &str, func: T) -> (r: Result<
        usize,
        RegistryError,
    >)
        requires
            old(self).wf(),
        ensures
            final(self).wf(),
            window >= WINDOWS ==> {
                &&& r == Err::<usize, RegistryError>(RegistryError::WindowCapacity)
                &&& *final(self) == *old(self)
            },
            window < WINDOWS && !contains_name(old(self).spec_names(), element@) && old(
                self,
            ).spec_names().len() == ELEMENTS as int ==> {
                &&& r == Err::<usize, RegistryError>(RegistryError::ElementCapacity)
                &&& *final(self) == *old(self)
            },
            window < WINDOWS && (contains_name(old(self).spec_names(), element@) || old(
                self,
            ).spec_names().len() < ELEMENTS as int) ==> {
                &&& final(self)@ == old(self)@.insert((window as int, element@), func)
                &&& final(self).spec_names() == (if contains_name(
                    old(self).spec_names(),
                    element@,
                ) {
                    old(self).spec_names()
                } else {
                    old(self).spec_names().push(element@)
                })
                &&& r matches Ok(i) && i as int == index_of_name(final(self).spec_names(), element@)
            },
    {
        if window >= WINDOWS {
            return Err(RegistryError::WindowCapacity);
        }
        let ghost pre = *self;
        let idx = match self.save_string(element) {
            Some(idx) => idx,
            None => {
                return Err(RegistryError::ElementCapacity);
            },
        };
        let ghost mid = *self;
        proof {
            lemma_index_of_name_unique(mid.spec_names(), element@, idx as int);
        }
        self.func_store[window][idx] = Some(func);
        proof {
            assert(self.spec_names() =~= mid.spec_names());
            assert forall|w: int, name: Seq<char>|
                (w, name) != (window as int, element@) implies self.cell(w, name) == mid.cell(
                w,
                name,
            ) by {
                if contains_name(mid.spec_names(), name) {
                    let k = index_of_name(mid.spec_names(), name);
                    assert(mid.spec_names()[k] == name);
                    lemma_index_of_name_unique(mid.spec_names(), name, k);
                    if name == element@ {
                        assert(k == idx as int);
                    }
                }
            }
            assert(self.cell(window as int, element@) == Some(func));
            assert(self@ =~= mid.view().insert((window as int, element@), func));
            assert(mid.view() == pre.view());
        }
        Ok(idx)
    }

    /// Resolves a (window identity, element name) pair to the handler bound
    /// there, or `None` when the pair is unbound.  A lookup miss is the
    /// expected outcome for an element the host never bound; it never panics
    /// and never changes the registry.
    pub fn get_function(&self, window: usize, element: &str) -> (r: Option<T>)
        requires
            self.wf(),
        ensures
            r == (if self@.dom().contains((window as int, element@)) {
                Some(self@[(window as int, element@)])
            } else {
                None::<T>
            }),
    {
        if window >= WINDOWS {
            return None;
        }
        let idx = self.find_string(element);
        if idx < 0 {
            return None;
        }
        proof {
            assert(contains_name(self.spec_names(), element@)) by {
                if !contains_name(self.spec_names(), element@) {
                    assert(idx == -1);
                }
            }
            assert(idx as int == index_of_name(self.spec_names(), element@));
            assert((idx as int) < self.spec_names().len());
        }
        self.func_store[window][idx as usize]
    }
}

/// Binding the same (window, element) pair twice leaves exactly one active
/// handler: the one registered last.
pub proof fn lemma_rebind_keeps_last<T>(
    table: Map<(int, Seq<char>), T>,
    w: int,
    name: Seq<char>,
    first: T,
    second: T,
)
    ensures
        ({
            let after = table.insert((w, name), first).insert((w, name), second);
            &&& after.dom().contains((w, name))
            &&& after[(w, name)] == second
        }),
{
}

/// A pair bound exactly once resolves to exactly the handler that was
/// registered for it.
pub proof fn lemma_single_binding_resolves<T>(
    table: Map<(int, Seq<char>), T>,
    w: int,
    name: Seq<char>,
    handler: T,
)
    ensures
        table.insert((w, name), handler).dom().contains((w, name)),
        table.insert((w, name), handler)[(w, name)] == handler,
{
}

/// The table after binding `handlers[k]` to `(w, names[k])` for each
/// position in order.
pub open spec fn insert_all<T>(
    table: Map<(int, Seq<char>), T>,
    w: int,
    names: Seq<Seq<char>>,
    handlers: Seq<T>,
) -> Map<(int, Seq<char>), T>
    decreases names.len(),
{
    if names.len() == 0 {
        table
    } else {
        insert_all(table.insert((w, names[0]), handlers[0]), w, names.skip(1), handlers.skip(1))
    }
}

/// A run of registrations for names other than a key's leaves that key's
/// binding exactly as it was.
proof fn lemma_insert_all_frame<T>(
    table: Map<(int, Seq<char>), T>,
    w: int,
    names: Seq<Seq<char>>,
    handlers: Seq<T>,
    key: (int, Seq<char>),
)
    requires
        names.len() == handlers.len(),
        forall|i: int| 0 <= i < names.len() ==> (w, #[trigger] names[i]) != key,
    ensures
        insert_all(table, w, names, handlers).dom().contains(key) == table.dom().contains(key),
        table.dom().contains(key) ==> insert_all(table, w, names, handlers)[key] == table[key],
    decreases names.len(),
{
    if names.len() > 0 {
        assert((w, names[0]) != key);
        assert(forall|i: int|
            0 <= i < names.skip(1).len() ==> (w, #[trigger] names.skip(1)[i]) != key);
        lemma_insert_all_frame(
            table.insert((w, names[0]), handlers[0]),
            w,
            names.skip(1),
            handlers.skip(1),
            key,
        );
    }
}

/// Registering N distinct elements on one window, one handler each, leaves
/// every one of the N pairs resolving to exactly its own handler: no
/// cross-talk between elements.
pub proof fn lemma_distinct_bindings_no_crosstalk<T>(
    table: Map<(int, Seq<char>), T>,
    w: int,
    names: Seq<Seq<char>>,
    handlers: Seq<T>,
    k: int,
)
    requires
        names.len() == handlers.len(),
        distinct_names(names),
        0 <= k < names.len(),
    ensures
        insert_all(table, w, names, handlers).dom().contains((w, names[k])),
        insert_all(table, w, names, handlers)[(w, names[k])] == handlers[k],
    decreases names.len(),
{
    let table1 = table.insert((w, names[0]), handlers[0]);
    if k == 0 {
        assert(forall|i: int|
            0 <= i < names.skip(1).len() ==> (w, #[trigger] names.skip(1)[i]) != (w, names[0]));
        lemma_insert_all_frame(table1, w, names.skip(1), handlers.skip(1), (w, names[0]));
    } else {
        assert(distinct_names(names.skip(1)));
        assert(names.skip(1)[k - 1] == names[k]);
        assert(handlers.skip(1)[k - 1] == handlers[k]);
        lemma_distinct_bindings_no_crosstalk(table1, w, names.skip(1), handlers.skip(1), k - 1);
    }
}

/// Registering one pair never disturbs what any other pair resolves to.
pub proof fn lemma_register_no_crosstalk<T>(
    table: Map<(int, Seq<char>), T>,
    w1: int,
    n1: Seq<char>,
    handler: T,
    w2: int,
    n2: Seq<char>,
)
    requires
        (w1, n1) != (w2, n2),
    ensures
        table.insert((w1, n1), handler).dom().contains((w2, n2)) == table.dom().contains((w2, n2)),
        table.dom().contains((w2, n2)) ==> table.insert((w1, n1), handler)[(w2, n2)] == table[(
            w2,
            n2,
        )],
{
}

} // verus!
