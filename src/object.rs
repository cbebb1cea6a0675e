use vstd::prelude::*;

verus! {

/// The index of a variable's slot in the frame.
pub type Offset = usize;

/// The slot that `name` has, or gets, in a table that holds `names` in
/// order of first sight.
pub open spec fn slot_of(names: Seq<Seq<char>>, name: Seq<char>) -> int {
    if names.contains(name) {
        names.index_of(name)
    } else {
        names.len() as int
    }
}

/// The table after `name` has been looked up: a new name goes at the end.
pub open spec fn declare(names: Seq<Seq<char>>, name: Seq<char>) -> Seq<Seq<char>> {
    if names.contains(name) {
        names
    } else {
        names.push(name)
    }
}

/// The symbol table: each distinct variable name, in order of first sight.
/// A name's slot is its index.
#[derive(Debug)]
pub struct Object {
    content: Vec<String>,
}

impl View for Object {
    type V = Seq<Seq<char>>;

    closed spec fn view(&self) -> Seq<Seq<char>> {
        self.content@.map_values(|s: String| s@)
    }
}

impl Object {
    /// No name occurs twice.
    pub open spec fn wf(&self) -> bool {
        self@.no_duplicates()
    }

    pub fn new() -> (r: Self)
        ensures
            r@ == Seq::<Seq<char>>::empty(),
            r.wf(),
    {
        Object { content: Vec::new() }
    }

    /// The slot of `name`, which a name seen for the first time gets as the
    /// next free index.
    pub fn offset(&mut self, name: &str) -> (r: Offset)
        requires
            old(self).wf(),
        ensures
            final(self).wf(),
            r == slot_of(old(self)@, name@),
            final(self)@ == declare(old(self)@, name@),
    {
        let key = String::from_str(name);
        let mut i: usize = 0;
        while i < self.content.len()
            invariant
                0 <= i <= self.content@.len(),
                self.wf(),
                key@ == name@,
                forall|j: int| 0 <= j < i ==> self@[j] != name@,
            decreases self.content@.len() - i,
        {
            if self.content[i].eq(&key) {
                proof {
                    assert(self@[i as int] == name@);
                    assert(self@.contains(name@));
                    let k = self@.index_of(name@);
                    assert(self@[k] == name@);
                    assert(k == i);
                }
                return i;
            }
            i += 1;
        }
        proof {
            assert(!self@.contains(name@));
        }
        let ghost before = self@;
        self.content.push(key);
        proof {
            assert(self@ =~= before.push(name@));
            assert forall|a: int, b: int| 0 <= a < self@.len() && 0 <= b < self@.len() && a != b
                implies self@[a] != self@[b] by {
                if b == before.len() {
                    assert(!before.contains(name@));
                    assert(before[a] != name@);
                } else if a == before.len() {
                    assert(before[b] != name@);
                }
            }
        }
        i
    }

    /// The number of distinct names seen.
    pub fn size(&self) -> (r: usize)
        ensures
            r == self@.len(),
    {
        self.content.len()
    }
}

} // verus!
