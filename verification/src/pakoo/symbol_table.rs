//! Interned identifiers: each distinct name gets one stable id, the ids
//! count up from zero in order of first appearance.

use vstd::prelude::*;
use vstd::string::StrSliceExecFns;

verus! {

/// A two-way table between names and their ids. The id of a name is its
/// position in order of first appearance.
pub struct SymbolTable {
    names: Vec<String>,
}

/// Character-wise string equality.
fn str_eq(a: &str, b: &str) -> (r: bool)
    ensures
        r == (a@ == b@),
{
    let la: usize = a.unicode_len();
    let lb: usize = b.unicode_len();
    if la != lb {
        proof {
            assert(a@ != b@);
        }
        return false;
    }
    let mut k: usize = 0;
    while k < la
        invariant
            0 <= k <= la,
            la == a@.len(),
            la == b@.len(),
            forall|m: int| 0 <= m < k ==> a@[m] == b@[m],
        decreases la - k,
    {
        if a.get_char(k) != b.get_char(k) {
            return false;
        }
        k = k + 1;
    }
    proof {
        assert(a@ =~= b@);
    }
    true
}

impl SymbolTable {
    /// The interned names, in id order.
    pub closed spec fn names_sp(&self) -> Seq<Seq<char>> {
        self.names@.map_values(|s: String| s@)
    }

    /// No name is interned twice.
    pub open spec fn wf(&self) -> bool {
        forall|k1: int, k2: int|
            0 <= k1 < k2 < self.names_sp().len() ==> self.names_sp()[k1] != self.names_sp()[k2]
    }

    /// An empty table.
    pub fn new() -> (s: Self)
        ensures
            s.names_sp().len() == 0,
            s.wf(),
    {
        Self { names: Vec::new() }
    }

    /// The id of `name`, interning it if it is new: an interned name keeps
    /// its id and the table unchanged; a new name is appended and gets the
    /// next id.
    pub fn get_or_create_id(&mut self, name: &str) -> (id: usize)
        requires
            old(self).wf(),
        ensures
            final(self).wf(),
            id < final(self).names_sp().len(),
            final(self).names_sp()[id as int] == name@,
            old(self).names_sp().contains(name@) ==> final(self).names_sp() == old(
                self,
            ).names_sp(),
            !old(self).names_sp().contains(name@) ==> final(self).names_sp() =~= old(
                self,
            ).names_sp().push(name@) && id == old(self).names_sp().len(),
    {
        let ghost ns = self.names_sp();
        let n: usize = self.names.len();
        let mut k: usize = 0;
        while k < n
            invariant
                0 <= k <= n,
                n == self.names@.len(),
                *self == *old(self),
                self.wf(),
                self.names_sp() == ns,
                forall|m: int| 0 <= m < k ==> ns[m] != name@,
            decreases n - k,
        {
            if str_eq(self.names[k].as_str(), name) {
                proof {
                    assert(ns[k as int] == name@);
                }
                return k;
            }
            proof {
                assert(ns[k as int] == self.names@[k as int]@);
            }
            k = k + 1;
        }
        proof {
            assert(!ns.contains(name@));
        }
        let owned: String = name.to_owned();
        self.names.push(owned);
        proof {
            assert(self.names_sp() =~= ns.push(name@));
            assert forall|k1: int, k2: int|
                0 <= k1 < k2 < self.names_sp().len() implies self.names_sp()[k1]
                != self.names_sp()[k2] by {
                assert(ns == old(self).names_sp());
                if k2 == self.names_sp().len() - 1 {
                    assert(self.names_sp()[k2] == name@);
                    assert(self.names_sp()[k1] == ns[k1]);
                    assert(!ns.contains(name@));
                    assert(ns[k1] != name@);
                } else {
                    assert(self.names_sp()[k1] == ns[k1]);
                    assert(self.names_sp()[k2] == ns[k2]);
                    assert(old(self).names_sp()[k1] != old(self).names_sp()[k2]);
                }
            }
        }
        n
    }

    /// The id of `name`, if it is interned: `Some` exactly when the name is
    /// in the table.
    pub fn get_id(&self, name: &str) -> (r: Option<usize>)
        ensures
            r is Some <==> self.names_sp().contains(name@),
            r matches Some(id) ==> id < self.names_sp().len() && self.names_sp()[id as int]
                == name@,
    {
        let n: usize = self.names.len();
        let mut k: usize = 0;
        while k < n
            invariant
                0 <= k <= n,
                n == self.names@.len(),
                forall|m: int| 0 <= m < k ==> self.names_sp()[m] != name@,
            decreases n - k,
        {
            if str_eq(self.names[k].as_str(), name) {
                proof {
                    assert(self.names_sp()[k as int] == name@);
                }
                return Some(k);
            }
            proof {
                assert(self.names_sp()[k as int] == self.names@[k as int]@);
            }
            k = k + 1;
        }
        proof {
            assert(!self.names_sp().contains(name@));
        }
        None
    }

    /// The name of an id: `Some` exactly when the id has been handed out.
    pub fn get_name(&self, id: usize) -> (r: Option<&str>)
        ensures
            r is Some <==> id < self.names_sp().len(),
            r matches Some(s) ==> s@ == self.names_sp()[id as int],
    {
        if id < self.names.len() {
            Some(self.names[id].as_str())
        } else {
            None
        }
    }
}

} // verus!
