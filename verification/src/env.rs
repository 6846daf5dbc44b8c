//! Typing environments: finite maps from variable names to types.

use vstd::prelude::*;
use crate::typ::Typ;

verus! {

/// One binding of a name to a type.
struct Binding {
    name: String,
    typ: Typ,
}

/// The map that a sequence of bindings denotes: a later binding of a name
/// hides every earlier one.
spec fn bindings(s: Seq<Binding>) -> Map<Seq<char>, Typ>
    decreases s.len(),
{
    if s.len() == 0 {
        Map::empty()
    } else {
        bindings(s.drop_last()).insert(s.last().name@, s.last().typ)
    }
}

/// Bindings that do not mention `name` can be dropped from the end of a
/// sequence without changing what the sequence says of `name`.
proof fn lemma_unrelated_suffix(s: Seq<Binding>, i: int, name: Seq<char>)
    requires
        0 <= i <= s.len(),
        forall|j: int| i <= j < s.len() ==> (#[trigger] s[j]).name@ != name,
    ensures
        bindings(s).contains_key(name) <==> bindings(s.take(i)).contains_key(name),
        bindings(s).contains_key(name) ==> bindings(s)[name] == bindings(s.take(i))[name],
    decreases s.len() - i,
{
    if i == s.len() {
        assert(s.take(i) =~= s);
    } else {
        assert(s.last().name@ != name);
        lemma_unrelated_suffix(s.drop_last(), i, name);
        assert(s.drop_last().take(i) =~= s.take(i));
    }
}

/// A typing environment. Its view is the finite map from names to types that
/// it stands for.
pub struct Env {
    entries: Vec<Binding>,
}

impl View for Env {
    type V = Map<Seq<char>, Typ>;

    closed spec fn view(&self) -> Map<Seq<char>, Typ> {
        bindings(self.entries@)
    }
}

impl Env {
    /// The environment that binds nothing.
    pub fn new() -> (r: Env)
        ensures
            r@ == Map::<Seq<char>, Typ>::empty(),
    {
        Env { entries: Vec::new() }
    }

    /// Binds `name` to `typ` in place, hiding any earlier binding of `name`.
    pub fn insert(&mut self, name: String, typ: Typ)
        ensures
            final(self)@ == old(self)@.insert(name@, typ),
    {
        self.entries.push(Binding { name, typ });
        proof {
            assert(self.entries@.drop_last() =~= old(self).entries@);
        }
    }

    /// The type that `name` is bound to, if it is bound.
    pub fn get(&self, name: &String) -> (r: Option<&Typ>)
        ensures
            match r {
                Some(t) => self@.contains_key(name@) && *t == self@[name@],
                None => !self@.contains_key(name@),
            },
    {
        let mut i: usize = self.entries.len();
        while i > 0
            invariant
                i <= self.entries.len(),
                forall|j: int| i <= j < self.entries.len() ==> (#[trigger] self.entries@[j]).name@ != name@,
            decreases i,
        {
            i = i - 1;
            if self.entries[i].name == *name {
                proof {
                    let s = self.entries@;
                    lemma_unrelated_suffix(s, i + 1, name@);
                    assert(s.take(i + 1).drop_last() =~= s.take(i as int));
                }
                return Some(&self.entries[i].typ);
            }
        }
        proof {
            lemma_unrelated_suffix(self.entries@, 0, name@);
        }
        None
    }

    /// A new environment that agrees with this one but for `name`, which it
    /// binds to `typ`. This environment is left as it was.
    pub fn extended(&self, name: String, typ: Typ) -> (r: Env)
        ensures
            r@ == self@.insert(name@, typ),
    {
        let mut r = self.clone();
        r.insert(name, typ);
        r
    }
}

impl Clone for Env {
    /// A copy with the same bindings.
    fn clone(&self) -> (r: Env)
        ensures
            r@ == self@,
    {
        let mut entries: Vec<Binding> = Vec::new();
        let mut i: usize = 0;
        while i < self.entries.len()
            invariant
                i <= self.entries.len(),
                entries@ == self.entries@.take(i as int),
            decreases self.entries.len() - i,
        {
            let b = &self.entries[i];
            entries.push(Binding { name: b.name.clone(), typ: b.typ.clone() });
            proof {
                assert(entries@ =~= self.entries@.take(i + 1));
            }
            i = i + 1;
        }
        proof {
            assert(self.entries@.take(i as int) =~= self.entries@);
        }
        Env { entries }
    }
}

} // verus!
