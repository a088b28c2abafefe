//! Named snapshots of the settings, kept in the order in which their names
//! were first saved.
use crate::config::{ConfigItem, ConfigItemView};
use vstd::prelude::*;

verus! {

/// A name and the settings saved under it, seen as values.
pub type Entry = (Seq<char>, ConfigItemView);

/// No name occurs twice in `p`.
pub open spec fn unique_names(p: Seq<Entry>) -> bool {
    forall|i: int, j: int| 0 <= i < j < p.len() ==> (#[trigger] p[i]).0 != (#[trigger] p[j]).0
}

/// The mapping that `p` describes, a later entry overriding an earlier one.
pub open spec fn map_of(p: Seq<Entry>) -> Map<Seq<char>, ConfigItemView>
    decreases p.len(),
{
    if p.len() == 0 {
        Map::empty()
    } else {
        map_of(p.drop_last()).insert(p.last().0, p.last().1)
    }
}

proof fn lemma_map_of_keys(p: Seq<Entry>, k: Seq<char>)
    ensures
        map_of(p).contains_key(k) <==> exists|i: int| 0 <= i < p.len() && (#[trigger] p[i]).0 == k,
    decreases p.len(),
{
    if p.len() > 0 {
        let q = p.drop_last();
        lemma_map_of_keys(q, k);
        if map_of(q).contains_key(k) {
            let i = choose|i: int| 0 <= i < q.len() && (#[trigger] q[i]).0 == k;
            assert(p[i] == q[i]);
        }
        if exists|i: int| 0 <= i < p.len() && (#[trigger] p[i]).0 == k {
            let i = choose|i: int| 0 <= i < p.len() && (#[trigger] p[i]).0 == k;
            if i < q.len() {
                assert(q[i] == p[i]);
            }
        }
    }
}

proof fn lemma_map_of_index(p: Seq<Entry>, i: int)
    requires
        unique_names(p),
        0 <= i < p.len(),
    ensures
        map_of(p).contains_key(p[i].0),
        map_of(p)[p[i].0] == p[i].1,
    decreases p.len(),
{
    let q = p.drop_last();
    if i < q.len() {
        assert(q[i] == p[i]);
        assert(p[i].0 != p[p.len() - 1].0);
        lemma_map_of_index(q, i);
    }
}

proof fn lemma_map_of_update(p: Seq<Entry>, i: int, v: ConfigItemView)
    requires
        unique_names(p),
        0 <= i < p.len(),
    ensures
        map_of(p.update(i, (p[i].0, v))) == map_of(p).insert(p[i].0, v),
        unique_names(p.update(i, (p[i].0, v))),
    decreases p.len(),
{
    let k = p[i].0;
    let u = p.update(i, (k, v));
    let q = p.drop_last();
    assert(u.drop_last() =~= if i == p.len() - 1 { q } else { q.update(i, (k, v)) });
    if i < p.len() - 1 {
        assert(q[i] == p[i]);
        lemma_map_of_update(q, i, v);
        assert(p.last().0 != k);
        assert(map_of(u) =~= map_of(p).insert(k, v));
    } else {
        assert(map_of(u) =~= map_of(p).insert(k, v));
    }
}

proof fn lemma_map_of_remove(p: Seq<Entry>, i: int)
    requires
        unique_names(p),
        0 <= i < p.len(),
    ensures
        map_of(p.remove(i)) == map_of(p).remove(p[i].0),
        unique_names(p.remove(i)),
    decreases p.len(),
{
    let k = p[i].0;
    let r = p.remove(i);
    let q = p.drop_last();
    if i < p.len() - 1 {
        assert(r.drop_last() =~= q.remove(i));
        assert(q[i] == p[i]);
        lemma_map_of_remove(q, i);
        assert(p.last().0 != k);
        assert(map_of(r) =~= map_of(p).remove(k));
    } else {
        assert(r =~= q);
        lemma_map_of_keys(q, k);
        assert(map_of(r) =~= map_of(p).remove(k));
    }
}

/// The saved presets.
pub struct Presets {
    entries: Vec<(String, ConfigItem)>,
}

impl Presets {
    /// The entries, in order, seen as values.
    pub closed spec fn entries(&self) -> Seq<Entry> {
        self.entries@.map_values(|e: (String, ConfigItem)| (e.0@, e.1@))
    }

    /// Names of the presets, in the order in which they were first saved.
    pub open spec fn names(&self) -> Seq<Seq<char>> {
        self.entries().map_values(|e: Entry| e.0)
    }

    /// Each name is held once.
    pub open spec fn wf(&self) -> bool {
        unique_names(self.entries())
    }

    /// An empty store.
    pub fn new() -> (r: Presets)
        ensures
            r.wf(),
            r@ == Map::<Seq<char>, ConfigItemView>::empty(),
            r.names() == Seq::<Seq<char>>::empty(),
    {
        let r = Presets { entries: Vec::new() };
        assert(r.names() =~= Seq::<Seq<char>>::empty());
        r
    }

    /// Number of presets.
    pub fn len(&self) -> (r: usize)
        requires
            self.wf(),
        ensures
            r == self.names().len(),
    {
        self.entries.len()
    }

    /// Position of the preset called `name`, if there is one.
    fn position(&self, name: &String) -> (r: Option<usize>)
        requires
            self.wf(),
        ensures
            match r {
                Some(i) => i < self.entries().len() && self.entries()[i as int].0 == name@,
                None => !self@.contains_key(name@),
            },
    {
        let mut i: usize = 0;
        while i < self.entries.len()
            invariant
                i <= self.entries@.len(),
                forall|j: int| 0 <= j < i ==> (#[trigger] self.entries()[j]).0 != name@,
            decreases self.entries@.len() - i,
        {
            if self.entries[i].0.eq(name) {
                return Some(i);
            }
            i = i + 1;
        }
        proof {
            lemma_map_of_keys(self.entries(), name@);
        }
        None
    }

    /// Whether a preset is called `name`.
    pub fn contains_key(&self, name: &String) -> (r: bool)
        requires
            self.wf(),
        ensures
            r == self@.contains_key(name@),
    {
        match self.position(name) {
            Some(i) => {
                proof {
                    lemma_map_of_index(self.entries(), i as int);
                }
                true
            },
            None => false,
        }
    }

    /// The settings saved under `name`.
    pub fn get(&self, name: &String) -> (r: Option<&ConfigItem>)
        requires
            self.wf(),
        ensures
            r is Some == self@.contains_key(name@),
            r is Some ==> r->0@ == self@[name@],
    {
        match self.position(name) {
            Some(i) => {
                proof {
                    lemma_map_of_index(self.entries(), i as int);
                }
                Some(&self.entries[i].1)
            },
            None => None,
        }
    }

    /// Saves `item` under `name`, replacing what was saved there before; a new
    /// name goes last.
    pub fn insert(&mut self, name: String, item: ConfigItem)
        requires
            old(self).wf(),
        ensures
            final(self).wf(),
            final(self)@ == old(self)@.insert(name@, item@),
            final(self).names() == (if old(self)@.contains_key(name@) {
                old(self).names()
            } else {
                old(self).names().push(name@)
            }),
    {
        match self.position(&name) {
            Some(i) => {
                proof {
                    lemma_map_of_index(self.entries(), i as int);
                    lemma_map_of_update(self.entries(), i as int, item@);
                }
                let ghost before = self.entries();
                self.entries[i] = (name, item);
                assert(self.entries() =~= before.update(i as int, (before[i as int].0, item@)));
                assert(self.names() =~= old(self).names());
            },
            None => {
                let ghost before = self.entries();
                proof {
                    lemma_map_of_keys(before, name@);
                }
                self.entries.push((name, item));
                assert(self.entries() =~= before.push((name@, item@)));
                assert(self.entries().drop_last() =~= before);
                assert(self.names() =~= old(self).names().push(name@));
            },
        }
    }

    /// Deletes the preset called `name`, if there is one; the others keep
    /// their order.
    pub fn remove(&mut self, name: &String)
        requires
            old(self).wf(),
        ensures
            final(self).wf(),
            final(self)@ == old(self)@.remove(name@),
    {
        match self.position(name) {
            Some(i) => {
                let ghost before = self.entries();
                proof {
                    lemma_map_of_remove(before, i as int);
                }
                self.entries.remove(i);
                assert(self.entries() =~= before.remove(i as int));
            },
            None => {
                assert(self@ =~= old(self)@.remove(name@));
            },
        }
    }

    /// Names of the presets, in the order in which they were first saved.
    pub fn keys(&self) -> (r: Vec<String>)
        requires
            self.wf(),
        ensures
            r@.map_values(|s: String| s@) == self.names(),
    {
        let mut r: Vec<String> = Vec::new();
        let mut i: usize = 0;
        while i < self.entries.len()
            invariant
                i <= self.entries@.len(),
                r@.map_values(|s: String| s@) == self.names().take(i as int),
            decreases self.entries@.len() - i,
        {
            let ghost done = r@.map_values(|s: String| s@);
            let name = self.entries[i].0.clone();
            assert(name@ == self.names()[i as int]);
            r.push(name);
            i = i + 1;
            assert(r@.map_values(|s: String| s@) =~= done.push(name@));
            assert(self.names().take(i as int) =~= self.names().take(i - 1).push(name@));
        }
        assert(self.names().take(i as int) =~= self.names());
        r
    }
}

impl View for Presets {
    type V = Map<Seq<char>, ConfigItemView>;

    closed spec fn view(&self) -> Map<Seq<char>, ConfigItemView> {
        map_of(self.entries())
    }
}

} // verus!
