//! The asset cache: each asset (model, texture, shader, sound, music, font)
//! is loaded once under its file name and found again by that name.

use vstd::prelude::*;

verus! {

/// No asset is loaded under the name it carries.
pub struct AssetMissing {
    pub name: String,
}

/// The assets of one kind, by name.
pub struct AssetTable<T> {
    entries: Vec<(String, T)>,
}

/// The assets of a list of named entries, by name; a later entry of a name
/// stands over an earlier one.
pub open spec fn named<T>(entries: Seq<(String, T)>) -> Map<Seq<char>, T>
    decreases entries.len(),
{
    if entries.len() == 0 {
        Map::empty()
    } else {
        named(entries.drop_last()).insert(entries.last().0@, entries.last().1)
    }
}

/// No two entries carry the same name.
pub open spec fn names_distinct<T>(entries: Seq<(String, T)>) -> bool {
    forall|i: int, j: int| 0 <= i < j < entries.len() ==> (#[trigger] entries[i]).0@ != (#[trigger] entries[j]).0@
}

proof fn lemma_named<T>(entries: Seq<(String, T)>)
    requires
        names_distinct(entries),
    ensures
        forall|name: Seq<char>| #[trigger]
            named(entries).dom().contains(name) <==> exists|i: int| 0 <= i < entries.len() && entries[i].0@ == name,
        forall|i: int| 0 <= i < entries.len() ==> #[trigger] named(entries)[entries[i].0@] == entries[i].1,
    decreases entries.len(),
{
    if entries.len() > 0 {
        let d = entries.drop_last();
        assert(names_distinct(d)) by {
            assert forall|i: int, j: int| 0 <= i < j < d.len() implies (#[trigger] d[i]).0@ != (#[trigger] d[j]).0@ by {
                assert(d[i] == entries[i]);
                assert(d[j] == entries[j]);
            }
        }
        lemma_named(d);
        let last = entries.len() - 1;
        assert forall|name: Seq<char>| #[trigger]
            named(entries).dom().contains(name) <==> exists|i: int| 0 <= i < entries.len() && entries[i].0@ == name by {
            if named(d).dom().contains(name) {
                let i = choose|i: int| 0 <= i < d.len() && d[i].0@ == name;
                assert(entries[i] == d[i]);
            }
            if name == entries[last].0@ {
                assert(named(entries).dom().contains(name));
            }
            if exists|i: int| 0 <= i < entries.len() && entries[i].0@ == name {
                let i = choose|i: int| 0 <= i < entries.len() && entries[i].0@ == name;
                if i < last {
                    assert(d[i] == entries[i]);
                }
            }
        }
        assert forall|i: int| 0 <= i < entries.len() implies #[trigger] named(entries)[entries[i].0@] == entries[i].1 by {
            if i < last {
                assert(d[i] == entries[i]);
                assert(entries[i].0@ != entries[last].0@);
                assert(named(d)[d[i].0@] == d[i].1);
            }
        }
    }
}

impl<T> AssetTable<T> {
    /// The loaded assets, by name.
    pub closed spec fn assets(self) -> Map<Seq<char>, T> {
        named(self.entries@)
    }

    /// No name is loaded twice.
    pub closed spec fn well_formed(self) -> bool {
        names_distinct(self.entries@)
    }

    /// A cache with no asset loaded.
    pub fn new() -> (table: Self)
        ensures
            table.well_formed(),
            table.assets() == Map::<Seq<char>, T>::empty(),
    {
        AssetTable { entries: Vec::new() }
    }

    /// The place of the entry named `name`, when there is one.
    fn position(&self, name: &str) -> (place: Option<usize>)
        requires
            self.well_formed(),
        ensures
            match place {
                Some(p) => p < self.entries@.len() && self.entries@[p as int].0@ == name@,
                None => !self.assets().dom().contains(name@),
            },
    {
        proof {
            lemma_named(self.entries@);
        }
        let key = name.to_owned();
        let mut k: usize = 0;
        while k < self.entries.len()
            invariant
                k <= self.entries@.len(),
                key@ == name@,
                forall|j: int| 0 <= j < k ==> (#[trigger] self.entries@[j]).0@ != name@,
            decreases self.entries@.len() - k,
        {
            if self.entries[k].0 == key {
                return Some(k);
            }
            k += 1;
        }
        None
    }

    /// Whether an asset is loaded under `name`.
    pub fn has(&self, name: &str) -> (loaded: bool)
        requires
            self.well_formed(),
        ensures
            loaded == self.assets().dom().contains(name@),
    {
        proof {
            lemma_named(self.entries@);
        }
        self.position(name).is_some()
    }

    /// The asset loaded under `name`, or the error that names it when there
    /// is none.
    pub fn get(&self, name: &str) -> (found: Result<&T, AssetMissing>)
        requires
            self.well_formed(),
        ensures
            found is Ok <==> self.assets().dom().contains(name@),
            found matches Ok(asset) ==> *asset == self.assets()[name@],
            found matches Err(missing) ==> missing.name@ == name@,
    {
        proof {
            lemma_named(self.entries@);
        }
        match self.position(name) {
            Some(p) => Ok(&self.entries[p].1),
            None => Err(AssetMissing { name: name.to_owned() }),
        }
    }

    /// The asset loaded under `name`, to change it, or the error that names
    /// it when there is none.
    pub fn get_mutable(&mut self, name: &str) -> (found: Result<&mut T, AssetMissing>)
        requires
            old(self).well_formed(),
        ensures
            found is Ok <==> old(self).assets().dom().contains(name@),
            found matches Ok(asset) ==> *asset == old(self).assets()[name@] && final(self).assets()
                == old(self).assets().insert(name@, *final(asset)),
            found matches Err(missing) ==> missing.name@ == name@ && final(self).assets() == old(self).assets(),
            final(self).well_formed(),
    {
        proof {
            lemma_named(self.entries@);
        }
        match self.position(name) {
            Some(p) => {
                let ghost before = self.entries@;
                let asset = &mut self.entries[p].1;
                proof {
                    lemma_replace_value(before, p as int, *final(asset));
                }
                Ok(asset)
            },
            None => Err(AssetMissing { name: name.to_owned() }),
        }
    }

    /// Loads the asset of `name` when none is loaded under it yet: `load`
    /// is called only then, and what it gives is kept under `name`. A name
    /// already loaded is left as it is and `load` is not called.
    pub fn set<E, F: FnOnce() -> Result<T, E>>(&mut self, name: &str, load: F) -> (done: Result<(), E>)
        requires
            old(self).well_formed(),
            call_requires(load, ()),
        ensures
            final(self).well_formed(),
            old(self).assets().dom().contains(name@) ==> done is Ok && final(self).assets() == old(self).assets(),
            !old(self).assets().dom().contains(name@) ==> match done {
                Ok(_) => exists|asset: T| #[trigger] call_ensures(load, (), Ok(asset)) && final(self).assets()
                    == old(self).assets().insert(name@, asset),
                Err(error) => call_ensures(load, (), Err(error)) && final(self).assets() == old(self).assets(),
            },
    {
        if self.has(name) {
            return Ok(());
        }
        match load() {
            Ok(asset) => {
                let ghost before = self.entries@;
                self.entries.push((name.to_owned(), asset));
                proof {
                    lemma_named(before);
                    assert(self.entries@.drop_last() == before);
                    assert forall|i: int, j: int| 0 <= i < j < self.entries@.len() implies (#[trigger] self.entries@[i]).0@
                        != (#[trigger] self.entries@[j]).0@ by {
                        if j == before.len() {
                            assert(self.entries@[i] == before[i]);
                        } else {
                            assert(self.entries@[i] == before[i]);
                            assert(self.entries@[j] == before[j]);
                        }
                    }
                    assert(call_ensures(load, (), Ok(asset)));
                    assert(self.assets() == named(before).insert(name@, asset));
                }
                Ok(())
            },
            Err(error) => Err(error),
        }
    }
}

proof fn lemma_replace_value<T>(entries: Seq<(String, T)>, place: int, value: T)
    requires
        names_distinct(entries),
        0 <= place < entries.len(),
    ensures
        names_distinct(entries.update(place, (entries[place].0, value))),
        named(entries.update(place, (entries[place].0, value))) == named(entries).insert(entries[place].0@, value),
{
    let after = entries.update(place, (entries[place].0, value));
    assert forall|i: int, j: int| 0 <= i < j < after.len() implies (#[trigger] after[i]).0@ != (#[trigger] after[j]).0@ by {
        assert(after[i].0 == entries[i].0);
        assert(after[j].0 == entries[j].0);
    }
    lemma_named(entries);
    lemma_named(after);
    let m1 = named(after);
    let m2 = named(entries).insert(entries[place].0@, value);
    assert forall|name: Seq<char>| #[trigger] m1.dom().contains(name) <==> m2.dom().contains(name) by {
        if m1.dom().contains(name) {
            let i = choose|i: int| 0 <= i < after.len() && after[i].0@ == name;
            assert(entries[i].0@ == name);
        }
        if named(entries).dom().contains(name) {
            let i = choose|i: int| 0 <= i < entries.len() && entries[i].0@ == name;
            assert(after[i].0@ == name);
        }
        if name == entries[place].0@ {
            assert(after[place].0@ == name);
        }
    }
    assert forall|name: Seq<char>| #[trigger] m1.dom().contains(name) implies m1[name] == m2[name] by {
        let i = choose|i: int| 0 <= i < after.len() && after[i].0@ == name;
        assert(m1[after[i].0@] == after[i].1);
        if i != place {
            assert(entries[i].0@ != entries[place].0@);
            assert(after[i] == entries[i]);
        }
    }
    assert(m1 =~= m2);
}

/// What `set` loads under a name is what `get` then finds under it, and
/// every other name keeps the asset it had (or stays without one).
pub proof fn loaded_asset_found<T>(before: AssetTable<T>, after: AssetTable<T>, name: Seq<char>, asset: T)
    requires
        after.assets() == before.assets().insert(name, asset),
    ensures
        after.assets().dom().contains(name),
        after.assets()[name] == asset,
        forall|other: Seq<char>|
            other != name ==> (#[trigger] after.assets().dom().contains(other) <==> before.assets().dom().contains(
                other,
            )),
        forall|other: Seq<char>|
            other != name && before.assets().dom().contains(other) ==> #[trigger] after.assets()[other]
                == before.assets()[other],
{
}

} // verus!
