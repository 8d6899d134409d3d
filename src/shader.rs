use vstd::prelude::*;

verus! {

/// The location map that a list of cache entries stands for: entries are read
/// in order, and a later entry for a name replaces an earlier one.
pub open spec fn location_map(entries: Seq<(Seq<char>, i32)>) -> Map<Seq<char>, i32>
    decreases entries.len(),
{
    if entries.len() == 0 {
        Map::empty()
    } else {
        location_map(entries.drop_last()).insert(entries.last().0, entries.last().1)
    }
}

/// A linked shader program together with the uniform locations already
/// looked up for it, so that each name is queried from the driver once.
pub struct Shader {
    id: u32,
    uniform_locations: Vec<(String, i32)>,
}

impl Shader {
    /// The cache entries, with each name taken as its characters.
    pub closed spec fn entries(&self) -> Seq<(Seq<char>, i32)> {
        self.uniform_locations@.map_values(|e: (String, i32)| (e.0@, e.1))
    }

    /// The uniform locations known for this program, by name.
    pub open spec fn locations(&self) -> Map<Seq<char>, i32> {
        location_map(self.entries())
    }

    /// The program object's handle.
    pub closed spec fn spec_id(&self) -> u32 {
        self.id
    }

    /// Wraps the linked program `id`, with no uniform location known yet.
    pub fn create(id: u32) -> (r: Shader)
        ensures
            r.spec_id() == id,
            r.locations() == Map::<Seq<char>, i32>::empty(),
    {
        let r = Shader { id, uniform_locations: Vec::new() };
        assert(r.entries().len() == 0);
        r
    }

    /// The program object's handle.
    pub fn id(&self) -> (r: u32)
        ensures
            r == self.spec_id(),
    {
        self.id
    }

    /// The location remembered for the uniform `name`, if it was looked up
    /// before.
    pub fn cached_location(&self, name: &String) -> (r: Option<i32>)
        ensures
            r == (if self.locations().contains_key(name@) {
                Some(self.locations()[name@])
            } else {
                None::<i32>
            }),
    {
        let ghost all = self.entries();
        let mut found: Option<i32> = None;
        let mut i: usize = 0;
        while i < self.uniform_locations.len()
            invariant
                i <= self.uniform_locations@.len(),
                all == self.entries(),
                all.len() == self.uniform_locations@.len(),
                found == (if location_map(all.take(i as int)).contains_key(name@) {
                    Some(location_map(all.take(i as int))[name@])
                } else {
                    None::<i32>
                }),
            decreases self.uniform_locations@.len() - i,
        {
            assert(all.take(i as int + 1).drop_last() =~= all.take(i as int));
            assert(all[i as int] == (self.uniform_locations@[i as int].0@, self.uniform_locations@[i as int].1));
            if self.uniform_locations[i].0 == *name {
                found = Some(self.uniform_locations[i].1);
            }
            i = i + 1;
        }
        assert(all.take(all.len() as int) =~= all);
        found
    }

    /// Remembers `location` as the location of the uniform `name`.
    pub fn remember_location(&mut self, name: String, location: i32)
        ensures
            final(self).spec_id() == old(self).spec_id(),
            final(self).locations() == old(self).locations().insert(name@, location),
    {
        let ghost before = self.entries();
        let ghost key = name@;
        self.uniform_locations.push((name, location));
        assert(self.entries().drop_last() =~= before);
        assert(self.entries().last() == (key, location));
    }
}

} // verus!
