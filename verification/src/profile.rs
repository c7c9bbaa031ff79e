//! Weapon profiles and the store that holds them by name.

use vstd::prelude::*;

verus! {

/// One raw mouse movement of a profile, before sensitivity scaling: a
/// horizontal and a vertical delta in thousandths of a pixel.
#[derive(Clone, Copy, Debug, PartialEq, Eq)]
pub struct Step {
    pub dx: i32,
    pub dy: i32,
}

/// A named, ordered sequence of steps for one weapon.
struct WeaponProfile {
    name: String,
    steps: Vec<Step>,
}

/// The step with the given deltas, in thousandths of a pixel.
pub open spec fn step(dx: int, dy: int) -> Step {
    Step { dx: dx as i32, dy: dy as i32 }
}

/// The steps of the built-in profile "AK47".
pub open spec fn ak47_steps() -> Seq<Step> {
    seq![
        step(-500, -4000),
        step(-300, -5000),
        step(200, -6000),
        step(500, -7000),
        step(800, -8000),
    ]
}

/// The steps of the built-in profile "M416".
pub open spec fn m416_steps() -> Seq<Step> {
    seq![
        step(-400, -3500),
        step(-200, -4500),
        step(300, -5500),
        step(600, -6500),
    ]
}

/// The built-in profiles, by name.
pub open spec fn builtin_profiles() -> Map<Seq<char>, Seq<Step>> {
    map!["AK47"@ => ak47_steps(), "M416"@ => m416_steps()]
}

/// A copy of `steps`.
fn copy_steps(steps: &Vec<Step>) -> (out: Vec<Step>)
    ensures
        out@ == steps@,
{
    let mut out: Vec<Step> = Vec::new();
    let mut i: usize = 0;
    while i < steps.len()
        invariant
            i <= steps.len(),
            out@ == steps@.take(i as int),
        decreases steps.len() - i,
    {
        out.push(steps[i]);
        i += 1;
    }
    out
}

/// An immutable mapping from weapon name to steps. No name occurs twice.
pub struct ProfileStore {
    profiles: Vec<WeaponProfile>,
}

impl View for ProfileStore {
    type V = Map<Seq<char>, Seq<Step>>;

    /// The store as a map from name to steps.
    closed spec fn view(&self) -> Map<Seq<char>, Seq<Step>> {
        Map::new(
            |name: Seq<char>| self.holds(name),
            |name: Seq<char>| self.profiles[self.position(name)].steps@,
        )
    }
}

impl ProfileStore {
    /// No two profiles share a name. Every store that the library hands out
    /// is well formed.
    #[verifier::type_invariant]
    pub closed spec fn wf(&self) -> bool {
        forall|i: int, j: int|
            0 <= i < j < self.profiles.len() ==> self.profiles[i].name@ != self.profiles[j].name@
    }

    spec fn holds(&self, name: Seq<char>) -> bool {
        exists|i: int| 0 <= i < self.profiles.len() && self.profiles[i].name@ == name
    }

    spec fn position(&self, name: Seq<char>) -> int {
        choose|i: int| 0 <= i < self.profiles.len() && self.profiles[i].name@ == name
    }

    /// The names in the order in which `names` gives them.
    pub closed spec fn name_order(&self) -> Seq<Seq<char>> {
        Seq::new(self.profiles.len() as nat, |i: int| self.profiles[i].name@)
    }

    /// The steps that `name` selects: those of its profile, none for a name
    /// that the store does not hold.
    pub open spec fn steps_of(&self, name: Seq<char>) -> Seq<Step> {
        if self@.dom().contains(name) {
            self@[name]
        } else {
            Seq::empty()
        }
    }

    proof fn lemma_entry(&self, i: int)
        requires
            self.wf(),
            0 <= i < self.profiles.len(),
        ensures
            self@.dom().contains(self.profiles[i].name@),
            self@[self.profiles[i].name@] == self.profiles[i].steps@,
    {
        let name = self.profiles[i].name@;
        assert(self.holds(name));
        let j = self.position(name);
        assert(j == i);
    }

    /// `name_order` lists each name of the store exactly once.
    pub proof fn lemma_name_order(&self)
        requires
            self.wf(),
        ensures
            self.name_order().no_duplicates(),
            self.name_order().to_set() =~= self@.dom(),
    {
        let order = self.name_order();
        assert forall|name: Seq<char>| order.to_set().contains(name) == self@.dom().contains(
            name,
        ) by {
            if order.to_set().contains(name) {
                let i = choose|i: int| 0 <= i < order.len() && order[i] == name;
                assert(self.profiles[i].name@ == name);
            }
            if self@.dom().contains(name) {
                let i = self.position(name);
                assert(order[i] == name);
            }
        }
    }

    /// The steps of the profile called `name`, in order; none for a name
    /// that the store does not hold.
    pub fn get(&self, name: &str) -> (steps: Vec<Step>)
        ensures
            steps@ == self.steps_of(name@),
    {
        proof {
            use_type_invariant(self);
        }
        let key: String = name.to_owned();
        let mut i: usize = 0;
        while i < self.profiles.len()
            invariant
                i <= self.profiles.len(),
                key@ == name@,
                self.wf(),
                forall|j: int| 0 <= j < i ==> self.profiles[j].name@ != name@,
            decreases self.profiles.len() - i,
        {
            if self.profiles[i].name == key {
                proof {
                    self.lemma_entry(i as int);
                }
                return copy_steps(&self.profiles[i].steps);
            }
            i += 1;
        }
        Vec::new()
    }

    /// The names of all profiles, each once.
    pub fn names(&self) -> (names: Vec<String>)
        ensures
            names.len() == self.name_order().len(),
            forall|i: int| 0 <= i < names.len() ==> names[i]@ == self.name_order()[i],
            self.name_order().no_duplicates(),
            self.name_order().to_set() == self@.dom(),
    {
        proof {
            use_type_invariant(self);
            self.lemma_name_order();
        }
        let mut names: Vec<String> = Vec::new();
        let mut i: usize = 0;
        while i < self.profiles.len()
            invariant
                i <= self.profiles.len(),
                names.len() == i,
                forall|j: int| 0 <= j < i ==> names[j]@ == self.profiles[j].name@,
            decreases self.profiles.len() - i,
        {
            names.push(self.profiles[i].name.clone());
            i += 1;
        }
        names
    }
}

impl Default for ProfileStore {
    /// The store of the built-in profiles.
    fn default() -> (store: ProfileStore)
        ensures
            store@ == builtin_profiles(),
    {
        let mut ak47: Vec<Step> = Vec::new();
        ak47.push(Step { dx: -500, dy: -4000 });
        ak47.push(Step { dx: -300, dy: -5000 });
        ak47.push(Step { dx: 200, dy: -6000 });
        ak47.push(Step { dx: 500, dy: -7000 });
        ak47.push(Step { dx: 800, dy: -8000 });
        let mut m416: Vec<Step> = Vec::new();
        m416.push(Step { dx: -400, dy: -3500 });
        m416.push(Step { dx: -200, dy: -4500 });
        m416.push(Step { dx: 300, dy: -5500 });
        m416.push(Step { dx: 600, dy: -6500 });
        let mut profiles: Vec<WeaponProfile> = Vec::new();
        profiles.push(WeaponProfile { name: "AK47".to_owned(), steps: ak47 });
        profiles.push(WeaponProfile { name: "M416".to_owned(), steps: m416 });
        proof {
            reveal_strlit("AK47");
            reveal_strlit("M416");
            assert("AK47"@[0] != "M416"@[0]);
        }
        let store = ProfileStore { profiles };
        proof {
            assert(store.profiles[0].steps@ =~= ak47_steps());
            assert(store.profiles[1].steps@ =~= m416_steps());
            store.lemma_entry(0);
            store.lemma_entry(1);
            assert(store@ =~= builtin_profiles());
        }
        store
    }
}

} // verus!
