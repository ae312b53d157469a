//! Per-entity skill trees.
//!
//! A skill tree owns a set of skills keyed by name.  Each skill carries a
//! mana cost, a reload timer and an unlocked flag; the reload timer gates
//! re-casting.  `try_cast` is the single gate every cast request goes
//! through: a cast fires only for a known, unlocked skill whose reload has
//! finished, and firing restarts that skill's reload timer; in every other
//! case the tree — the reload timer included — is left untouched.

use vstd::prelude::*;

verus! {

#[derive(Clone, PartialEq, Eq, Debug)]
pub struct Skill {
    pub name: String,
    pub mana_cost: i32,
    /// Time the reload timer has run, in milliseconds, clamped to the duration.
    pub reload_elapsed_ms: u32,
    /// Full reload duration, in milliseconds.
    pub reload_duration_ms: u32,
    pub unlocked: bool,
}

impl Skill {
    pub open spec fn wf(self) -> bool {
        self.reload_elapsed_ms <= self.reload_duration_ms
    }

    pub open spec fn reload_finished(self) -> bool {
        self.reload_elapsed_ms >= self.reload_duration_ms
    }

    /// A skill may be cast when it is unlocked and its reload has finished.
    pub open spec fn castable(self) -> bool {
        self.unlocked && self.reload_finished()
    }
}

/// One skill after `dt` milliseconds of reload progress.
pub open spec fn skill_ticked(s: Skill, dt: int) -> Skill {
    Skill {
        reload_elapsed_ms: if s.reload_elapsed_ms + dt >= s.reload_duration_ms {
            s.reload_duration_ms
        } else {
            (s.reload_elapsed_ms + dt) as u32
        },
        ..s
    }
}

/// One skill with its reload timer restarted.
pub open spec fn skill_reloading(s: Skill) -> Skill {
    Skill { reload_elapsed_ms: 0, ..s }
}

/// One skill with its unlocked flag set.
pub open spec fn skill_unlocked(s: Skill) -> Skill {
    Skill { unlocked: true, ..s }
}

pub struct SkillTree {
    skills: Vec<Skill>,
}

impl View for SkillTree {
    type V = Seq<Skill>;

    closed spec fn view(&self) -> Seq<Skill> {
        self.skills@
    }
}

impl SkillTree {
    /// Skill names are unique, as in a map keyed by name, and every
    /// reload timer is within its duration.
    pub open spec fn wf(self) -> bool {
        &&& forall|i: int, j: int|
            0 <= i < j < self@.len() ==> self@[i].name@ != self@[j].name@
        &&& forall|i: int| 0 <= i < self@.len() ==> (#[trigger] self@[i]).wf()
    }

    pub open spec fn has_skill(self, name: Seq<char>) -> bool {
        exists|i: int| 0 <= i < self@.len() && (#[trigger] self@[i]).name@ == name
    }

    /// Whether the named skill exists and is unlocked.
    pub open spec fn spec_unlocked(self, name: Seq<char>) -> bool {
        exists|i: int|
            0 <= i < self@.len() && (#[trigger] self@[i]).name@ == name && self@[i].unlocked
    }

    pub fn new() -> (tree: SkillTree)
        ensures
            tree@ == Seq::<Skill>::empty(),
            tree.wf(),
    {
        SkillTree { skills: Vec::new() }
    }

    /// Insert a skill under its name, replacing any skill already there.
    pub fn add_skill(&mut self, skill: Skill)
        requires
            old(self).wf(),
            skill.wf(),
        ensures
            final(self).wf(),
            final(self).has_skill(skill.name@),
            old(self).has_skill(skill.name@) ==> {
                &&& final(self)@.len() == old(self)@.len()
                &&& forall|i: int|
                    0 <= i < old(self)@.len() ==> final(self)@[i] == (
                    if old(self)@[i].name@ == skill.name@ {
                        skill
                    } else {
                        old(self)@[i]
                    })
            },
            !old(self).has_skill(skill.name@) ==> final(self)@ == old(self)@.push(skill),
    {
        let n = self.skills.len();
        let mut i: usize = 0;
        while i < n
            invariant
                n == self.skills.len(),
                i <= n,
                self.wf(),
                skill.wf(),
                *self == *old(self),
                forall|k: int| 0 <= k < i ==> self@[k].name@ != skill.name@,
            decreases n - i,
        {
            if self.skills[i].name == skill.name {
                self.skills.set(i, skill);
                proof {
                    assert(self@[i as int].name@ == skill.name@);
                    assert forall|p: int, q: int| 0 <= p < q < self@.len() implies self@[p].name@
                        != self@[q].name@ by {
                        assert(old(self)@[p].name@ != old(self)@[q].name@);
                        assert(self@[p].name@ == old(self)@[p].name@);
                        assert(self@[q].name@ == old(self)@[q].name@);
                    }
                    assert forall|k: int| 0 <= k < self@.len() implies (
                    #[trigger] self@[k]).wf() by {
                        assert(old(self)@[k].wf());
                    }
                }
                return ;
            }
            i += 1;
        }
        self.skills.push(skill);
        proof {
            let last = self@.len() - 1;
            assert(self@[last].name@ == skill.name@);
            assert forall|p: int, q: int| 0 <= p < q < self@.len() implies self@[p].name@
                != self@[q].name@ by {
                if q < last {
                    assert(old(self)@[p].name@ != old(self)@[q].name@);
                } else {
                    assert(self@[p] == old(self)@[p]);
                }
            }
        }
    }

    /// Unlock the named skill; a name not in the tree changes nothing.
    pub fn unlock_skill(&mut self, skill_name: String)
        requires
            old(self).wf(),
        ensures
            final(self).wf(),
            final(self)@.len() == old(self)@.len(),
            forall|i: int|
                0 <= i < old(self)@.len() ==> final(self)@[i] == (
                if old(self)@[i].name@ == skill_name@ {
                    skill_unlocked(old(self)@[i])
                } else {
                    old(self)@[i]
                }),
    {
        let n = self.skills.len();
        let mut i: usize = 0;
        while i < n
            invariant
                n == self.skills.len(),
                i <= n,
                self.wf(),
                *self == *old(self),
                forall|k: int| 0 <= k < i ==> self@[k].name@ != skill_name@,
            decreases n - i,
        {
            if self.skills[i].name == skill_name {
                let s = &mut self.skills[i];
                s.unlocked = true;
                proof {
                    assert(self@ =~= old(self)@.update(
                        i as int,
                        skill_unlocked(old(self)@[i as int]),
                    ));
                }
                return ;
            }
            i += 1;
        }
    }

    /// Borrow the named skill; the name must be present.
    pub fn skill(&self, skill_name: String) -> (r: &Skill)
        requires
            self.has_skill(skill_name@),
        ensures
            r.name@ == skill_name@,
            self@.contains(*r),
    {
        let n = self.skills.len();
        let mut i: usize = 0;
        while i < n
            invariant
                n == self.skills.len(),
                self.has_skill(skill_name@),
                i <= n,
                forall|k: int| 0 <= k < i ==> self@[k].name@ != skill_name@,
            decreases n - i,
        {
            if self.skills[i].name == skill_name {
                return &self.skills[i];
            }
            i += 1;
        }
        proof {
            let w = choose|w: int| 0 <= w < self@.len() && self@[w].name@ == skill_name@;
            assert(self@[w].name@ == skill_name@);
            assert(false);
        }
        &self.skills[0]
    }

    /// Mutably borrow the named skill; the name must be present.
    pub fn skill_mut(&mut self, skill_name: String) -> (r: &mut Skill)
        requires
            old(self).has_skill(skill_name@),
        ensures
            r.name@ == skill_name@,
            exists|i: int|
                {
                    &&& 0 <= i < old(self)@.len()
                    &&& *r == old(self)@[i]
                    &&& final(self)@ == old(self)@.update(i, *final(r))
                },
    {
        let n = self.skills.len();
        let mut i: usize = 0;
        while i < n
            invariant
                n == self.skills.len(),
                old(self).has_skill(skill_name@),
                *self == *old(self),
                i <= n,
                forall|k: int| 0 <= k < i ==> self@[k].name@ != skill_name@,
            decreases n - i,
        {
            if self.skills[i].name == skill_name {
                proof {
                    assert(old(self)@.update(i as int, old(self)@[i as int]) =~= old(self)@);
                }
                return &mut self.skills[i];
            }
            i += 1;
        }
        proof {
            let w = choose|w: int|
                0 <= w < old(self)@.len() && old(self)@[w].name@ == skill_name@;
            assert(self@[w].name@ == skill_name@);
            assert(false);
        }
        &mut self.skills[0]
    }

    /// Whether the named skill exists and is unlocked.
    pub fn unlocked(&self, skill_name: String) -> (b: bool)
        requires
            self.wf(),
        ensures
            b == self.spec_unlocked(skill_name@),
    {
        let n = self.skills.len();
        let mut i: usize = 0;
        while i < n
            invariant
                n == self.skills.len(),
                self.wf(),
                i <= n,
                forall|k: int| 0 <= k < i ==> self@[k].name@ != skill_name@,
            decreases n - i,
        {
            if self.skills[i].name == skill_name {
                let b = self.skills[i].unlocked;
                proof {
                    if b {
                        assert((#[trigger] self@[i as int]).name@ == skill_name@
                            && self@[i as int].unlocked);
                    }
                    if !b {
                        assert forall|j: int|
                            0 <= j < self@.len() && (#[trigger] self@[j]).name@ == skill_name@
                                implies !self@[j].unlocked by {
                            if j < i as int {
                                assert(self@[j].name@ != self@[i as int].name@);
                            } else if j > i as int {
                                assert(self@[i as int].name@ != self@[j].name@);
                            }
                        }
                    }
                }
                return b;
            }
            i += 1;
        }
        false
    }

    /// Advance every skill's reload timer by one tick.
    pub fn tick(&mut self, dt_ms: u32)
        requires
            old(self).wf(),
        ensures
            final(self).wf(),
            final(self)@.len() == old(self)@.len(),
            forall|i: int|
                0 <= i < old(self)@.len() ==> final(self)@[i] == skill_ticked(
                    old(self)@[i],
                    dt_ms as int,
                ),
    {
        let n = self.skills.len();
        let mut i: usize = 0;
        while i < n
            invariant
                n == self.skills.len(),
                old(self).wf(),
                i <= n,
                self@.len() == old(self)@.len(),
                forall|k: int|
                    0 <= k < i ==> self@[k] == skill_ticked(old(self)@[k], dt_ms as int),
                forall|k: int| i <= k < n ==> self@[k] == old(self)@[k],
            decreases n - i,
        {
            let s = &mut self.skills[i];
            let run: u64 = s.reload_elapsed_ms as u64 + dt_ms as u64;
            if run >= s.reload_duration_ms as u64 {
                s.reload_elapsed_ms = s.reload_duration_ms;
            } else {
                s.reload_elapsed_ms = run as u32;
            }
            i += 1;
        }
    }

    /// The cast gate: fire the named skill if it exists, is unlocked and
    /// its reload has finished, restarting the reload timer.  Any other
    /// request leaves the whole tree — reload timers included — unchanged.
    pub fn try_cast(&mut self, skill_name: String) -> (fired: bool)
        requires
            old(self).wf(),
        ensures
            final(self).wf(),
            fired == exists|i: int|
                0 <= i < old(self)@.len() && (#[trigger] old(self)@[i]).name@ == skill_name@
                    && old(self)@[i].castable(),
            !fired ==> final(self)@ == old(self)@,
            fired ==> exists|i: int|
                {
                    &&& 0 <= i < old(self)@.len()
                    &&& (#[trigger] old(self)@[i]).name@ == skill_name@
                    &&& old(self)@[i].castable()
                    &&& final(self)@ == old(self)@.update(i, skill_reloading(old(self)@[i]))
                },
    {
        let n = self.skills.len();
        let mut i: usize = 0;
        while i < n
            invariant
                n == self.skills.len(),
                old(self).wf(),
                *self == *old(self),
                i <= n,
                forall|k: int| 0 <= k < i ==> self@[k].name@ != skill_name@,
            decreases n - i,
        {
            if self.skills[i].name == skill_name {
                if self.skills[i].unlocked && self.skills[i].reload_elapsed_ms
                    >= self.skills[i].reload_duration_ms {
                    let s = &mut self.skills[i];
                    s.reload_elapsed_ms = 0;
                    proof {
                        assert(self@ =~= old(self)@.update(
                            i as int,
                            skill_reloading(old(self)@[i as int]),
                        ));
                    }
                    return true;
                } else {
                    return false;
                }
            }
            i += 1;
        }
        false
    }
}

} // verus!
