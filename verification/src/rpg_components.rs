//! Character sheet components: attributes with current/maximum values and
//! derived bonuses, and the skill table with its dice-modifier lookup.

use vstd::prelude::*;

verus! {

/// The six character attributes.
#[derive(Copy, Clone, PartialEq, Eq, Structural, Debug)]
pub enum AttributeType {
    Strength,
    Dexterity,
    Endurance,
    Intelligence,
    Education,
    Charm,
}

/// The bonus an attribute value confers on skill checks.
pub open spec fn bonus_spec(current: int) -> int {
    if current <= 0 {
        -3
    } else if current <= 2 {
        -2
    } else if current <= 5 {
        -1
    } else if current <= 8 {
        0
    } else if current <= 11 {
        1
    } else if current <= 14 {
        2
    } else {
        3
    }
}

/// Holds the current and maximum value of one attribute.
#[derive(Copy, Clone, PartialEq, Eq, Structural, Debug)]
pub struct AttributeValue {
    pub current: i32,
    pub max: i32,
}

impl AttributeValue {
    pub fn new(value: i32) -> (r: Self)
        ensures
            r.current == value,
            r.max == value,
    {
        Self { current: value, max: value }
    }

    /// The current value of the attribute, consulted whenever the game
    /// checks it.
    pub fn current(&self) -> (r: i32)
        ensures
            r == self.current,
    {
        self.current
    }

    /// The maximum value of the attribute.
    pub fn max(&self) -> (r: i32)
        ensures
            r == self.max,
    {
        self.max
    }

    /// The current bonus of the attribute, used for almost all skill checks.
    pub fn bonus(&self) -> (r: i32)
        ensures
            r as int == bonus_spec(self.current as int),
    {
        if self.current <= 0 {
            -3
        } else if self.current <= 2 {
            -2
        } else if self.current <= 5 {
            -1
        } else if self.current <= 8 {
            0
        } else if self.current <= 11 {
            1
        } else if self.current <= 14 {
            2
        } else {
            3
        }
    }

    /// Heals the attribute by a positive delta, clamped at its maximum; a
    /// non-positive delta changes nothing.
    pub fn heal(&mut self, delta: i32)
        requires
            old(self).current + delta <= i32::MAX,
        ensures
            final(self).max == old(self).max,
            final(self).current == if delta > 0 {
                if old(self).current + delta <= old(self).max {
                    old(self).current + delta
                } else {
                    old(self).max as int
                }
            } else {
                old(self).current as int
            },
    {
        if delta > 0 {
            if self.current + delta <= self.max {
                self.current = self.current + delta;
            } else {
                self.current = self.max;
            }
        }
    }

    /// Damages the attribute by a positive delta; a non-positive delta
    /// changes nothing. There is no floor: the current value may go
    /// negative.
    pub fn damage(&mut self, delta: i32)
        requires
            old(self).current - delta >= i32::MIN,
        ensures
            final(self).max == old(self).max,
            final(self).current == if delta > 0 {
                old(self).current - delta
            } else {
                old(self).current as int
            },
    {
        if delta > 0 {
            self.current = self.current - delta;
        }
    }
}

/// Component that stores the attributes of a character.
#[derive(Copy, Clone, PartialEq, Eq, Structural, Debug)]
pub struct Attributes {
    /// Natural physical strength.
    pub strength: AttributeValue,
    /// Agility, reflexes, coordination and fine motor control.
    pub dexterity: AttributeValue,
    /// Physical stamina, determination and ability to sustain damage.
    pub endurance: AttributeValue,
    /// Raw intelligence and quickness of mind.
    pub intelligence: AttributeValue,
    /// Lifetime learning and experience in intellectual pursuits.
    pub education: AttributeValue,
    /// Untrained charisma and social aptitude.
    pub charm: AttributeValue,
}

impl Attributes {
    /// The attribute value stored for the given attribute type.
    pub open spec fn spec_attribute(&self, attribute: AttributeType) -> AttributeValue {
        match attribute {
            AttributeType::Strength => self.strength,
            AttributeType::Dexterity => self.dexterity,
            AttributeType::Endurance => self.endurance,
            AttributeType::Intelligence => self.intelligence,
            AttributeType::Education => self.education,
            AttributeType::Charm => self.charm,
        }
    }

    pub fn new(
        strength: i32,
        dexterity: i32,
        endurance: i32,
        intelligence: i32,
        education: i32,
        charm: i32,
    ) -> (r: Self)
        ensures
            r.strength == (AttributeValue { current: strength, max: strength }),
            r.dexterity == (AttributeValue { current: dexterity, max: dexterity }),
            r.endurance == (AttributeValue { current: endurance, max: endurance }),
            r.intelligence == (AttributeValue { current: intelligence, max: intelligence }),
            r.education == (AttributeValue { current: education, max: education }),
            r.charm == (AttributeValue { current: charm, max: charm }),
    {
        Self {
            strength: AttributeValue::new(strength),
            dexterity: AttributeValue::new(dexterity),
            endurance: AttributeValue::new(endurance),
            intelligence: AttributeValue::new(intelligence),
            education: AttributeValue::new(education),
            charm: AttributeValue::new(charm),
        }
    }

    /// An unremarkable character: every attribute at 7.
    pub fn default() -> (r: Self)
        ensures
            (forall|a: AttributeType| r.spec_attribute(a) == (AttributeValue { current: 7, max: 7 })),
    {
        Self {
            strength: AttributeValue::new(7),
            dexterity: AttributeValue::new(7),
            endurance: AttributeValue::new(7),
            intelligence: AttributeValue::new(7),
            education: AttributeValue::new(7),
            charm: AttributeValue::new(7),
        }
    }

    /// Provides the value of a specific attribute.
    pub fn attribute(&self, attribute: AttributeType) -> (r: &AttributeValue)
        ensures
            *r == self.spec_attribute(attribute),
    {
        match attribute {
            AttributeType::Strength => &self.strength,
            AttributeType::Dexterity => &self.dexterity,
            AttributeType::Endurance => &self.endurance,
            AttributeType::Intelligence => &self.intelligence,
            AttributeType::Education => &self.education,
            AttributeType::Charm => &self.charm,
        }
    }

    /// Provides access to a specific attribute of a mutably held character
    /// sheet; the sheet itself is left unchanged.
    pub fn mut_attribute(&mut self, attribute: AttributeType) -> (r: &AttributeValue)
        ensures
            *final(self) == *old(self),
            *r == old(self).spec_attribute(attribute),
    {
        match attribute {
            AttributeType::Strength => &self.strength,
            AttributeType::Dexterity => &self.dexterity,
            AttributeType::Endurance => &self.endurance,
            AttributeType::Intelligence => &self.intelligence,
            AttributeType::Education => &self.education,
            AttributeType::Charm => &self.charm,
        }
    }
}

/// The skill table as a map from skill to training level: later entries of
/// the backing list win, as with repeated insertions.
pub open spec fn skills_map(s: Seq<(SkillType, i32)>) -> Map<SkillType, int>
    decreases s.len(),
{
    if s.len() == 0 {
        Map::empty()
    } else {
        skills_map(s.drop_last()).insert(s.last().0, s.last().1 as int)
    }
}

/// Whether each skill occurs at most once in the backing list.
pub open spec fn unique_skill_keys(s: Seq<(SkillType, i32)>) -> bool {
    forall|i: int, j: int|
        0 <= i < j < s.len() ==> (#[trigger] s[i]).0 != (#[trigger] s[j]).0
}

/// The general skill a specialized skill belongs to, if any.
pub open spec fn base_skill_spec(skill: SkillType) -> Option<SkillType> {
    match skill {
        SkillType::MeleeUnarmed => Some(SkillType::Melee),
        SkillType::MeleeBlades => Some(SkillType::Melee),
        SkillType::MeleeBludgeoning => Some(SkillType::Melee),
        SkillType::RangedOneHanded => Some(SkillType::Ranged),
        SkillType::RangedTwoHanded => Some(SkillType::Ranged),
        SkillType::HeavyWeaponsArtillery => Some(SkillType::HeavyWeapons),
        SkillType::HeavyWeaponsPortable => Some(SkillType::HeavyWeapons),
        SkillType::HeavyWeaponsVehicle => Some(SkillType::HeavyWeapons),
        SkillType::AthleticsDexterity => Some(SkillType::Athletics),
        SkillType::AthleticsEndurance => Some(SkillType::Athletics),
        SkillType::AthleticsStrength => Some(SkillType::Athletics),
        SkillType::DriveWheels => Some(SkillType::Drive),
        SkillType::DriveWalker => Some(SkillType::Drive),
        SkillType::DriveTracked => Some(SkillType::Drive),
        _ => None,
    }
}

/// The table built by `Skills::new`: for each given entry in order, first the
/// base skill (at level 0) when the skill has one, then the entry itself.
pub open spec fn new_skills_spec(entries: Seq<(SkillType, i32)>) -> Map<SkillType, int>
    decreases entries.len(),
{
    if entries.len() == 0 {
        Map::empty()
    } else {
        let prev = new_skills_spec(entries.drop_last());
        let e = entries.last();
        match base_skill_spec(e.0) {
            Some(b) => prev.insert(b, 0).insert(e.0, e.1 as int),
            None => prev.insert(e.0, e.1 as int),
        }
    }
}

/// The dice modifier a skill table yields for a skill: the trained level
/// when the skill itself is known; 0 for an untrained specialty of a known
/// general skill; -3 otherwise.
pub open spec fn dm_spec(m: Map<SkillType, int>, skill: SkillType) -> int {
    if m.dom().contains(skill) {
        m[skill]
    } else {
        match base_skill_spec(skill) {
            Some(b) => if m.dom().contains(b) {
                0
            } else {
                -3
            },
            None => -3,
        }
    }
}

/// In a list without repeated skills, `skills_map` holds exactly the listed
/// entries.
pub proof fn lemma_skills_map_lookup(s: Seq<(SkillType, i32)>, skill: SkillType)
    requires
        unique_skill_keys(s),
    ensures
        skills_map(s).dom().contains(skill) <==> (exists|i: int|
            0 <= i < s.len() && (#[trigger] s[i]).0 == skill),
        forall|i: int|
            0 <= i < s.len() && (#[trigger] s[i]).0 == skill ==> skills_map(s)[skill] == s[i].1
                as int,
    decreases s.len(),
{
    if s.len() > 0 {
        assert(forall|i: int, j: int|
            0 <= i < j < s.drop_last().len() ==> (#[trigger] s.drop_last()[i]).0
                != (#[trigger] s.drop_last()[j]).0);
        lemma_skills_map_lookup(s.drop_last(), skill);
        if s.last().0 == skill {
        } else {
            assert(forall|i: int|
                0 <= i < s.len() - 1 ==> #[trigger] s[i] == s.drop_last()[i]);
        }
    }
}

/// Updating the entry that holds a skill acts on the map as an insertion.
pub proof fn lemma_skills_map_update(s: Seq<(SkillType, i32)>, i: int, v: i32)
    requires
        unique_skill_keys(s),
        0 <= i < s.len(),
    ensures
        skills_map(s.update(i, (s[i].0, v))) == skills_map(s).insert(s[i].0, v as int),
        unique_skill_keys(s.update(i, (s[i].0, v))),
    decreases s.len(),
{
    let t = s.update(i, (s[i].0, v));
    assert(forall|j: int| 0 <= j < s.len() && j != i ==> #[trigger] t[j] == s[j]);
    if i == s.len() - 1 {
        assert(t.drop_last() =~= s.drop_last());
        assert(skills_map(t) =~= skills_map(s).insert(s[i].0, v as int));
    } else {
        assert(forall|j: int, k: int|
            0 <= j < k < s.drop_last().len() ==> (#[trigger] s.drop_last()[j]).0
                != (#[trigger] s.drop_last()[k]).0);
        lemma_skills_map_update(s.drop_last(), i, v);
        assert(t.drop_last() =~= s.drop_last().update(i, (s[i].0, v)));
        assert(t.last() == s.last());
        assert(s.last().0 != s[i].0);
        assert(skills_map(t) =~= skills_map(s).insert(s[i].0, v as int));
    }
}

/// Component that holds all of the skills a character is trained in.
#[derive(Clone, Debug)]
pub struct Skills {
    /// Skill/level pairs; each skill occurs at most once.
    pub known_skills: Vec<(SkillType, i32)>,
}

impl Skills {
    /// The map of known skills to their levels.
    pub open spec fn skills(&self) -> Map<SkillType, int> {
        skills_map(self.known_skills@)
    }

    /// The table holds each skill at most once.
    pub open spec fn wf(&self) -> bool {
        unique_skill_keys(self.known_skills@)
    }

    /// Builds the full skill table from the skills a character knows,
    /// adding the base skill of every listed specialty (at level 0) without
    /// it needing to be made explicit.
    pub fn new(skills: Vec<(SkillType, i32)>) -> (r: Self)
        ensures
            r.wf(),
            r.skills() == new_skills_spec(skills@),
    {
        let mut known_skills: Vec<(SkillType, i32)> = Vec::new();
        let mut k: usize = 0;
        while k < skills.len()
            invariant
                k <= skills.len(),
                unique_skill_keys(known_skills@),
                skills_map(known_skills@) == new_skills_spec(skills@.take(k as int)),
            decreases skills.len() - k,
        {
            let (skill, level) = skills[k];
            match Skills::get_base_skill(skill) {
                Some(base_skill) => {
                    insert_skill(&mut known_skills, base_skill, 0);
                },
                None => {},
            }
            insert_skill(&mut known_skills, skill, level);
            proof {
                assert(skills@.take(k + 1).drop_last() =~= skills@.take(k as int));
                assert(skills@.take(k + 1).last() == skills@[k as int]);
            }
            k = k + 1;
        }
        proof {
            assert(skills@.take(skills@.len() as int) =~= skills@);
        }
        Self { known_skills }
    }

    /// The general skill a specialized skill belongs to, if any.
    fn get_base_skill(skill: SkillType) -> (r: Option<SkillType>)
        ensures
            r == base_skill_spec(skill),
    {
        match skill {
            SkillType::MeleeUnarmed => Some(SkillType::Melee),
            SkillType::MeleeBlades => Some(SkillType::Melee),
            SkillType::MeleeBludgeoning => Some(SkillType::Melee),
            SkillType::RangedOneHanded => Some(SkillType::Ranged),
            SkillType::RangedTwoHanded => Some(SkillType::Ranged),
            SkillType::HeavyWeaponsArtillery => Some(SkillType::HeavyWeapons),
            SkillType::HeavyWeaponsPortable => Some(SkillType::HeavyWeapons),
            SkillType::HeavyWeaponsVehicle => Some(SkillType::HeavyWeapons),
            SkillType::AthleticsDexterity => Some(SkillType::Athletics),
            SkillType::AthleticsEndurance => Some(SkillType::Athletics),
            SkillType::AthleticsStrength => Some(SkillType::Athletics),
            SkillType::DriveWheels => Some(SkillType::Drive),
            SkillType::DriveWalker => Some(SkillType::Drive),
            SkillType::DriveTracked => Some(SkillType::Drive),
            _ => None,
        }
    }

    /// The dice modifier for a skill check: the trained level when the skill
    /// is known, 0 for an untrained specialty whose general skill is known,
    /// and -3 otherwise.
    pub fn get_dm(&self, skill: SkillType) -> (r: i32)
        requires
            self.wf(),
        ensures
            r as int == dm_spec(self.skills(), skill),
    {
        proof {
            lemma_skills_map_lookup(self.known_skills@, skill);
        }
        match (
            lookup_skill(&self.known_skills, skill),
            Skills::get_base_skill(skill),
        ) {
            (Some(skill_val), _) => skill_val,
            (None, Some(base_skill)) => {
                proof {
                    lemma_skills_map_lookup(self.known_skills@, base_skill);
                }
                if lookup_skill(&self.known_skills, base_skill).is_some() {
                    0
                } else {
                    -3
                }
            },
            (None, None) => -3,
        }
    }
}

/// Finds the level stored for a skill, scanning the backing list.
fn lookup_skill(list: &Vec<(SkillType, i32)>, skill: SkillType) -> (r: Option<i32>)
    requires
        unique_skill_keys(list@),
    ensures
        r is Some <==> (exists|i: int| 0 <= i < list@.len() && (#[trigger] list@[i]).0 == skill),
        r matches Some(v) ==> (exists|i: int|
            0 <= i < list@.len() && (#[trigger] list@[i]).0 == skill && list@[i].1 == v),
{
    let mut k: usize = 0;
    while k < list.len()
        invariant
            k <= list.len(),
            forall|j: int| 0 <= j < k ==> (#[trigger] list@[j]).0 != skill,
        decreases list.len() - k,
    {
        if list[k].0 == skill {
            return Some(list[k].1);
        }
        k = k + 1;
    }
    None
}

/// Stores a level for a skill: overwrites the existing entry when the skill
/// is already listed, appends otherwise.
fn insert_skill(list: &mut Vec<(SkillType, i32)>, skill: SkillType, value: i32)
    requires
        unique_skill_keys(old(list)@),
    ensures
        unique_skill_keys(final(list)@),
        skills_map(final(list)@) == skills_map(old(list)@).insert(skill, value as int),
{
    let mut k: usize = 0;
    while k < list.len()
        invariant
            k <= list.len(),
            list@ == old(list)@,
            unique_skill_keys(old(list)@),
            forall|j: int| 0 <= j < k ==> (#[trigger] list@[j]).0 != skill,
        decreases list.len() - k,
    {
        if list[k].0 == skill {
            list.set(k, (skill, value));
            proof {
                lemma_skills_map_update(old(list)@, k as int, value);
            }
            return ;
        }
        k = k + 1;
    }
    list.push((skill, value));
    proof {
        assert(final(list)@.drop_last() =~= old(list)@);
        assert(forall|j: int|
            0 <= j < old(list)@.len() ==> #[trigger] final(list)@[j] == old(list)@[j]);
    }
}

/// All skills a character can train, general skills and specialties alike.
#[derive(Copy, Clone, Debug, PartialEq, Eq, Structural, Hash)]
pub enum SkillType {
    Melee,
    MeleeUnarmed,
    MeleeBlades,
    MeleeBludgeoning,
    Ranged,
    RangedOneHanded,
    RangedTwoHanded,
    Explosives,
    HeavyWeapons,
    HeavyWeaponsArtillery,
    HeavyWeaponsPortable,
    HeavyWeaponsVehicle,
    Broker,
    Persuade,
    Streetwise,
    Deception,
    Leadership,
    Diplomat,
    Electronics,
    Investigate,
    Mechanic,
    Medic,
    Admin,
    Advocate,
    Science,
    LanguageBasic,
    LanguageBinaricCant,
    LanguageOuterAsh,
    Athletics,
    AthleticsDexterity,
    AthleticsEndurance,
    AthleticsStrength,
    Stealth,
    Survival,
    Recon,
    AnimalHandling,
    Carouse,
    Drive,
    DriveWheels,
    DriveWalker,
    DriveTracked,
    Gambler,
    Navigation,
    VaccSuit,
}

} // verus!
