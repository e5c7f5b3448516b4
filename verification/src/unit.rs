//! Unit model: archetype stats, health, damage, the alive predicate, and the
//! domain errors of the combat core.

use vstd::prelude::*;
use vstd::string::StrSliceExecFns;
use vstd::string::StringExecFns;

verus! {

/// Domain errors of the combat core.
#[derive(Clone, Copy, PartialEq, Eq, Structural, Debug)]
pub enum GameError {
    /// A unit was created with a name that is empty after trimming whitespace.
    InvalidName,
    /// An allocation spent more points than the acting unit's pool. This is a
    /// contract violation by the caller that produced the allocation; it is
    /// reported loudly instead of being clamped away.
    AllocationOverflow,
}

/// The archetype of a combat unit. Stats are a pure function of the archetype
/// and are never mutated.
#[derive(Clone, Copy, PartialEq, Eq, Structural, Debug)]
pub enum UnitType {
    Large,
    Medium,
    Light,
}

/// The Unicode White_Space set: the characters stripped when a name is
/// trimmed.
pub open spec fn is_space(c: char) -> bool {
    let u = c as u32;
    ||| (0x09 <= u && u <= 0x0D)
    ||| u == 0x20
    ||| u == 0x85
    ||| u == 0xA0
    ||| u == 0x1680
    ||| (0x2000 <= u && u <= 0x200A)
    ||| u == 0x2028
    ||| u == 0x2029
    ||| u == 0x202F
    ||| u == 0x205F
    ||| u == 0x3000
}

/// A name is blank when every character is whitespace, so it trims to empty.
pub open spec fn is_blank(s: Seq<char>) -> bool {
    forall|i: int| 0 <= i < s.len() ==> is_space(s[i])
}

impl UnitType {
    /// The stats table as a mathematical function: (max health, base damage).
    pub open spec fn spec_stats(self) -> (int, int) {
        match self {
            UnitType::Large => (120int, 8int),
            UnitType::Medium => (90int, 12int),
            UnitType::Light => (60int, 18int),
        }
    }

    /// Returns the (max health, base damage) pair for this archetype.
    pub fn stats(&self) -> (r: (i32, i32))
        ensures
            r.0 == self.spec_stats().0,
            r.1 == self.spec_stats().1,
    {
        match self {
            UnitType::Large => (120, 8),
            UnitType::Medium => (90, 12),
            UnitType::Light => (60, 18),
        }
    }

    /// Returns a human-readable label for this archetype.
    pub fn as_str(&self) -> (r: &'static str)
        ensures
            *self == UnitType::Large ==> r@ == "Large"@,
            *self == UnitType::Medium ==> r@ == "Medium"@,
            *self == UnitType::Light ==> r@ == "Light"@,
    {
        match self {
            UnitType::Large => "Large",
            UnitType::Medium => "Medium",
            UnitType::Light => "Light",
        }
    }
}

/// A single combat unit. Health is a signed integer: it may go negative
/// during resolution and has no floor there; it is clamped to 0 only for
/// display.
#[derive(Debug)]
pub struct Unit {
    pub name: String,
    pub unit_type: UnitType,
    pub health: i32,
    pub base_damage: i32,
}

/// True when every character of `name` is whitespace, so the name would
/// trim to empty.
fn name_is_blank(name: &str) -> (b: bool)
    ensures
        b == is_blank(name@),
{
    let len = name.unicode_len();
    let mut i: usize = 0;
    while i < len
        invariant
            i <= len,
            len == name@.len(),
            forall|j: int| 0 <= j < i ==> is_space(name@[j]),
        decreases len - i,
    {
        let c = name.get_char(i);
        let u = c as u32;
        let white = (0x09 <= u && u <= 0x0D) || u == 0x20 || u == 0x85 || u == 0xA0 || u == 0x1680
            || (0x2000 <= u && u <= 0x200A) || u == 0x2028 || u == 0x2029 || u == 0x202F
            || u == 0x205F || u == 0x3000;
        if !white {
            assert(!is_space(name@[i as int]));
            return false;
        }
        i = i + 1;
    }
    true
}

impl Unit {
    /// Well-formedness: base damage agrees with the archetype table, health
    /// never exceeds the archetype maximum, and the name does not trim to
    /// empty. Constructors establish it; resolution preserves it.
    pub open spec fn wf(self) -> bool {
        &&& self.base_damage == self.unit_type.spec_stats().1
        &&& self.health <= self.unit_type.spec_stats().0
        &&& !is_blank(self.name@)
    }

    /// Creates a unit from a name and an archetype. A name that is empty
    /// after trimming whitespace is rejected at construction.
    pub fn new(name: &str, unit_type: UnitType) -> (r: Result<Unit, GameError>)
        ensures
            r is Err <==> is_blank(name@),
            r is Err ==> r->Err_0 == GameError::InvalidName,
            r is Ok ==> r->Ok_0.wf(),
            r is Ok ==> r->Ok_0.name@ == name@,
            r is Ok ==> r->Ok_0.unit_type == unit_type,
            r is Ok ==> r->Ok_0.health == unit_type.spec_stats().0,
            r is Ok ==> r->Ok_0.base_damage == unit_type.spec_stats().1,
    {
        if name_is_blank(name) {
            return Err(GameError::InvalidName);
        }
        let (hp, dmg) = unit_type.stats();
        Ok(Unit { name: String::from_str(name), unit_type, health: hp, base_damage: dmg })
    }

    /// Returns true if the unit still has health remaining.
    pub fn is_alive(&self) -> (alive: bool)
        ensures
            alive == (self.health > 0),
    {
        self.health > 0
    }

    /// Health as shown to a display: clamped at 0 from below.
    pub fn display_health(&self) -> (h: i32)
        ensures
            h == if self.health > 0 {
                self.health as int
            } else {
                0
            },
    {
        if self.health > 0 {
            self.health
        } else {
            0
        }
    }
}

} // verus!
