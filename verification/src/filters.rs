//! Filters that pick kills out of an analysis.

use crate::heatmap_analyser::Death;
use crate::heatmap_analyser::PlayerState;
use crate::heatmap_analyser::Team;
use vstd::prelude::*;

verus! {

/// A comparison of two numbers.
#[derive(Debug, Clone, Copy, PartialEq, Eq, Structural, Hash)]
pub enum OrderedOperator {
    Equal,
    NotEqual,
    Greater,
    Smaller,
    GreaterOrEqual,
    SmallerOrEqual,
}

impl OrderedOperator {
    /// Every comparison, in the order in which they are offered.
    pub fn all() -> (operators: [OrderedOperator; 6])
        ensures
            operators@ == seq![
                OrderedOperator::Equal,
                OrderedOperator::NotEqual,
                OrderedOperator::Greater,
                OrderedOperator::Smaller,
                OrderedOperator::GreaterOrEqual,
                OrderedOperator::SmallerOrEqual,
            ],
    {
        [
            OrderedOperator::Equal,
            OrderedOperator::NotEqual,
            OrderedOperator::Greater,
            OrderedOperator::Smaller,
            OrderedOperator::GreaterOrEqual,
            OrderedOperator::SmallerOrEqual,
        ]
    }

    /// Whether `left` stands to `right` as this comparison says.
    pub open spec fn holds(self, left: int, right: int) -> bool {
        match self {
            OrderedOperator::Equal => left == right,
            OrderedOperator::NotEqual => left != right,
            OrderedOperator::Greater => left > right,
            OrderedOperator::Smaller => left < right,
            OrderedOperator::GreaterOrEqual => left >= right,
            OrderedOperator::SmallerOrEqual => left <= right,
        }
    }

    /// Whether `left` stands to `right` as this comparison says.
    pub fn compare(self, left: u32, right: u32) -> (holds: bool)
        ensures
            holds == self.holds(left as int, right as int),
    {
        match self {
            OrderedOperator::Equal => left == right,
            OrderedOperator::NotEqual => left != right,
            OrderedOperator::Greater => left > right,
            OrderedOperator::Smaller => left < right,
            OrderedOperator::GreaterOrEqual => left >= right,
            OrderedOperator::SmallerOrEqual => left <= right,
        }
    }

    /// The sign of this comparison.
    pub open spec fn spec_label(self) -> Seq<char> {
        match self {
            OrderedOperator::Equal => "="@,
            OrderedOperator::NotEqual => "\u{2260}"@,
            OrderedOperator::Greater => ">"@,
            OrderedOperator::Smaller => "<"@,
            OrderedOperator::GreaterOrEqual => "\u{2265}"@,
            OrderedOperator::SmallerOrEqual => "\u{2264}"@,
        }
    }

    /// The sign of this comparison.
    pub fn label(self) -> (text: &'static str)
        ensures
            text@ == self.spec_label(),
    {
        match self {
            OrderedOperator::Equal => "=",
            OrderedOperator::NotEqual => "\u{2260}",
            OrderedOperator::Greater => ">",
            OrderedOperator::Smaller => "<",
            OrderedOperator::GreaterOrEqual => "\u{2265}",
            OrderedOperator::SmallerOrEqual => "\u{2264}",
        }
    }
}

impl Default for OrderedOperator {
    fn default() -> (operator: OrderedOperator)
        ensures
            operator == OrderedOperator::Equal,
    {
        OrderedOperator::Equal
    }
}

/// Whether a property is asked to hold or not to hold.
#[derive(Debug, Clone, Copy, PartialEq, Eq, Structural, Hash)]
pub enum PropertyOperator {
    IsPresent,
    IsNotPresent,
}

impl PropertyOperator {
    /// Both operators, in the order in which they are offered.
    pub fn all() -> (operators: [PropertyOperator; 2])
        ensures
            operators@ == seq![PropertyOperator::IsPresent, PropertyOperator::IsNotPresent],
    {
        [PropertyOperator::IsPresent, PropertyOperator::IsNotPresent]
    }

    /// The words for this operator.
    pub open spec fn spec_label(self) -> Seq<char> {
        match self {
            PropertyOperator::IsPresent => "present"@,
            PropertyOperator::IsNotPresent => "not present"@,
        }
    }

    /// The words for this operator.
    pub fn label(self) -> (text: &'static str)
        ensures
            text@ == self.spec_label(),
    {
        match self {
            PropertyOperator::IsPresent => "present",
            PropertyOperator::IsNotPresent => "not present",
        }
    }
}

impl Default for PropertyOperator {
    fn default() -> (operator: PropertyOperator)
        ensures
            operator == PropertyOperator::IsPresent,
    {
        PropertyOperator::IsPresent
    }
}

/// A property that a kill has or has not.
#[derive(Debug, Clone, Copy, PartialEq, Eq, Structural, Hash)]
pub enum Property {
    /// The killer is the victim.
    Suicide,
    /// The killer was not alive any more.
    Posthumous,
}

impl Property {
    /// Both properties, in the order in which they are offered.
    pub fn all() -> (properties: [Property; 2])
        ensures
            properties@ == seq![Property::Suicide, Property::Posthumous],
    {
        [Property::Suicide, Property::Posthumous]
    }

    /// Whether `death` has this property.
    pub open spec fn holds_of(self, death: Death) -> bool {
        match self {
            Property::Suicide => death.killer == death.victim,
            Property::Posthumous => match death.killer_entity_state {
                Some(killer) => killer.state != PlayerState::Alive,
                None => true,
            },
        }
    }

    /// The name of this property.
    pub open spec fn spec_label(self) -> Seq<char> {
        match self {
            Property::Suicide => "Suicide"@,
            Property::Posthumous => "Posthumous"@,
        }
    }

    /// The name of this property.
    pub fn label(self) -> (text: &'static str)
        ensures
            text@ == self.spec_label(),
    {
        match self {
            Property::Suicide => "Suicide",
            Property::Posthumous => "Posthumous",
        }
    }
}

impl Default for Property {
    fn default() -> (property: Property)
        ensures
            property == Property::Suicide,
    {
        Property::Suicide
    }
}

/// A condition on kills.
pub trait FilterTrait {
    /// Whether `death` meets the condition.
    spec fn matches(&self, death: Death) -> bool;

    /// Whether `death` meets the condition.
    fn apply(&self, death: &Death) -> (met: bool)
        ensures
            met == self.matches(*death),
    ;
}

/// Kills whose killer is known to be on a team.
#[derive(Debug, Clone, Copy, PartialEq, Eq)]
pub struct KillerTeamFilter {
    pub team: Team,
}

impl FilterTrait for KillerTeamFilter {
    open spec fn matches(&self, death: Death) -> bool {
        match death.killer_entity_state {
            Some(killer) => killer.team == self.team,
            None => false,
        }
    }

    fn apply(&self, death: &Death) -> (met: bool) {
        match &death.killer_entity_state {
            Some(killer) => killer.team == self.team,
            None => false,
        }
    }
}

/// Kills whose victim is known to be on a team.
#[derive(Debug, Clone, Copy, PartialEq, Eq)]
pub struct VictimTeamFilter {
    pub team: Team,
}

impl FilterTrait for VictimTeamFilter {
    open spec fn matches(&self, death: Death) -> bool {
        match death.victim_entity_state {
            Some(victim) => victim.team == self.team,
            None => false,
        }
    }

    fn apply(&self, death: &Death) -> (met: bool) {
        match &death.victim_entity_state {
            Some(victim) => victim.team == self.team,
            None => false,
        }
    }
}

/// Kills whose killer is known to play one of the classes that are switched on, by the
/// number of the class.
#[derive(Debug, Clone, Copy, PartialEq, Eq)]
pub struct KillerClassFilter {
    pub classes: [bool; 10],
}

impl FilterTrait for KillerClassFilter {
    open spec fn matches(&self, death: Death) -> bool {
        match death.killer_entity_state {
            Some(killer) => self.classes@[killer.class.spec_index() as int],
            None => false,
        }
    }

    fn apply(&self, death: &Death) -> (met: bool) {
        match &death.killer_entity_state {
            Some(killer) => self.classes[killer.class.index()],
            None => false,
        }
    }
}

/// Kills whose victim is known to play one of the classes that are switched on, by the
/// number of the class.
#[derive(Debug, Clone, Copy, PartialEq, Eq)]
pub struct VictimClassFilter {
    pub classes: [bool; 10],
}

impl FilterTrait for VictimClassFilter {
    open spec fn matches(&self, death: Death) -> bool {
        match death.victim_entity_state {
            Some(victim) => self.classes@[victim.class.spec_index() as int],
            None => false,
        }
    }

    fn apply(&self, death: &Death) -> (met: bool) {
        match &death.victim_entity_state {
            Some(victim) => self.classes[victim.class.index()],
            None => false,
        }
    }
}

/// Kills of the rounds whose number compares to `round` as `op` says.
#[derive(Debug, Clone, Copy, PartialEq, Eq)]
pub struct RoundFilter {
    pub op: OrderedOperator,
    pub round: u32,
}

impl FilterTrait for RoundFilter {
    open spec fn matches(&self, death: Death) -> bool {
        self.op.holds(death.round as int, self.round as int)
    }

    fn apply(&self, death: &Death) -> (met: bool) {
        self.op.compare(death.round, self.round)
    }
}

/// Kills that have, or have not, a property.
#[derive(Debug, Clone, Copy, PartialEq, Eq)]
pub struct PropertyFilter {
    pub op: PropertyOperator,
    pub property: Property,
}

impl FilterTrait for PropertyFilter {
    open spec fn matches(&self, death: Death) -> bool {
        match self.op {
            PropertyOperator::IsPresent => self.property.holds_of(death),
            PropertyOperator::IsNotPresent => !self.property.holds_of(death),
        }
    }

    fn apply(&self, death: &Death) -> (met: bool) {
        let ret = match self.property {
            Property::Suicide => death.killer.0 == death.victim.0,
            Property::Posthumous => match &death.killer_entity_state {
                Some(killer) => match killer.state {
                    PlayerState::Alive => false,
                    _ => true,
                },
                None => true,
            },
        };
        match self.op {
            PropertyOperator::IsPresent => ret,
            PropertyOperator::IsNotPresent => !ret,
        }
    }
}

/// Any of the conditions on kills that are decided on teams, classes, rounds and
/// properties.
#[derive(Debug, Clone, Copy, PartialEq, Eq)]
pub enum Filter {
    KillerTeamFilter(KillerTeamFilter),
    VictimTeamFilter(VictimTeamFilter),
    KillerClassFilter(KillerClassFilter),
    VictimClassFilter(VictimClassFilter),
    RoundFilter(RoundFilter),
    PropertyFilter(PropertyFilter),
}

impl FilterTrait for Filter {
    open spec fn matches(&self, death: Death) -> bool {
        match *self {
            Filter::KillerTeamFilter(filter) => filter.matches(death),
            Filter::VictimTeamFilter(filter) => filter.matches(death),
            Filter::KillerClassFilter(filter) => filter.matches(death),
            Filter::VictimClassFilter(filter) => filter.matches(death),
            Filter::RoundFilter(filter) => filter.matches(death),
            Filter::PropertyFilter(filter) => filter.matches(death),
        }
    }

    fn apply(&self, death: &Death) -> (met: bool) {
        match self {
            Filter::KillerTeamFilter(filter) => filter.apply(death),
            Filter::VictimTeamFilter(filter) => filter.apply(death),
            Filter::KillerClassFilter(filter) => filter.apply(death),
            Filter::VictimClassFilter(filter) => filter.apply(death),
            Filter::RoundFilter(filter) => filter.apply(death),
            Filter::PropertyFilter(filter) => filter.apply(death),
        }
    }
}

/// Whether `death` meets every condition of `filters`.
pub open spec fn meets_all(filters: Seq<Filter>, death: Death) -> bool {
    forall|i: int| 0 <= i < filters.len() ==> (#[trigger] filters[i]).matches(death)
}

/// Whether `death` meets every condition of `filters`.
pub fn apply_all(filters: &Vec<Filter>, death: &Death) -> (met: bool)
    ensures
        met == meets_all(filters@, *death),
{
    let mut i: usize = 0;
    while i < filters.len()
        invariant
            i <= filters.len(),
            forall|k: int| 0 <= k < i ==> (#[trigger] filters@[k]).matches(*death),
        decreases filters.len() - i,
    {
        if !filters[i].apply(death) {
            return false;
        }
        i += 1;
    }
    true
}

} // verus!
