//! What a user picks to make a filter, and the filter that the picks make.

use crate::filters::Filter;
use crate::filters::KillerClassFilter;
use crate::filters::KillerTeamFilter;
use crate::filters::OrderedOperator;
use crate::filters::Property;
use crate::filters::PropertyFilter;
use crate::filters::PropertyOperator;
use crate::filters::RoundFilter;
use crate::filters::VictimClassFilter;
use crate::filters::VictimTeamFilter;
use crate::heatmap_analyser::Team;
use crate::text::parse_u32;
use crate::text::spec_parse_unsigned;
use vstd::prelude::*;

verus! {

/// The kinds of filter that are on offer.
#[derive(Debug, Clone, Copy, PartialEq, Eq, Structural, Hash)]
pub enum FilterType {
    KillerTeamFilter,
    VictimTeamFilter,
    KillerClassFilter,
    VictimClassFilter,
    KillerElevationFilter,
    VictimElevationFilter,
    Distance2DFilter,
    Distance3DFilter,
    RoundFilter,
    PropertyFilter,
}

impl FilterType {
    /// Every kind of filter, in the order in which they are offered.
    pub fn all() -> (kinds: [FilterType; 10])
        ensures
            kinds@ == seq![
                FilterType::KillerTeamFilter,
                FilterType::VictimTeamFilter,
                FilterType::KillerClassFilter,
                FilterType::VictimClassFilter,
                FilterType::KillerElevationFilter,
                FilterType::VictimElevationFilter,
                FilterType::Distance2DFilter,
                FilterType::Distance3DFilter,
                FilterType::RoundFilter,
                FilterType::PropertyFilter,
            ],
    {
        [
            FilterType::KillerTeamFilter,
            FilterType::VictimTeamFilter,
            FilterType::KillerClassFilter,
            FilterType::VictimClassFilter,
            FilterType::KillerElevationFilter,
            FilterType::VictimElevationFilter,
            FilterType::Distance2DFilter,
            FilterType::Distance3DFilter,
            FilterType::RoundFilter,
            FilterType::PropertyFilter,
        ]
    }

    /// Whether a filter of this kind compares a measured length, which `Filter` does not
    /// cover.
    pub open spec fn is_measured(self) -> bool {
        self == FilterType::KillerElevationFilter || self == FilterType::VictimElevationFilter
            || self == FilterType::Distance2DFilter || self == FilterType::Distance3DFilter
    }

    /// The words under which this kind of filter is offered.
    pub open spec fn spec_label(self) -> Seq<char> {
        match self {
            FilterType::KillerTeamFilter => "Killer's team"@,
            FilterType::VictimTeamFilter => "Victim's team"@,
            FilterType::KillerClassFilter => "Killer's class"@,
            FilterType::VictimClassFilter => "Victim's class"@,
            FilterType::KillerElevationFilter => "Killer's elevation"@,
            FilterType::VictimElevationFilter => "Victim's elevation"@,
            FilterType::Distance2DFilter => "2D distance"@,
            FilterType::Distance3DFilter => "3D distance"@,
            FilterType::RoundFilter => "Round #"@,
            FilterType::PropertyFilter => "Death property"@,
        }
    }

    /// The words under which this kind of filter is offered.
    pub fn label(self) -> (text: &'static str)
        ensures
            text@ == self.spec_label(),
    {
        match self {
            FilterType::KillerTeamFilter => "Killer's team",
            FilterType::VictimTeamFilter => "Victim's team",
            FilterType::KillerClassFilter => "Killer's class",
            FilterType::VictimClassFilter => "Victim's class",
            FilterType::KillerElevationFilter => "Killer's elevation",
            FilterType::VictimElevationFilter => "Victim's elevation",
            FilterType::Distance2DFilter => "2D distance",
            FilterType::Distance3DFilter => "3D distance",
            FilterType::RoundFilter => "Round #",
            FilterType::PropertyFilter => "Death property",
        }
    }
}

impl Default for FilterType {
    fn default() -> (kind: FilterType)
        ensures
            kind == FilterType::KillerTeamFilter,
    {
        FilterType::KillerTeamFilter
    }
}

/// What a user picked in one row of filters.
#[derive(Debug, Clone, PartialEq, Eq)]
pub struct FilterChoice {
    pub selected_filter: FilterType,
    pub team_button_selected: Team,
    pub class_buttons_selected: [bool; 10],
    pub selected_ordered_operator: OrderedOperator,
    pub selected_property_operator: PropertyOperator,
    pub selected_property: Property,
    pub text_input: String,
}

/// The classes that a class filter lets through: those picked, or every class that a player
/// can play where none is picked.
pub open spec fn effective_classes(picked: Seq<bool>) -> Seq<bool> {
    if exists|i: int| 0 <= i < picked.len() && picked[i] {
        picked
    } else {
        seq![false, true, true, true, true, true, true, true, true, true]
    }
}

/// The team that a team filter asks for, which must be one of the two that play.
pub open spec fn playing_team(team: Team) -> Option<Team> {
    if team == Team::Red || team == Team::Blu {
        Some(team)
    } else {
        None
    }
}

impl FilterChoice {
    /// The filter that these picks make.
    ///
    /// A team filter needs one of the two playing teams, and a round filter a number in
    /// the text field. The kinds that compare a measured length make no filter here.
    pub open spec fn generates(&self) -> Option<Filter> {
        match self.selected_filter {
            FilterType::KillerTeamFilter => match playing_team(self.team_button_selected) {
                Some(team) => Some(Filter::KillerTeamFilter(KillerTeamFilter { team })),
                None => None,
            },
            FilterType::VictimTeamFilter => match playing_team(self.team_button_selected) {
                Some(team) => Some(Filter::VictimTeamFilter(VictimTeamFilter { team })),
                None => None,
            },
            FilterType::RoundFilter => match spec_parse_unsigned(
                self.text_input@,
                u32::MAX as nat,
            ) {
                Some(round) => Some(
                    Filter::RoundFilter(
                        RoundFilter { op: self.selected_ordered_operator, round: round as u32 },
                    ),
                ),
                None => None,
            },
            FilterType::PropertyFilter => Some(
                Filter::PropertyFilter(
                    PropertyFilter {
                        op: self.selected_property_operator,
                        property: self.selected_property,
                    },
                ),
            ),
            _ => None,
        }
    }

    /// The classes that a class filter made of these picks lets through.
    pub fn picked_classes(&self) -> (classes: [bool; 10])
        ensures
            classes@ == effective_classes(self.class_buttons_selected@),
    {
        let mut i: usize = 0;
        while i < 10
            invariant
                i <= 10,
                forall|k: int| 0 <= k < i ==> !self.class_buttons_selected@[k],
            decreases 10 - i,
        {
            if self.class_buttons_selected[i] {
                return self.class_buttons_selected;
            }
            i += 1;
        }
        let all = [false, true, true, true, true, true, true, true, true, true];
        assert(all@ =~= seq![false, true, true, true, true, true, true, true, true, true]);
        all
    }

    /// The filter that these picks make, if they make one.
    pub fn try_generate_filter(&self) -> (filter: Option<Filter>)
        ensures
            match self.selected_filter {
                FilterType::KillerClassFilter => filter matches Some(
                    Filter::KillerClassFilter(made),
                ) && made.classes@ == effective_classes(self.class_buttons_selected@),
                FilterType::VictimClassFilter => filter matches Some(
                    Filter::VictimClassFilter(made),
                ) && made.classes@ == effective_classes(self.class_buttons_selected@),
                _ => filter == self.generates(),
            },
    {
        match self.selected_filter {
            FilterType::KillerTeamFilter => match self.team_button_selected {
                Team::Red => Some(Filter::KillerTeamFilter(KillerTeamFilter { team: Team::Red })),
                Team::Blu => Some(Filter::KillerTeamFilter(KillerTeamFilter { team: Team::Blu })),
                _ => None,
            },
            FilterType::VictimTeamFilter => match self.team_button_selected {
                Team::Red => Some(Filter::VictimTeamFilter(VictimTeamFilter { team: Team::Red })),
                Team::Blu => Some(Filter::VictimTeamFilter(VictimTeamFilter { team: Team::Blu })),
                _ => None,
            },
            FilterType::KillerClassFilter => Some(
                Filter::KillerClassFilter(KillerClassFilter { classes: self.picked_classes() }),
            ),
            FilterType::VictimClassFilter => Some(
                Filter::VictimClassFilter(VictimClassFilter { classes: self.picked_classes() }),
            ),
            FilterType::RoundFilter => match parse_u32(self.text_input.as_str()) {
                Some(round) => Some(
                    Filter::RoundFilter(RoundFilter { op: self.selected_ordered_operator, round }),
                ),
                None => None,
            },
            FilterType::PropertyFilter => Some(
                Filter::PropertyFilter(
                    PropertyFilter {
                        op: self.selected_property_operator,
                        property: self.selected_property,
                    },
                ),
            ),
            _ => None,
        }
    }
}

} // verus!
