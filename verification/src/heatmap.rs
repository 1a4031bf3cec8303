//! What a heatmap shows of a kill.

use crate::heatmap_analyser::Death;
use crate::protocol::Vector;
use vstd::prelude::*;

verus! {

/// The way in which the position of the camera is given.
#[derive(Debug, Clone, Copy, PartialEq, Eq, Structural, Hash)]
pub enum CoordsType {
    ShowPos,
    Console,
}

impl CoordsType {
    /// The words under which this way is offered.
    pub open spec fn spec_label(self) -> Seq<char> {
        match self {
            CoordsType::ShowPos => "cl_showpos"@,
            CoordsType::Console => "Console"@,
        }
    }

    /// The words under which this way is offered.
    pub fn label(self) -> (text: &'static str)
        ensures
            text@ == self.spec_label(),
    {
        match self {
            CoordsType::ShowPos => "cl_showpos",
            CoordsType::Console => "Console",
        }
    }
}

impl Default for CoordsType {
    fn default() -> (coords: CoordsType)
        ensures
            coords == CoordsType::ShowPos,
    {
        CoordsType::ShowPos
    }
}

/// What a heatmap draws for every kill.
#[derive(Debug, Clone, Copy, PartialEq, Eq, Structural, Hash)]
pub enum HeatmapType {
    VictimPosition,
    KillerPosition,
    Lines,
}

impl HeatmapType {
    /// The words under which this kind of heatmap is offered.
    pub open spec fn spec_label(self) -> Seq<char> {
        match self {
            HeatmapType::VictimPosition => "Victim position"@,
            HeatmapType::KillerPosition => "Killer position"@,
            HeatmapType::Lines => "Killer -> victim lines"@,
        }
    }

    /// The words under which this kind of heatmap is offered.
    pub fn label(self) -> (text: &'static str)
        ensures
            text@ == self.spec_label(),
    {
        match self {
            HeatmapType::VictimPosition => "Victim position",
            HeatmapType::KillerPosition => "Killer position",
            HeatmapType::Lines => "Killer -> victim lines",
        }
    }
}

impl Default for HeatmapType {
    fn default() -> (kind: HeatmapType)
        ensures
            kind == HeatmapType::VictimPosition,
    {
        HeatmapType::VictimPosition
    }
}

/// Where the killer of `death` counts as standing: where the sentry gun stood, if one made
/// the kill and sentry positions are asked for, else where the killer's body was.
pub open spec fn spec_killer_position(death: Death, use_sentry_position: bool) -> Option<Vector> {
    if use_sentry_position && death.sentry_position is Some {
        death.sentry_position
    } else {
        match death.killer_entity_state {
            Some(killer) => Some(killer.position),
            None => None,
        }
    }
}

/// Where the victim of `death` was.
pub open spec fn spec_victim_position(death: Death) -> Option<Vector> {
    match death.victim_entity_state {
        Some(victim) => Some(victim.position),
        None => None,
    }
}

/// Where the killer of `death` counts as standing.
pub fn killer_position(death: &Death, use_sentry_position: bool) -> (position: Option<Vector>)
    ensures
        position == spec_killer_position(*death, use_sentry_position),
{
    if use_sentry_position {
        if let Some(sentry_position) = death.sentry_position {
            return Some(sentry_position);
        }
    }
    match &death.killer_entity_state {
        Some(killer) => Some(killer.position),
        None => None,
    }
}

/// Where the victim of `death` was.
pub fn victim_position(death: &Death) -> (position: Option<Vector>)
    ensures
        position == spec_victim_position(*death),
{
    match &death.victim_entity_state {
        Some(victim) => Some(victim.position),
        None => None,
    }
}

/// The point that a heatmap of positions marks for `death`; a heatmap of lines marks none.
pub fn marked_position(heatmap_type: HeatmapType, death: &Death, use_sentry_position: bool) -> (position:
    Option<Vector>)
    ensures
        position == (match heatmap_type {
            HeatmapType::VictimPosition => spec_victim_position(*death),
            HeatmapType::KillerPosition => spec_killer_position(*death, use_sentry_position),
            HeatmapType::Lines => None,
        }),
{
    match heatmap_type {
        HeatmapType::VictimPosition => victim_position(death),
        HeatmapType::KillerPosition => killer_position(death, use_sentry_position),
        HeatmapType::Lines => None,
    }
}

/// The ends of the line that a heatmap of lines draws for `death`, from killer to victim.
pub fn line_ends(death: &Death, use_sentry_position: bool) -> (ends: Option<(Vector, Vector)>)
    ensures
        ends == (match (
            spec_killer_position(*death, use_sentry_position),
            spec_victim_position(*death),
        ) {
            (Some(from), Some(to)) => Some((from, to)),
            _ => None,
        }),
{
    match (killer_position(death, use_sentry_position), victim_position(death)) {
        (Some(from), Some(to)) => Some((from, to)),
        _ => None,
    }
}

} // verus!
