//! Analysis of recorded multiplayer game sessions and frame-granular playback over them.

pub mod chat;
pub mod demo_player;
pub mod entities;
pub mod filters;
pub mod gui_filters;
pub mod heatmap;
pub mod heatmap_analyser;
pub mod protocol;
pub mod resolver;
pub mod search;
pub mod text;
pub mod users;

use crate::heatmap_analyser::HeatmapAnalysis;
use crate::text::decimal;
use crate::text::decimal_digits;
use vstd::prelude::*;

verus! {

/// What came of the analysis of one recorded session.
#[derive(Debug, Clone, PartialEq)]
pub struct DemoProcessingOutput {
    /// Where the recording was read from.
    pub path: String,
    /// The analysis, as far as it got.
    pub heatmap_analysis: Option<HeatmapAnalysis>,
    /// Why the analysis is missing or incomplete.
    pub error: Option<String>,
    /// The name of the map that was played.
    pub map: String,
}

/// The notice that the recording at `path` could be analysed up to the tick `tick` only.
pub open spec fn corruption_notice(path: Seq<char>, tick: u32) -> Seq<char> {
    path + ": Demo is corrupted, could only analyse up to tick "@ + decimal_digits(tick as nat)
}

impl DemoProcessingOutput {
    /// The outcome for a recording that could not be read, for the reason `error`.
    pub fn unreadable(path: String, error: String) -> (output: DemoProcessingOutput)
        ensures
            output.path == path,
            output.heatmap_analysis is None,
            output.error == Some(error),
            output.map@.len() == 0,
    {
        DemoProcessingOutput { path, heatmap_analysis: None, error: Some(error), map: String::new() }
    }

    /// The outcome for a recording that was analysed to its end.
    pub fn complete(path: String, analysis: HeatmapAnalysis, map: String) -> (output:
        DemoProcessingOutput)
        ensures
            output.path == path,
            output.heatmap_analysis == Some(analysis),
            output.error is None,
            output.map == map,
    {
        DemoProcessingOutput { path, heatmap_analysis: Some(analysis), error: None, map }
    }

    /// The outcome for a recording whose decoding ended in an error: the analysis of what
    /// was decoded, and a notice that says how far it got.
    pub fn corrupted(path: String, analysis: HeatmapAnalysis, map: String) -> (output:
        DemoProcessingOutput)
        ensures
            output.path == path,
            output.heatmap_analysis == Some(analysis),
            output.error matches Some(notice) && notice@ == corruption_notice(
                path@,
                analysis.current_tick,
            ),
            output.map == map,
    {
        let mut notice = path.clone();
        notice.append(": Demo is corrupted, could only analyse up to tick ");
        notice.append(decimal(analysis.current_tick as u64).as_str());
        DemoProcessingOutput { path, heatmap_analysis: Some(analysis), error: Some(notice), map }
    }
}

} // verus!
