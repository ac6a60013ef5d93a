//! The running score and the table of past runs' final scores.

use vstd::prelude::*;

use crate::events::GameOver;

verus! {

/// Stars collected in the current run.
#[derive(Clone, Copy, Debug, PartialEq, Eq, Structural)]
pub struct Score {
    pub value: u32,
}

impl Default for Score {
    /// A fresh run starts at zero.
    fn default() -> (s: Score)
        ensures
            s.value == 0,
    {
        Score { value: 0 }
    }
}

/// Final scores of finished runs, each under the name of who played it.
#[derive(Debug)]
pub struct HighScore {
    pub scores: Vec<(String, u32)>,
}

impl Default for HighScore {
    /// The table starts empty.
    fn default() -> (h: HighScore)
        ensures
            h.scores@.len() == 0,
    {
        HighScore { scores: Vec::new() }
    }
}

/// Append one table entry per run that just ended, in order, each holding
/// that run's final score under the default player name.
pub fn update_high_scores(events: &Vec<GameOver>, high_scores: &mut HighScore)
    requires
        old(high_scores).scores@.len() + events@.len() <= usize::MAX,
    ensures
        final(high_scores).scores@.len() == old(high_scores).scores@.len() + events@.len(),
        forall|i: int|
            0 <= i < old(high_scores).scores@.len() ==> final(high_scores).scores@[i]
                == old(high_scores).scores@[i],
        forall|i: int|
            0 <= i < events@.len() ==> {
                let entry = #[trigger] final(high_scores).scores@[old(
                    high_scores,
                ).scores@.len() + i];
                entry.0@ == "Player"@ && entry.1 == events@[i].score
            },
{
    let ghost base = high_scores.scores@;
    let mut idx: usize = 0;
    while idx < events.len()
        invariant
            idx <= events@.len(),
            base.len() + events@.len() <= usize::MAX,
            high_scores.scores@.len() == base.len() + idx,
            forall|i: int| 0 <= i < base.len() ==> high_scores.scores@[i] == base[i],
            forall|i: int|
                0 <= i < idx ==> {
                    let entry = #[trigger] high_scores.scores@[base.len() + i];
                    entry.0@ == "Player"@ && entry.1 == events@[i].score
                },
        decreases events@.len() - idx,
    {
        let name = String::from_str("Player");
        high_scores.scores.push((name, events[idx].score));
        idx = idx + 1;
    }
}

} // verus!
