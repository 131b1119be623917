//! Re-applying the playback-option policy: repeat off, volume at 100,
//! crossfade off, each where the settings ask for it.
use vstd::prelude::*;

use crate::config::Config;
use crate::protocol::Command;
use crate::text::{pairs_view, same_text, Pair};

verus! {

/// The corrections one status line calls for under the given policy.
pub open spec fn fixes_for(
    k: Seq<char>,
    v: Seq<char>,
    disable_repeat: bool,
    lock_volume: bool,
    disable_crossfade: bool,
) -> Seq<Command> {
    let a = if k == "repeat"@ && v == "1"@ && disable_repeat {
        seq![Command::RepeatOff]
    } else {
        Seq::empty()
    };
    let b = if k == "volume"@ && v != "100"@ && lock_volume {
        seq![Command::VolumeFull]
    } else {
        Seq::empty()
    };
    let c = if k == "xfade"@ && v != "0"@ && disable_crossfade {
        seq![Command::CrossfadeOff]
    } else {
        Seq::empty()
    };
    a + b + c
}

/// The corrections a whole status response calls for, line by line.
pub open spec fn option_fixes(
    ps: Seq<(Seq<char>, Seq<char>)>,
    disable_repeat: bool,
    lock_volume: bool,
    disable_crossfade: bool,
) -> Seq<Command>
    decreases ps.len(),
{
    if ps.len() == 0 {
        Seq::empty()
    } else {
        option_fixes(ps.drop_last(), disable_repeat, lock_volume, disable_crossfade)
            + fixes_for(ps.last().0, ps.last().1, disable_repeat, lock_volume, disable_crossfade)
    }
}

/// The corrective commands a status response calls for under the
/// configured policy, in the order of the lines that call for them.
pub fn options_change(status: &Vec<Pair>, config: &Config) -> (r: Vec<Command>)
    ensures
        r@ == option_fixes(
            pairs_view(status@),
            config.disable_repeat,
            config.lock_volume,
            config.disable_crossfade,
        ),
{
    let ghost dr = config.disable_repeat;
    let ghost lv = config.lock_volume;
    let ghost dc = config.disable_crossfade;
    let mut r: Vec<Command> = Vec::new();
    let mut i: usize = 0;
    while i < status.len()
        invariant
            i <= status.len(),
            dr == config.disable_repeat && lv == config.lock_volume && dc == config.disable_crossfade,
            r@ == option_fixes(pairs_view(status@.subrange(0, i as int)), dr, lv, dc),
        decreases status.len() - i,
    {
        proof {
            assert(pairs_view(status@.subrange(0, i + 1)).drop_last()
                =~= pairs_view(status@.subrange(0, i as int)));
        }
        let ghost before = r@;
        let k = &status[i].0;
        let v = &status[i].1;
        if same_text(k, "repeat") && same_text(v, "1") && config.disable_repeat {
            r.push(Command::RepeatOff);
        }
        let ghost after_a = r@;
        if same_text(k, "volume") && !same_text(v, "100") && config.lock_volume {
            r.push(Command::VolumeFull);
        }
        let ghost after_b = r@;
        if same_text(k, "xfade") && !same_text(v, "0") && config.disable_crossfade {
            r.push(Command::CrossfadeOff);
        }
        proof {
            let f = fixes_for(k@, v@, dr, lv, dc);
            assert(r@ =~= before + f);
        }
        i = i + 1;
    }
    proof {
        assert(status@.subrange(0, status.len() as int) =~= status@);
    }
    r
}

} // verus!
