use vstd::prelude::*;

use crate::signals::Direction;

verus! {

/// The run counters of an average after one more move: an up move extends the up
/// run and ends the down run, a down move does the opposite, a flat move changes
/// neither.
pub open spec fn spec_consecutive_step(up: int, down: int, dir: Direction) -> (int, int) {
    match dir {
        Direction::Up => (up + 1, 0),
        Direction::Down => (0, down + 1),
        Direction::Flat => (up, down),
    }
}

/// The run counters after a whole history of moves, starting from zero.
pub open spec fn consecutive_runs(dirs: Seq<Direction>) -> (int, int)
    decreases dirs.len(),
{
    if dirs.len() == 0 {
        (0, 0)
    } else {
        let before = consecutive_runs(dirs.drop_last());
        spec_consecutive_step(before.0, before.1, dirs.last())
    }
}

/// The number of up moves since the last down move (flat moves do not count).
pub open spec fn ups_since_last_down(dirs: Seq<Direction>) -> int
    decreases dirs.len(),
{
    if dirs.len() == 0 {
        0
    } else {
        match dirs.last() {
            Direction::Up => ups_since_last_down(dirs.drop_last()) + 1,
            Direction::Down => 0,
            Direction::Flat => ups_since_last_down(dirs.drop_last()),
        }
    }
}

/// The number of down moves since the last up move (flat moves do not count).
pub open spec fn downs_since_last_up(dirs: Seq<Direction>) -> int
    decreases dirs.len(),
{
    if dirs.len() == 0 {
        0
    } else {
        match dirs.last() {
            Direction::Down => downs_since_last_up(dirs.drop_last()) + 1,
            Direction::Up => 0,
            Direction::Flat => downs_since_last_up(dirs.drop_last()),
        }
    }
}

/// Advance the up/down run counters of an average by one move.
pub fn consecutive_step(up: usize, down: usize, dir: Direction) -> (r: (usize, usize))
    requires
        dir == Direction::Up ==> up < usize::MAX,
        dir == Direction::Down ==> down < usize::MAX,
    ensures
        (r.0 as int, r.1 as int) == spec_consecutive_step(up as int, down as int, dir),
        dir == Direction::Up ==> r.0 == up + 1 && r.1 == 0,
        dir == Direction::Down ==> r.0 == 0 && r.1 == down + 1,
        dir == Direction::Flat ==> r == (up, down),
{
    match dir {
        Direction::Up => (up + 1, 0),
        Direction::Down => (0, down + 1),
        Direction::Flat => (up, down),
    }
}

/// Law: counted from the start of a history, the up counter is the number of up
/// moves since the last down move, the down counter the number of down moves since
/// the last up move, at most one of them is positive, and neither exceeds the
/// number of moves.
pub proof fn law_consecutive_runs(dirs: Seq<Direction>)
    ensures
        consecutive_runs(dirs).0 == ups_since_last_down(dirs),
        consecutive_runs(dirs).1 == downs_since_last_up(dirs),
        consecutive_runs(dirs).0 == 0 || consecutive_runs(dirs).1 == 0,
        0 <= consecutive_runs(dirs).0 <= dirs.len(),
        0 <= consecutive_runs(dirs).1 <= dirs.len(),
    decreases dirs.len(),
{
    if dirs.len() > 0 {
        law_consecutive_runs(dirs.drop_last());
    }
}

/// The index of the latest cross and the number of candles since it, after the
/// candle at `index` has been seen with or without a cross.
pub open spec fn spec_track_cut(last_cut: Option<usize>, index: usize, cut: bool) -> (
    Option<usize>,
    Option<int>,
) {
    let latest = if cut {
        Some(index)
    } else {
        last_cut
    };
    (
        latest,
        match latest {
            Some(c) => Some(index - c),
            None => None,
        },
    )
}

/// Record whether the candle at `index` is a cross, and count the candles since the
/// latest cross (none before the first one).
pub fn track_ema_cut(last_cut: Option<usize>, index: usize, cut: bool) -> (r: (
    Option<usize>,
    Option<usize>,
))
    requires
        last_cut matches Some(c) ==> c <= index,
    ensures
        r.0 == spec_track_cut(last_cut, index, cut).0,
        r.1 == (match spec_track_cut(last_cut, index, cut).1 {
            Some(n) => Some(n as usize),
            None => None::<usize>,
        }),
        r.1 matches Some(n) ==> n <= index,
        cut ==> r == (Some(index), Some(0usize)),
        !cut ==> r.0 == last_cut,
        r.1 is Some <==> r.0 is Some,
        r.0 matches Some(c) ==> r.1 matches Some(n) && c + n == index,
{
    let latest = if cut {
        Some(index)
    } else {
        last_cut
    };
    let since = match latest {
        Some(c) => Some(index - c),
        None => None,
    };
    (latest, since)
}

/// Law: a cross resets the count to zero; a candle without a cross that follows
/// the candle at `index` (with the same latest cross) counts one more.
pub proof fn law_cut_count_advances(last_cut: Option<usize>, index: usize)
    requires
        last_cut matches Some(c) ==> c <= index,
        index < usize::MAX,
    ensures
        spec_track_cut(last_cut, index, true).1 == Some(0int),
        spec_track_cut(last_cut, (index + 1) as usize, false).1 == (match spec_track_cut(
            last_cut,
            index,
            false,
        ).1 {
            Some(n) => Some(n + 1),
            None => None::<int>,
        }),
{
}

} // verus!
