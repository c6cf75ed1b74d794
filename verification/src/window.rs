use std::collections::VecDeque;
use vstd::prelude::*;

verus! {

broadcast use vstd::std_specs::vecdeque::group_vec_dequeue_axioms;

/// A window after one more value: the value is appended and, when the window then
/// holds more than `capacity` values, its oldest value leaves.
pub open spec fn bounded_push<T>(window: Seq<T>, value: T, capacity: nat) -> Seq<T> {
    let pushed = window.push(value);
    if pushed.len() > capacity {
        pushed.drop_first()
    } else {
        pushed
    }
}

/// A window after a whole sequence of values, pushed in order.
pub open spec fn bounded_push_all<T>(window: Seq<T>, values: Seq<T>, capacity: nat) -> Seq<T>
    decreases values.len(),
{
    if values.len() == 0 {
        window
    } else {
        bounded_push(bounded_push_all(window, values.drop_last(), capacity), values.last(), capacity)
    }
}

/// Append a value to a sliding window that keeps at most `capacity` values.
pub fn push_bounded<T>(window: &mut VecDeque<T>, value: T, capacity: usize)
    requires
        old(window)@.len() < usize::MAX,
    ensures
        final(window)@ == bounded_push(old(window)@, value, capacity as nat),
        old(window)@.len() < capacity ==> final(window)@ == old(window)@.push(value),
        old(window)@.len() >= capacity ==> final(window)@ == old(window)@.push(value).subrange(
            1,
            old(window)@.len() + 1 as int,
        ),
{
    window.push_back(value);
    if window.len() > capacity {
        window.pop_front();
    }
}

/// Law: a window that starts no fuller than its capacity always holds exactly the
/// latest `capacity` values it has seen (all of them while there are fewer).
pub proof fn law_window_keeps_latest<T>(window: Seq<T>, values: Seq<T>, capacity: nat)
    requires
        window.len() <= capacity,
    ensures
        bounded_push_all(window, values, capacity) == (window + values).skip(
            if (window + values).len() > capacity {
                (window + values).len() - capacity
            } else {
                0
            },
        ),
        bounded_push_all(window, values, capacity).len() <= capacity,
    decreases values.len(),
{
    let all = window + values;
    if values.len() == 0 {
        assert(all =~= window);
        assert(all.skip(0) =~= window);
    } else {
        let prefix = values.drop_last();
        law_window_keeps_latest(window, prefix, capacity);
        let before = bounded_push_all(window, prefix, capacity);
        let all_before = window + prefix;
        assert(all =~= all_before.push(values.last()));
        let k_before: int = if all_before.len() > capacity {
            all_before.len() - capacity
        } else {
            0
        };
        assert(before.push(values.last()) =~= all.skip(k_before));
        if before.push(values.last()).len() > capacity {
            assert(all.skip(k_before).drop_first() =~= all.skip(k_before + 1));
        }
    }
}

} // verus!
