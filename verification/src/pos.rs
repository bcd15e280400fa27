use vstd::prelude::*;
use crate::app::App;
use crate::event::KeyCode;
use crate::focus::FocusArea;
use crate::geometry::Rect;
use crate::registry::{is_first_index, lemma_lookup_at, lookup, GeometryRegistry};

verus! {

/// How far `to` lies from `from` along the arrow `direction`, by the origins
/// of the two rectangles. Any other key gives zero.
pub open spec fn distance(direction: KeyCode, from: Rect, to: Rect) -> int {
    match direction {
        KeyCode::Left => from.x - to.x,
        KeyCode::Right => to.x - from.x,
        KeyCode::Up => from.y - to.y,
        KeyCode::Down => to.y - from.y,
        _ => 0,
    }
}

/// The entry at `i` is another area than `current` and lies strictly ahead of `from`.
pub open spec fn is_candidate(
    entries: Seq<(FocusArea, Rect)>,
    current: FocusArea,
    from: Rect,
    direction: KeyCode,
    i: int,
) -> bool {
    &&& 0 <= i < entries.len()
    &&& entries[i].0 != current
    &&& distance(direction, from, entries[i].1) > 0
}

/// The entry at `i` is the candidate to take: none is nearer, and none that
/// is as near comes before it.
pub open spec fn is_nearest(
    entries: Seq<(FocusArea, Rect)>,
    current: FocusArea,
    from: Rect,
    direction: KeyCode,
    i: int,
) -> bool {
    &&& is_candidate(entries, current, from, direction, i)
    &&& forall|j: int| #[trigger]
        is_candidate(entries, current, from, direction, j) ==> {
            ||| distance(direction, from, entries[i].1) < distance(direction, from, entries[j].1)
            ||| distance(direction, from, entries[i].1) == distance(direction, from, entries[j].1)
                && i <= j
        }
}

/// The area to move to from `current` along `direction`: of the areas
/// strictly ahead the nearest, and of several equally near the one registered
/// first. There is none where `current` has no rectangle or nothing lies ahead.
pub open spec fn nearest(
    entries: Seq<(FocusArea, Rect)>,
    current: FocusArea,
    direction: KeyCode,
) -> Option<FocusArea> {
    match lookup(entries, current) {
        Some(from) => if exists|i: int| is_nearest(entries, current, from, direction, i) {
            Some(entries[choose|i: int| is_nearest(entries, current, from, direction, i)].0)
        } else {
            None
        },
        None => None,
    }
}

/// The entry at `i` lowers the least `x` or the least `y` seen before it,
/// counted from the largest coordinate there is.
pub open spec fn is_record(entries: Seq<(FocusArea, Rect)>, i: int) -> bool {
    &&& 0 <= i < entries.len()
    &&& {
        ||| entries[i].1.x < u16::MAX && forall|j: int|
            0 <= j < i ==> entries[i].1.x < (#[trigger] entries[j]).1.x
        ||| entries[i].1.y < u16::MAX && forall|j: int|
            0 <= j < i ==> entries[i].1.y < (#[trigger] entries[j]).1.y
    }
}

/// The entry at `i` is the last one that lowers a least coordinate.
pub open spec fn is_last_record(entries: Seq<(FocusArea, Rect)>, i: int) -> bool {
    &&& is_record(entries, i)
    &&& forall|j: int| #[trigger] is_record(entries, j) ==> j <= i
}

/// The area that a walk over `entries` ends on when it keeps one least `x`
/// and one least `y` and takes each area that lowers either of them.
///
/// This need not be the area nearest to the top left corner: which area the
/// walk ends on goes by the order of registration, and an area that only
/// equals both least coordinates is passed over.
pub open spec fn top_left(entries: Seq<(FocusArea, Rect)>) -> Option<FocusArea> {
    if exists|i: int| is_last_record(entries, i) {
        Some(entries[choose|i: int| is_last_record(entries, i)].0)
    } else {
        None
    }
}

/// At most one entry is the nearest.
pub proof fn lemma_nearest_unique(
    entries: Seq<(FocusArea, Rect)>,
    current: FocusArea,
    from: Rect,
    direction: KeyCode,
    i: int,
    j: int,
)
    requires
        is_nearest(entries, current, from, direction, i),
        is_nearest(entries, current, from, direction, j),
    ensures
        i == j,
{
}

/// An entry that is the nearest holds the area that `nearest` gives.
pub proof fn lemma_nearest_at(
    entries: Seq<(FocusArea, Rect)>,
    current: FocusArea,
    direction: KeyCode,
    i: int,
)
    requires
        lookup(entries, current) is Some,
        is_nearest(entries, current, lookup(entries, current)->0, direction, i),
    ensures
        nearest(entries, current, direction) == Some(entries[i].0),
{
    let from = lookup(entries, current)->0;
    let chosen = choose|k: int| is_nearest(entries, current, from, direction, k);
    lemma_nearest_unique(entries, current, from, direction, i, chosen);
}

/// At most one entry is the last record.
pub proof fn lemma_last_record_unique(entries: Seq<(FocusArea, Rect)>, i: int, j: int)
    requires
        is_last_record(entries, i),
        is_last_record(entries, j),
    ensures
        i == j,
{
}

/// An entry that is the last record holds the area that `top_left` gives.
pub proof fn lemma_top_left_at(entries: Seq<(FocusArea, Rect)>, i: int)
    requires
        is_last_record(entries, i),
    ensures
        top_left(entries) == Some(entries[i].0),
{
    let chosen = choose|k: int| is_last_record(entries, k);
    lemma_last_record_unique(entries, i, chosen);
}

/// Of the candidates among the first `n` entries, the place of the one to take.
proof fn lemma_nearest_in_prefix(
    entries: Seq<(FocusArea, Rect)>,
    current: FocusArea,
    from: Rect,
    direction: KeyCode,
    n: int,
) -> (best: int)
    requires
        0 <= n <= entries.len(),
        exists|j: int| 0 <= j < n && is_candidate(entries, current, from, direction, j),
    ensures
        0 <= best < n,
        is_candidate(entries, current, from, direction, best),
        forall|j: int|
            0 <= j < n && #[trigger] is_candidate(entries, current, from, direction, j) ==> {
                ||| distance(direction, from, entries[best].1) < distance(
                    direction,
                    from,
                    entries[j].1,
                )
                ||| distance(direction, from, entries[best].1) == distance(
                    direction,
                    from,
                    entries[j].1,
                ) && best <= j
            },
    decreases n,
{
    if exists|j: int| 0 <= j < n - 1 && is_candidate(entries, current, from, direction, j) {
        let before = lemma_nearest_in_prefix(entries, current, from, direction, n - 1);
        if is_candidate(entries, current, from, direction, n - 1) && distance(
            direction,
            from,
            entries[n - 1].1,
        ) < distance(direction, from, entries[before].1) {
            n - 1
        } else {
            before
        }
    } else {
        n - 1
    }
}

/// Where the focused area is registered and some other area lies strictly
/// ahead of it, the focus has an area to move to.
pub proof fn lemma_nearest_exists(
    entries: Seq<(FocusArea, Rect)>,
    current: FocusArea,
    direction: KeyCode,
    j: int,
)
    requires
        lookup(entries, current) is Some,
        is_candidate(entries, current, lookup(entries, current)->0, direction, j),
    ensures
        nearest(entries, current, direction) is Some,
{
    let from = lookup(entries, current)->0;
    let best = lemma_nearest_in_prefix(entries, current, from, direction, entries.len() as int);
    assert(is_nearest(entries, current, from, direction, best));
    lemma_nearest_at(entries, current, direction, best);
}

/// Of the records among the first `n` entries, the place of the last.
proof fn lemma_last_record_in_prefix(entries: Seq<(FocusArea, Rect)>, n: int) -> (last: int)
    requires
        0 <= n <= entries.len(),
        exists|j: int| 0 <= j < n && is_record(entries, j),
    ensures
        0 <= last < n,
        is_record(entries, last),
        forall|j: int| 0 <= j < n && #[trigger] is_record(entries, j) ==> j <= last,
    decreases n,
{
    if is_record(entries, n - 1) {
        n - 1
    } else {
        lemma_last_record_in_prefix(entries, n - 1)
    }
}

/// An entry after the last record has no lesser `x` than a last record that
/// lowered the least `x`, and likewise for `y`.
proof fn lemma_nothing_lower_after(entries: Seq<(FocusArea, Rect)>, i: int, j: int)
    requires
        is_last_record(entries, i),
        i <= j < entries.len(),
    ensures
        (forall|k: int| 0 <= k < i ==> entries[i].1.x < (#[trigger] entries[k]).1.x)
            ==> entries[i].1.x <= entries[j].1.x,
        (forall|k: int| 0 <= k < i ==> entries[i].1.y < (#[trigger] entries[k]).1.y)
            ==> entries[i].1.y <= entries[j].1.y,
    decreases j,
{
    if j > i {
        assert(!is_record(entries, j));
        if forall|k: int| 0 <= k < i ==> entries[i].1.x < (#[trigger] entries[k]).1.x {
            if entries[j].1.x < u16::MAX {
                let k = choose|k: int|
                    0 <= k < j && !(entries[j].1.x < (#[trigger] entries[k]).1.x);
                if k >= i {
                    lemma_nothing_lower_after(entries, i, k);
                }
            }
        }
        if forall|k: int| 0 <= k < i ==> entries[i].1.y < (#[trigger] entries[k]).1.y {
            if entries[j].1.y < u16::MAX {
                let k = choose|k: int|
                    0 <= k < j && !(entries[j].1.y < (#[trigger] entries[k]).1.y);
                if k >= i {
                    lemma_nothing_lower_after(entries, i, k);
                }
            }
        }
    }
}

/// There is an area to wrap round to as soon as one rectangle lies off the
/// last column or off the last row, and the rectangle of that area has the
/// least `x` or the least `y` of all.
pub proof fn lemma_top_left_holds_a_least_coordinate(entries: Seq<(FocusArea, Rect)>)
    ensures
        (exists|j: int|
            0 <= j < entries.len() && ((#[trigger] entries[j]).1.x < u16::MAX || entries[j].1.y
                < u16::MAX)) ==> top_left(entries) is Some,
        top_left(entries) is Some ==> exists|i: int|
            {
                &&& 0 <= i < entries.len()
                &&& (#[trigger] entries[i]).0 == top_left(entries)->0
                &&& {
                    ||| forall|j: int|
                        0 <= j < entries.len() ==> entries[i].1.x <= (#[trigger] entries[j]).1.x
                    ||| forall|j: int|
                        0 <= j < entries.len() ==> entries[i].1.y <= (#[trigger] entries[j]).1.y
                }
            },
{
    if exists|j: int|
        0 <= j < entries.len() && ((#[trigger] entries[j]).1.x < u16::MAX || entries[j].1.y
            < u16::MAX) {
        let j = choose|j: int|
            0 <= j < entries.len() && ((#[trigger] entries[j]).1.x < u16::MAX || entries[j].1.y
                < u16::MAX);
        // The first entry off the last column, or off the last row, is a record.
        let first = lemma_first_below_max(entries, j);
        assert(is_record(entries, first));
        let last = lemma_last_record_in_prefix(entries, entries.len() as int);
        assert(is_last_record(entries, last));
        lemma_top_left_at(entries, last);
    }
    if top_left(entries) is Some {
        let i = choose|k: int| is_last_record(entries, k);
        assert(is_record(entries, i));
        if forall|k: int| 0 <= k < i ==> entries[i].1.x < (#[trigger] entries[k]).1.x {
            assert forall|j: int| 0 <= j < entries.len() implies entries[i].1.x <= (
            #[trigger] entries[j]).1.x by {
                if j >= i {
                    lemma_nothing_lower_after(entries, i, j);
                }
            }
        } else {
            assert forall|j: int| 0 <= j < entries.len() implies entries[i].1.y <= (
            #[trigger] entries[j]).1.y by {
                if j >= i {
                    lemma_nothing_lower_after(entries, i, j);
                }
            }
        }
    }
}

/// The first entry that lies off the last column or off the last row, up to `j`.
proof fn lemma_first_below_max(entries: Seq<(FocusArea, Rect)>, j: int) -> (first: int)
    requires
        0 <= j < entries.len(),
        entries[j].1.x < u16::MAX || entries[j].1.y < u16::MAX,
    ensures
        0 <= first <= j,
        is_record(entries, first),
    decreases j,
{
    if exists|k: int|
        0 <= k < j && ((#[trigger] entries[k]).1.x < u16::MAX || entries[k].1.y < u16::MAX) {
        let k = choose|k: int|
            0 <= k < j && ((#[trigger] entries[k]).1.x < u16::MAX || entries[k].1.y < u16::MAX);
        lemma_first_below_max(entries, k)
    } else {
        j
    }
}

/// The focus never moves to the area that it is on.
pub proof fn lemma_nearest_is_another(
    entries: Seq<(FocusArea, Rect)>,
    current: FocusArea,
    direction: KeyCode,
)
    ensures
        nearest(entries, current, direction) != Some(current),
{
    if let Some(from) = lookup(entries, current) {
        if exists|i: int| is_nearest(entries, current, from, direction, i) {
            let i = choose|i: int| is_nearest(entries, current, from, direction, i);
            assert(is_candidate(entries, current, from, direction, i));
        }
    }
}

/// Where two areas are registered and nothing else, and `b` lies to the
/// right of `a`, the focus goes from `a` to `b` on the right arrow and from
/// `b` to `a` on the left arrow.
pub proof fn lemma_two_areas_side_by_side(
    entries: Seq<(FocusArea, Rect)>,
    a: FocusArea,
    rect_a: Rect,
    b: FocusArea,
    rect_b: Rect,
)
    requires
        a != b,
        entries == seq![(a, rect_a), (b, rect_b)] || entries == seq![(b, rect_b), (a, rect_a)],
        rect_b.x > rect_a.x,
    ensures
        nearest(entries, a, KeyCode::Right) == Some(b),
        nearest(entries, b, KeyCode::Left) == Some(a),
{
    let at_a: int = if entries[0].0 == a { 0 } else { 1 };
    let at_b: int = 1 - at_a;
    assert(entries[at_a] == (a, rect_a));
    assert(entries[at_b] == (b, rect_b));
    assert(is_first_index(entries, a, at_a));
    assert(is_first_index(entries, b, at_b));
    lemma_lookup_at(entries, a, at_a);
    lemma_lookup_at(entries, b, at_b);

    assert(is_nearest(entries, a, rect_a, KeyCode::Right, at_b));
    lemma_nearest_at(entries, a, KeyCode::Right, at_b);

    assert(is_nearest(entries, b, rect_b, KeyCode::Left, at_a));
    lemma_nearest_at(entries, b, KeyCode::Left, at_a);
}

/// The area that `nearest` gives on the rectangles of `registry`.
pub fn nearest_in(registry: &GeometryRegistry, current: FocusArea, direction: KeyCode) -> (found:
    Option<FocusArea>)
    ensures
        found == nearest(registry@, current, direction),
{
    let from = match registry.lookup(current) {
        Some(rect) => rect,
        None => {
            return None;
        },
    };
    let mut found: Option<FocusArea> = None;
    let mut min_distance: isize = isize::MAX;
    let ghost mut best: int = -1;
    let n: usize = registry.len();
    let mut i: usize = 0;
    while i < n
        invariant
            n == registry@.len(),
            i <= n,
            found is None ==> min_distance == isize::MAX && forall|j: int|
                0 <= j < i ==> !is_candidate(registry@, current, from, direction, j),
            found is Some ==> {
                &&& 0 <= best < i
                &&& found == Some(registry@[best].0)
                &&& min_distance == distance(direction, from, registry@[best].1)
                &&& is_candidate(registry@, current, from, direction, best)
                &&& forall|j: int|
                    0 <= j < i && #[trigger] is_candidate(registry@, current, from, direction, j)
                        ==> {
                        ||| min_distance < distance(direction, from, registry@[j].1)
                        ||| min_distance == distance(direction, from, registry@[j].1) && best <= j
                    }
            },
        decreases n - i,
    {
        if let Some((focus_area, rect)) = registry.entry(i) {
            if focus_area != current {
                let distance: isize = match direction {
                    KeyCode::Left => from.x as isize - rect.x as isize,
                    KeyCode::Right => rect.x as isize - from.x as isize,
                    KeyCode::Up => from.y as isize - rect.y as isize,
                    KeyCode::Down => rect.y as isize - from.y as isize,
                    _ => 0,
                };
                if distance > 0 && distance < min_distance {
                    min_distance = distance;
                    found = Some(focus_area);
                    proof {
                        best = i as int;
                    }
                }
            }
        }
        i += 1;
    }
    proof {
        if found is Some {
            assert(is_nearest(registry@, current, from, direction, best));
            lemma_nearest_at(registry@, current, direction, best);
        } else {
            assert forall|k: int| !is_nearest(registry@, current, from, direction, k) by {
                if is_nearest(registry@, current, from, direction, k) {
                    assert(is_candidate(registry@, current, from, direction, k));
                }
            }
        }
    }
    found
}

/// The area that `top_left` gives on the rectangles of `registry`.
pub fn top_left_in(registry: &GeometryRegistry) -> (found: Option<FocusArea>)
    ensures
        found == top_left(registry@),
{
    let mut found: Option<FocusArea> = None;
    let mut min_x: u16 = u16::MAX;
    let mut min_y: u16 = u16::MAX;
    let ghost mut last: int = -1;
    let n: usize = registry.len();
    let mut i: usize = 0;
    while i < n
        invariant
            n == registry@.len(),
            i <= n,
            forall|j: int| 0 <= j < i ==> min_x <= (#[trigger] registry@[j]).1.x,
            forall|j: int| 0 <= j < i ==> min_y <= (#[trigger] registry@[j]).1.y,
            min_x < u16::MAX ==> exists|j: int| 0 <= j < i && (#[trigger] registry@[j]).1.x == min_x,
            min_y < u16::MAX ==> exists|j: int| 0 <= j < i && (#[trigger] registry@[j]).1.y == min_y,
            found is None ==> forall|j: int| 0 <= j < i ==> !is_record(registry@, j),
            found is Some ==> {
                &&& 0 <= last < i
                &&& found == Some(registry@[last].0)
                &&& is_record(registry@, last)
                &&& forall|j: int| 0 <= j < i && #[trigger] is_record(registry@, j) ==> j <= last
            },
        decreases n - i,
    {
        let ghost was_min_x = min_x;
        let ghost was_min_y = min_y;
        if let Some((focus_area, rect)) = registry.entry(i) {
            if rect.x < min_x {
                min_x = rect.x;
                found = Some(focus_area);
                proof {
                    last = i as int;
                }
            }
            if rect.y < min_y {
                min_y = rect.y;
                found = Some(focus_area);
                proof {
                    last = i as int;
                }
            }
        }
        proof {
            if is_record(registry@, i as int) {
                // The entry lowers one of the two running minima, so it was taken.
                if registry@[i as int].1.x < u16::MAX && forall|j: int|
                    0 <= j < i ==> registry@[i as int].1.x < (#[trigger] registry@[j]).1.x {
                    assert(registry@[i as int].1.x < was_min_x);
                } else {
                    assert(registry@[i as int].1.y < was_min_y);
                }
            }
        }
        i += 1;
    }
    proof {
        if found is Some {
            assert(is_last_record(registry@, last));
            lemma_top_left_at(registry@, last);
        } else {
            assert forall|k: int| !is_last_record(registry@, k) by {
                if is_last_record(registry@, k) {
                    assert(is_record(registry@, k));
                }
            }
        }
    }
    found
}

/// The area to move the focus to along the arrow `direction`: of the areas
/// that the last frame drew strictly ahead of the focused one, the nearest.
pub fn get_nearest_focus_area(app: &App, direction: KeyCode) -> (found: Option<FocusArea>)
    ensures
        found == nearest(app@.focus_area_positions, app@.current_focus, direction),
        found != Some(app@.current_focus),
{
    proof {
        lemma_nearest_is_another(app@.focus_area_positions, app@.current_focus, direction);
    }
    nearest_in(app.focus_area_positions(), app.current_focus(), direction)
}

/// The area to wrap the focus round to.
pub fn get_top_left_focus_area(app: &App) -> (found: Option<FocusArea>)
    ensures
        found == top_left(app@.focus_area_positions),
{
    top_left_in(app.focus_area_positions())
}

} // verus!
