use vstd::prelude::*;

verus! {

/// Name under which the spatializer stage registers itself in a renderer's
/// processing chain.
pub const SPATIALIZER_NAME: &'static str = "Phonon Spatializer";

/// No stage of `names` carries the name `target`.
pub open spec fn none_named(names: Seq<String>, target: Seq<char>) -> bool {
    forall|j: int| 0 <= j < names.len() ==> (#[trigger] names[j])@ != target
}

/// `i` is the first stage of `names` that carries the name `target`.
pub open spec fn first_named(names: Seq<String>, target: Seq<char>, i: int) -> bool {
    &&& 0 <= i < names.len()
    &&& names[i]@ == target
    &&& none_named(names.take(i), target)
}

/// The stages of no sub-group in `groups` carry the name `target`.
pub open spec fn no_group_named(groups: Seq<Vec<String>>, target: Seq<char>) -> bool {
    forall|g: int| 0 <= g < groups.len() ==> none_named((#[trigger] groups[g])@, target)
}

/// No group at any of the given levels carries the name `target`.
pub open spec fn no_level_named(levels: Seq<Vec<Vec<String>>>, target: Seq<char>) -> bool {
    forall|d: int| 0 <= d < levels.len() ==> no_group_named((#[trigger] levels[d])@, target)
}

/// `(g, i)` is the first stage named `target` among `groups`, taken in
/// order: stage `i` of group `g`.
pub open spec fn first_in_groups(groups: Seq<Vec<String>>, target: Seq<char>, g: int, i: int) -> bool {
    &&& 0 <= g < groups.len()
    &&& no_group_named(groups.take(g), target)
    &&& first_named(groups[g]@, target, i)
}

/// The result of a breadth-first search for the stage named `target` in a
/// chain given level by level: level `d` holds the groups at depth `d` in
/// breadth-first order, each as the names of its stages. `(d, g, i)` is
/// stage `i` of group `g` of level `d`; `None` means no stage at any depth
/// carries the name.
pub open spec fn located(
    levels: Seq<Vec<Vec<String>>>,
    target: Seq<char>,
    loc: Option<(usize, usize, usize)>,
) -> bool {
    match loc {
        Some((d, g, i)) => {
            &&& 0 <= d < levels.len()
            &&& no_level_named(levels.take(d as int), target)
            &&& first_in_groups(levels[d as int]@, target, g as int, i as int)
        },
        None => no_level_named(levels, target),
    }
}

/// Index of the first of `names` equal to `target`, if any.
pub fn find_stage(names: &Vec<String>, target: &String) -> (r: Option<usize>)
    ensures
        match r {
            Some(i) => first_named(names@, target@, i as int),
            None => none_named(names@, target@),
        },
{
    let mut i: usize = 0;
    while i < names.len()
        invariant
            i <= names@.len(),
            none_named(names@.take(i as int), target@),
        decreases names@.len() - i,
    {
        if names[i] == *target {
            return Some(i);
        }
        assert(names@.take(i + 1) =~= names@.take(i as int).push(names@[i as int]));
        i = i + 1;
    }
    assert(names@.take(i as int) =~= names@);
    None
}

/// The first stage named `target` among `groups`, taken in order, as the
/// group's index and the stage's index within it.
pub fn find_in_groups(groups: &Vec<Vec<String>>, target: &String) -> (r: Option<(usize, usize)>)
    ensures
        match r {
            Some((g, i)) => first_in_groups(groups@, target@, g as int, i as int),
            None => no_group_named(groups@, target@),
        },
{
    let mut g: usize = 0;
    while g < groups.len()
        invariant
            g <= groups@.len(),
            no_group_named(groups@.take(g as int), target@),
        decreases groups@.len() - g,
    {
        if let Some(i) = find_stage(&groups[g], target) {
            return Some((g, i));
        }
        assert(groups@.take(g + 1) =~= groups@.take(g as int).push(groups@[g as int]));
        g = g + 1;
    }
    assert(groups@.take(g as int) =~= groups@);
    None
}

/// Locates the stage named `target` in a processing chain nested to any
/// depth, given level by level (level 0 holds the master group alone).
/// The search is breadth-first: all groups of one level, in order, before
/// any group of the next; the first match wins. Absence is an ordinary
/// outcome.
pub fn find_spatializer(levels: &Vec<Vec<Vec<String>>>, target: &String) -> (r: Option<
    (usize, usize, usize),
>)
    ensures
        located(levels@, target@, r),
{
    let mut d: usize = 0;
    while d < levels.len()
        invariant
            d <= levels@.len(),
            no_level_named(levels@.take(d as int), target@),
        decreases levels@.len() - d,
    {
        if let Some((g, i)) = find_in_groups(&levels[d], target) {
            return Some((d, g, i));
        }
        assert(levels@.take(d + 1) =~= levels@.take(d as int).push(levels@[d as int]));
        d = d + 1;
    }
    assert(levels@.take(d as int) =~= levels@);
    None
}

} // verus!
