//! Local paths, held as text, and what `std::path` says of them.

use vstd::prelude::*;
use crate::json::option_text_view;

verus! {

/// The final component that `Path::file_name` gives of a path.
pub uninterp spec fn std_path_file_name(path: Seq<char>) -> Option<Seq<char>>;

/// The extension that `Path::extension` gives of a path.
pub uninterp spec fn std_path_extension(path: Seq<char>) -> Option<Seq<char>>;

/// The components that `Path::components` gives of a path, each as text.
pub uninterp spec fn std_path_components(path: Seq<char>) -> Seq<Seq<char>>;

/// The path that `Path::join` makes of a base and a further part.
pub uninterp spec fn std_path_joined(base: Seq<char>, part: Seq<char>) -> Seq<char>;

/// Whether `Path`'s `==` holds of two paths.
pub uninterp spec fn std_paths_equal(left: Seq<char>, right: Seq<char>) -> bool;

/// Whether `Path`'s `<` holds of two paths.
pub uninterp spec fn std_path_less(left: Seq<char>, right: Seq<char>) -> bool;

/// `Path::file_name`, as text: the last component of a path, `None` where the path ends
/// in `..` or is a root.
#[verifier::external_body]
pub(crate) fn path_file_name(path: &str) -> (result: Option<String>)
    ensures
        option_text_view(result) == std_path_file_name(path@),
{
    std::path::Path::new(path).file_name().and_then(|name| name.to_str()).map(|name| name.to_owned())
}

/// `Path::extension`, as text: what follows the last `.` of the file name.
#[verifier::external_body]
pub(crate) fn path_extension(path: &str) -> (result: Option<String>)
    ensures
        option_text_view(result) == std_path_extension(path@),
{
    std::path::Path::new(path).extension().and_then(|extension| extension.to_str()).map(
        |extension| extension.to_owned(),
    )
}

/// `Path::components`, each component as text.
#[verifier::external_body]
pub(crate) fn path_components(path: &str) -> (result: Vec<String>)
    ensures
        result@.len() == std_path_components(path@).len(),
        forall|index: int| 0 <= index < result@.len() ==> (#[trigger] result@[index])@ == std_path_components(path@)[index],
{
    std::path::Path::new(path).components().map(
        |component| component.as_os_str().to_string_lossy().into_owned(),
    ).collect()
}

/// `Path::join`: the base extended with a further part.
#[verifier::external_body]
pub(crate) fn path_joined(base: &str, part: &str) -> (result: String)
    ensures
        result@ == std_path_joined(base@, part@),
{
    std::path::Path::new(base).join(part).to_string_lossy().into_owned()
}

/// `Path`'s `==`: whether two paths have the same components.
#[verifier::external_body]
pub(crate) fn paths_equal(left: &str, right: &str) -> (result: bool)
    ensures
        result == std_paths_equal(left@, right@),
{
    std::path::Path::new(left) == std::path::Path::new(right)
}

/// `Path`'s `<`, the order of `Ord for Path`; being an order, it never holds both ways.
#[verifier::external_body]
pub(crate) fn path_less(left: &str, right: &str) -> (result: bool)
    ensures
        result == std_path_less(left@, right@),
        result ==> !std_path_less(right@, left@),
{
    std::path::Path::new(left) < std::path::Path::new(right)
}

/// Whether `order` lists each index of `paths` once, in `Path` order: no path is `<` the
/// one listed before it.
pub open spec fn is_path_order(paths: Seq<Seq<char>>, order: Seq<usize>) -> bool {
    &&& order.len() == paths.len()
    &&& forall|position: int| 0 <= position < order.len() ==> #[trigger] order[position] < paths.len()
    &&& forall|first: int, second: int|
        0 <= first < second < order.len() ==> #[trigger] order[first] != #[trigger] order[second]
    &&& forall|position: int|
        0 <= position < order.len() - 1 ==> !std_path_less(
            paths[order[position + 1] as int],
            paths[#[trigger] order[position] as int],
        )
}

/// The texts of a list of paths.
pub open spec fn path_texts(paths: Seq<String>) -> Seq<Seq<char>> {
    paths.map_values(|path: String| path@)
}

/// Where an index goes among others listed in `Path` order: before the first one at or
/// after `from` whose path its path is `<`, else at the end.
pub open spec fn insertion_point(paths: Seq<Seq<char>>, order: Seq<usize>, item: int, from: int) -> int
    decreases order.len() - from,
{
    if from < 0 || from >= order.len() {
        order.len() as int
    } else if std_path_less(paths[item], paths[order[from] as int]) {
        from
    } else {
        insertion_point(paths, order, item, from + 1)
    }
}

/// The indices of the first `count` paths, each inserted in turn at its insertion point:
/// the order that a stable sort by `Path` gives.
pub open spec fn path_insertion_order(paths: Seq<Seq<char>>, count: int) -> Seq<usize>
    decreases count,
{
    if count <= 0 {
        Seq::empty()
    } else {
        let before = path_insertion_order(paths, count - 1);
        before.insert(insertion_point(paths, before, count - 1, 0), (count - 1) as usize)
    }
}

/// Lists the indices of `paths` in `Path` order, by insertion.
pub fn path_sort_order(paths: &Vec<String>) -> (result: Vec<usize>)
    ensures
        is_path_order(path_texts(paths@), result@),
        result@ == path_insertion_order(path_texts(paths@), paths@.len() as int),
{
    let mut order: Vec<usize> = Vec::new();
    let mut next: usize = 0;
    while next < paths.len()
        invariant
            next <= paths.len(),
            is_path_order(path_texts(paths@).take(next as int), order@),
            forall|position: int| 0 <= position < order.len() ==> #[trigger] order@[position] < next,
            order@ == path_insertion_order(path_texts(paths@), next as int),
        decreases paths.len() - next,
    {
        let ghost before = order@;
        let mut position: usize = 0;
        let mut found: bool = false;
        while position < order.len() && !found
            invariant
                position <= order.len(),
                order@ == before,
                next < paths.len(),
                forall|index: int| 0 <= index < order.len() ==> #[trigger] order@[index] < next,
                !found ==> forall|earlier: int| 0 <= earlier < position ==> !std_path_less(
                    paths@[next as int]@,
                    paths@[#[trigger] order@[earlier] as int]@,
                ),
                found ==> position < order.len() && std_path_less(
                    paths@[next as int]@,
                    paths@[order@[position as int] as int]@,
                ) && !std_path_less(paths@[order@[position as int] as int]@, paths@[next as int]@),
                found ==> forall|earlier: int| 0 <= earlier < position ==> !std_path_less(
                    paths@[next as int]@,
                    paths@[#[trigger] order@[earlier] as int]@,
                ),
                found ==> position == insertion_point(path_texts(paths@), before, next as int, 0),
                !found ==> insertion_point(path_texts(paths@), before, next as int, 0) == insertion_point(
                    path_texts(paths@),
                    before,
                    next as int,
                    position as int,
                ),
            decreases (order.len() - position) * 2 + if found { 0int } else { 1int },
        {
            if path_less(paths[next].as_str(), paths[order[position]].as_str()) {
                found = true;
            } else {
                position = position + 1;
            }
        }
        order.insert(position, next);
        proof {
            let texts = path_texts(paths@);
            let prefix = texts.take(next as int);
            let extended = texts.take(next + 1);
            assert forall|index: int| 0 <= index < next implies extended[index] == prefix[index] by {}
            assert(order@ == before.insert(position as int, next));
            assert forall|index: int| 0 <= index < order.len() implies #[trigger] order@[index] < next + 1 by {
                if index < position {
                    assert(order@[index] == before[index]);
                } else if index > position {
                    assert(order@[index] == before[index - 1]);
                }
            }
            assert forall|first: int, second: int| 0 <= first < second < order.len() implies #[trigger] order@[first] != #[trigger] order@[second] by {
                if first < position && second < position {
                } else if first > position && second > position {
                    assert(order@[first] == before[first - 1]);
                    assert(order@[second] == before[second - 1]);
                } else if first < position && second > position {
                    assert(order@[second] == before[second - 1]);
                } else if first == position {
                    assert(order@[second] == before[second - 1]);
                } else {
                    assert(order@[first] == before[first]);
                }
            }
            assert forall|spot: int| 0 <= spot < order.len() - 1 implies !std_path_less(
                extended[order@[spot + 1] as int],
                extended[#[trigger] order@[spot] as int],
            ) by {
                if spot + 1 < position {
                    assert(order@[spot] == before[spot]);
                    assert(order@[spot + 1] == before[spot + 1]);
                } else if spot + 1 == position {
                    assert(order@[spot] == before[spot]);
                } else if spot == position {
                    assert(order@[spot + 1] == before[spot]);
                } else {
                    assert(order@[spot] == before[spot - 1]);
                    assert(order@[spot + 1] == before[spot]);
                }
            }
        }
        next = next + 1;
    }
    proof {
        assert(path_texts(paths@).take(paths@.len() as int) =~= path_texts(paths@));
    }
    order
}

/// An insertion point lies within the list or just past it.
pub proof fn lemma_insertion_point_in_range(paths: Seq<Seq<char>>, order: Seq<usize>, item: int, from: int)
    requires
        0 <= from,
    ensures
        0 <= insertion_point(paths, order, item, from) <= order.len(),
    decreases order.len() - from,
{
    if from < order.len() && !std_path_less(paths[item], paths[order[from] as int]) {
        lemma_insertion_point_in_range(paths, order, item, from + 1);
    }
}

/// The insertion order of the first `count` paths lists `count` indices, each below `count`.
pub proof fn lemma_insertion_order_indices(paths: Seq<Seq<char>>, count: int)
    requires
        0 <= count <= usize::MAX,
    ensures
        path_insertion_order(paths, count).len() == count,
        forall|position: int| 0 <= position < count ==> (#[trigger] path_insertion_order(paths, count)[position]) < count,
    decreases count,
{
    if count > 0 {
        lemma_insertion_order_indices(paths, count - 1);
        let before = path_insertion_order(paths, count - 1);
        let point = insertion_point(paths, before, count - 1, 0);
        lemma_insertion_point_in_range(paths, before, count - 1, 0);
        let after = path_insertion_order(paths, count);
        assert(after == before.insert(point, (count - 1) as usize));
        assert forall|position: int| 0 <= position < count implies (#[trigger] after[position]) < count by {
            if position < point {
                assert(after[position] == before[position]);
            } else if position > point {
                assert(after[position] == before[position - 1]);
            }
        }
    }
}

} // verus!
