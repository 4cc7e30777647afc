//! Which of the entries met under a root are solution files.

use crate::error::AppError;
use crate::text::chars_of;
use vstd::prelude::*;

verus! {

/// One thing met while walking the tree under the root.
#[derive(Debug, PartialEq, Eq)]
pub enum Scanned {
    /// A file or directory, with its path and the extension of its name,
    /// where the name has one.
    Entry { path: String, extension: Option<String> },
    /// A place that could not be read, `depth` levels below the root. The
    /// root itself lies at depth 0.
    Unreadable { depth: usize },
}

/// The extension that marks a solution file: `sln`.
pub open spec fn solution_extension() -> Seq<char> {
    seq!['s', 'l', 'n']
}

/// Whether `item` is a solution file: an entry whose extension is, letter
/// for letter, the solution extension.
pub open spec fn is_solution(item: Scanned) -> bool {
    item matches Scanned::Entry { extension: Some(e), .. } && e@ == solution_extension()
}

/// The path of an entry.
pub open spec fn path_of(item: Scanned) -> Seq<char> {
    match item {
        Scanned::Entry { path, .. } => path@,
        Scanned::Unreadable { .. } => Seq::empty(),
    }
}

/// Whether the walk failed at the root itself.
pub open spec fn root_unreadable(items: Seq<Scanned>) -> bool {
    exists|i: int| 0 <= i < items.len() && #[trigger] items[i] == (Scanned::Unreadable { depth: 0 })
}

/// The paths of the solution files among `items`, in the order of the walk.
pub open spec fn solution_paths(items: Seq<Scanned>) -> Seq<Seq<char>> {
    items.filter(|item: Scanned| is_solution(item)).map_values(|item: Scanned| path_of(item))
}

/// What discovery makes of a walk: the solution paths, unless the root
/// could not be opened.
pub open spec fn discovered(items: Seq<Scanned>) -> Result<Seq<Seq<char>>, AppError> {
    if root_unreadable(items) {
        Err(AppError::RootUnreadable)
    } else {
        Ok(solution_paths(items))
    }
}

/// The solution paths of a walk that went one entry further.
pub proof fn lemma_solution_paths_push(items: Seq<Scanned>, item: Scanned)
    ensures
        solution_paths(items.push(item)) == if is_solution(item) {
            solution_paths(items).push(path_of(item))
        } else {
            solution_paths(items)
        },
{
    let keep = |item: Scanned| is_solution(item);
    let path = |item: Scanned| path_of(item);
    items.lemma_filter_push(item, keep);
    if is_solution(item) {
        items.filter(keep).lemma_push_map_commute(path, item);
    }
}

/// A walk that met no solution file discovers nothing.
pub proof fn lemma_nothing_discovered(items: Seq<Scanned>)
    requires
        forall|i: int| 0 <= i < items.len() ==> !is_solution(#[trigger] items[i]),
    ensures
        solution_paths(items) == Seq::<Seq<char>>::empty(),
    decreases items.len(),
{
    if items.len() == 0 {
        reveal(Seq::filter);
        assert(solution_paths(items) =~= Seq::<Seq<char>>::empty());
    } else {
        let init = items.drop_last();
        assert forall|i: int| 0 <= i < init.len() implies !is_solution(#[trigger] init[i]) by {
            assert(init[i] == items[i]);
        }
        lemma_nothing_discovered(init);
        assert(items =~= init.push(items.last()));
        lemma_solution_paths_push(init, items.last());
        assert(!is_solution(items[items.len() - 1]));
    }
}

/// As many paths are discovered as the walk met solution files.
pub proof fn lemma_discovered_count(items: Seq<Scanned>)
    ensures
        solution_paths(items).len() == items.filter(|item: Scanned| is_solution(item)).len(),
        solution_paths(items).len() <= items.len(),
{
    items.lemma_filter_len(|item: Scanned| is_solution(item));
}

/// Each discovered path is that of an entry with the solution extension.
pub proof fn lemma_discovered_are_solutions(items: Seq<Scanned>, k: int)
    requires
        0 <= k < solution_paths(items).len(),
    ensures
        exists|i: int|
            0 <= i < items.len() && is_solution(#[trigger] items[i]) && path_of(items[i])
                == solution_paths(items)[k],
{
    let keep = |item: Scanned| is_solution(item);
    let kept = items.filter(keep);
    items.lemma_filter_pred(keep, k);
    assert(kept.contains(kept[k]));
    items.lemma_filter_contains_rev(keep, kept[k]);
    let i = choose|i: int| 0 <= i < items.len() && items[i] == kept[k];
    assert(is_solution(items[i]));
}

/// Tells whether `extension` is the solution extension.
pub fn is_solution_extension(extension: &str) -> (r: bool)
    ensures
        r == (extension@ == solution_extension()),
{
    let chars = chars_of(extension);
    let r = chars.len() == 3 && chars[0] == 's' && chars[1] == 'l' && chars[2] == 'n';
    proof {
        if r {
            assert(extension@ =~= solution_extension());
        }
    }
    r
}

/// Picks the solution files out of what a walk under the root met, in the
/// order in which they were met. Fails only where the root itself could not
/// be opened; what could not be read below it is passed over.
pub fn find_sln_files(scanned: &Vec<Scanned>) -> (r: Result<Vec<String>, AppError>)
    ensures
        match r {
            Ok(paths) => discovered(scanned@) == Ok::<Seq<Seq<char>>, AppError>(paths.deep_view()),
            Err(e) => discovered(scanned@) == Err::<Seq<Seq<char>>, AppError>(e),
        },
{
    let mut out: Vec<String> = Vec::new();
    let mut i: usize = 0;
    proof {
        assert(scanned@.take(0) =~= Seq::empty());
        reveal(Seq::filter);
        assert(out.deep_view() =~= solution_paths(scanned@.take(0)));
    }
    while i < scanned.len()
        invariant
            i <= scanned.len(),
            !root_unreadable(scanned@.take(i as int)),
            out.deep_view() == solution_paths(scanned@.take(i as int)),
        decreases scanned.len() - i,
    {
        let ghost before = out.deep_view();
        proof {
            assert(scanned@.take(i as int + 1) =~= scanned@.take(i as int).push(scanned@[i as int]));
            lemma_solution_paths_push(scanned@.take(i as int), scanned@[i as int]);
        }
        match &scanned[i] {
            Scanned::Entry { path, extension: Some(e) } => {
                if is_solution_extension(e.as_str()) {
                    out.push(path.clone());
                    assert(out.deep_view() =~= before.push(path@));
                }
            },
            Scanned::Entry { extension: None, .. } => {},
            Scanned::Unreadable { depth } => {
                if *depth == 0 {
                    return Err(AppError::RootUnreadable);
                }
            },
        }
        proof {
            let next = scanned@.take(i as int + 1);
            if root_unreadable(next) {
                let k = choose|k: int|
                    0 <= k < next.len() && #[trigger] next[k] == (Scanned::Unreadable { depth: 0 });
                if k < i {
                    assert(scanned@.take(i as int)[k] == next[k]);
                }
            }
        }
        i += 1;
    }
    proof {
        assert(scanned@.take(i as int) =~= scanned@);
    }
    Ok(out)
}

} // verus!
