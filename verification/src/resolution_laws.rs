//! What holds of every resolution.

use vstd::prelude::*;
use crate::resolution::{
    answered, begin, candidates, first_file, found, is_absolute, is_relative, normalized, plan,
    probe_next, resolution, retry_candidates, run, Disk, Outcome, PackageErrorKind,
    PackageErrorView, Plan, ResolutionErrorView, Search, Step,
};

verus! {

/// The number of answers after which every resolution is over: six probes at
/// most, the package resolver, and two probes more.
pub open spec fn most_answers() -> nat {
    9
}

/// Five files are probed for every computed path, and a sixth for one that ends
/// in a script extension.
pub proof fn lemma_number_of_candidates(computed: Seq<char>)
    ensures
        5 <= candidates(computed).len() <= 6,
        candidates(computed).len() == 6 <==> ".js"@.is_suffix_of(computed) || ".cjs"@.is_suffix_of(
            computed,
        ),
        candidates(computed)[0] == computed,
{
}

/// A resolution that is over stays as it is.
pub proof fn lemma_done_stays(disk: Disk, outcome: Outcome, n: nat)
    ensures
        run(disk, Step::Done(outcome), n) == Step::Done(outcome),
    decreases n,
{
    if n > 0 {
        lemma_done_stays(disk, outcome, (n - 1) as nat);
    }
}

/// Where `paths[i]` is a regular file and no path before it is, it is the first
/// file of `paths`.
pub proof fn lemma_first_file_is_earliest(files: Set<Seq<char>>, paths: Seq<Seq<char>>, i: int)
    requires
        0 <= i < paths.len(),
        files.contains(paths[i]),
        forall|j: int| 0 <= j < i ==> !files.contains(#[trigger] paths[j]),
    ensures
        first_file(files, paths) == Some(paths[i]),
    decreases paths.len(),
{
    if i > 0 {
        let rest = paths.drop_first();
        assert(!files.contains(paths[0]));
        assert(rest[i - 1] == paths[i]);
        assert forall|j: int| 0 <= j < i - 1 implies !files.contains(#[trigger] rest[j]) by {
            assert(rest[j] == paths[j + 1]);
        }
        lemma_first_file_is_earliest(files, rest, i - 1);
    }
}

/// The first file of `paths` is one of them, it is a regular file, and nothing
/// before it is; there is none only where none of `paths` is a regular file.
pub proof fn lemma_first_file_is_a_candidate(files: Set<Seq<char>>, paths: Seq<Seq<char>>)
    ensures
        match first_file(files, paths) {
            Some(path) => exists|i: int|
                0 <= i < paths.len() && #[trigger] paths[i] == path && files.contains(path)
                    && forall|j: int| 0 <= j < i ==> !files.contains(#[trigger] paths[j]),
            None => forall|j: int| 0 <= j < paths.len() ==> !files.contains(#[trigger] paths[j]),
        },
    decreases paths.len(),
{
    if paths.len() > 0 {
        if files.contains(paths[0]) {
            assert(paths[0] == paths[0]);
        } else {
            let rest = paths.drop_first();
            lemma_first_file_is_a_candidate(files, rest);
            match first_file(files, rest) {
                Some(path) => {
                    let i = choose|i: int|
                        0 <= i < rest.len() && #[trigger] rest[i] == path && files.contains(path)
                            && forall|j: int| 0 <= j < i ==> !files.contains(#[trigger] rest[j]);
                    assert(paths[i + 1] == rest[i]);
                    assert forall|j: int| 0 <= j < i + 1 implies !files.contains(
                        #[trigger] paths[j],
                    ) by {
                        if j > 0 {
                            assert(paths[j] == rest[j - 1]);
                        }
                    }
                },
                None => {
                    assert forall|j: int| 0 <= j < paths.len() implies !files.contains(
                        #[trigger] paths[j],
                    ) by {
                        if j > 0 {
                            assert(paths[j] == rest[j - 1]);
                        }
                    }
                },
            }
        }
    }
}

/// Probing, answered by `disk`, ends with the first of the remaining paths that
/// is a regular file; where none is, it goes on as if nothing had been left to
/// probe.
pub proof fn lemma_probing_finds_first_file(
    disk: Disk,
    search: Search,
    remaining: Seq<Seq<char>>,
    refusal: Option<PackageErrorView>,
    n: nat,
)
    requires
        n >= remaining.len(),
    ensures
        run(disk, probe_next(search, remaining, refusal), n) == match first_file(
            disk.files,
            remaining,
        ) {
            Some(path) => Step::Done(Ok(path)),
            None => run(
                disk,
                probe_next(search, Seq::empty(), refusal),
                (n - remaining.len()) as nat,
            ),
        },
    decreases remaining.len(),
{
    if remaining.len() == 0 {
        assert(remaining =~= Seq::empty());
    } else {
        let step = probe_next(search, remaining, refusal);
        assert(run(disk, step, n) == run(disk, answered(disk, step), (n - 1) as nat));
        if disk.files.contains(remaining[0]) {
            lemma_done_stays(disk, Ok(remaining[0]), (n - 1) as nat);
        } else {
            lemma_probing_finds_first_file(
                disk,
                search,
                remaining.drop_first(),
                refusal,
                (n - 1) as nat,
            );
        }
    }
}

/// A search, answered by `disk`, ends in what `found` says.
pub proof fn lemma_search_ends_in_found(disk: Disk, search: Search, n: nat)
    requires
        n >= most_answers(),
    ensures
        run(disk, probe_next(search, candidates(search.computed), None), n) == Step::Done(
            found(disk, search),
        ),
{
    let first = candidates(search.computed);
    assert(5 <= first.len() <= 6);
    lemma_probing_finds_first_file(disk, search, first, None, n);
    if first_file(disk.files, first) is None {
        let left = (n - first.len()) as nat;
        let ask = Step::Delegate { search };
        assert(probe_next(search, Seq::empty(), None) == ask);
        assert(run(disk, ask, left) == run(disk, answered(disk, ask), (left - 1) as nat));
        let answer = (disk.packages)(search.base_dir, search.specifier);
        match answer {
            Ok(path) => {
                lemma_done_stays(disk, Ok(path), (left - 1) as nat);
            },
            Err(error) => {
                match error.kind {
                    PackageErrorKind::PathNotExported => {
                        let again = retry_candidates(search.computed);
                        lemma_probing_finds_first_file(
                            disk,
                            search,
                            again,
                            Some(error),
                            (left - 1) as nat,
                        );
                        lemma_done_stays(
                            disk,
                            Err(ResolutionErrorView::Package(error)),
                            (left - 1 - again.len()) as nat,
                        );
                    },
                    PackageErrorKind::Other => {
                        lemma_done_stays(
                            disk,
                            Err(ResolutionErrorView::Package(error)),
                            (left - 1) as nat,
                        );
                    },
                }
            },
        }
    }
}

/// The resolver, answered by `disk`, ends in what `resolution` says, after
/// `most_answers()` answers at most.
pub proof fn lemma_resolver_ends_in_resolution(
    disk: Disk,
    base_dir: Seq<char>,
    specifier: Seq<char>,
    containing_file: Option<Seq<char>>,
    n: nat,
)
    requires
        n >= most_answers(),
    ensures
        run(disk, begin(base_dir, specifier, containing_file), n) == Step::Done(
            resolution(disk, base_dir, specifier, containing_file),
        ),
{
    match plan(base_dir, specifier, containing_file) {
        Plan::Verbatim(path) => {
            lemma_done_stays(disk, Ok(path), n);
        },
        Plan::Unresolvable(s) => {
            lemma_done_stays(disk, Err(ResolutionErrorView::NotFound(s)), n);
        },
        Plan::Search(search) => {
            lemma_search_ends_in_found(disk, search, n);
        },
    }
}

/// The candidates are tried in their order: where `candidates(computed)[i]` is a
/// regular file and no candidate before it is, it is the result, as it stands.
pub proof fn lemma_earliest_candidate_wins(disk: Disk, search: Search, i: int)
    requires
        0 <= i < candidates(search.computed).len(),
        disk.files.contains(candidates(search.computed)[i]),
        forall|j: int| 0 <= j < i ==> !disk.files.contains(#[trigger] candidates(search.computed)[j]),
    ensures
        found(disk, search) == Ok::<Seq<char>, ResolutionErrorView>(
            candidates(search.computed)[i],
        ),
{
    lemma_first_file_is_earliest(disk.files, candidates(search.computed), i);
}

/// Where neither the computed path nor the one with `.js` is a regular file, and
/// the one with `.cjs` is, the search ends in the path with `.cjs`.
pub proof fn lemma_cjs_after_js(disk: Disk, search: Search)
    requires
        !disk.files.contains(search.computed),
        !disk.files.contains(search.computed + ".js"@),
        disk.files.contains(search.computed + ".cjs"@),
    ensures
        found(disk, search) == Ok::<Seq<char>, ResolutionErrorView>(
            search.computed + ".cjs"@,
        ),
{
    let paths = candidates(search.computed);
    assert(paths[0] == search.computed);
    assert(paths[1] == search.computed + ".js"@);
    assert(paths[2] == search.computed + ".cjs"@);
    lemma_earliest_candidate_wins(disk, search, 2);
}

/// An absolute path or a file URL is its own resolution, whatever the disk holds.
pub proof fn lemma_absolute_is_verbatim(
    disk: Disk,
    base_dir: Seq<char>,
    specifier: Seq<char>,
    containing_file: Option<Seq<char>>,
)
    requires
        is_absolute(specifier),
    ensures
        resolution(disk, base_dir, specifier, containing_file) == Ok::<
            Seq<char>,
            ResolutionErrorView,
        >(specifier),
{
}

/// A relative specifier that no file names is not found.
pub proof fn lemma_relative_needs_a_file(disk: Disk, base_dir: Seq<char>, specifier: Seq<char>)
    requires
        !is_absolute(specifier),
        is_relative(normalized(specifier)),
    ensures
        resolution(disk, base_dir, specifier, None) == Err::<
            Seq<char>,
            ResolutionErrorView,
        >(
            ResolutionErrorView::NotFound(
                normalized(specifier),
            ),
        ),
{
}

} // verus!
