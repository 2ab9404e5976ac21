use vstd::prelude::*;
use vstd::std_specs::iter::IteratorSpec;

use crate::pull_request::{CommitRef, CommitRefView};
use crate::text::push_char;

verus! {

broadcast use vstd::string::axiom_spec_iter, vstd::string::next_postcondition;

/// The display name the CI server gives the build of a commit: the branch
/// name, a dash, and the first five characters of the commit hash.
pub open spec fn derived_job_name(r: CommitRefView) -> Seq<char> {
    r.branch + seq!['-'] + r.sha.subrange(0, 5)
}

/// Derives the expected CI job display name for a commit reference.
///
/// The commit hash is a hex SHA and must carry at least five characters;
/// anything shorter is a caller error and is rejected up front rather than
/// silently truncated.
pub fn job_name(commit_ref: &CommitRef) -> (r: String)
    requires
        commit_ref@.sha.len() >= 5,
    ensures
        r@ == derived_job_name(commit_ref@),
{
    let mut name = commit_ref.branch.clone();
    push_char(&mut name, '-');
    let sha = commit_ref.sha.as_str();
    let mut it = sha.chars();
    proof {
        assert(it.remaining() =~= commit_ref@.sha.skip(0));
    }
    let mut i: usize = 0;
    while i < 5
        invariant
            commit_ref@.sha.len() >= 5,
            i <= 5,
            it.remaining() == commit_ref@.sha.skip(i as int),
            name@ == commit_ref@.branch + seq!['-'] + commit_ref@.sha.subrange(0, i as int),
        decreases 5 - i,
    {
        let c = it.next().unwrap();
        proof {
            assert(commit_ref@.sha.skip(i as int).drop_first() =~= commit_ref@.sha.skip(
                i as int + 1,
            ));
            assert(commit_ref@.sha.subrange(0, i as int) + seq![c] =~= commit_ref@.sha.subrange(
                0,
                i as int + 1,
            ));
        }
        push_char(&mut name, c);
        i = i + 1;
    }
    proof {
        assert(name@ =~= derived_job_name(commit_ref@));
    }
    name
}

} // verus!
