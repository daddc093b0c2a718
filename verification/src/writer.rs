use vstd::prelude::*;

use crate::post::Post;
use crate::post::SpecPost;
use crate::post::spec_filename;

verus! {

/// Joins the fixed staging root with the caller's output directory name.
pub fn get_save_dir(dir: &str) -> (r: String)
    ensures
        r@ == "/tmp/"@ + dir@,
{
    let mut s = String::new();
    s.append("/tmp/");
    s.append(dir);
    s
}

/// What the write stage must do about the target directory, decided from
/// whether it exists and whether overwriting was granted.
#[derive(Clone, Copy, Debug, PartialEq, Eq, Structural)]
pub enum SavePlan {
    /// The directory exists and overwriting was declined: fail without
    /// touching the filesystem.
    Refused,
    /// The directory exists and overwriting was granted: delete its tree,
    /// recreate it, then write.
    ClearThenWrite,
    /// The directory does not exist: create it, then write.
    CreateThenWrite,
}

/// Decides the write stage's directory action. Refuses exactly when the
/// directory exists and overwriting was not granted; mutates nothing itself.
pub fn plan_save(exists: bool, overwrite: bool) -> (r: SavePlan)
    ensures
        (exists && !overwrite) ==> r is Refused,
        (exists && overwrite) ==> r is ClearThenWrite,
        !exists ==> r is CreateThenWrite,
{
    if exists {
        if overwrite {
            SavePlan::ClearThenWrite
        } else {
            SavePlan::Refused
        }
    } else {
        SavePlan::CreateThenWrite
    }
}

/// The full path of a post's output file under the resolved directory.
pub open spec fn spec_file_path(dir: Seq<char>, p: SpecPost) -> Seq<char> {
    "/tmp/"@ + dir + "/"@ + spec_filename(p)
}

/// Computes, for every post, the full path of its output file and the exact
/// bytes-to-be of its content. Touches no filesystem state: one pair per
/// post, in feed order; an empty feed yields an empty list.
pub fn output_files(dir: &str, posts: &Vec<Post>) -> (r: Vec<(String, String)>)
    requires
        forall|i: int| 0 <= i < posts@.len() ==> (#[trigger] posts@[i]).wf(),
    ensures
        r@.len() == posts@.len(),
        forall|i: int|
            0 <= i < r@.len() ==> (#[trigger] r@[i]).0@ == spec_file_path(dir@, posts@[i]@)
                && r@[i].1@ == posts@[i]@.md,
{
    let save_dir = get_save_dir(dir);
    let mut r: Vec<(String, String)> = Vec::new();
    let n = posts.len();
    for i in 0..n
        invariant
            n == posts@.len(),
            save_dir@ == "/tmp/"@ + dir@,
            forall|j: int| 0 <= j < posts@.len() ==> (#[trigger] posts@[j]).wf(),
            r@.len() == i,
            forall|j: int|
                0 <= j < i ==> (#[trigger] r@[j]).0@ == spec_file_path(dir@, posts@[j]@)
                    && r@[j].1@ == posts@[j]@.md,
    {
        let mut path = String::new();
        path.append(save_dir.as_str());
        path.append("/");
        let name = posts[i].filename();
        path.append(name.as_str());
        proof {
            assert(path@ =~= spec_file_path(dir@, posts@[i as int]@));
        }
        let body = posts[i].md.clone();
        r.push((path, body));
    }
    r
}

/// The contents of the output directory after the write stage, as a map from
/// filename to file content. A later post whose filename collides with an
/// earlier one wins, matching the documented collision policy.
pub open spec fn spec_written_dir(posts: Seq<SpecPost>) -> Map<Seq<char>, Seq<char>>
    decreases posts.len(),
{
    if posts.len() == 0 {
        Map::empty()
    } else {
        spec_written_dir(posts.drop_last()).insert(
            spec_filename(posts.last()),
            posts.last().md,
        )
    }
}

/// The contents of the output directory after a write with overwriting
/// granted: the prior contents are cleared first, so only the posts remain.
pub open spec fn spec_dir_after_overwrite(
    prior: Map<Seq<char>, Seq<char>>,
    posts: Seq<SpecPost>,
) -> Map<Seq<char>, Seq<char>> {
    spec_written_dir(posts)
}

/// Law: writing the same posts twice with overwriting granted leaves the
/// directory exactly as one write does; the prior contents never show
/// through.
pub proof fn lemma_overwrite_idempotent(prior: Map<Seq<char>, Seq<char>>, posts: Seq<SpecPost>)
    ensures
        spec_dir_after_overwrite(spec_dir_after_overwrite(prior, posts), posts)
            == spec_dir_after_overwrite(prior, posts),
{
}

/// Law: a post whose filename no later post reuses can be read back from the
/// written directory byte-identically.
pub proof fn lemma_read_back(posts: Seq<SpecPost>, i: int)
    requires
        0 <= i < posts.len(),
        forall|j: int| i < j < posts.len() ==> spec_filename(posts[j]) != spec_filename(
            posts[i],
        ),
    ensures
        spec_written_dir(posts).contains_key(spec_filename(posts[i])),
        spec_written_dir(posts)[spec_filename(posts[i])] == posts[i].md,
    decreases posts.len(),
{
    if i == posts.len() - 1 {
    } else {
        assert(posts.drop_last()[i] == posts[i]);
        lemma_read_back(posts.drop_last(), i);
    }
}

/// A filename is present in the written directory exactly when some post
/// derives it: the write stage creates no other files and drops none.
pub proof fn lemma_output_matches_dir(posts: Seq<SpecPost>, name: Seq<char>)
    ensures
        spec_written_dir(posts).contains_key(name) <==> exists|i: int|
            0 <= i < posts.len() && spec_filename(#[trigger] posts[i]) == name,
    decreases posts.len(),
{
    if posts.len() > 0 {
        lemma_output_matches_dir(posts.drop_last(), name);
        if spec_written_dir(posts).contains_key(name) {
            if name == spec_filename(posts.last()) {
                assert(spec_filename(posts[posts.len() - 1]) == name);
            } else {
                let i = choose|i: int|
                    0 <= i < posts.drop_last().len() && spec_filename(
                        #[trigger] posts.drop_last()[i],
                    ) == name;
                assert(posts[i] == posts.drop_last()[i]);
            }
        }
        if exists|i: int| 0 <= i < posts.len() && spec_filename(#[trigger] posts[i]) == name {
            let i = choose|i: int|
                0 <= i < posts.len() && spec_filename(#[trigger] posts[i]) == name;
            if i < posts.len() - 1 {
                assert(posts.drop_last()[i] == posts[i]);
            }
        }
    }
}

} // verus!
