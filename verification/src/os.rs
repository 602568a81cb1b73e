//! The shell's view of the operating system: where a command's output goes,
//! the pieces of the environment the builtins read, and the search for an
//! executable on the PATH directory list.
//!
//! Only the check whether a path exists on disk touches the file system;
//! everything around it is verified. Reading the environment and opening
//! files is left to the surrounding binary, which fills `ShellContext` with
//! plain values.

use vstd::prelude::*;

use crate::strutil::push_char;

verus! {

/// Where a standard stream of one command goes: inherited from the shell,
/// or into a file (truncated unless `append`).
pub enum StandardIO {
    Inherit,
    File { path: String, append: bool },
}

/// Mathematical value of a `StandardIO`.
pub ghost enum IoSpec {
    Inherit,
    File { path: Seq<char>, append: bool },
}

impl View for StandardIO {
    type V = IoSpec;

    open spec fn view(&self) -> IoSpec {
        match self {
            StandardIO::Inherit => IoSpec::Inherit,
            StandardIO::File { path, append } => IoSpec::File { path: path@, append: *append },
        }
    }
}

/// The pieces of the environment a dispatch reads, passed in as plain
/// values: the `HOME` value, the current working directory, and the PATH
/// directory list. Each is absent when the environment does not provide it.
pub struct ShellContext {
    pub home: Option<String>,
    pub cwd: Option<String>,
    pub path_list: Option<Vec<String>>,
}

/// Mathematical value of a `ShellContext`.
#[verifier::ext_equal]
pub ghost struct CtxView {
    pub home: Option<Seq<char>>,
    pub cwd: Option<Seq<char>>,
    pub path_list: Option<Seq<Seq<char>>>,
}

impl View for ShellContext {
    type V = CtxView;

    open spec fn view(&self) -> CtxView {
        CtxView {
            home: self.home.deep_view(),
            cwd: self.cwd.deep_view(),
            path_list: self.path_list.deep_view(),
        }
    }
}

/// The pieces of `s` from position `i` on, split on `:`, with `cur` the
/// piece accumulated so far: every `:` ends a piece, and empty pieces are
/// kept.
pub open spec fn split_colon_from(s: Seq<char>, i: int, cur: Seq<char>) -> Seq<Seq<char>>
    decreases s.len() - i,
{
    if i < 0 || i >= s.len() {
        seq![cur]
    } else if s[i] == ':' {
        seq![cur] + split_colon_from(s, i + 1, Seq::empty())
    } else {
        split_colon_from(s, i + 1, cur.push(s[i]))
    }
}

/// `s` split on `:`: the pieces between colons, in order, empty pieces
/// kept — so the result always holds at least one piece.
pub open spec fn split_colon(s: Seq<char>) -> Seq<Seq<char>> {
    split_colon_from(s, 0, Seq::empty())
}

/// The PATH value split into its directory list: one piece per `:`-free
/// stretch, in order, as `split_colon` describes.
pub fn split_search_path(var: &str) -> (r: Vec<String>)
    ensures
        r.deep_view() == split_colon(var@),
{
    let n: usize = var.unicode_len();
    let mut r: Vec<String> = Vec::new();
    let mut cur = String::new();
    let mut i: usize = 0;
    proof {
        assert(r.deep_view() =~= Seq::<Seq<char>>::empty());
    }
    while i < n
        invariant
            0 <= i <= n,
            n == var@.len(),
            split_colon(var@) == r.deep_view() + split_colon_from(var@, i as int, cur@),
        decreases n - i,
    {
        let c = var.get_char(i);
        if c == ':' {
            let ghost before = r.deep_view();
            let ghost piece = cur@;
            r.push(cur);
            cur = String::new();
            proof {
                assert(r.deep_view() =~= before.push(piece));
                assert(before.push(piece) =~= before + seq![piece]);
                assert((before + seq![piece]) + split_colon_from(var@, i + 1, cur@) =~= before + (
                seq![piece] + split_colon_from(var@, i + 1, cur@)));
            }
        } else {
            push_char(&mut cur, c);
        }
        i += 1;
    }
    let ghost before = r.deep_view();
    let ghost piece = cur@;
    r.push(cur);
    proof {
        assert(r.deep_view() =~= before.push(piece));
        assert(before.push(piece) =~= before + seq![piece]);
    }
    r
}

/// A directory path joined with an entry name: the name alone when it is
/// absolute or the directory is empty, otherwise the two with exactly one
/// `/` between them.
pub open spec fn join_path(dir: Seq<char>, name: Seq<char>) -> Seq<char> {
    if name.len() > 0 && name[0] == '/' {
        name
    } else if dir.len() == 0 {
        name
    } else if dir.last() == '/' {
        dir + name
    } else {
        dir + "/"@ + name
    }
}

/// Joins a directory path and an entry name, as `join_path` describes.
pub fn join_path_exec(dir: &str, name: &str) -> (r: String)
    ensures
        r@ == join_path(dir@, name@),
{
    let name_len: usize = name.unicode_len();
    if name_len > 0 && name.get_char(0) == '/' {
        return String::from_str(name);
    }
    let dir_len: usize = dir.unicode_len();
    if dir_len == 0 {
        return String::from_str(name);
    }
    let mut r = String::from_str(dir);
    if dir.get_char(dir_len - 1) != '/' {
        r.append("/");
    }
    r.append(name);
    r
}

/// Relies on `std::path::Path::exists`: whether this path points at an
/// entry on disk. What is on disk can change between calls, so nothing is
/// promised of the answer.
#[verifier::external_body]
fn path_exists(path: &str) -> bool {
    std::path::Path::new(path).exists()
}

/// Whether `p` is the join of one of the directories in `dirs` with `name`.
pub open spec fn is_join_of(dirs: Seq<Seq<char>>, name: Seq<char>, p: Seq<char>) -> bool {
    exists|i: int| 0 <= i < dirs.len() && p == join_path(dirs[i], name)
}

/// Whether `r` is an in-order sub-sequence of the joins of the listed
/// directories with `name`: dropping some candidates keeps the rest in
/// directory-list order.
pub open spec fn candidates_subseq(dirs: Seq<Seq<char>>, name: Seq<char>, r: Seq<Seq<char>>) -> bool
    decreases dirs.len(),
{
    if r.len() == 0 {
        true
    } else if dirs.len() == 0 {
        false
    } else {
        (r.last() == join_path(dirs.last(), name) && candidates_subseq(
            dirs.drop_last(),
            name,
            r.drop_last(),
        )) || candidates_subseq(dirs.drop_last(), name, r)
    }
}

proof fn lemma_subseq_skip_dir(dirs: Seq<Seq<char>>, name: Seq<char>, r: Seq<Seq<char>>, d: Seq<
    char,
>)
    requires
        candidates_subseq(dirs, name, r),
    ensures
        candidates_subseq(dirs.push(d), name, r),
{
    if r.len() > 0 {
        assert(dirs.push(d).drop_last() =~= dirs);
    }
}

proof fn lemma_subseq_take_dir(dirs: Seq<Seq<char>>, name: Seq<char>, r: Seq<Seq<char>>, d: Seq<
    char,
>)
    requires
        candidates_subseq(dirs, name, r),
    ensures
        candidates_subseq(dirs.push(d), name, r.push(join_path(d, name))),
{
    assert(dirs.push(d).drop_last() =~= dirs);
    assert(r.push(join_path(d, name)).drop_last() =~= r);
    assert(r.push(join_path(d, name)).last() == join_path(d, name));
    assert(dirs.push(d).last() == d);
}

/// The paths under the given directories at which an entry named `name`
/// exists right now, in directory-list order. Every returned path is the
/// join of a listed directory with `name`; which of the candidates exist
/// depends on the file system.
pub fn find_file(name: &str, path_list: &Vec<String>) -> (r: Vec<String>)
    ensures
        forall|j: int|
            0 <= j < r@.len() ==> #[trigger] is_join_of(path_list.deep_view(), name@, r@[j]@),
        candidates_subseq(path_list.deep_view(), name@, r.deep_view()),
        r@.len() <= path_list@.len(),
{
    let ghost dirs = path_list.deep_view();
    let mut r: Vec<String> = Vec::new();
    let mut i: usize = 0;
    while i < path_list.len()
        invariant
            0 <= i <= path_list@.len(),
            dirs == path_list.deep_view(),
            r@.len() <= i,
            forall|j: int|
                0 <= j < r@.len() ==> #[trigger] is_join_of(path_list.deep_view(), name@, r@[j]@),
            candidates_subseq(dirs.take(i as int), name@, r.deep_view()),
        decreases path_list@.len() - i,
    {
        let candidate = join_path_exec(path_list[i].as_str(), name);
        let ghost k = i as int;
        if path_exists(candidate.as_str()) {
            proof {
                assert(candidate@ == join_path(dirs[k], name@));
                assert(is_join_of(dirs, name@, candidate@));
            }
            let ghost before = r.deep_view();
            r.push(candidate);
            proof {
                assert(r.deep_view() =~= before.push(join_path(dirs[k], name@)));
                lemma_subseq_take_dir(dirs.take(k), name@, before, dirs[k]);
                assert(dirs.take(k).push(dirs[k]) =~= dirs.take(k + 1));
            }
        } else {
            proof {
                lemma_subseq_skip_dir(dirs.take(k), name@, r.deep_view(), dirs[k]);
                assert(dirs.take(k).push(dirs[k]) =~= dirs.take(k + 1));
            }
        }
        i += 1;
    }
    proof {
        assert(dirs.take(dirs.len() as int) =~= dirs);
    }
    r
}

} // verus!
