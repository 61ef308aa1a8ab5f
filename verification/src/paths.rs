//! Unix path arithmetic on strings: joining, the final component, its stem
//! and extension, with the meaning that `std::path` documents for them.
use vstd::prelude::*;
use crate::text::{decimal, decimal_string, last_index_of, lemma_last_index_of, find_last_char, str_eq};

verus! {

/// `dir` joined with `name` as `PathBuf::push` does on Unix: an absolute
/// `name` replaces `dir`; otherwise a separator is inserted unless `dir` is
/// empty or already ends with one.
pub open spec fn join_path(dir: Seq<char>, name: Seq<char>) -> Seq<char> {
    if name.len() > 0 && name[0] == '/' {
        name
    } else if dir.len() == 0 || dir.last() == '/' {
        dir + name
    } else {
        dir + seq!['/'] + name
    }
}

/// The final normal component of a path (`Path::file_name`): trailing
/// separators and `.` components are skipped; a path that ends in `..`, or
/// has no normal component, has no file name.
pub open spec fn file_name_of(p: Seq<char>) -> Option<Seq<char>>
    decreases p.len(),
{
    if p.len() == 0 {
        None
    } else if p.last() == '/' {
        file_name_of(p.drop_last())
    } else {
        let k = last_index_of(p, '/');
        let comp = p.subrange(k + 1, p.len() as int);
        if comp == seq!['.'] {
            if k < 0 {
                None
            } else {
                proof {
                    lemma_last_index_of(p, '/');
                }
                file_name_of(p.subrange(0, k))
            }
        } else if comp == seq!['.', '.'] {
            None
        } else {
            Some(comp)
        }
    }
}

/// A file name split at its last `.`: a name without a `.`, or whose only
/// `.` is its first character, has no extension.
pub open spec fn split_extension(f: Seq<char>) -> (Seq<char>, Option<Seq<char>>) {
    let k = last_index_of(f, '.');
    if k <= 0 {
        (f, None)
    } else {
        (f.subrange(0, k), Some(f.subrange(k + 1, f.len() as int)))
    }
}

/// `Path::file_stem`.
pub open spec fn file_stem_of(p: Seq<char>) -> Option<Seq<char>> {
    match file_name_of(p) {
        Some(f) => Some(split_extension(f).0),
        None => None,
    }
}

/// `Path::extension`.
pub open spec fn extension_of(p: Seq<char>) -> Option<Seq<char>> {
    match file_name_of(p) {
        Some(f) => split_extension(f).1,
        None => None,
    }
}

/// Joins `name` onto `dir`.
pub fn join(dir: &str, name: &str) -> (r: String)
    ensures
        r@ == join_path(dir@, name@),
{
    let nlen = name.unicode_len();
    if nlen > 0 && name.get_char(0) == '/' {
        return name.to_string();
    }
    let dlen = dir.unicode_len();
    let mut r = dir.to_string();
    if dlen > 0 && dir.get_char(dlen - 1) != '/' {
        r.append("/");
        proof {
            reveal_strlit("/");
        }
    }
    r.append(name);
    r
}

/// The final normal component of `p`.
pub fn file_name(p: &str) -> (r: Option<String>)
    ensures
        match r {
            Some(s) => file_name_of(p@) == Some(s@),
            None => file_name_of(p@) is None,
        },
{
    let len = p.unicode_len();
    let mut end: usize = len;
    assert(p@.subrange(0, len as int) =~= p@);
    loop
        invariant
            end <= len == p@.len(),
            file_name_of(p@.subrange(0, end as int)) == file_name_of(p@),
        decreases end,
    {
        let ghost end0 = end;
        while end > 0 && p.get_char(end - 1) == '/'
            invariant
                end <= end0 <= len == p@.len(),
                file_name_of(p@.subrange(0, end as int)) == file_name_of(p@),
            decreases end,
        {
            assert(p@.subrange(0, end as int).drop_last() =~= p@.subrange(0, end - 1));
            end = end - 1;
        }
        if end == 0 {
            assert(p@.subrange(0, 0) =~= Seq::<char>::empty());
            return None;
        }
        let ghost q = p@.subrange(0, end as int);
        let k = find_last_char(p, end, '/');
        proof {
            lemma_last_index_of(q, '/');
        }
        let start: usize = match k {
            Some(i) => i + 1,
            None => 0,
        };
        let comp = p.substring_char(start, end);
        assert(comp@ =~= q.subrange(last_index_of(q, '/') + 1, q.len() as int));
        proof {
            reveal_strlit(".");
            reveal_strlit("..");
            assert("."@ =~= seq!['.']);
            assert(".."@ =~= seq!['.', '.']);
        }
        if str_eq(comp, ".") {
            assert(comp@ =~= seq!['.']);
            match k {
                None => {
                    return None;
                },
                Some(i) => {
                    assert(q.subrange(0, i as int) =~= p@.subrange(0, i as int));
                    end = i;
                },
            }
        } else if str_eq(comp, "..") {
            assert(comp@ =~= seq!['.', '.']);
            return None;
        } else {
            assert(comp@ != seq!['.']);
            assert(comp@ != seq!['.', '.']);
            return Some(comp.to_string());
        }
    }
}

/// Splits a file name at its last `.` (see [`split_extension`]).
fn split_name(f: &str) -> (r: (String, Option<String>))
    ensures
        r.0@ == split_extension(f@).0,
        match r.1 {
            Some(e) => split_extension(f@).1 == Some(e@),
            None => split_extension(f@).1 is None,
        },
{
    let len = f.unicode_len();
    let k = find_last_char(f, len, '.');
    assert(f@.subrange(0, len as int) =~= f@);
    proof {
        lemma_last_index_of(f@, '.');
    }
    match k {
        Some(i) => {
            if i == 0 {
                (f.to_string(), None)
            } else {
                let stem = f.substring_char(0, i).to_string();
                let ext = f.substring_char(i + 1, len).to_string();
                (stem, Some(ext))
            }
        },
        None => (f.to_string(), None),
    }
}

/// `Path::file_stem` of `p`.
pub fn file_stem(p: &str) -> (r: Option<String>)
    ensures
        match r {
            Some(s) => file_stem_of(p@) == Some(s@),
            None => file_stem_of(p@) is None,
        },
{
    match file_name(p) {
        Some(f) => {
            let (stem, _) = split_name(f.as_str());
            Some(stem)
        },
        None => None,
    }
}

/// `Path::extension` of `p`.
pub fn extension(p: &str) -> (r: Option<String>)
    ensures
        match r {
            Some(s) => extension_of(p@) == Some(s@),
            None => extension_of(p@) is None,
        },
{
    match file_name(p) {
        Some(f) => {
            let (_, ext) = split_name(f.as_str());
            ext
        },
        None => None,
    }
}

/// The name `name` takes when it collides `n - 1` times: its stem, then
/// ` (n)`, then its extension with the dot (`archive.tar (2).gz`). A name
/// without a stem keeps the whole name as the stem.
pub open spec fn numbered_name(name: Seq<char>, n: nat) -> Seq<char> {
    let stem = match file_stem_of(name) {
        Some(s) => s,
        None => name,
    };
    let ext = match extension_of(name) {
        Some(e) => seq!['.'] + e,
        None => Seq::<char>::empty(),
    };
    stem + seq![' ', '('] + decimal(n) + seq![')'] + ext
}

/// The `n`-th path tried for `name` in `dir`: the plain join for `n < 2`,
/// the numbered name otherwise.
pub open spec fn candidate_path(dir: Seq<char>, name: Seq<char>, n: nat) -> Seq<char> {
    if n < 2 {
        join_path(dir, name)
    } else {
        join_path(dir, numbered_name(name, n))
    }
}

/// The largest number `unique_path` tries.
pub const MAX_SUFFIX: u32 = 9999;

/// Whether something exists at `p` on the file system.
#[verifier::external_body]
fn path_exists(p: &str) -> bool {
    std::path::Path::new(p).exists()
}

/// The path picked for `name` in `dir` from the answers to "does this
/// candidate exist?", asked in order for candidates 1, 2, ...: the first
/// candidate answered free, among the first [`MAX_SUFFIX`]; `None` when
/// every one of those asked was taken.
pub open spec fn picked_path(dir: Seq<char>, name: Seq<char>, taken: Seq<bool>) -> Option<Seq<char>> {
    if exists|i: int| 0 <= i < taken.len() && i < MAX_SUFFIX && !taken[i] {
        let i = choose|i: int|
            0 <= i < taken.len() && i < MAX_SUFFIX && !taken[i] && forall|j: int|
                0 <= j < i ==> taken[j];
        Some(candidate_path(dir, name, (i + 1) as nat))
    } else {
        None
    }
}

/// The answers a search collects when it asks about the candidates in
/// order and stops at the first free one, or after [`MAX_SUFFIX`]: at
/// least one answer, every answer but the last one "taken", and the last
/// one "free" unless all [`MAX_SUFFIX`] were asked.
pub open spec fn search_answers(taken: Seq<bool>) -> bool {
    &&& 1 <= taken.len() <= MAX_SUFFIX
    &&& forall|i: int| 0 <= i < taken.len() - 1 ==> #[trigger] taken[i]
    &&& taken.len() < MAX_SUFFIX ==> !taken[taken.len() - 1]
}

/// A search that gives up has found every candidate up to [`MAX_SUFFIX`]
/// taken; one that does not gives the first candidate found free, whose
/// number is the number of answers.
pub proof fn lemma_search_gives_up_only_when_all_taken(
    dir: Seq<char>,
    name: Seq<char>,
    taken: Seq<bool>,
)
    requires
        search_answers(taken),
    ensures
        picked_path(dir, name, taken) is None ==> taken.len() == MAX_SUFFIX && forall|i: int|
            0 <= i < MAX_SUFFIX ==> #[trigger] taken[i],
        picked_path(dir, name, taken) is Some ==> !taken[taken.len() - 1] && picked_path(
            dir,
            name,
            taken,
        ) == Some(candidate_path(dir, name, taken.len())),
{
    let last = taken.len() - 1;
    if !taken[last] {
        assert(0 <= last < taken.len() && last < MAX_SUFFIX && !taken[last]);
        let i = choose|i: int|
            0 <= i < taken.len() && i < MAX_SUFFIX && !taken[i] && forall|j: int|
                0 <= j < i ==> taken[j];
        assert(i == last) by {
            if i < last {
                assert(taken[i]);
            }
            if i > last {
                assert(forall|j: int| 0 <= j < i ==> taken[j]);
                assert(taken[last]);
            }
        }
    } else {
        assert forall|k: int| 0 <= k < taken.len() && k < MAX_SUFFIX implies taken[k] by {
            if k < last {
                assert(taken[k]);
            }
        }
    }
}

/// A name's stem and its extension with the dot, as `numbered_name` uses
/// them.
fn name_parts(name: &str) -> (r: (String, String))
    ensures
        r.0@ == match file_stem_of(name@) {
            Some(s) => s,
            None => name@,
        },
        r.1@ == match extension_of(name@) {
            Some(e) => seq!['.'] + e,
            None => Seq::<char>::empty(),
        },
{
    let stem = match file_stem(name) {
        Some(s) => s,
        None => name.to_string(),
    };
    let ext = match extension(name) {
        Some(e) => {
            let mut d = ".".to_string();
            proof {
                reveal_strlit(".");
            }
            d.append(e.as_str());
            d
        },
        None => String::new(),
    };
    (stem, ext)
}

/// The `n`-th candidate path, given the name's stem and extension.
fn candidate(dir: &str, name: &str, parts: &(String, String), n: u32) -> (r: String)
    requires
        1 <= n,
        parts.0@ == match file_stem_of(name@) {
            Some(s) => s,
            None => name@,
        },
        parts.1@ == match extension_of(name@) {
            Some(e) => seq!['.'] + e,
            None => Seq::<char>::empty(),
        },
    ensures
        r@ == candidate_path(dir@, name@, n as nat),
{
    if n < 2 {
        join(dir, name)
    } else {
        let numbered = numbered_text(parts.0.as_str(), n, parts.1.as_str());
        join(dir, numbered.as_str())
    }
}

/// Picks the path for `name` in `dir` from the answers `taken` (see
/// [`picked_path`]): the first candidate answered free.
pub fn pick_free_path(dir: &str, name: &str, taken: &Vec<bool>) -> (r: Option<String>)
    ensures
        match r {
            Some(p) => picked_path(dir@, name@, taken@) == Some(p@),
            None => picked_path(dir@, name@, taken@) is None,
        },
{
    let mut i: usize = 0;
    while i < taken.len() && i < MAX_SUFFIX as usize
        invariant
            i <= taken@.len(),
            i <= MAX_SUFFIX,
            forall|j: int| 0 <= j < i ==> taken@[j],
        decreases taken@.len() - i,
    {
        if !taken[i] {
            let parts = name_parts(name);
            let p = candidate(dir, name, &parts, (i + 1) as u32);
            proof {
                let k = choose|k: int|
                    0 <= k < taken@.len() && k < MAX_SUFFIX && !taken@[k] && forall|j: int|
                        0 <= j < k ==> taken@[j];
                assert(k == i) by {
                    if k < i {
                        assert(taken@[k]);
                    }
                    if k > i {
                        assert(taken@[i as int]);
                    }
                }
            }
            return Some(p);
        }
        i = i + 1;
    }
    proof {
        assert(!exists|k: int| 0 <= k < taken@.len() && k < MAX_SUFFIX && !taken@[k]);
    }
    None
}

/// A path for `name` in `dir` that does not collide with an existing file:
/// the plain join if it is free, else `stem (n).ext` for the first free
/// `n` from 2; `None` when every candidate up to [`MAX_SUFFIX`] exists.
/// The file system is asked about the candidates in order until one is
/// free, and the answers decide the result as [`pick_free_path`] does.
pub fn unique_path(dir: &str, name: &str) -> (r: Option<String>)
    ensures
        exists|taken: Seq<bool>|
            search_answers(taken) && match r {
                Some(p) => #[trigger] picked_path(dir@, name@, taken) == Some(p@),
                None => picked_path(dir@, name@, taken) is None,
            },
{
    let parts = name_parts(name);
    let mut taken: Vec<bool> = Vec::new();
    let mut n: u32 = 1;
    loop
        invariant_except_break
            1 <= n <= MAX_SUFFIX,
            taken@.len() == n - 1,
            forall|i: int| 0 <= i < taken@.len() ==> #[trigger] taken@[i],
            parts.0@ == match file_stem_of(name@) {
                Some(s) => s,
                None => name@,
            },
            parts.1@ == match extension_of(name@) {
                Some(e) => seq!['.'] + e,
                None => Seq::<char>::empty(),
            },
        ensures
            search_answers(taken@),
        decreases MAX_SUFFIX - n,
    {
        let c = candidate(dir, name, &parts, n);
        let present = path_exists(c.as_str());
        taken.push(present);
        if !present || n == MAX_SUFFIX {
            break;
        }
        n = n + 1;
    }
    pick_free_path(dir, name, &taken)
}

/// `stem (n)ext`.
fn numbered_text(stem: &str, n: u32, ext: &str) -> (r: String)
    ensures
        r@ == stem@ + seq![' ', '('] + decimal(n as nat) + seq![')'] + ext@,
{
    proof {
        reveal_strlit(" (");
        reveal_strlit(")");
        assert(" ("@ =~= seq![' ', '(']);
        assert(")"@ =~= seq![')']);
    }
    let mut r = stem.to_string();
    r.append(" (");
    let d = decimal_string(n as u64);
    r.append(d.as_str());
    r.append(")");
    r.append(ext);
    r
}

} // verus!
