//! Menu identifiers: a `(category, owner, target)` triple encoded into one
//! string with a category-specific delimiter between owner and target.
use vstd::prelude::*;
use vstd::string::*;

verus! {

/// Which kind of encoded identifier a menu entry carries.
#[derive(PartialEq, Eq, Structural, Clone, Copy, Debug)]
pub enum Category {
    /// Selects an installed version, for the global selection or for a project.
    Version,
    /// Binds a project to a group.
    Group,
}

/// The delimiter that separates owner and target for version entries.
pub open spec fn version_delim() -> Seq<char> {
    "_version_"@
}

/// The delimiter that separates owner and target for group entries.
pub open spec fn group_delim() -> Seq<char> {
    "_group_"@
}

pub open spec fn delim(c: Category) -> Seq<char> {
    match c {
        Category::Version => version_delim(),
        Category::Group => group_delim(),
    }
}

/// The identifier string for a triple.
pub open spec fn encode_spec(c: Category, owner: Seq<char>, target: Seq<char>) -> Seq<char> {
    owner + delim(c) + target
}

/// `d` occurs in `s` starting at position `i`.
pub open spec fn match_at(s: Seq<char>, d: Seq<char>, i: int) -> bool {
    0 <= i && i + d.len() <= s.len() && s.subrange(i, i + d.len()) == d
}

pub open spec fn contains(s: Seq<char>, d: Seq<char>) -> bool {
    exists|i: int| match_at(s, d, i)
}

/// Neither delimiter occurs in `s`.
pub open spec fn delimiter_free(s: Seq<char>) -> bool {
    !contains(s, version_delim()) && !contains(s, group_delim())
}

/// The first position at or after `i` where `d` occurs, or -1.
pub open spec fn find_from(s: Seq<char>, d: Seq<char>, i: int) -> int
    decreases s.len() + 1 - i,
{
    if i < 0 || i + d.len() > s.len() {
        -1
    } else if match_at(s, d, i) {
        i
    } else {
        find_from(s, d, i + 1)
    }
}

/// Splitting `s` at `d` gives exactly two pieces: the text before the first
/// occurrence and the text after it, which holds no further occurrence.
pub open spec fn split_pair(s: Seq<char>, d: Seq<char>) -> Option<(Seq<char>, Seq<char>)> {
    let i = find_from(s, d, 0);
    if i < 0 {
        None
    } else {
        let rest = s.subrange(i + d.len(), s.len() as int);
        if find_from(rest, d, 0) >= 0 {
            None
        } else {
            Some((s.subrange(0, i), rest))
        }
    }
}

/// What an identifier decodes to. An identifier that holds the version
/// delimiter is read as a version entry (or as nothing, when it does not split
/// in two); otherwise one that holds the group delimiter is read as a group
/// entry.
pub open spec fn decode_spec(s: Seq<char>) -> Option<(Category, Seq<char>, Seq<char>)> {
    if find_from(s, version_delim(), 0) >= 0 {
        match split_pair(s, version_delim()) {
            Some(p) => Some((Category::Version, p.0, p.1)),
            None => None,
        }
    } else if find_from(s, group_delim(), 0) >= 0 {
        match split_pair(s, group_delim()) {
            Some(p) => Some((Category::Group, p.0, p.1)),
            None => None,
        }
    } else {
        None
    }
}

proof fn lemma_find_from(s: Seq<char>, d: Seq<char>, i: int)
    requires
        0 <= i,
    ensures
        find_from(s, d, i) == -1 ==> forall|j: int| i <= j ==> !#[trigger] match_at(s, d, j),
        find_from(s, d, i) != -1 ==> {
            let k = find_from(s, d, i);
            &&& i <= k
            &&& match_at(s, d, k)
            &&& forall|j: int| i <= j < k ==> !#[trigger] match_at(s, d, j)
        },
    decreases s.len() + 1 - i,
{
    if i + d.len() > s.len() {
    } else if match_at(s, d, i) {
    } else {
        lemma_find_from(s, d, i + 1);
    }
}

/// No occurrence of the category's delimiter starts inside the owner, and a
/// group identifier holds no version delimiter at all. Names free of both
/// delimiters can still break this at the seams: the owner `x_version` with
/// a group target encodes to `x_version_group_...`, which reads as a version
/// entry.
pub open spec fn seams_clean(c: Category, owner: Seq<char>, target: Seq<char>) -> bool {
    let s = encode_spec(c, owner, target);
    &&& forall|j: int| 0 <= j < owner.len() ==> !#[trigger] match_at(s, delim(c), j)
    &&& (c == Category::Group ==> !contains(s, version_delim()))
}

/// Decoding an encoded triple gives the triple back, for owner and target
/// names that hold neither delimiter and meet at clean seams.
pub proof fn lemma_round_trip(c: Category, owner: Seq<char>, target: Seq<char>)
    requires
        delimiter_free(owner),
        delimiter_free(target),
        seams_clean(c, owner, target),
    ensures
        decode_spec(encode_spec(c, owner, target)) == Some((c, owner, target)),
{
    let s = encode_spec(c, owner, target);
    let d = delim(c);
    let o = owner.len() as int;
    assert(s.subrange(o, o + d.len()) =~= d);
    assert(match_at(s, d, o));
    lemma_find_from(s, d, 0);
    let k = find_from(s, d, 0);
    assert(k == o);
    let rest = s.subrange(o + d.len(), s.len() as int);
    assert(rest =~= target);
    lemma_find_from(rest, d, 0);
    if find_from(rest, d, 0) != -1 {
        assert(match_at(target, d, find_from(rest, d, 0)));
        assert(contains(target, d));
    }
    assert(s.subrange(0, o) =~= owner);
    assert(split_pair(s, d) == Some((owner, target)));
    if c == Category::Group {
        lemma_find_from(s, version_delim(), 0);
        if find_from(s, version_delim(), 0) != -1 {
            assert(match_at(s, version_delim(), find_from(s, version_delim(), 0)));
        }
    }
}

fn delim_str(c: Category) -> (r: &'static str)
    ensures
        r@ == delim(c),
{
    match c {
        Category::Version => "_version_",
        Category::Group => "_group_",
    }
}

/// Encodes a triple as `owner + delimiter + target`.
pub fn encode(c: Category, owner: &str, target: &str) -> (r: String)
    ensures
        r@ == encode_spec(c, owner@, target@),
{
    let mut r = owner.to_owned();
    r.append(delim_str(c));
    r.append(target);
    r
}


fn to_chars(s: &str) -> (r: Vec<char>)
    ensures
        r@ == s@,
{
    let n = s.unicode_len();
    let mut r: Vec<char> = Vec::new();
    let mut i: usize = 0;
    while i < n
        invariant
            n == s@.len(),
            i <= n,
            r@ == s@.subrange(0, i as int),
        decreases n - i,
    {
        r.push(s.get_char(i));
        i = i + 1;
    }
    assert(r@ =~= s@);
    r
}

fn matches_at(s: &Vec<char>, d: &Vec<char>, i: usize) -> (r: bool)
    requires
        i + d@.len() <= s@.len(),
    ensures
        r == match_at(s@, d@, i as int),
{
    let slen = s.len();
    let mut j: usize = 0;
    while j < d.len()
        invariant
            slen == s@.len(),
            i + d@.len() <= s@.len(),
            j <= d@.len(),
            forall|k: int| 0 <= k < j ==> s@[i + k] == d@[k],
        decreases d@.len() - j,
    {
        if s[i + j] != d[j] {
            assert(s@.subrange(i as int, i + d@.len())[j as int] != d@[j as int]);
            return false;
        }
        j = j + 1;
    }
    assert(s@.subrange(i as int, i + d@.len()) =~= d@);
    true
}

/// Character-wise equality of two strings.
pub(crate) fn same_text(a: &str, b: &str) -> (r: bool)
    ensures
        r == (a@ == b@),
{
    let x = to_chars(a);
    let y = to_chars(b);
    if x.len() != y.len() {
        return false;
    }
    let mut i: usize = 0;
    while i < x.len()
        invariant
            x@ == a@,
            y@ == b@,
            x@.len() == y@.len(),
            i <= x@.len(),
            forall|k: int| 0 <= k < i ==> x@[k] == y@[k],
        decreases x@.len() - i,
    {
        if x[i] != y[i] {
            assert(x@[i as int] != y@[i as int]);
            return false;
        }
        i = i + 1;
    }
    assert(x@ =~= y@);
    true
}

/// The position of the first occurrence of `d` in `s`.
fn find(s: &Vec<char>, d: &Vec<char>) -> (r: Option<usize>)
    ensures
        match r {
            Some(k) => k as int == find_from(s@, d@, 0),
            None => find_from(s@, d@, 0) == -1,
        },
{
    if d.len() > s.len() {
        return None;
    }
    let last = s.len() - d.len();
    let mut i: usize = 0;
    loop
        invariant
            last == s@.len() - d@.len(),
            i <= last,
            find_from(s@, d@, 0) == find_from(s@, d@, i as int),
        decreases last - i,
    {
        if matches_at(s, d, i) {
            return Some(i);
        }
        if i == last {
            assert(find_from(s@, d@, i + 1) == -1);
            return None;
        }
        i = i + 1;
    }
}

/// Splits `s` in two at the delimiter `d`, when it occurs exactly once as
/// a split pattern.
fn split_in_two(s: &str, d: &str) -> (r: Option<(String, String)>)
    ensures
        match r {
            Some(p) => split_pair(s@, d@) == Some((p.0@, p.1@)),
            None => split_pair(s@, d@) is None,
        },
{
    let chars = to_chars(s);
    let dchars = to_chars(d);
    match find(&chars, &dchars) {
        None => None,
        Some(i) => {
            proof {
                lemma_find_from(chars@, dchars@, 0);
            }
            let n = s.unicode_len();
            let start = i + dchars.len();
            let rest = s.substring_char(start, n);
            let rest_chars = to_chars(rest);
            match find(&rest_chars, &dchars) {
                Some(_) => None,
                None => Some((s.substring_char(0, i).to_owned(), rest.to_owned())),
            }
        },
    }
}

/// Decodes an identifier into its triple; `None` when it is not an encoded
/// identifier.
pub fn decode(id: &str) -> (r: Option<(Category, String, String)>)
    ensures
        match r {
            Some(t) => decode_spec(id@) == Some((t.0, t.1@, t.2@)),
            None => decode_spec(id@) is None,
        },
{
    let chars = to_chars(id);
    let vd = delim_str(Category::Version);
    let gd = delim_str(Category::Group);
    if find(&chars, &to_chars(vd)).is_some() {
        match split_in_two(id, vd) {
            Some((o, t)) => Some((Category::Version, o, t)),
            None => None,
        }
    } else if find(&chars, &to_chars(gd)).is_some() {
        match split_in_two(id, gd) {
            Some((o, t)) => Some((Category::Group, o, t)),
            None => None,
        }
    } else {
        None
    }
}

} // verus!
