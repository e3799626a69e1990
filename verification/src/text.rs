//! Text operations on strings viewed as sequences of characters.
use vstd::prelude::*;
use vstd::string::*;

verus! {

/// What `str::to_lowercase` returns for a string: its Unicode lowercase mapping.
pub uninterp spec fn lowercase(s: Seq<char>) -> Seq<char>;

/// Calls `str::to_lowercase`.
/// Trusted: the result is the lowercase mapping of `s`, a function of `s` alone.
#[verifier::external_body]
pub(crate) fn to_lowercase(s: &str) -> (r: String)
    ensures
        r@ == lowercase(s@),
{
    s.to_lowercase()
}

/// `needle` occurs in `hay` starting at position `i`.
pub open spec fn occurs_at(hay: Seq<char>, needle: Seq<char>, i: int) -> bool {
    0 <= i && i + needle.len() <= hay.len() && hay.subrange(i, i + needle.len()) == needle
}

/// `needle` occurs somewhere in `hay`.
pub open spec fn has_substring(hay: Seq<char>, needle: Seq<char>) -> bool {
    exists|i: int| occurs_at(hay, needle, i)
}

/// The first position at or after `i` where `needle` occurs in `hay`.
pub open spec fn find_from(hay: Seq<char>, needle: Seq<char>, i: int) -> Option<int>
    decreases hay.len() + 1 - i,
{
    if i < 0 || i + needle.len() > hay.len() {
        None
    } else if occurs_at(hay, needle, i) {
        Some(i)
    } else {
        find_from(hay, needle, i + 1)
    }
}

/// The first position where `needle` occurs in `hay`.
pub open spec fn first_occurrence(hay: Seq<char>, needle: Seq<char>) -> Option<int> {
    find_from(hay, needle, 0)
}

/// `hay` with its first occurrence of `from` replaced by `to`, as `str::replacen(.., 1)` does.
pub open spec fn replace_first_spec(hay: Seq<char>, from: Seq<char>, to: Seq<char>) -> Seq<char> {
    match first_occurrence(hay, from) {
        Some(i) => hay.subrange(0, i) + to + hay.subrange(i + from.len(), hay.len() as int),
        None => hay,
    }
}

proof fn lemma_find_from(hay: Seq<char>, needle: Seq<char>, i: int)
    requires
        0 <= i,
    ensures
        match find_from(hay, needle, i) {
            Some(k) => i <= k && occurs_at(hay, needle, k) && forall|j: int|
                i <= j < k ==> !occurs_at(hay, needle, j),
            None => forall|j: int| i <= j ==> !occurs_at(hay, needle, j),
        },
    decreases hay.len() + 1 - i,
{
    if i + needle.len() > hay.len() {
    } else if occurs_at(hay, needle, i) {
    } else {
        lemma_find_from(hay, needle, i + 1);
    }
}

/// `first_occurrence` is the least position where the needle occurs.
pub proof fn lemma_first_occurrence(hay: Seq<char>, needle: Seq<char>)
    ensures
        match first_occurrence(hay, needle) {
            Some(k) => occurs_at(hay, needle, k) && forall|j: int|
                0 <= j < k ==> !occurs_at(hay, needle, j),
            None => !has_substring(hay, needle),
        },
{
    lemma_find_from(hay, needle, 0);
}

/// The characters of a string, in order.
pub fn chars_of(s: &str) -> (r: Vec<char>)
    ensures
        r@ == s@,
{
    let n = s.unicode_len();
    let mut r: Vec<char> = Vec::new();
    let mut i: usize = 0;
    while i < n
        invariant
            n == s@.len(),
            i <= n,
            r@ == s@.subrange(0, i as int),
        decreases n - i,
    {
        r.push(s.get_char(i));
        i = i + 1;
    }
    r
}

/// Whether `needle` occurs in `hay` at position `i`.
fn occurs_at_exec(hay: &Vec<char>, needle: &Vec<char>, i: usize) -> (r: bool)
    ensures
        r == occurs_at(hay@, needle@, i as int),
{
    if needle.len() > hay.len() || i > hay.len() - needle.len() {
        return false;
    }
    let hay_len = hay.len();
    let mut k: usize = 0;
    while k < needle.len()
        invariant
            hay_len == hay@.len(),
            i + needle@.len() <= hay@.len(),
            k <= needle@.len(),
            forall|j: int| 0 <= j < k ==> hay@[i + j] == needle@[j],
        decreases needle.len() - k,
    {
        if hay[i + k] != needle[k] {
            assert(hay@.subrange(i as int, i + needle@.len())[k as int] != needle@[k as int]);
            return false;
        }
        k = k + 1;
    }
    assert(hay@.subrange(i as int, i + needle@.len()) =~= needle@);
    true
}

/// The first position where `needle` occurs in `hay`, counted in characters.
pub fn find_text(hay: &str, needle: &str) -> (r: Option<usize>)
    ensures
        match first_occurrence(hay@, needle@) {
            Some(k) => r == Some(k as usize),
            None => r is None,
        },
{
    let h = chars_of(hay);
    let n = chars_of(needle);
    if n.len() > h.len() {
        proof {
            assert(find_from(hay@, needle@, 0) is None);
        }
        return None;
    }
    let last = h.len() - n.len();
    let mut i: usize = 0;
    while i < last
        invariant
            h@ == hay@,
            n@ == needle@,
            last + n@.len() == h@.len(),
            i <= last,
            find_from(hay@, needle@, 0) == find_from(hay@, needle@, i as int),
        decreases last - i,
    {
        if occurs_at_exec(&h, &n, i) {
            return Some(i);
        }
        i = i + 1;
    }
    if occurs_at_exec(&h, &n, i) {
        return Some(i);
    }
    proof {
        assert(find_from(hay@, needle@, i + 1) is None);
    }
    None
}

/// Whether `needle` occurs in `hay`, as `str::contains` with a string pattern.
pub fn contains_text(hay: &str, needle: &str) -> (r: bool)
    ensures
        r == has_substring(hay@, needle@),
{
    proof {
        lemma_first_occurrence(hay@, needle@);
    }
    find_text(hay, needle).is_some()
}

/// A string holding the characters `s[from..to]`.
pub fn substring(s: &str, from: usize, to: usize) -> (r: String)
    requires
        from <= to <= s@.len(),
    ensures
        r@ == s@.subrange(from as int, to as int),
{
    String::from_str(s.substring_char(from, to))
}

/// Replaces the first occurrence of `from` in `hay` by `to`, as `str::replacen(from, to, 1)`.
pub fn replace_first(hay: &str, from: &str, to: &str) -> (r: String)
    ensures
        r@ == replace_first_spec(hay@, from@, to@),
{
    match find_text(hay, from) {
        Some(i) => {
            let n = from.unicode_len();
            let len = hay.unicode_len();
            proof {
                lemma_first_occurrence(hay@, from@);
            }
            let mut r = substring(hay, 0, i);
            r.append(to);
            let tail = substring(hay, i + n, len);
            r.append(tail.as_str());
            r
        },
        None => String::from_str(hay),
    }
}

/// The characters that `char::is_whitespace` accepts: those with the Unicode
/// `White_Space` property.
pub open spec fn is_white_space(c: char) -> bool {
    let u = c as u32;
    (0x9 <= u && u <= 0xd) || u == 0x20 || u == 0x85 || u == 0xa0 || u == 0x1680 || (0x2000
        <= u && u <= 0x200a) || u == 0x2028 || u == 0x2029 || u == 0x202f || u == 0x205f || u
        == 0x3000
}

fn is_white_space_exec(c: char) -> (r: bool)
    ensures
        r == is_white_space(c),
{
    let u = c as u32;
    (0x9 <= u && u <= 0xd) || u == 0x20 || u == 0x85 || u == 0xa0 || u == 0x1680 || (0x2000
        <= u && u <= 0x200a) || u == 0x2028 || u == 0x2029 || u == 0x202f || u == 0x205f || u
        == 0x3000
}

/// `s` without its leading white space.
pub open spec fn trim_start_spec(s: Seq<char>) -> Seq<char>
    decreases s.len(),
{
    if s.len() > 0 && is_white_space(s[0]) {
        trim_start_spec(s.drop_first())
    } else {
        s
    }
}

/// `s` without its trailing white space.
pub open spec fn trim_end_spec(s: Seq<char>) -> Seq<char>
    decreases s.len(),
{
    if s.len() > 0 && is_white_space(s.last()) {
        trim_end_spec(s.drop_last())
    } else {
        s
    }
}

/// `s` without leading and trailing white space, as `str::trim` gives it.
pub open spec fn trim_spec(s: Seq<char>) -> Seq<char> {
    trim_start_spec(trim_end_spec(s))
}

proof fn lemma_trim_start_from(s: Seq<char>, a: int)
    requires
        0 <= a <= s.len(),
        forall|j: int| 0 <= j < a ==> is_white_space(s[j]),
        a == s.len() || !is_white_space(s[a]),
    ensures
        trim_start_spec(s) == s.subrange(a, s.len() as int),
    decreases a,
{
    if a == 0 {
        assert(s.subrange(0, s.len() as int) =~= s);
    } else {
        let t = s.drop_first();
        assert forall|j: int| 0 <= j < a - 1 implies is_white_space(t[j]) by {
            assert(t[j] == s[j + 1]);
        }
        if a - 1 < t.len() {
            assert(t[a - 1] == s[a]);
        }
        lemma_trim_start_from(t, a - 1);
        assert(t.subrange(a - 1, t.len() as int) =~= s.subrange(a, s.len() as int));
    }
}

proof fn lemma_trim_end_to(s: Seq<char>, b: int)
    requires
        0 <= b <= s.len(),
        forall|j: int| b <= j < s.len() ==> is_white_space(s[j]),
        b == 0 || !is_white_space(s[b - 1]),
    ensures
        trim_end_spec(s) == s.subrange(0, b),
    decreases s.len() - b,
{
    if b == s.len() {
        assert(s.subrange(0, b) =~= s);
    } else {
        let t = s.drop_last();
        lemma_trim_end_to(t, b);
        assert(t.subrange(0, b) =~= s.subrange(0, b));
    }
}

/// Removes leading and trailing white space, as `str::trim`.
pub fn trim(s: &str) -> (r: String)
    ensures
        r@ == trim_spec(s@),
{
    let cs = chars_of(s);
    let n = cs.len();
    let mut b: usize = n;
    while b > 0 && is_white_space_exec(cs[b - 1])
        invariant
            cs@ == s@,
            n == cs@.len(),
            b <= n,
            forall|j: int| b <= j < n ==> is_white_space(cs@[j]),
        decreases b,
    {
        b = b - 1;
    }
    let mut a: usize = 0;
    while a < b && is_white_space_exec(cs[a])
        invariant
            cs@ == s@,
            a <= b <= n,
            n == cs@.len(),
            forall|j: int| 0 <= j < a ==> is_white_space(cs@[j]),
        decreases b - a,
    {
        a = a + 1;
    }
    proof {
        lemma_trim_end_to(s@, b as int);
        let e = s@.subrange(0, b as int);
        assert forall|j: int| 0 <= j < a implies is_white_space(e[j]) by {}
        lemma_trim_start_from(e, a as int);
        assert(e.subrange(a as int, e.len() as int) =~= s@.subrange(a as int, b as int));
    }
    substring(s, a, b)
}

/// The pieces of `s` between occurrences of `sep`, as `str::split` with a
/// character pattern gives them: one more piece than there are separators.
pub open spec fn split_spec(s: Seq<char>, sep: char) -> Seq<Seq<char>>
    decreases s.len(),
{
    match first_occurrence(s, seq![sep]) {
        Some(k) => if 0 <= k < s.len() {
            seq![s.subrange(0, k)] + split_spec(s.subrange(k + 1, s.len() as int), sep)
        } else {
            seq![s]
        },
        None => seq![s],
    }
}

/// Splits `s` at each occurrence of `sep`.
pub fn split_text(s: &str, sep: &str) -> (r: Vec<String>)
    requires
        sep@.len() == 1,
    ensures
        r@.map_values(|p: String| p@) == split_spec(s@, sep@[0]),
    decreases s@.len(),
{
    proof {
        lemma_first_occurrence(s@, sep@);
        assert(sep@ =~= seq![sep@[0]]);
    }
    match find_text(s, sep) {
        Some(k) => {
            let len = s.unicode_len();
            let head = substring(s, 0, k);
            let rest = substring(s, k + 1, len);
            let tail = split_text(rest.as_str(), sep);
            let mut r: Vec<String> = Vec::new();
            r.push(head);
            let ghost t = tail@;
            let mut tail = tail;
            r.append(&mut tail);
            proof {
                assert(r@ == seq![r@[0]] + t);
                assert(r@.map_values(|p: String| p@) =~= seq![s@.subrange(0, k as int)] + t.map_values(|p: String| p@));
            }
            r
        },
        None => {
            let mut r: Vec<String> = Vec::new();
            r.push(String::from_str(s));
            proof {
                assert(r@.map_values(|p: String| p@) =~= seq![s@]);
            }
            r
        },
    }
}

/// The pieces joined with `sep` between each two, as `[String]::join` gives them.
pub open spec fn join_spec(parts: Seq<Seq<char>>, sep: Seq<char>) -> Seq<char>
    decreases parts.len(),
{
    if parts.len() == 0 {
        Seq::empty()
    } else if parts.len() == 1 {
        parts[0]
    } else {
        join_spec(parts.drop_last(), sep) + sep + parts.last()
    }
}

/// Joins the pieces with `sep` between each two.
pub fn join_text(parts: &Vec<String>, sep: &str) -> (r: String)
    ensures
        r@ == join_spec(parts@.map_values(|p: String| p@), sep@),
{
    let ghost ps = parts@.map_values(|p: String| p@);
    let mut r = String::new();
    let mut i: usize = 0;
    while i < parts.len()
        invariant
            ps == parts@.map_values(|p: String| p@),
            i <= parts@.len(),
            r@ == join_spec(ps.take(i as int), sep@),
        decreases parts.len() - i,
    {
        proof {
            assert(ps.take(i + 1).drop_last() =~= ps.take(i as int));
        }
        if i == 0 {
            r.append(parts[i].as_str());
            proof {
                assert(r@ =~= join_spec(ps.take(1), sep@));
            }
        } else {
            r.append(sep);
            r.append(parts[i].as_str());
        }
        i = i + 1;
    }
    proof {
        assert(ps.take(parts@.len() as int) =~= ps);
    }
    r
}

/// The texts that `f` gives for the items, one after another.
pub open spec fn concat_map<A>(items: Seq<A>, f: spec_fn(A) -> Seq<char>) -> Seq<char>
    decreases items.len(),
{
    if items.len() == 0 {
        Seq::empty()
    } else {
        concat_map(items.drop_last(), f) + f(items.last())
    }
}

/// Taking one more item adds its text at the end.
pub proof fn lemma_concat_map_take<A>(items: Seq<A>, f: spec_fn(A) -> Seq<char>, i: int)
    requires
        0 <= i < items.len(),
    ensures
        concat_map(items.take(i + 1), f) == concat_map(items.take(i), f) + f(items[i]),
{
    assert(items.take(i + 1).drop_last() =~= items.take(i));
}

/// Taking all the items is the whole text.
pub proof fn lemma_concat_map_all<A>(items: Seq<A>, f: spec_fn(A) -> Seq<char>)
    ensures
        concat_map(items.take(items.len() as int), f) == concat_map(items, f),
{
    assert(items.take(items.len() as int) =~= items);
}

/// The text of all the items is that of the first `k` followed by that of the rest.
pub proof fn lemma_concat_map_split<A>(items: Seq<A>, f: spec_fn(A) -> Seq<char>, k: int)
    requires
        0 <= k <= items.len(),
    ensures
        concat_map(items, f) == concat_map(items.take(k), f) + concat_map(items.skip(k), f),
    decreases items.len(),
{
    if k == items.len() {
        assert(items.take(k) =~= items);
        assert(items.skip(k) =~= Seq::<A>::empty());
        assert(concat_map(items.take(k), f) + Seq::<char>::empty() =~= concat_map(items, f));
    } else {
        let front = items.drop_last();
        lemma_concat_map_split(front, f, k);
        assert(front.take(k) =~= items.take(k));
        assert(items.skip(k).drop_last() =~= front.skip(k));
        assert(items.skip(k).last() == items.last());
        assert(concat_map(items, f) =~= concat_map(items.take(k), f) + concat_map(items.skip(k), f));
    }
}

} // verus!
