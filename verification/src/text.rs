//! Verified string helpers: path base names, whitespace tokenization,
//! decimal formatting and path joining.

use vstd::prelude::*;
use vstd::string::StrSliceExecFns;
use vstd::string::StringExecFns;

verus! {

/// The whitespace characters that separate tokens of a command line.
pub open spec fn is_space_char(c: char) -> bool {
    c == ' ' || c == '\t' || c == '\n' || c == '\r'
}

/// Runtime test matching [`is_space_char`].
pub fn is_space(c: char) -> (r: bool)
    ensures
        r == is_space_char(c),
{
    c == ' ' || c == '\t' || c == '\n' || c == '\r'
}

/// Index of the first whitespace character of `s`, or `s.len()` if there is
/// none.
pub open spec fn first_space(s: Seq<char>) -> int
    decreases s.len(),
{
    if s.len() == 0 {
        0
    } else if is_space_char(s[0]) {
        0
    } else {
        1 + first_space(s.skip(1))
    }
}

pub proof fn lemma_first_space_bounds(s: Seq<char>)
    ensures
        0 <= first_space(s) <= s.len(),
        s.len() > 0 && !is_space_char(s[0]) ==> first_space(s) >= 1,
        forall|j: int| 0 <= j < first_space(s) ==> !is_space_char(s[j]),
        first_space(s) < s.len() ==> is_space_char(s[first_space(s)]),
    decreases s.len(),
{
    if s.len() > 0 && !is_space_char(s[0]) {
        lemma_first_space_bounds(s.skip(1));
        assert forall|j: int| 0 <= j < first_space(s) implies !is_space_char(s[j]) by {
            if j >= 1 {
                assert(s[j] == s.skip(1)[j - 1]);
            }
        }
        if first_space(s) < s.len() {
            assert(s[first_space(s)] == s.skip(1)[first_space(s) - 1]);
        }
    }
}

/// A scan that saw no whitespace before `k`, and whitespace at `k` unless the
/// string ended there, has found `first_space`.
pub proof fn lemma_first_space_is(s: Seq<char>, k: int)
    requires
        0 <= k <= s.len(),
        forall|j: int| 0 <= j < k ==> !is_space_char(s[j]),
        k < s.len() ==> is_space_char(s[k]),
    ensures
        first_space(s) == k,
    decreases s.len(),
{
    if s.len() > 0 && !is_space_char(s[0]) {
        assert forall|j: int| 0 <= j < k - 1 implies !is_space_char(s.skip(1)[j]) by {
            assert(s.skip(1)[j] == s[j + 1]);
        }
        if k - 1 < s.skip(1).len() {
            assert(s.skip(1)[k - 1] == s[k]);
        }
        lemma_first_space_is(s.skip(1), k - 1);
    }
}

/// The whitespace-separated tokens of `s`, in order, each non-empty.
pub open spec fn tokens_of(s: Seq<char>) -> Seq<Seq<char>>
    decreases s.len(),
    via tokens_of_dec
{
    if s.len() == 0 {
        Seq::empty()
    } else if is_space_char(s[0]) {
        tokens_of(s.skip(1))
    } else {
        seq![s.take(first_space(s))] + tokens_of(s.skip(first_space(s)))
    }
}

#[via_fn]
proof fn tokens_of_dec(s: Seq<char>) {
    lemma_first_space_bounds(s);
}

/// Splits `s` at whitespace into its non-empty tokens.
pub fn tokenize(s: &str) -> (r: Vec<String>)
    ensures
        r.deep_view() == tokens_of(s@),
    decreases s@.len(),
{
    let len = s.unicode_len();
    if len == 0 {
        let r: Vec<String> = Vec::new();
        assert(r.deep_view() =~= tokens_of(s@));
        return r;
    }
    if is_space(s.get_char(0)) {
        let rest = s.substring_char(1, len);
        let r = tokenize(rest);
        assert(rest@ =~= s@.skip(1));
        return r;
    }
    let mut k: usize = 1;
    while k < len && !is_space(s.get_char(k))
        invariant
            1 <= k <= len,
            len == s@.len(),
            forall|j: int| 0 <= j < k ==> !is_space_char(s@[j]),
        decreases len - k,
    {
        k = k + 1;
    }
    proof {
        lemma_first_space_is(s@, k as int);
    }
    let tok = s.substring_char(0, k).to_owned();
    let tail = s.substring_char(k, len);
    let mut rest = tokenize(tail);
    let mut r: Vec<String> = Vec::new();
    r.push(tok);
    r.append(&mut rest);
    proof {
        assert(tail@ =~= s@.skip(first_space(s@)));
        assert(tok@ == s@.take(first_space(s@)));
        assert(r.deep_view() =~= tokens_of(s@));
    }
    r
}

/// The base name of a path: the characters after the last `/`, empty when the
/// path is empty or ends in `/`.
pub open spec fn base_name_of(s: Seq<char>) -> Seq<char>
    decreases s.len(),
{
    if s.len() == 0 {
        Seq::empty()
    } else if s.last() == '/' {
        Seq::empty()
    } else {
        base_name_of(s.drop_last()).push(s.last())
    }
}

/// A scan from the end that saw no `/` at or after `i`, with a `/` just
/// before `i` unless `i` is the start, has found the base name.
pub proof fn lemma_base_name_suffix(s: Seq<char>, i: int)
    requires
        0 <= i <= s.len(),
        forall|j: int| i <= j < s.len() ==> s[j] != '/',
        i > 0 ==> s[i - 1] == '/',
    ensures
        base_name_of(s) =~= s.subrange(i, s.len() as int),
    decreases s.len(),
{
    if i < s.len() {
        lemma_base_name_suffix(s.drop_last(), i);
        assert(base_name_of(s) =~= s.subrange(i, s.len() as int));
    }
}

/// Returns the base name of `path`, or `None` when the path has none (it is
/// empty or ends in a separator).
pub fn base_name(path: &str) -> (r: Option<String>)
    ensures
        match r {
            Some(n) => n@ == base_name_of(path@) && n@.len() > 0,
            None => base_name_of(path@).len() == 0,
        },
{
    let len = path.unicode_len();
    let mut i: usize = len;
    while i > 0 && path.get_char(i - 1) != '/'
        invariant
            0 <= i <= len,
            len == path@.len(),
            forall|j: int| i <= j < len ==> path@[j] != '/',
        decreases i,
    {
        i = i - 1;
    }
    proof {
        lemma_base_name_suffix(path@, i as int);
    }
    if i == len {
        None
    } else {
        let tail = path.substring_char(i, len);
        Some(tail.to_owned())
    }
}

/// The character for one decimal digit.
pub open spec fn digit_char(d: int) -> char {
    if d == 0 {
        '0'
    } else if d == 1 {
        '1'
    } else if d == 2 {
        '2'
    } else if d == 3 {
        '3'
    } else if d == 4 {
        '4'
    } else if d == 5 {
        '5'
    } else if d == 6 {
        '6'
    } else if d == 7 {
        '7'
    } else if d == 8 {
        '8'
    } else {
        '9'
    }
}

/// The decimal digits of `n`, most significant first, with no leading zeros
/// except for `n == 0` itself.
pub open spec fn dec_digits(n: int) -> Seq<char>
    decreases n,
{
    if n < 10 {
        seq![digit_char(n)]
    } else {
        dec_digits(n / 10).push(digit_char(n % 10))
    }
}

fn digit_str(d: u16) -> (r: &'static str)
    requires
        d < 10,
    ensures
        r@ =~= seq![digit_char(d as int)],
{
    proof {
        reveal_strlit("0");
        reveal_strlit("1");
        reveal_strlit("2");
        reveal_strlit("3");
        reveal_strlit("4");
        reveal_strlit("5");
        reveal_strlit("6");
        reveal_strlit("7");
        reveal_strlit("8");
        reveal_strlit("9");
    }
    match d {
        0 => "0",
        1 => "1",
        2 => "2",
        3 => "3",
        4 => "4",
        5 => "5",
        6 => "6",
        7 => "7",
        8 => "8",
        _ => "9",
    }
}

/// Formats `n` in decimal.
pub fn u16_to_dec(n: u16) -> (r: String)
    ensures
        r@ == dec_digits(n as int),
    decreases n,
{
    if n < 10 {
        let s = digit_str(n);
        let r = s.to_owned();
        assert(r@ =~= dec_digits(n as int));
        r
    } else {
        let q = u16_to_dec(n / 10);
        let r = q.concat(digit_str(n % 10));
        assert(r@ =~= dec_digits(n as int));
        r
    }
}

/// `dir` and `name` joined by a single separator.
pub open spec fn join_of(dir: Seq<char>, name: Seq<char>) -> Seq<char> {
    dir.push('/') + name
}

/// Joins a directory path and a file name with `/`.
pub fn path_join(dir: &String, name: &String) -> (r: String)
    ensures
        r@ == join_of(dir@, name@),
{
    let r = dir.clone().concat("/").concat(name.as_str());
    proof {
        reveal_strlit("/");
        assert(r@ =~= join_of(dir@, name@));
    }
    r
}

/// Whether some element of `vs` equals `s`.
pub open spec fn contains_str(vs: Seq<Seq<char>>, s: Seq<char>) -> bool {
    exists|i: int| 0 <= i < vs.len() && vs[i] == s
}

/// Whether `v` holds a string equal to `s`.
pub fn contains_string(v: &Vec<String>, s: &String) -> (r: bool)
    ensures
        r == contains_str(v.deep_view(), s@),
{
    let mut i: usize = 0;
    while i < v.len()
        invariant
            0 <= i <= v.len(),
            forall|j: int| 0 <= j < i ==> v.deep_view()[j] != s@,
        decreases v.len() - i,
    {
        if v[i].eq(s) {
            assert(v.deep_view()[i as int] == s@);
            return true;
        }
        i = i + 1;
    }
    false
}

} // verus!
