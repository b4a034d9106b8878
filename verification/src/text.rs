use vstd::prelude::*;
use vstd::string::StrSliceExecFns;
use vstd::string::StringExecFns;

verus! {

/// The character for one decimal digit.
pub open spec fn spec_digit_char(d: int) -> char {
    if d == 0 {
        '0'
    } else if d == 1 {
        '1'
    } else if d == 2 {
        '2'
    } else if d == 3 {
        '3'
    } else if d == 4 {
        '4'
    } else if d == 5 {
        '5'
    } else if d == 6 {
        '6'
    } else if d == 7 {
        '7'
    } else if d == 8 {
        '8'
    } else {
        '9'
    }
}

/// The decimal numeral of `n`, most significant digit first.
pub open spec fn spec_decimal(n: nat) -> Seq<char>
    decreases n,
{
    if n < 10 {
        seq![spec_digit_char(n as int)]
    } else {
        spec_decimal(n / 10) + seq![spec_digit_char((n % 10) as int)]
    }
}

fn digit_str(d: u16) -> (s: &'static str)
    requires
        d < 10,
    ensures
        s@ == seq![spec_digit_char(d as int)],
{
    let s: &'static str = if d == 0 {
        "0"
    } else if d == 1 {
        "1"
    } else if d == 2 {
        "2"
    } else if d == 3 {
        "3"
    } else if d == 4 {
        "4"
    } else if d == 5 {
        "5"
    } else if d == 6 {
        "6"
    } else if d == 7 {
        "7"
    } else if d == 8 {
        "8"
    } else {
        "9"
    };
    proof {
        reveal_strlit("0");
        reveal_strlit("1");
        reveal_strlit("2");
        reveal_strlit("3");
        reveal_strlit("4");
        reveal_strlit("5");
        reveal_strlit("6");
        reveal_strlit("7");
        reveal_strlit("8");
        reveal_strlit("9");
        assert(s@ =~= seq![spec_digit_char(d as int)]);
    }
    s
}

/// Appends the decimal numeral of `n` to `out`.
fn push_decimal(n: u16, out: &mut String)
    ensures
        final(out)@ == old(out)@ + spec_decimal(n as nat),
    decreases n,
{
    let ghost start = out@;
    if n >= 10 {
        push_decimal(n / 10, out);
    }
    let ghost mid = out@;
    out.append(digit_str(n % 10));
    proof {
        if n >= 10 {
            assert(mid == start + spec_decimal((n / 10) as nat));
            assert(out@ =~= start + spec_decimal(n as nat));
        } else {
            assert(out@ =~= start + spec_decimal(n as nat));
        }
    }
}

/// The decimal text of a number, e.g. `5` becomes `"5"`.
pub fn u16_to_string(n: u16) -> (s: String)
    ensures
        s@ == spec_decimal(n as nat),
{
    let mut s = String::new();
    push_decimal(n, &mut s);
    proof {
        assert(s@ =~= spec_decimal(n as nat));
    }
    s
}

/// Character-for-character string equality.
pub fn str_eq(a: &str, b: &str) -> (r: bool)
    ensures
        r == (a@ == b@),
{
    let n = a.unicode_len();
    if n != b.unicode_len() {
        return false;
    }
    let mut i: usize = 0;
    while i < n
        invariant
            n == a@.len(),
            n == b@.len(),
            0 <= i <= n,
            forall|j: int| 0 <= j < i ==> a@[j] == b@[j],
        decreases n - i,
    {
        if a.get_char(i) != b.get_char(i) {
            return false;
        }
        i += 1;
    }
    proof {
        assert(a@ =~= b@);
    }
    true
}

/// `needle` occurs contiguously somewhere inside `hay`.
pub open spec fn is_substring(hay: Seq<char>, needle: Seq<char>) -> bool {
    exists|j: int|
        0 <= j && j + needle.len() <= hay.len() && #[trigger] hay.subrange(j, j + needle.len())
            == needle
}

/// A sequence that stands between two others is a substring of the whole.
pub proof fn lemma_substring_here(pre: Seq<char>, needle: Seq<char>, post: Seq<char>)
    ensures
        is_substring(pre + needle + post, needle),
{
    let hay = pre + needle + post;
    let j = pre.len() as int;
    assert(hay.subrange(j, j + needle.len()) =~= needle);
}

/// A sequence ends with its own suffix.
pub proof fn lemma_substring_at_end(pre: Seq<char>, needle: Seq<char>)
    ensures
        is_substring(pre + needle, needle),
{
    let hay = pre + needle;
    let j = pre.len() as int;
    assert(hay.subrange(j, j + needle.len()) =~= needle);
}

/// A substring survives appending more text on the right.
pub proof fn lemma_substring_grow_right(hay: Seq<char>, post: Seq<char>, needle: Seq<char>)
    requires
        is_substring(hay, needle),
    ensures
        is_substring(hay + post, needle),
{
    let j = choose|j: int|
        0 <= j && j + needle.len() <= hay.len() && #[trigger] hay.subrange(j, j + needle.len())
            == needle;
    assert((hay + post).subrange(j, j + needle.len()) =~= hay.subrange(j, j + needle.len()));
}

/// A substring of a substring of `hay` is itself a substring of `hay`.
pub proof fn lemma_substring_trans(hay: Seq<char>, mid: Seq<char>, needle: Seq<char>)
    requires
        is_substring(hay, mid),
        is_substring(mid, needle),
    ensures
        is_substring(hay, needle),
{
    let j = choose|j: int|
        0 <= j && j + mid.len() <= hay.len() && #[trigger] hay.subrange(j, j + mid.len()) == mid;
    let k = choose|k: int|
        0 <= k && k + needle.len() <= mid.len() && #[trigger] mid.subrange(k, k + needle.len())
            == needle;
    assert forall|m: int| 0 <= m < needle.len() implies hay.subrange(
        j + k,
        j + k + needle.len(),
    )[m] == needle[m] by {
        assert(needle[m] == mid.subrange(k, k + needle.len())[m]);
        assert(mid[k + m] == hay.subrange(j, j + mid.len())[k + m]);
    }
    assert(hay.subrange(j + k, j + k + needle.len()) =~= needle);
}

/// A substring of `hay` is still a substring once `hay` is framed by more text.
pub proof fn lemma_substring_extend(pre: Seq<char>, hay: Seq<char>, post: Seq<char>, needle: Seq<char>)
    requires
        is_substring(hay, needle),
    ensures
        is_substring(pre + hay + post, needle),
{
    let j = choose|j: int|
        0 <= j && j + needle.len() <= hay.len() && #[trigger] hay.subrange(j, j + needle.len())
            == needle;
    let big = pre + hay + post;
    let k = pre.len() + j;
    assert(big.subrange(k, k + needle.len()) =~= hay.subrange(j, j + needle.len()));
}

} // verus!
