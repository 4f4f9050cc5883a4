//! Character-level helpers: trimming a string at both ends, and decoding
//! raw bytes into text.
use vstd::prelude::*;
use vstd::string::*;

verus! {

/// The Unicode `White_Space` property, which `char::is_whitespace` tests.
pub open spec fn is_white_space(c: char) -> bool {
    let u = c as u32;
    ||| (0x09 <= u && u <= 0x0d)
    ||| u == 0x20
    ||| u == 0x85
    ||| u == 0xa0
    ||| u == 0x1680
    ||| (0x2000 <= u && u <= 0x200a)
    ||| u == 0x2028
    ||| u == 0x2029
    ||| u == 0x202f
    ||| u == 0x205f
    ||| u == 0x3000
}

/// The character that `char::from(0)` gives.
pub open spec fn is_nul(c: char) -> bool {
    c as u32 == 0
}

/// Which characters a trim strips: NUL characters, or white space.
pub open spec fn strips(strip_nul: bool, c: char) -> bool {
    if strip_nul {
        is_nul(c)
    } else {
        is_white_space(c)
    }
}

/// `s` without the characters at its front that `strips(strip_nul, _)` accepts.
pub open spec fn strip_front(s: Seq<char>, strip_nul: bool) -> Seq<char>
    decreases s.len(),
{
    if s.len() > 0 && strips(strip_nul, s[0]) {
        strip_front(s.drop_first(), strip_nul)
    } else {
        s
    }
}

/// `s` without the characters at its back that `strips(strip_nul, _)` accepts.
pub open spec fn strip_back(s: Seq<char>, strip_nul: bool) -> Seq<char>
    decreases s.len(),
{
    if s.len() > 0 && strips(strip_nul, s.last()) {
        strip_back(s.drop_last(), strip_nul)
    } else {
        s
    }
}

/// `s` with the stripped characters removed at both ends.
pub open spec fn trimmed(s: Seq<char>, strip_nul: bool) -> Seq<char> {
    strip_back(strip_front(s, strip_nul), strip_nul)
}

/// What `str::trim` gives: `s` without white space at either end.
pub open spec fn trim_white_space(s: Seq<char>) -> Seq<char> {
    trimmed(s, false)
}

/// What `str::trim_matches(char::from(0))` gives: `s` without NULs at either end.
pub open spec fn trim_nul(s: Seq<char>) -> Seq<char> {
    trimmed(s, true)
}

fn char_strips(strip_nul: bool, c: char) -> (r: bool)
    ensures
        r == strips(strip_nul, c),
{
    let u = c as u32;
    if strip_nul {
        u == 0
    } else {
        (0x09 <= u && u <= 0x0d) || u == 0x20 || u == 0x85 || u == 0xa0 || u == 0x1680 || (0x2000
            <= u && u <= 0x200a) || u == 0x2028 || u == 0x2029 || u == 0x202f || u == 0x205f || u
            == 0x3000
    }
}

proof fn lemma_strip_front_skip(s: Seq<char>, i: int, strip_nul: bool)
    requires
        0 <= i < s.len(),
        strips(strip_nul, s[i]),
    ensures
        strip_front(s.subrange(i, s.len() as int), strip_nul) == strip_front(
            s.subrange(i + 1, s.len() as int),
            strip_nul,
        ),
{
    assert(s.subrange(i, s.len() as int).drop_first() =~= s.subrange(i + 1, s.len() as int));
}

proof fn lemma_strip_back_skip(s: Seq<char>, j: int, strip_nul: bool)
    requires
        0 < j <= s.len(),
        strips(strip_nul, s[j - 1]),
    ensures
        strip_back(s.subrange(0, j), strip_nul) == strip_back(s.subrange(0, j - 1), strip_nul),
{
    assert(s.subrange(0, j).drop_last() =~= s.subrange(0, j - 1));
}

/// Removes, at both ends of `s`, the characters that `strips(strip_nul, _)`
/// accepts: NULs when `strip_nul` holds, white space otherwise.
pub fn trim_chars(s: &str, strip_nul: bool) -> (r: String)
    ensures
        r@ == trimmed(s@, strip_nul),
{
    let n = s.unicode_len();
    let ghost full = s@;
    let mut i: usize = 0;
    assert(full.subrange(0, n as int) =~= full);
    while i < n && char_strips(strip_nul, s.get_char(i))
        invariant
            n == full.len(),
            full == s@,
            i <= n,
            strip_front(full, strip_nul) == strip_front(full.subrange(i as int, n as int), strip_nul),
        decreases n - i,
    {
        proof {
            lemma_strip_front_skip(full, i as int, strip_nul);
        }
        i = i + 1;
    }
    proof {
        let rest = full.subrange(i as int, n as int);
        if i < n {
            assert(rest[0] == full[i as int]);
        }
        assert(strip_front(rest, strip_nul) == rest);
        assert(full.subrange(0, n as int) =~= full);
    }
    let ghost front = full.subrange(i as int, n as int);
    let mut j: usize = n;
    assert(front.subrange(0, (n - i) as int) =~= front);
    while j > i && char_strips(strip_nul, s.get_char(j - 1))
        invariant
            n == full.len(),
            full == s@,
            i <= j <= n,
            front == full.subrange(i as int, n as int),
            strip_back(front, strip_nul) == strip_back(
                front.subrange(0, (j - i) as int),
                strip_nul,
            ),
        decreases j,
    {
        proof {
            lemma_strip_back_skip(front, (j - i) as int, strip_nul);
            assert(front[(j - i) - 1] == full[j - 1]);
        }
        j = j - 1;
    }
    proof {
        let kept = front.subrange(0, (j - i) as int);
        if j > i {
            assert(kept.last() == full[j - 1]);
        }
        assert(strip_back(kept, strip_nul) == kept);
        assert(front.subrange(0, (n - i) as int) =~= front);
        assert(kept =~= full.subrange(i as int, j as int));
    }
    s.substring_char(i, j).to_owned()
}

proof fn lemma_strip_front_shape(s: Seq<char>, strip_nul: bool) -> (i: int)
    ensures
        0 <= i <= s.len(),
        strip_front(s, strip_nul) == s.subrange(i, s.len() as int),
        forall|k: int| 0 <= k < i ==> strips(strip_nul, #[trigger] s[k]),
        i < s.len() ==> !strips(strip_nul, s[i]),
    decreases s.len(),
{
    if s.len() > 0 && strips(strip_nul, s[0]) {
        let i0 = lemma_strip_front_shape(s.drop_first(), strip_nul);
        assert(s.drop_first().subrange(i0, s.drop_first().len() as int) =~= s.subrange(
            i0 + 1,
            s.len() as int,
        ));
        assert forall|k: int| 0 <= k < i0 + 1 implies strips(strip_nul, #[trigger] s[k]) by {
            if k > 0 {
                assert(s[k] == s.drop_first()[k - 1]);
            }
        }
        i0 + 1
    } else {
        assert(s.subrange(0, s.len() as int) =~= s);
        0
    }
}

proof fn lemma_strip_back_shape(s: Seq<char>, strip_nul: bool) -> (j: int)
    ensures
        0 <= j <= s.len(),
        strip_back(s, strip_nul) == s.subrange(0, j),
        forall|k: int| j <= k < s.len() ==> strips(strip_nul, #[trigger] s[k]),
        j > 0 ==> !strips(strip_nul, s[j - 1]),
    decreases s.len(),
{
    if s.len() > 0 && strips(strip_nul, s.last()) {
        let j0 = lemma_strip_back_shape(s.drop_last(), strip_nul);
        assert(s.drop_last().subrange(0, j0) =~= s.subrange(0, j0));
        assert forall|k: int| j0 <= k < s.len() implies strips(strip_nul, #[trigger] s[k]) by {
            if k < s.len() - 1 {
                assert(s[k] == s.drop_last()[k]);
            }
        }
        j0
    } else {
        assert(s.subrange(0, s.len() as int) =~= s);
        s.len() as int
    }
}

/// Trimming keeps a contiguous middle part of `s`: everything cut off at
/// either end is a stripped character, and what is kept neither starts nor
/// ends with one.
pub proof fn law_trim_keeps_the_middle(s: Seq<char>, strip_nul: bool)
    ensures
        exists|i: int, j: int|
            {
                &&& 0 <= i <= j <= s.len()
                &&& trimmed(s, strip_nul) == s.subrange(i, j)
                &&& forall|k: int| 0 <= k < i ==> strips(strip_nul, #[trigger] s[k])
                &&& forall|k: int| j <= k < s.len() ==> strips(strip_nul, #[trigger] s[k])
                &&& i < j ==> !strips(strip_nul, s[i]) && !strips(strip_nul, s[j - 1])
            },
{
    let i = lemma_strip_front_shape(s, strip_nul);
    let front = s.subrange(i, s.len() as int);
    let j0 = lemma_strip_back_shape(front, strip_nul);
    let j = i + j0;
    assert(front.subrange(0, j0) =~= s.subrange(i, j));
    assert forall|k: int| j <= k < s.len() implies strips(strip_nul, #[trigger] s[k]) by {
        assert(s[k] == front[k - i]);
    }
    if i < j {
        assert(s[i] == front[0]);
        assert(s[j - 1] == front[j0 - 1]);
    }
}

/// What `String::from_utf8_lossy` decodes `bytes` to.
pub uninterp spec fn utf8_lossy(bytes: Seq<u8>) -> Seq<char>;

/// Every byte is below 0x80, so the bytes are ASCII and valid UTF-8.
pub open spec fn all_ascii(bytes: Seq<u8>) -> bool {
    forall|i: int| 0 <= i < bytes.len() ==> bytes[i] < 0x80
}

/// The characters that ASCII bytes stand for, one per byte.
pub open spec fn ascii_chars(bytes: Seq<u8>) -> Seq<char> {
    bytes.map_values(|b: u8| b as char)
}

/// Calls `String::from_utf8_lossy` and takes the result as an owned `String`.
/// The contract names the decoded text, and states the one case that the
/// documentation fixes in a line: bytes that are all ASCII (and so valid
/// UTF-8) come back unchanged, one character per byte. What replacement
/// characters stand in for invalid sequences is not stated.
#[verifier::external_body]
pub(crate) fn decode_lossy(bytes: &[u8]) -> (r: String)
    ensures
        r@ == utf8_lossy(bytes@),
        all_ascii(bytes@) ==> r@ == ascii_chars(bytes@),
{
    String::from_utf8_lossy(bytes).into_owned()
}

} // verus!
