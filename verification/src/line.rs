//! Byte-level line handling: trimming input lines and rendering the lines
//! the engine sends out. Lines are byte strings; the transport layer frames
//! them for its wire format.

use vstd::prelude::*;

verus! {

/// One-byte whitespace: the ASCII range U+0009..U+000D and U+0020.
pub open spec fn is_space(b: u8) -> bool {
    b == 9 || b == 10 || b == 11 || b == 12 || b == 13 || b == 32
}

/// Two-byte whitespace encodings: U+0085 and U+00A0.
pub open spec fn is_space2(b0: u8, b1: u8) -> bool {
    b0 == 0xC2 && (b1 == 0x85 || b1 == 0xA0)
}

/// Three-byte whitespace encodings: U+1680, U+2000..U+200A, U+2028,
/// U+2029, U+202F, U+205F and U+3000.
pub open spec fn is_space3(b0: u8, b1: u8, b2: u8) -> bool {
    ||| (b0 == 0xE1 && b1 == 0x9A && b2 == 0x80)
    ||| (b0 == 0xE2 && b1 == 0x80 && ((0x80 <= b2 && b2 <= 0x8A) || b2 == 0xA8 || b2 == 0xA9
        || b2 == 0xAF))
    ||| (b0 == 0xE2 && b1 == 0x81 && b2 == 0x9F)
    ||| (b0 == 0xE3 && b1 == 0x80 && b2 == 0x80)
}

/// The byte length (1, 2 or 3) of the whitespace character encoded at the
/// front of `s`, or 0 when `s` does not start with one. Together the three
/// forms are the UTF-8 encodings of every Unicode white-space character, so
/// trimming over them trims exactly what trimming the decoded text would.
/// The forms never overlap: a one-byte space is ASCII, the longer ones
/// start with 0xC2, 0xE1, 0xE2 or 0xE3.
pub open spec fn space_head(s: Seq<u8>) -> nat {
    if s.len() >= 1 && is_space(s[0]) {
        1
    } else if s.len() >= 2 && is_space2(s[0], s[1]) {
        2
    } else if s.len() >= 3 && is_space3(s[0], s[1], s[2]) {
        3
    } else {
        0
    }
}

/// The byte length of the whitespace character ending at the back of `s`,
/// or 0. Matching backwards is unambiguous: a continuation byte is never
/// ASCII whitespace, no whitespace encoding is a suffix of another, and a
/// leading byte (0xC2..0xE3) is never a continuation byte, so a match here
/// is a character of the decoded text as well.
pub open spec fn space_tail(s: Seq<u8>) -> nat {
    let n = s.len() as int;
    if s.len() >= 1 && is_space(s[n - 1]) {
        1
    } else if s.len() >= 2 && is_space2(s[n - 2], s[n - 1]) {
        2
    } else if s.len() >= 3 && is_space3(s[n - 3], s[n - 2], s[n - 1]) {
        3
    } else {
        0
    }
}

pub open spec fn trim_front(s: Seq<u8>) -> Seq<u8>
    decreases s.len(),
{
    let n = space_head(s);
    if n > 0 {
        trim_front(s.skip(n as int))
    } else {
        s
    }
}

pub open spec fn trim_back(s: Seq<u8>) -> Seq<u8>
    decreases s.len(),
{
    let n = space_tail(s);
    if n > 0 {
        trim_back(s.take(s.len() - n))
    } else {
        s
    }
}

/// The line with leading and trailing whitespace characters removed.
pub open spec fn trimmed(s: Seq<u8>) -> Seq<u8> {
    trim_back(trim_front(s))
}

fn is_space_byte(b: u8) -> (r: bool)
    ensures
        r == is_space(b),
{
    b == 9 || b == 10 || b == 11 || b == 12 || b == 13 || b == 32
}

fn is_space2_bytes(b0: u8, b1: u8) -> (r: bool)
    ensures
        r == is_space2(b0, b1),
{
    b0 == 0xC2 && (b1 == 0x85 || b1 == 0xA0)
}

fn is_space3_bytes(b0: u8, b1: u8, b2: u8) -> (r: bool)
    ensures
        r == is_space3(b0, b1, b2),
{
    (b0 == 0xE1 && b1 == 0x9A && b2 == 0x80)
        || (b0 == 0xE2 && b1 == 0x80 && ((0x80 <= b2 && b2 <= 0x8A) || b2 == 0xA8 || b2 == 0xA9
            || b2 == 0xAF))
        || (b0 == 0xE2 && b1 == 0x81 && b2 == 0x9F)
        || (b0 == 0xE3 && b1 == 0x80 && b2 == 0x80)
}

/// The length of the whitespace character at position `i`, or 0.
fn space_head_at(s: &Vec<u8>, i: usize) -> (n: usize)
    requires
        i <= s@.len(),
    ensures
        n == space_head(s@.skip(i as int)),
{
    proof {
        assert(s@.skip(i as int).len() == s@.len() - i);
        assert(forall|k: int| 0 <= k < s@.len() - i ==> s@.skip(i as int)[k] == s@[k + i]);
    }
    let len = s.len();
    let rem = len - i;
    if rem >= 1 && is_space_byte(s[i]) {
        return 1;
    }
    if rem >= 2 && is_space2_bytes(s[i], s[i + 1]) {
        return 2;
    }
    if rem >= 3 && is_space3_bytes(s[i], s[i + 1], s[i + 2]) {
        return 3;
    }
    0
}

/// The length of the whitespace character ending at `j` inside `s[i..j]`,
/// or 0.
fn space_tail_within(s: &Vec<u8>, i: usize, j: usize) -> (n: usize)
    requires
        i <= j <= s@.len(),
    ensures
        n == space_tail(s@.subrange(i as int, j as int)),
{
    proof {
        assert(s@.subrange(i as int, j as int).len() == j - i);
        assert(forall|k: int|
            0 <= k < j - i ==> s@.subrange(i as int, j as int)[k] == s@[k + i]);
    }
    let rem = j - i;
    if rem >= 1 && is_space_byte(s[j - 1]) {
        return 1;
    }
    if rem >= 2 && is_space2_bytes(s[j - 2], s[j - 1]) {
        return 2;
    }
    if rem >= 3 && is_space3_bytes(s[j - 3], s[j - 2], s[j - 1]) {
        return 3;
    }
    0
}

/// Removes leading and trailing whitespace characters from a line.
pub fn trim_bytes(s: &Vec<u8>) -> (r: Vec<u8>)
    ensures
        r@ == trimmed(s@),
{
    let len = s.len();
    let mut i: usize = 0;
    let mut n: usize = space_head_at(s, 0);
    proof {
        assert(s@.skip(0) =~= s@);
    }
    while n != 0
        invariant
            0 <= i <= len,
            len == s@.len(),
            n == space_head(s@.skip(i as int)),
            n != 0 ==> i + n <= len,
            trim_front(s@) == trim_front(s@.skip(i as int)),
        decreases len - i,
    {
        proof {
            assert(trim_front(s@.skip(i as int)) == trim_front(
                s@.skip(i as int).skip(n as int),
            ));
            assert(s@.skip(i as int).skip(n as int) =~= s@.skip(i + n));
        }
        i = i + n;
        n = space_head_at(s, i);
    }
    proof {
        assert(trim_front(s@.skip(i as int)) == s@.skip(i as int));
        assert(s@.skip(i as int) =~= s@.subrange(i as int, len as int));
        assert(trim_front(s@) == s@.subrange(i as int, len as int));
    }
    let mut j: usize = len;
    let mut m: usize = space_tail_within(s, i, j);
    while m != 0
        invariant
            i <= j <= len,
            len == s@.len(),
            m == space_tail(s@.subrange(i as int, j as int)),
            m != 0 ==> i + m <= j,
            trim_back(s@.subrange(i as int, len as int)) == trim_back(
                s@.subrange(i as int, j as int),
            ),
        decreases j,
    {
        proof {
            let t = s@.subrange(i as int, j as int);
            assert(trim_back(t) == trim_back(t.take(t.len() - m)));
            assert(t.take(t.len() - m) =~= s@.subrange(i as int, j - m));
        }
        j = j - m;
        m = space_tail_within(s, i, j);
    }
    proof {
        assert(trim_back(s@.subrange(i as int, j as int)) == s@.subrange(i as int, j as int));
        assert(trimmed(s@) == s@.subrange(i as int, j as int));
    }
    let mut r: Vec<u8> = Vec::new();
    let mut k: usize = i;
    while k < j
        invariant
            i <= k <= j <= len,
            len == s@.len(),
            r@ == s@.subrange(i as int, k as int),
        decreases j - k,
    {
        r.push(s[k]);
        proof {
            assert(r@ =~= s@.subrange(i as int, k + 1));
        }
        k = k + 1;
    }
    proof {
        assert(r@ == trimmed(s@));
    }
    r
}

/// True exactly when the two byte strings are equal.
pub fn bytes_eq(a: &Vec<u8>, b: &Vec<u8>) -> (r: bool)
    ensures
        r == (a@ == b@),
{
    if a.len() != b.len() {
        return false;
    }
    let n = a.len();
    let mut k: usize = 0;
    while k < n
        invariant
            0 <= k <= n,
            n == a@.len(),
            n == b@.len(),
            forall|m: int| 0 <= m < k ==> a@[m] == b@[m],
        decreases n - k,
    {
        if a[k] != b[k] {
            return false;
        }
        k = k + 1;
    }
    proof {
        assert(a@ =~= b@);
    }
    true
}

/// Copies a byte string.
pub fn clone_bytes(v: &Vec<u8>) -> (r: Vec<u8>)
    ensures
        r@ == v@,
{
    let mut r: Vec<u8> = Vec::new();
    let n = v.len();
    let mut k: usize = 0;
    while k < n
        invariant
            0 <= k <= n,
            n == v@.len(),
            r@ == v@.take(k as int),
        decreases n - k,
    {
        r.push(v[k]);
        proof {
            assert(r@ =~= v@.take(k + 1));
        }
        k = k + 1;
    }
    proof {
        assert(r@ =~= v@);
    }
    r
}

/// Appends `src` to `dst`.
pub fn push_all(dst: &mut Vec<u8>, src: &Vec<u8>)
    ensures
        final(dst)@ == old(dst)@ + src@,
{
    let ghost d0 = dst@;
    let n = src.len();
    let mut k: usize = 0;
    while k < n
        invariant
            0 <= k <= n,
            n == src@.len(),
            dst@ == d0 + src@.take(k as int),
        decreases n - k,
    {
        dst.push(src[k]);
        proof {
            assert(dst@ =~= d0 + src@.take(k + 1));
        }
        k = k + 1;
    }
    proof {
        assert(dst@ =~= d0 + src@);
    }
}

/// `"<identity>: <content>"` — a chat message as every participant sees it.
pub open spec fn chat_line(identity: Seq<u8>, content: Seq<u8>) -> Seq<u8> {
    identity + seq![58u8, 32u8] + content
}

/// Renders a chat message line, `"<identity>: <content>"`.
pub fn render_chat_line(identity: &Vec<u8>, content: &Vec<u8>) -> (r: Vec<u8>)
    ensures
        r@ == chat_line(identity@, content@),
{
    let mut r: Vec<u8> = Vec::new();
    push_all(&mut r, identity);
    r.push(58);
    r.push(32);
    push_all(&mut r, content);
    proof {
        assert(r@ =~= chat_line(identity@, content@));
    }
    r
}

/// `"* <identity> joined"` — the arrival notice.
pub open spec fn joined_line(identity: Seq<u8>) -> Seq<u8> {
    seq![42u8, 32u8] + identity + seq![32u8, 106u8, 111u8, 105u8, 110u8, 101u8, 100u8]
}

/// `"* <identity> left"` — the departure notice.
pub open spec fn left_line(identity: Seq<u8>) -> Seq<u8> {
    seq![42u8, 32u8] + identity + seq![32u8, 108u8, 101u8, 102u8, 116u8]
}

/// Renders the arrival notice `"* <identity> joined"`.
pub fn render_joined_line(identity: &Vec<u8>) -> (r: Vec<u8>)
    ensures
        r@ == joined_line(identity@),
{
    let mut r: Vec<u8> = Vec::new();
    r.push(42);
    r.push(32);
    push_all(&mut r, identity);
    r.push(32);
    r.push(106);
    r.push(111);
    r.push(105);
    r.push(110);
    r.push(101);
    r.push(100);
    proof {
        assert(r@ =~= joined_line(identity@));
    }
    r
}

/// Renders the departure notice `"* <identity> left"`.
pub fn render_left_line(identity: &Vec<u8>) -> (r: Vec<u8>)
    ensures
        r@ == left_line(identity@),
{
    let mut r: Vec<u8> = Vec::new();
    r.push(42);
    r.push(32);
    push_all(&mut r, identity);
    r.push(32);
    r.push(108);
    r.push(101);
    r.push(102);
    r.push(116);
    proof {
        assert(r@ =~= left_line(identity@));
    }
    r
}

} // verus!
