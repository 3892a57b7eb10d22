//! Character-level helpers shared by the adapters and the capture layer:
//! whitespace trimming, prefix stripping, JSON string escaping and decimal
//! rendering, all specified over `Seq<char>`.

use vstd::prelude::*;
use vstd::string::*;

verus! {

/// The characters treated as surrounding whitespace: the Unicode
/// `White_Space` set, exactly what `str::trim` removes.
pub open spec fn is_space(c: char) -> bool {
    c == ' ' || c == '\t' || c == '\n' || c == '\r' || c == '\u{b}' || c == '\u{c}' || c
        == '\u{85}' || c == '\u{a0}' || c == '\u{1680}' || (0x2000 <= (c as u32) && (c as u32)
        <= 0x200a) || c == '\u{2028}' || c == '\u{2029}' || c == '\u{202f}' || c == '\u{205f}' || c
        == '\u{3000}'
}

pub open spec fn trim_start_spec(s: Seq<char>) -> Seq<char>
    decreases s.len(),
{
    if s.len() > 0 && is_space(s[0]) {
        trim_start_spec(s.drop_first())
    } else {
        s
    }
}

pub open spec fn trim_end_spec(s: Seq<char>) -> Seq<char>
    decreases s.len(),
{
    if s.len() > 0 && is_space(s[s.len() - 1]) {
        trim_end_spec(s.drop_last())
    } else {
        s
    }
}

/// The sequence with surrounding whitespace removed.
pub open spec fn trim_spec(s: Seq<char>) -> Seq<char> {
    trim_end_spec(trim_start_spec(s))
}

pub proof fn lemma_trim_start_len(s: Seq<char>)
    ensures
        trim_start_spec(s).len() <= s.len(),
    decreases s.len(),
{
    if s.len() > 0 && is_space(s[0]) {
        lemma_trim_start_len(s.drop_first());
    }
}

pub proof fn lemma_trim_end_len(s: Seq<char>)
    ensures
        trim_end_spec(s).len() <= s.len(),
    decreases s.len(),
{
    if s.len() > 0 && is_space(s[s.len() - 1]) {
        lemma_trim_end_len(s.drop_last());
    }
}

proof fn lemma_trim_start_skip(s: Seq<char>, k: int)
    requires
        0 <= k <= s.len(),
        forall|j: int| 0 <= j < k ==> is_space(s[j]),
    ensures
        trim_start_spec(s) == trim_start_spec(s.skip(k)),
    decreases k,
{
    if k > 0 {
        assert(s.drop_first() =~= s.skip(1));
        assert(forall|j: int| 0 <= j < k - 1 ==> is_space(s.skip(1)[j]));
        lemma_trim_start_skip(s.skip(1), k - 1);
        assert(s.skip(1).skip(k - 1) =~= s.skip(k));
    } else {
        assert(s.skip(0) =~= s);
    }
}

proof fn lemma_trim_end_take(s: Seq<char>, k: int)
    requires
        0 <= k <= s.len(),
        forall|j: int| k <= j < s.len() ==> is_space(s[j]),
    ensures
        trim_end_spec(s) == trim_end_spec(s.take(k)),
    decreases s.len() - k,
{
    if k < s.len() {
        assert(is_space(s[s.len() - 1]));
        assert(s.drop_last() =~= s.take(s.len() - 1));
        assert(forall|j: int|
            k <= j < s.take(s.len() - 1).len() ==> is_space(#[trigger] s.take(s.len() - 1)[j]));
        lemma_trim_end_take(s.take(s.len() - 1), k);
        assert(s.take(s.len() - 1).take(k) =~= s.take(k));
    } else {
        assert(s.take(s.len() as int) =~= s);
    }
}

/// Trimming does nothing to a sequence whose ends are not whitespace.
pub proof fn lemma_trim_noop(s: Seq<char>)
    requires
        s.len() == 0 || (!is_space(s[0]) && !is_space(s[s.len() - 1])),
    ensures
        trim_spec(s) == s,
{
    assert(trim_start_spec(s) == s);
    assert(trim_end_spec(s) == s);
}

proof fn lemma_trim_start_full(s: Seq<char>)
    requires
        trim_start_spec(s).len() == s.len(),
        s.len() > 0,
    ensures
        trim_start_spec(s) == s,
        !is_space(s[0]),
{
    if is_space(s[0]) {
        lemma_trim_start_len(s.drop_first());
        assert(trim_start_spec(s) == trim_start_spec(s.drop_first()));
        assert(false);
    }
}

proof fn lemma_trim_end_full(s: Seq<char>)
    requires
        trim_end_spec(s).len() == s.len(),
        s.len() > 0,
    ensures
        trim_end_spec(s) == s,
        !is_space(s[s.len() - 1]),
{
    if is_space(s[s.len() - 1]) {
        lemma_trim_end_len(s.drop_last());
        assert(trim_end_spec(s) == trim_end_spec(s.drop_last()));
        assert(false);
    }
}

/// A non-empty fixed point of trimming carries no whitespace at either end.
pub proof fn lemma_trim_fixed_point_ends(s: Seq<char>)
    requires
        trim_spec(s) == s,
        s.len() > 0,
    ensures
        !is_space(s[0]),
        !is_space(s[s.len() - 1]),
{
    let ts = trim_start_spec(s);
    lemma_trim_start_len(s);
    lemma_trim_end_len(ts);
    assert(trim_end_spec(ts) == s);
    assert(ts.len() == s.len());
    lemma_trim_start_full(s);
    assert(ts == s);
    lemma_trim_end_full(s);
}

/// Gluing a clean head to a clean tail leaves nothing for trimming.
pub proof fn lemma_trim_concat_clean(a: Seq<char>, b: Seq<char>)
    requires
        a.len() > 0,
        !is_space(a[0]),
        b.len() > 0,
        !is_space(b[b.len() - 1]),
    ensures
        trim_spec(a + b) == a + b,
{
    assert((a + b)[0] == a[0]);
    assert((a + b)[(a + b).len() - 1] == b[b.len() - 1]);
    lemma_trim_noop(a + b);
}

fn is_space_char(c: char) -> (r: bool)
    ensures
        r == is_space(c),
{
    c == ' ' || c == '\t' || c == '\n' || c == '\r' || c == '\u{b}' || c == '\u{c}' || c
        == '\u{85}' || c == '\u{a0}' || c == '\u{1680}' || (0x2000 <= (c as u32) && (c as u32)
        <= 0x200a) || c == '\u{2028}' || c == '\u{2029}' || c == '\u{202f}' || c == '\u{205f}' || c
        == '\u{3000}'
}

/// Copies `v[from..to]` into a fresh vector.
fn copy_range(v: &Vec<char>, from: usize, to: usize) -> (r: Vec<char>)
    requires
        from <= to <= v@.len(),
    ensures
        r@ == v@.subrange(from as int, to as int),
{
    let mut r: Vec<char> = Vec::new();
    let mut i: usize = from;
    while i < to
        invariant
            from <= i <= to <= v@.len(),
            r@ == v@.subrange(from as int, i as int),
        decreases to - i,
    {
        r.push(v[i]);
        i += 1;
        proof {
            assert(r@ =~= v@.subrange(from as int, i as int));
        }
    }
    r
}

/// Removes surrounding whitespace.
pub fn trim_chars(v: &Vec<char>) -> (r: Vec<char>)
    ensures
        r@ == trim_spec(v@),
{
    let n = v.len();
    let mut start: usize = 0;
    while start < n && is_space_char(v[start])
        invariant
            n == v@.len(),
            start <= n,
            forall|j: int| 0 <= j < start ==> is_space(v@[j]),
        decreases n - start,
    {
        start += 1;
    }
    proof {
        lemma_trim_start_skip(v@, start as int);
    }
    let ghost t = v@.skip(start as int);
    proof {
        if start < n {
            assert(t[0] == v@[start as int]);
            assert(!is_space(t[0]));
        }
        assert(trim_start_spec(t) == t);
    }
    let mut end: usize = n;
    while end > start && is_space_char(v[end - 1])
        invariant
            n == v@.len(),
            start <= end <= n,
            forall|j: int| end <= j < n ==> is_space(v@[j]),
        decreases end,
    {
        end -= 1;
    }
    proof {
        assert(forall|j: int| end - start <= j < t.len() ==> is_space(t[j]));
        lemma_trim_end_take(t, end - start);
        assert(t.take(end - start) =~= v@.subrange(start as int, end as int));
        if end > start {
            let u = v@.subrange(start as int, end as int);
            assert(u[u.len() - 1] == v@[end - 1]);
            assert(!is_space(u[u.len() - 1]));
            assert(trim_end_spec(u) == u);
        } else {
            assert(v@.subrange(start as int, end as int).len() == 0);
        }
    }
    copy_range(v, start, end)
}

/// Whether `s` begins with `p`.
pub open spec fn starts_with_spec(s: Seq<char>, p: Seq<char>) -> bool {
    p.len() <= s.len() && s.subrange(0, p.len() as int) == p
}

pub fn starts_with_chars(v: &Vec<char>, p: &Vec<char>) -> (r: bool)
    ensures
        r == starts_with_spec(v@, p@),
{
    let plen = p.len();
    if plen > v.len() {
        return false;
    }
    let mut i: usize = 0;
    while i < plen
        invariant
            plen == p@.len() <= v@.len(),
            i <= plen,
            forall|j: int| 0 <= j < i ==> v@[j] == p@[j],
        decreases plen - i,
    {
        if v[i] != p[i] {
            proof {
                assert(v@.subrange(0, plen as int)[i as int] == v@[i as int]);
            }
            return false;
        }
        i += 1;
    }
    proof {
        assert(v@.subrange(0, plen as int) =~= p@);
    }
    true
}

/// `s` with one leading occurrence of `p` removed, if present.
pub open spec fn strip_prefix_spec(s: Seq<char>, p: Seq<char>) -> Seq<char> {
    if starts_with_spec(s, p) {
        s.skip(p.len() as int)
    } else {
        s
    }
}

pub fn strip_prefix_chars(v: &Vec<char>, p: &Vec<char>) -> (r: Vec<char>)
    ensures
        r@ == strip_prefix_spec(v@, p@),
{
    if starts_with_chars(v, p) {
        let r = copy_range(v, p.len(), v.len());
        proof {
            assert(v@.subrange(p@.len() as int, v@.len() as int) =~= v@.skip(p@.len() as int));
        }
        r
    } else {
        copy_range(v, 0, v.len())
    }
}

/// `s` with every leading occurrence of `p` removed.
pub open spec fn strip_all_prefix_spec(s: Seq<char>, p: Seq<char>) -> Seq<char>
    decreases s.len(),
{
    if p.len() > 0 && starts_with_spec(s, p) {
        strip_all_prefix_spec(s.skip(p.len() as int), p)
    } else {
        s
    }
}

pub fn strip_all_prefix_chars(v: &Vec<char>, p: &Vec<char>) -> (r: Vec<char>)
    ensures
        r@ == strip_all_prefix_spec(v@, p@),
{
    let mut cur = copy_range(v, 0, v.len());
    proof {
        assert(cur@ =~= v@);
    }
    while p.len() > 0 && starts_with_chars(&cur, p)
        invariant
            strip_all_prefix_spec(cur@, p@) == strip_all_prefix_spec(v@, p@),
        decreases cur@.len(),
    {
        let next = copy_range(&cur, p.len(), cur.len());
        proof {
            assert(cur@.subrange(p@.len() as int, cur@.len() as int) =~= cur@.skip(p@.len() as int));
        }
        cur = next;
    }
    cur
}

/// Character-wise equality of two string slices.
pub fn str_eq(a: &str, b: &str) -> (r: bool)
    ensures
        r == (a@ == b@),
{
    let n = a.unicode_len();
    if n != b.unicode_len() {
        return false;
    }
    let mut i: usize = 0;
    while i < n
        invariant
            n == a@.len(),
            n == b@.len(),
            i <= n,
            forall|j: int| 0 <= j < i ==> a@[j] == b@[j],
        decreases n - i,
    {
        if a.get_char(i) != b.get_char(i) {
            return false;
        }
        i += 1;
    }
    proof {
        assert(a@ =~= b@);
    }
    true
}

/// Appends every character of `s` to `acc`.
pub fn push_str_chars(acc: &mut Vec<char>, s: &str)
    ensures
        final(acc)@ == old(acc)@ + s@,
{
    let n = s.unicode_len();
    let mut i: usize = 0;
    while i < n
        invariant
            n == s@.len(),
            i <= n,
            acc@ == old(acc)@ + s@.subrange(0, i as int),
        decreases n - i,
    {
        acc.push(s.get_char(i));
        i += 1;
        proof {
            assert(acc@ =~= old(acc)@ + s@.subrange(0, i as int));
        }
    }
    proof {
        assert(s@.subrange(0, n as int) =~= s@);
    }
}

/// Appends every character of `v` to `acc`.
pub fn push_all_chars(acc: &mut Vec<char>, v: &Vec<char>)
    ensures
        final(acc)@ == old(acc)@ + v@,
{
    let mut i: usize = 0;
    while i < v.len()
        invariant
            i <= v@.len(),
            acc@ == old(acc)@ + v@.subrange(0, i as int),
        decreases v@.len() - i,
    {
        acc.push(v[i]);
        i += 1;
        proof {
            assert(acc@ =~= old(acc)@ + v@.subrange(0, i as int));
        }
    }
    proof {
        assert(v@.subrange(0, v@.len() as int) =~= v@);
    }
}

/// The characters of a string slice as a vector.
pub fn chars_of_str(s: &str) -> (r: Vec<char>)
    ensures
        r@ == s@,
{
    let mut v: Vec<char> = Vec::new();
    push_str_chars(&mut v, s);
    proof {
        assert(v@ =~= s@);
    }
    v
}

/// Relies on `String`'s `FromIterator` over `char`: the returned string holds
/// exactly the given characters, in order.
#[verifier::external_body]
pub fn string_from_chars(v: &Vec<char>) -> (r: String)
    ensures
        r@ == v@,
{
    v.iter().collect()
}

pub open spec fn hex_digit_spec(d: int) -> char {
    if d == 0 { '0' } else if d == 1 { '1' } else if d == 2 { '2' } else if d == 3 { '3' }
    else if d == 4 { '4' } else if d == 5 { '5' } else if d == 6 { '6' } else if d == 7 { '7' }
    else if d == 8 { '8' } else if d == 9 { '9' } else if d == 10 { 'a' } else if d == 11 { 'b' }
    else if d == 12 { 'c' } else if d == 13 { 'd' } else if d == 14 { 'e' } else { 'f' }
}

fn hex_digit(d: u32) -> (c: char)
    requires
        d < 16,
    ensures
        c == hex_digit_spec(d as int),
{
    if d == 0 { '0' } else if d == 1 { '1' } else if d == 2 { '2' } else if d == 3 { '3' }
    else if d == 4 { '4' } else if d == 5 { '5' } else if d == 6 { '6' } else if d == 7 { '7' }
    else if d == 8 { '8' } else if d == 9 { '9' } else if d == 10 { 'a' } else if d == 11 { 'b' }
    else if d == 12 { 'c' } else if d == 13 { 'd' } else if d == 14 { 'e' } else { 'f' }
}

/// How a single character is written inside a JSON string literal.
pub open spec fn json_escape_char(c: char) -> Seq<char> {
    if c == '"' {
        seq!['\\', '"']
    } else if c == '\\' {
        seq!['\\', '\\']
    } else if c == '\n' {
        seq!['\\', 'n']
    } else if c == '\r' {
        seq!['\\', 'r']
    } else if c == '\t' {
        seq!['\\', 't']
    } else if (c as u32) < 32 {
        seq!['\\', 'u', '0', '0', hex_digit_spec((c as u32) as int / 16), hex_digit_spec(
            (c as u32) as int % 16,
        )]
    } else {
        seq![c]
    }
}

/// The body of a JSON string literal holding exactly the characters of `s`.
pub open spec fn json_escape_spec(s: Seq<char>) -> Seq<char>
    decreases s.len(),
{
    if s.len() == 0 {
        Seq::<char>::empty()
    } else {
        json_escape_char(s[0]) + json_escape_spec(s.drop_first())
    }
}

pub proof fn lemma_json_escape_push(s: Seq<char>, c: char)
    ensures
        json_escape_spec(s.push(c)) == json_escape_spec(s) + json_escape_char(c),
    decreases s.len(),
{
    assert(s.push(c).len() == s.len() + 1);
    assert(json_escape_spec(s.push(c)) == json_escape_char(s.push(c)[0]) + json_escape_spec(
        s.push(c).drop_first(),
    ));
    if s.len() == 0 {
        assert(s.push(c).drop_first() =~= Seq::<char>::empty());
        assert(s.push(c)[0] == c);
        assert(json_escape_spec(Seq::<char>::empty()) == Seq::<char>::empty());
        assert(json_escape_char(c) + Seq::<char>::empty() =~= json_escape_char(c));
        assert(Seq::<char>::empty() + json_escape_char(c) =~= json_escape_char(c));
        assert(json_escape_spec(s) == Seq::<char>::empty());
    } else {
        assert(s.push(c).drop_first() =~= s.drop_first().push(c));
        lemma_json_escape_push(s.drop_first(), c);
        assert(s.push(c)[0] == s[0]);
        assert(json_escape_spec(s) == json_escape_char(s[0]) + json_escape_spec(s.drop_first()));
        assert(json_escape_char(s[0]) + (json_escape_spec(s.drop_first()) + json_escape_char(c))
            =~= (json_escape_char(s[0]) + json_escape_spec(s.drop_first())) + json_escape_char(c));
    }
}

fn push_escaped_char(acc: &mut Vec<char>, c: char)
    ensures
        final(acc)@ == old(acc)@ + json_escape_char(c),
{
    if c == '"' {
        acc.push('\\');
        acc.push('"');
        proof {
            assert(acc@ =~= old(acc)@ + json_escape_char(c));
        }
    } else if c == '\\' {
        acc.push('\\');
        acc.push('\\');
        proof {
            assert(acc@ =~= old(acc)@ + json_escape_char(c));
        }
    } else if c == '\n' {
        acc.push('\\');
        acc.push('n');
        proof {
            assert(acc@ =~= old(acc)@ + json_escape_char(c));
        }
    } else if c == '\r' {
        acc.push('\\');
        acc.push('r');
        proof {
            assert(acc@ =~= old(acc)@ + json_escape_char(c));
        }
    } else if c == '\t' {
        acc.push('\\');
        acc.push('t');
        proof {
            assert(acc@ =~= old(acc)@ + json_escape_char(c));
        }
    } else if (c as u32) < 32 {
        let d: u32 = c as u32;
        acc.push('\\');
        acc.push('u');
        acc.push('0');
        acc.push('0');
        acc.push(hex_digit(d / 16));
        acc.push(hex_digit(d % 16));
        proof {
            assert(acc@ =~= old(acc)@ + json_escape_char(c));
        }
    } else {
        acc.push(c);
        proof {
            assert(acc@ =~= old(acc)@ + json_escape_char(c));
        }
    }
}

/// Appends the JSON-escaped form of `s` to `acc`.
pub fn push_json_escaped(acc: &mut Vec<char>, s: &Vec<char>)
    ensures
        final(acc)@ == old(acc)@ + json_escape_spec(s@),
{
    proof {
        assert(json_escape_spec(s@.take(0)) =~= Seq::<char>::empty());
        assert(acc@ =~= old(acc)@ + json_escape_spec(s@.take(0)));
    }
    let mut i: usize = 0;
    while i < s.len()
        invariant
            i <= s@.len(),
            acc@ == old(acc)@ + json_escape_spec(s@.take(i as int)),
        decreases s@.len() - i,
    {
        let c = s[i];
        push_escaped_char(acc, c);
        proof {
            assert(s@.take(i as int).push(c) =~= s@.take(i + 1));
            lemma_json_escape_push(s@.take(i as int), c);
            assert(old(acc)@ + (json_escape_spec(s@.take(i as int)) + json_escape_char(c)) =~= (
            old(acc)@ + json_escape_spec(s@.take(i as int))) + json_escape_char(c));
        }
        i += 1;
    }
    proof {
        assert(s@.take(s@.len() as int) =~= s@);
    }
}

/// A JSON string literal holding exactly the characters of `s`.
pub open spec fn json_quoted(s: Seq<char>) -> Seq<char> {
    seq!['"'] + json_escape_spec(s) + seq!['"']
}

/// Appends the JSON string literal for `s` to `acc`.
pub fn push_json_quoted(acc: &mut Vec<char>, s: &Vec<char>)
    ensures
        final(acc)@ == old(acc)@ + json_quoted(s@),
{
    acc.push('"');
    push_json_escaped(acc, s);
    acc.push('"');
    proof {
        assert(acc@ =~= old(acc)@ + json_quoted(s@));
    }
}

pub open spec fn dec_digit_spec(d: int) -> char {
    if d == 0 { '0' } else if d == 1 { '1' } else if d == 2 { '2' } else if d == 3 { '3' }
    else if d == 4 { '4' } else if d == 5 { '5' } else if d == 6 { '6' } else if d == 7 { '7' }
    else if d == 8 { '8' } else { '9' }
}

/// The decimal rendering of a non-negative number.
pub open spec fn dec_spec(n: int) -> Seq<char>
    recommends
        n >= 0,
    decreases n,
{
    if n < 10 {
        seq![dec_digit_spec(n)]
    } else {
        dec_spec(n / 10) + seq![dec_digit_spec(n % 10)]
    }
}

fn dec_digit(d: u16) -> (c: char)
    requires
        d < 10,
    ensures
        c == dec_digit_spec(d as int),
{
    if d == 0 { '0' } else if d == 1 { '1' } else if d == 2 { '2' } else if d == 3 { '3' }
    else if d == 4 { '4' } else if d == 5 { '5' } else if d == 6 { '6' } else if d == 7 { '7' }
    else if d == 8 { '8' } else { '9' }
}

/// Appends the decimal rendering of `n` to `acc`.
pub fn push_u16_dec(acc: &mut Vec<char>, n: u16)
    ensures
        final(acc)@ == old(acc)@ + dec_spec(n as int),
    decreases n,
{
    if n < 10 {
        acc.push(dec_digit(n));
        proof {
            assert(acc@ =~= old(acc)@ + dec_spec(n as int));
        }
    } else {
        push_u16_dec(acc, n / 10);
        acc.push(dec_digit(n % 10));
        proof {
            assert((n / 10) as int == n as int / 10);
            assert((n % 10) as int == n as int % 10);
            assert(old(acc)@ + (dec_spec(n as int / 10) + seq![dec_digit_spec(n as int % 10)]) =~= (
            old(acc)@ + dec_spec(n as int / 10)) + seq![dec_digit_spec(n as int % 10)]);
            assert(acc@ =~= (old(acc)@ + dec_spec(n as int / 10)) + seq![
                dec_digit_spec(n as int % 10),
            ]);
        }
    }
}

} // verus!
