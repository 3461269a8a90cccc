use vstd::prelude::*;

verus! {

/// The code of `c` with an ASCII lower-case letter mapped to its upper-case letter.
pub open spec fn upper_code(c: char) -> u32 {
    if 'a' <= c && c <= 'z' {
        (c as u32 - 32) as u32
    } else {
        c as u32
    }
}

/// Two character sequences are equal when ASCII letters are compared without regard to case.
pub open spec fn eq_ignore_ascii_case(a: Seq<char>, b: Seq<char>) -> bool {
    &&& a.len() == b.len()
    &&& forall|i: int| 0 <= i < a.len() ==> #[trigger] upper_code(a[i]) == upper_code(b[i])
}


/// The number of bytes that `c` takes in UTF-8.
pub open spec fn utf8_len(c: char) -> nat {
    if (c as u32) < 0x80 {
        1
    } else if (c as u32) < 0x800 {
        2
    } else if (c as u32) < 0x10000 {
        3
    } else {
        4
    }
}

/// The number of bytes that `s` takes in UTF-8.
pub open spec fn byte_len(s: Seq<char>) -> nat
    decreases s.len(),
{
    if s.len() == 0 {
        0
    } else {
        utf8_len(s[0]) + byte_len(s.drop_first())
    }
}

/// The byte offset of the character at index `i` of `s`.
pub open spec fn byte_offset(s: Seq<char>, i: int) -> nat {
    byte_len(s.take(i))
}

pub proof fn lemma_byte_len_concat(a: Seq<char>, b: Seq<char>)
    ensures
        byte_len(a + b) == byte_len(a) + byte_len(b),
    decreases a.len(),
{
    if a.len() == 0 {
        assert(a + b =~= b);
    } else {
        assert((a + b).drop_first() =~= a.drop_first() + b);
        lemma_byte_len_concat(a.drop_first(), b);
    }
}

/// Taking one more character adds its UTF-8 length to the byte offset.
pub proof fn lemma_byte_offset_step(s: Seq<char>, i: int)
    requires
        0 <= i < s.len(),
    ensures
        byte_offset(s, i + 1) == byte_offset(s, i) + utf8_len(s[i]),
{
    assert(s.take(i + 1) =~= s.take(i) + seq![s[i]]);
    lemma_byte_len_concat(s.take(i), seq![s[i]]);
    assert(seq![s[i]].drop_first() =~= Seq::<char>::empty());
    assert(byte_len(seq![s[i]]) == utf8_len(s[i]) + byte_len(Seq::<char>::empty()));
}

/// Byte offsets grow with the index and stay within the whole length.
pub proof fn lemma_byte_offset_mono(s: Seq<char>, i: int, j: int)
    requires
        0 <= i <= j <= s.len(),
    ensures
        byte_offset(s, i) <= byte_offset(s, j) <= byte_len(s),
        i < j ==> byte_offset(s, i) < byte_offset(s, j),
{
    assert(s.take(j) =~= s.take(i) + s.subrange(i, j));
    lemma_byte_len_concat(s.take(i), s.subrange(i, j));
    assert(s =~= s.take(j) + s.skip(j));
    lemma_byte_len_concat(s.take(j), s.skip(j));
    if i < j {
        assert(s.subrange(i, j).drop_first().len() + 1 == s.subrange(i, j).len());
    }
}

/// The UTF-8 encoding of `s` has `byte_len(s)` bytes.
pub proof fn lemma_encode_utf8_len(s: Seq<char>)
    ensures
        vstd::utf8::encode_utf8(s).len() == byte_len(s),
    decreases s.len(),
{
    if s.len() > 0 {
        let c = s[0];
        vstd::utf8::char_is_scalar(c);
        lemma_encode_utf8_len(s.drop_first());
    }
}

/// The number of bytes of `s` in UTF-8.
pub fn str_byte_len(s: &str) -> (n: usize)
    ensures
        n == byte_len(s@),
{
    proof {
        lemma_encode_utf8_len(s@);
    }
    s.as_bytes().len()
}

/// The UTF-8 length of `c`.
pub fn char_utf8_len(c: char) -> (n: usize)
    ensures
        n == utf8_len(c),
{
    let v = c as u32;
    if v < 0x80 {
        1
    } else if v < 0x800 {
        2
    } else if v < 0x10000 {
        3
    } else {
        4
    }
}


/// Collects characters into a string with `FromIterator<char>`, which std documents to
/// concatenate them in order.
#[verifier::external_body]
pub(crate) fn string_from_chars(v: &Vec<char>) -> (s: String)
    ensures
        s@ == v@,
{
    v.iter().collect::<String>()
}

/// Appends the characters of `s` to `v`.
pub fn push_str(v: &mut Vec<char>, s: &str)
    ensures
        final(v)@ == old(v)@ + s@,
{
    let w = chars_of(s);
    let mut i: usize = 0;
    while i < w.len()
        invariant
            i <= w.len(),
            w@ == s@,
            v@ == old(v)@ + w@.take(i as int),
        decreases w.len() - i,
    {
        v.push(w[i]);
        i += 1;
        assert(v@ =~= old(v)@ + w@.take(i as int));
    }
    assert(w@.take(w.len() as int) =~= w@);
}

/// Appends `s[from..to]` to `v`.
pub fn push_range(v: &mut Vec<char>, s: &Vec<char>, from: usize, to: usize)
    requires
        from <= to <= s.len(),
    ensures
        final(v)@ == old(v)@ + s@.subrange(from as int, to as int),
{
    let mut i: usize = from;
    while i < to
        invariant
            from <= i <= to <= s.len(),
            v@ == old(v)@ + s@.subrange(from as int, i as int),
        decreases to - i,
    {
        v.push(s[i]);
        i += 1;
        assert(v@ =~= old(v)@ + s@.subrange(from as int, i as int));
    }
}

/// The string `s[from..to]`.
pub fn string_of_range(s: &Vec<char>, from: usize, to: usize) -> (r: String)
    requires
        from <= to <= s.len(),
    ensures
        r@ == s@.subrange(from as int, to as int),
{
    let mut v: Vec<char> = Vec::new();
    push_range(&mut v, s, from, to);
    assert(v@ =~= s@.subrange(from as int, to as int));
    string_from_chars(&v)
}

/// The decimal digit for `d < 10`.
pub open spec fn digit_char(d: nat) -> char {
    (d + '0' as u32) as char
}

/// The decimal notation of `n`, without leading zeros.
pub open spec fn decimal_text(n: nat) -> Seq<char>
    decreases n,
{
    if n < 10 {
        seq![digit_char(n)]
    } else {
        decimal_text(n / 10).push(digit_char(n % 10))
    }
}

/// The decimal notation of `n`.
pub fn decimal_chars(n: u64) -> (v: Vec<char>)
    ensures
        v@ == decimal_text(n as nat),
    decreases n,
{
    let d = (n % 10) as u32;
    let c = if d == 0 { '0' } else if d == 1 { '1' } else if d == 2 { '2' } else if d == 3 {
        '3'
    } else if d == 4 { '4' } else if d == 5 { '5' } else if d == 6 { '6' } else if d == 7 {
        '7'
    } else if d == 8 { '8' } else { '9' };
    assert(c == digit_char((n % 10) as nat));
    if n < 10 {
        let mut v: Vec<char> = Vec::new();
        v.push(c);
        v
    } else {
        let mut v = decimal_chars(n / 10);
        v.push(c);
        v
    }
}


/// `s` without its leading `$` characters.
pub open spec fn trim_dollars(s: Seq<char>) -> Seq<char>
    decreases s.len(),
{
    if s.len() > 0 && s[0] == '$' {
        trim_dollars(s.drop_first())
    } else {
        s
    }
}

/// `s` without its leading `$` characters, as `str::trim_start_matches('$')` gives it.
pub fn trim_dollar_prefix(s: &String) -> (r: String)
    ensures
        r@ == trim_dollars(s@),
{
    let v = chars_of(s.as_str());
    let mut i: usize = 0;
    assert(v@.skip(0) =~= v@);
    while i < v.len() && v[i] == '$'
        invariant
            i <= v.len(),
            trim_dollars(v@.skip(i as int)) == trim_dollars(s@),
            v@ == s@,
        decreases v.len() - i,
    {
        assert(v@.skip(i as int).drop_first() =~= v@.skip(i + 1));
        i += 1;
    }
    assert(v@.subrange(i as int, v.len() as int) =~= v@.skip(i as int));
    string_of_range(&v, i, v.len())
}

/// Collects the characters of `s` into a vector.
pub fn chars_of(s: &str) -> (v: Vec<char>)
    ensures
        v@ == s@,
{
    let mut v: Vec<char> = Vec::new();
    for c in it: s.chars()
        invariant
            v@ == it.seq().take(it.index() as int),
            it.seq() == s@,
    {
        v.push(c);
    }
    v
}

/// The code of `c` with an ASCII lower-case letter mapped to its upper-case letter.
pub fn upper_code_of(c: char) -> (r: u32)
    ensures
        r == upper_code(c),
{
    if 'a' <= c && c <= 'z' {
        c as u32 - 32
    } else {
        c as u32
    }
}

/// Compares a character vector with a string, ignoring the case of ASCII letters.
pub fn chars_eq_ignore_ascii_case(a: &Vec<char>, b: &str) -> (r: bool)
    ensures
        r == eq_ignore_ascii_case(a@, b@),
{
    let n = b.unicode_len();
    if a.len() != n {
        return false;
    }
    let mut i: usize = 0;
    while i < n
        invariant
            n == b@.len(),
            a@.len() == n,
            i <= n,
            forall|j: int| 0 <= j < i ==> #[trigger] upper_code(a@[j]) == upper_code(b@[j]),
        decreases n - i,
    {
        if upper_code_of(a[i]) != upper_code_of(b.get_char(i)) {
            return false;
        }
        i += 1;
    }
    true
}

/// Comparing without regard to ASCII case is symmetric and transitive.
pub proof fn lemma_eq_ignore_ascii_case_equivalence(a: Seq<char>, b: Seq<char>, c: Seq<char>)
    ensures
        eq_ignore_ascii_case(a, a),
        eq_ignore_ascii_case(a, b) ==> eq_ignore_ascii_case(b, a),
        eq_ignore_ascii_case(a, b) && eq_ignore_ascii_case(b, c) ==> eq_ignore_ascii_case(a, c),
{
    if eq_ignore_ascii_case(a, b) {
        assert forall|i: int| 0 <= i < b.len() implies #[trigger] upper_code(b[i]) == upper_code(a[i]) by {
            assert(upper_code(a[i]) == upper_code(b[i]));
        }
        if eq_ignore_ascii_case(b, c) {
            assert forall|i: int| 0 <= i < a.len() implies #[trigger] upper_code(a[i]) == upper_code(c[i]) by {
                assert(upper_code(a[i]) == upper_code(b[i]));
                assert(upper_code(b[i]) == upper_code(c[i]));
            }
        }
    }
}

} // verus!
