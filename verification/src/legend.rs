use vstd::prelude::*;

verus! {

/// The `'/'`-separated parts of a key legend, in order, exactly as
/// `str::split('/')` yields them: an empty legend has one empty part, and a
/// trailing `'/'` ends with an empty part.
pub open spec fn split_parts(s: Seq<char>) -> Seq<Seq<char>>
    decreases s.len(),
{
    if s.len() == 0 {
        seq![Seq::<char>::empty()]
    } else {
        let init = split_parts(s.drop_last());
        if s.last() == '/' {
            init.push(Seq::<char>::empty())
        } else {
            init.update(init.len() - 1, init.last().push(s.last()))
        }
    }
}

/// A legend always has at least one part.
pub proof fn lemma_split_parts_nonempty(s: Seq<char>)
    ensures
        split_parts(s).len() >= 1,
    decreases s.len(),
{
    if s.len() > 0 {
        lemma_split_parts_nonempty(s.drop_last());
    }
}

/// The character sequences held by a vector of parts.
pub open spec fn parts_view(parts: Seq<Vec<char>>) -> Seq<Seq<char>> {
    parts.map_values(|p: Vec<char>| p@)
}

/// No part of a legend is longer than the legend.
pub proof fn lemma_split_parts_bounded(s: Seq<char>)
    ensures
        forall|i: int| 0 <= i < split_parts(s).len() ==> (#[trigger] split_parts(s)[i]).len() <= s.len(),
    decreases s.len(),
{
    if s.len() > 0 {
        lemma_split_parts_bounded(s.drop_last());
        lemma_split_parts_nonempty(s.drop_last());
    }
}

/// One of `parts` equals `alias`.
pub open spec fn has_part(parts: Seq<Seq<char>>, alias: Seq<char>) -> bool {
    exists|i: int| 0 <= i < parts.len() && parts[i] == alias
}

/// Every character of `s` is a decimal digit.
pub open spec fn all_digits(s: Seq<char>) -> bool {
    forall|i: int| 0 <= i < s.len() ==> '0' <= #[trigger] s[i] && s[i] <= '9'
}

/// The value of a string of decimal digits.
pub open spec fn digits_value(s: Seq<char>) -> int
    decreases s.len(),
{
    if s.len() == 0 {
        0
    } else {
        digits_value(s.drop_last()) * 10 + (s.last() as int - '0' as int)
    }
}

/// What `str::parse::<u8>` gives: an optional `'+'`, then at least one decimal
/// digit, with a value of at most 255.
pub open spec fn parse_u8(s: Seq<char>) -> Option<u8> {
    let digits = if s.len() > 0 && s[0] == '+' {
        s.drop_first()
    } else {
        s
    };
    if digits.len() > 0 && all_digits(digits) && digits_value(digits) <= 255 {
        Some(digits_value(digits) as u8)
    } else {
        None
    }
}

proof fn lemma_digits_value_nonneg(s: Seq<char>)
    requires
        all_digits(s),
    ensures
        digits_value(s) >= 0,
    decreases s.len(),
{
    if s.len() > 0 {
        assert(all_digits(s.drop_last()));
        lemma_digits_value_nonneg(s.drop_last());
    }
}

/// The characters of a string slice.
pub fn chars_of(s: &str) -> (r: Vec<char>)
    ensures
        r@ == s@,
{
    let n = s.unicode_len();
    let mut r: Vec<char> = Vec::new();
    let mut i: usize = 0;
    while i < n
        invariant
            n == s@.len(),
            i <= n,
            r@ == s@.take(i as int),
        decreases n - i,
    {
        r.push(s.get_char(i));
        proof {
            assert(s@.take(i + 1) == s@.take(i as int).push(s@[i as int]));
        }
        i = i + 1;
    }
    proof {
        assert(s@.take(n as int) == s@);
    }
    r
}

/// Splits a legend at every `'/'`.
pub fn legend_parts(s: &str) -> (parts: Vec<Vec<char>>)
    ensures
        parts_view(parts@) == split_parts(s@),
{
    let chars = chars_of(s);
    let n = chars.len();
    let mut parts: Vec<Vec<char>> = Vec::new();
    let mut current: Vec<char> = Vec::new();
    let mut i: usize = 0;
    while i < n
        invariant
            n == chars@.len(),
            chars@ == s@,
            i <= n,
            split_parts(s@.take(i as int)) == parts_view(parts@).push(current@),
        decreases n - i,
    {
        let c = chars[i];
        proof {
            let t = s@.take(i + 1);
            assert(t.drop_last() == s@.take(i as int));
            assert(t.last() == c);
            lemma_split_parts_nonempty(s@.take(i as int));
        }
        if c == '/' {
            let done = current;
            let ghost before = parts_view(parts@);
            parts.push(done);
            current = Vec::new();
            proof {
                assert(parts_view(parts@) =~= before.push(done@));
            }
        } else {
            current.push(c);
        }
        proof {
            let t = s@.take(i + 1);
            assert(split_parts(t) =~= parts_view(parts@).push(current@));
        }
        i = i + 1;
    }
    parts.push(current);
    proof {
        assert(s@.take(n as int) == s@);
        assert(parts_view(parts@) =~= split_parts(s@));
    }
    parts
}

/// The characters of `a` and `b` are the same.
pub fn chars_equal(a: &Vec<char>, b: &Vec<char>) -> (r: bool)
    ensures
        r == (a@ == b@),
{
    if a.len() != b.len() {
        return false;
    }
    let mut i: usize = 0;
    while i < a.len()
        invariant
            a@.len() == b@.len(),
            i <= a@.len(),
            forall|j: int| 0 <= j < i ==> a@[j] == b@[j],
        decreases a@.len() - i,
    {
        if a[i] != b[i] {
            return false;
        }
        i = i + 1;
    }
    assert(a@ =~= b@);
    true
}

/// Whether one of `parts` equals `alias`.
pub fn contains_part(parts: &Vec<Vec<char>>, alias: &Vec<char>) -> (r: bool)
    ensures
        r == has_part(parts_view(parts@), alias@),
{
    let mut i: usize = 0;
    while i < parts.len()
        invariant
            i <= parts@.len(),
            forall|j: int| 0 <= j < i ==> parts_view(parts@)[j] != alias@,
        decreases parts@.len() - i,
    {
        if chars_equal(&parts[i], alias) {
            assert(parts_view(parts@)[i as int] == alias@);
            return true;
        }
        i = i + 1;
    }
    false
}

/// Parses the characters of `s` from index `start` on as `str::parse::<u8>` does.
pub fn parse_u8_from(s: &Vec<char>, start: usize) -> (r: Option<u8>)
    requires
        start <= s@.len(),
    ensures
        r == parse_u8(s@.skip(start as int)),
{
    let ghost t = s@.skip(start as int);
    let mut i = start;
    if i < s.len() && s[i] == '+' {
        i = i + 1;
    }
    let ghost digits = s@.skip(i as int);
    assert(digits == if t.len() > 0 && t[0] == '+' { t.drop_first() } else { t });
    if i == s.len() {
        assert(digits.len() == 0);
        return None;
    }
    let first = i;
    // `value` is the value of the digits read so far, or 256 once it exceeds 255.
    let mut value: u32 = 0;
    while i < s.len()
        invariant
            first <= i <= s@.len(),
            digits == s@.skip(first as int),
            t == s@.skip(start as int),
            digits == if t.len() > 0 && t[0] == '+' { t.drop_first() } else { t },
            all_digits(s@.subrange(first as int, i as int)),
            value == if digits_value(s@.subrange(first as int, i as int)) > 255 {
                256
            } else {
                digits_value(s@.subrange(first as int, i as int))
            },
        decreases s@.len() - i,
    {
        let c = s[i];
        let ghost prefix = s@.subrange(first as int, i as int);
        let ghost next = s@.subrange(first as int, i + 1);
        assert(next.drop_last() == prefix);
        if c < '0' || c > '9' {
            assert(digits[i - first] == c);
            assert(!all_digits(digits));
            assert(t == s@.skip(start as int));
            assert(parse_u8(t) is None);
            return None;
        }
        proof {
            assert(all_digits(next));
            lemma_digits_value_nonneg(prefix);
        }
        let d: u32 = (c as u32) - ('0' as u32);
        if value < 256 {
            value = value * 10 + d;
            if value > 255 {
                value = 256;
            }
        }
        i = i + 1;
    }
    assert(s@.subrange(first as int, i as int) == digits);
    if value > 255 {
        None
    } else {
        Some(value as u8)
    }
}

/// A legend without `'/'` is a single part.
pub proof fn lemma_split_parts_single(s: Seq<char>)
    requires
        forall|i: int| 0 <= i < s.len() ==> s[i] != '/',
    ensures
        split_parts(s) == seq![s],
    decreases s.len(),
{
    if s.len() > 0 {
        lemma_split_parts_single(s.drop_last());
        assert(s.drop_last().push(s.last()) =~= s);
        assert(split_parts(s) =~= seq![s]);
    } else {
        assert(s =~= Seq::<char>::empty());
    }
}

/// A legend with one `'/'` has the parts before and after it.
pub proof fn lemma_split_parts_pair(a: Seq<char>, b: Seq<char>)
    requires
        forall|i: int| 0 <= i < a.len() ==> a[i] != '/',
        forall|i: int| 0 <= i < b.len() ==> b[i] != '/',
    ensures
        split_parts(a + seq!['/'] + b) == seq![a, b],
    decreases b.len(),
{
    let s = a + seq!['/'] + b;
    if b.len() == 0 {
        lemma_split_parts_single(a);
        assert(s.drop_last() =~= a);
        assert(s.last() == '/');
        assert(b =~= Seq::<char>::empty());
        assert(split_parts(s) =~= seq![a, b]);
    } else {
        lemma_split_parts_pair(a, b.drop_last());
        assert(s.drop_last() =~= a + seq!['/'] + b.drop_last());
        assert(b.drop_last().push(b.last()) =~= b);
        assert(s.last() == b.last());
        assert(b.last() != '/');
        let init = split_parts(s.drop_last());
        assert(init == seq![a, b.drop_last()]);
        assert(split_parts(s) == init.update(init.len() - 1, init.last().push(s.last())));
        assert(split_parts(s) =~= seq![a, b]);
    }
}

} // verus!
