//! Character-level helpers on strings.
//!
//! Every contract here is stated over the view of a string, the sequence of
//! its characters. The executable functions read a string once into a vector
//! of characters, work on that, and build their result character by
//! character.

use vstd::prelude::*;

verus! {

/// `String::push` of the standard library appends one character to the end
/// of the string. Taken on trust from its documentation.
pub assume_specification[ String::push ](s: &mut String, ch: char)
    ensures
        final(s)@ == old(s)@.push(ch),
;

/// The lower-case form of an ASCII capital; every other character is kept.
pub open spec fn lower(c: char) -> char {
    if 'A' <= c && c <= 'Z' {
        ((c as u8) + 32) as char
    } else {
        c
    }
}

/// `lower`, as a function value.
pub open spec fn lower_fn() -> spec_fn(char) -> char {
    |c: char| lower(c)
}

/// `s` with every ASCII capital replaced by its lower-case form.
pub open spec fn lowered(s: Seq<char>) -> Seq<char> {
    s.map_values(lower_fn())
}

/// The test that a character is not `c`.
pub open spec fn is_not(c: char) -> spec_fn(char) -> bool {
    |x: char| x != c
}

/// `s` without the occurrences of `c`.
pub open spec fn without(s: Seq<char>, c: char) -> Seq<char> {
    s.filter(is_not(c))
}

/// What is left of `s` behind the prefix `p`, if `s` starts with it.
pub open spec fn stripped(s: Seq<char>, p: Seq<char>) -> Option<Seq<char>> {
    if p.is_prefix_of(s) {
        Some(s.skip(p.len() as int))
    } else {
        None
    }
}

/// The character that stands for a digit.
pub open spec fn digit(d: int) -> char {
    if d == 0 {
        '0'
    } else if d == 1 {
        '1'
    } else if d == 2 {
        '2'
    } else if d == 3 {
        '3'
    } else if d == 4 {
        '4'
    } else if d == 5 {
        '5'
    } else if d == 6 {
        '6'
    } else if d == 7 {
        '7'
    } else if d == 8 {
        '8'
    } else {
        '9'
    }
}

/// The decimal numeral of `n`, without leading zeros.
pub open spec fn decimal(n: nat) -> Seq<char>
    decreases n,
{
    if n < 10 {
        seq![digit(n as int)]
    } else {
        decimal(n / 10).push(digit((n % 10) as int))
    }
}

/// The characters of `s`, in order.
pub fn chars_of(s: &str) -> (v: Vec<char>)
    ensures
        v@ == s@,
{
    let mut v: Vec<char> = Vec::new();
    for c in it: s.chars()
        invariant
            it.seq() == s@,
            v@ == s@.take(it.index() as int),
    {
        v.push(c);
    }
    v
}

/// The string made of the characters `chars[from..]`.
pub(crate) fn string_from(chars: &Vec<char>, from: usize) -> (s: String)
    requires
        from <= chars.len(),
    ensures
        s@ == chars@.skip(from as int),
{
    let mut s = String::new();
    let mut i: usize = from;
    while i < chars.len()
        invariant
            from <= i <= chars.len(),
            s@ == chars@.subrange(from as int, i as int),
        decreases chars.len() - i,
    {
        s.push(chars[i]);
        i += 1;
    }
    s
}

/// Whether `s[at..]` starts with `p`.
fn matches_at(s: &Vec<char>, at: usize, p: &Vec<char>) -> (b: bool)
    requires
        at <= s.len(),
    ensures
        b == p@.is_prefix_of(s@.skip(at as int)),
{
    if p.len() > s.len() - at {
        return false;
    }
    let mut i: usize = 0;
    while i < p.len()
        invariant
            i <= p.len(),
            at + p.len() <= s.len(),
            forall|k: int| 0 <= k < i ==> p@[k] == s@[at + k],
        decreases p.len() - i,
    {
        if p[i] != s[at + i] {
            proof {
                let t = s@.skip(at as int);
                assert(t.subrange(0, p@.len() as int)[i as int] == s@[at + i]);
            }
            return false;
        }
        i += 1;
    }
    proof {
        let t = s@.skip(at as int);
        assert(p@ =~= t.subrange(0, p@.len() as int));
    }
    true
}

/// Whether `s` starts with `prefix`.
pub fn starts_with(s: &str, prefix: &str) -> (b: bool)
    ensures
        b == prefix@.is_prefix_of(s@),
{
    let sc = chars_of(s);
    let pc = chars_of(prefix);
    assert(sc@.skip(0) =~= sc@);
    matches_at(&sc, 0, &pc)
}

/// Whether `s` ends with `suffix`.
pub fn ends_with(s: &str, suffix: &str) -> (b: bool)
    ensures
        b == suffix@.is_suffix_of(s@),
{
    let sc = chars_of(s);
    let pc = chars_of(suffix);
    if pc.len() > sc.len() {
        return false;
    }
    let at = sc.len() - pc.len();
    let b = matches_at(&sc, at, &pc);
    proof {
        let t = sc@.skip(at as int);
        assert(t =~= sc@.subrange(sc@.len() - pc@.len(), sc@.len() as int));
        assert(t.subrange(0, pc@.len() as int) =~= t);
    }
    b
}

/// Whether `a` and `b` hold the same characters.
pub fn same_text(a: &str, b: &str) -> (r: bool)
    ensures
        r == (a@ == b@),
{
    let ac = chars_of(a);
    let bc = chars_of(b);
    if ac.len() != bc.len() {
        return false;
    }
    assert(ac@.skip(0) =~= ac@);
    let r = matches_at(&ac, 0, &bc);
    proof {
        assert(ac@.subrange(0, bc@.len() as int) =~= ac@);
    }
    r
}

/// What is left of `s` behind `prefix`, or nothing if `s` does not start with it.
pub fn strip_prefix(s: &str, prefix: &str) -> (r: Option<String>)
    ensures
        match r {
            Some(t) => stripped(s@, prefix@) == Some(t@),
            None => stripped(s@, prefix@) is None,
        },
{
    let sc = chars_of(s);
    let pc = chars_of(prefix);
    assert(sc@.skip(0) =~= sc@);
    if matches_at(&sc, 0, &pc) {
        Some(string_from(&sc, pc.len()))
    } else {
        None
    }
}

/// A copy of `s` without the occurrences of `c`.
pub fn remove_char(s: &str, c: char) -> (r: String)
    ensures
        r@ == without(s@, c),
{
    let sc = chars_of(s);
    let mut r = String::new();
    let mut i: usize = 0;
    proof {
        assert(sc@.take(0) =~= Seq::<char>::empty());
        reveal(Seq::filter);
    }
    while i < sc.len()
        invariant
            i <= sc.len(),
            r@ == without(sc@.take(i as int), c),
        decreases sc.len() - i,
    {
        let ghost head = sc@.take(i as int);
        proof {
            assert(sc@.take(i + 1) =~= head.push(sc@[i as int]));
            head.lemma_filter_push(sc@[i as int], is_not(c));
        }
        if sc[i] != c {
            r.push(sc[i]);
        }
        i += 1;
    }
    assert(sc@.take(sc@.len() as int) =~= sc@);
    r
}

/// The lower-case form of an ASCII capital; every other character is kept.
pub fn to_lower(c: char) -> (r: char)
    ensures
        r == lower(c),
{
    if c >= 'A' && c <= 'Z' {
        ((c as u8) + 32) as char
    } else {
        c
    }
}

/// A copy of `s` in which every ASCII capital is lower case.
pub fn to_ascii_lowercase(s: &str) -> (r: String)
    ensures
        r@ == lowered(s@),
{
    let sc = chars_of(s);
    let mut r = String::new();
    let mut i: usize = 0;
    while i < sc.len()
        invariant
            i <= sc.len(),
            r@ == lowered(sc@.take(i as int)),
        decreases sc.len() - i,
    {
        proof {
            sc@.lemma_map_take_succ(lower_fn(), i as int);
        }
        r.push(to_lower(sc[i]));
        i += 1;
    }
    assert(sc@.take(sc@.len() as int) =~= sc@);
    r
}

/// The character that stands for the digit `d`.
fn digit_char(d: usize) -> (c: char)
    requires
        d < 10,
    ensures
        c == digit(d as int),
{
    if d == 0 {
        '0'
    } else if d == 1 {
        '1'
    } else if d == 2 {
        '2'
    } else if d == 3 {
        '3'
    } else if d == 4 {
        '4'
    } else if d == 5 {
        '5'
    } else if d == 6 {
        '6'
    } else if d == 7 {
        '7'
    } else if d == 8 {
        '8'
    } else {
        '9'
    }
}

/// The decimal numeral of `n`, without leading zeros.
pub fn to_decimal(n: usize) -> (r: String)
    ensures
        r@ == decimal(n as nat),
    decreases n,
{
    if n < 10 {
        let mut r = String::new();
        r.push(digit_char(n));
        assert(r@ =~= seq![digit(n as int)]);
        r
    } else {
        let mut r = to_decimal(n / 10);
        r.push(digit_char(n % 10));
        r
    }
}

} // verus!
