//! Character-level text primitives shared by the log, verdict and prompt
//! code: whitespace trimming, substring search, UTF-8 widths and decimal
//! rendering, each stated over the `Seq<char>` view of a string.
use vstd::prelude::*;
use vstd::utf8::*;

verus! {

// ---------------------------------------------------------------- ASCII case

/// The code of `c` with ASCII `A`–`Z` mapped to `a`–`z`
/// (`char::to_ascii_lowercase`).
pub open spec fn ascii_lower_code(c: char) -> u32 {
    let u = c as u32;
    if 65 <= u <= 90 {
        (u + 32) as u32
    } else {
        u
    }
}

/// `s`, with its ASCII letters lowercased, spells `word`
/// (`s.to_ascii_lowercase() == word`).
pub open spec fn lowercases_to(s: Seq<char>, word: Seq<char>) -> bool {
    s.len() == word.len() && forall|i: int|
        0 <= i < s.len() ==> ascii_lower_code(#[trigger] s[i]) == word[i] as u32
}

/// `a` and `b` differ at most in the case of ASCII letters.
pub open spec fn same_up_to_ascii_case(a: Seq<char>, b: Seq<char>) -> bool {
    a.len() == b.len() && forall|i: int|
        0 <= i < a.len() ==> ascii_lower_code(#[trigger] a[i]) == ascii_lower_code(b[i])
}

/// Two chars with the same code are the same char.
proof fn lemma_same_code_same_char(x: char, y: char)
    requires
        x as u32 == y as u32,
    ensures
        x == y,
{
    char_u32_cast(x, x as u32);
    char_u32_cast(y, y as u32);
}

/// Texts that differ only in ASCII case lowercase, char by char, to the same
/// text.
pub proof fn lemma_same_up_to_case_lowered(a: Seq<char>, b: Seq<char>, la: Seq<char>, lb: Seq<char>)
    requires
        same_up_to_ascii_case(a, b),
        lowercases_to(a, la),
        lowercases_to(b, lb),
    ensures
        la == lb,
{
    assert forall|i: int| 0 <= i < la.len() implies #[trigger] la[i] == lb[i] by {
        assert(ascii_lower_code(a[i]) == la[i] as u32);
        assert(ascii_lower_code(b[i]) == lb[i] as u32);
        lemma_same_code_same_char(la[i], lb[i]);
    }
    assert(la =~= lb);
}

/// ASCII text lowercased char by char is ASCII text of the same length.
pub proof fn lemma_ascii_lowered_is_ascii(s: Seq<char>, t: Seq<char>)
    requires
        is_ascii_chars(s),
        lowercases_to(s, t),
    ensures
        is_ascii_chars(t),
        t.len() == s.len(),
{
    assert forall|i: int| 0 <= i < t.len() implies '\0' <= #[trigger] t[i] <= '\u{7f}' by {
        assert('\0' <= s[i] <= '\u{7f}');
        assert(s[i] as u32 <= 127);
        assert(ascii_lower_code(s[i]) <= 127);
        lemma_code_is_ascii(t[i]);
    }
}

/// An ASCII char takes one byte in UTF-8.
pub proof fn lemma_ascii_width(c: char)
    requires
        '\0' <= c <= '\u{7f}',
    ensures
        utf8_width(c) == 1,
{
    is_ascii_chars_encode_utf8(seq![c]);
    lemma_utf8_len_single(c);
}

/// ASCII text takes one byte per char in UTF-8.
pub proof fn lemma_ascii_utf8_len(s: Seq<char>)
    requires
        is_ascii_chars(s),
    ensures
        utf8_len(s) == s.len(),
{
    is_ascii_chars_encode_utf8(s);
}

/// A char whose code is below 128 is ASCII.
proof fn lemma_code_is_ascii(c: char)
    requires
        c as u32 <= 127,
    ensures
        '\0' <= c <= '\u{7f}',
{
}

// ---------------------------------------------------------------- whitespace

/// The Unicode `White_Space` property, which `char::is_whitespace` (and so
/// `str::trim`) tests.
pub open spec fn is_white_space(c: char) -> bool {
    let u = c as u32;
    ||| 0x09 <= u <= 0x0D
    ||| u == 0x20
    ||| u == 0x85
    ||| u == 0xA0
    ||| u == 0x1680
    ||| 0x2000 <= u <= 0x200A
    ||| u == 0x2028
    ||| u == 0x2029
    ||| u == 0x202F
    ||| u == 0x205F
    ||| u == 0x3000
}

/// `s` without its leading whitespace.
pub open spec fn trim_start(s: Seq<char>) -> Seq<char>
    decreases s.len(),
{
    if s.len() > 0 && is_white_space(s[0]) {
        trim_start(s.drop_first())
    } else {
        s
    }
}

/// `s` without its trailing whitespace.
pub open spec fn trim_end(s: Seq<char>) -> Seq<char>
    decreases s.len(),
{
    if s.len() > 0 && is_white_space(s.last()) {
        trim_end(s.drop_last())
    } else {
        s
    }
}

/// `s` without leading and trailing whitespace.
pub open spec fn trim(s: Seq<char>) -> Seq<char> {
    trim_end(trim_start(s))
}

proof fn lemma_trim_start_keeps_ascii(s: Seq<char>)
    requires
        is_ascii_chars(s),
    ensures
        is_ascii_chars(trim_start(s)),
    decreases s.len(),
{
    if s.len() > 0 && is_white_space(s[0]) {
        assert(is_ascii_chars(s.drop_first()));
        lemma_trim_start_keeps_ascii(s.drop_first());
    }
}

proof fn lemma_trim_end_keeps_ascii(s: Seq<char>)
    requires
        is_ascii_chars(s),
    ensures
        is_ascii_chars(trim_end(s)),
    decreases s.len(),
{
    if s.len() > 0 && is_white_space(s.last()) {
        assert(is_ascii_chars(s.drop_last()));
        lemma_trim_end_keeps_ascii(s.drop_last());
    }
}

/// Trimmed ASCII text is ASCII.
pub proof fn lemma_trim_keeps_ascii(s: Seq<char>)
    requires
        is_ascii_chars(s),
    ensures
        is_ascii_chars(trim(s)),
{
    lemma_trim_start_keeps_ascii(s);
    lemma_trim_end_keeps_ascii(trim_start(s));
}

pub fn is_white_space_char(c: char) -> (r: bool)
    ensures
        r == is_white_space(c),
{
    let u = c as u32;
    (0x09 <= u && u <= 0x0D) || u == 0x20 || u == 0x85 || u == 0xA0 || u == 0x1680 || (0x2000
        <= u && u <= 0x200A) || u == 0x2028 || u == 0x2029 || u == 0x202F || u == 0x205F || u
        == 0x3000
}

/// The characters of `s`, in order.
pub fn char_vec(s: &str) -> (v: Vec<char>)
    ensures
        v@ == s@,
{
    let mut v: Vec<char> = Vec::new();
    for c in it: s.chars()
        invariant
            v@ == it.seq().take(it.index() as int),
            it.seq() == s@,
    {
        v.push(c);
    }
    v
}

/// Number of leading whitespace characters of `v` from `from` on: the index
/// of the first other character.
fn skip_white_space(v: &Vec<char>, from: usize) -> (i: usize)
    requires
        from <= v@.len(),
    ensures
        from <= i <= v@.len(),
        trim_start(v@.skip(from as int)) == v@.skip(i as int),
{
    let mut i = from;
    while i < v.len() && is_white_space_char(v[i])
        invariant
            from <= i <= v@.len(),
            trim_start(v@.skip(from as int)) == trim_start(v@.skip(i as int)),
        decreases v@.len() - i,
    {
        assert(v@.skip(i as int).drop_first() =~= v@.skip(i + 1));
        i = i + 1;
    }
    i
}

/// `s` without leading whitespace (`str::trim_start`).
pub fn trim_start_str(s: &str) -> (r: &str)
    ensures
        r@ == trim_start(s@),
{
    let v = char_vec(s);
    let i = skip_white_space(&v, 0);
    assert(v@.skip(0) =~= v@);
    assert(v@.skip(i as int) =~= v@.subrange(i as int, v@.len() as int));
    s.substring_char(i, v.len())
}

/// `s` without leading and trailing whitespace (`str::trim`).
pub fn trim_str(s: &str) -> (r: &str)
    ensures
        r@ == trim(s@),
{
    let v = char_vec(s);
    let i = skip_white_space(&v, 0);
    assert(v@.skip(0) =~= v@);
    assert(v@.skip(i as int) =~= v@.subrange(i as int, v@.len() as int));
    let mut j = v.len();
    while j > i && is_white_space_char(v[j - 1])
        invariant
            i <= j <= v@.len(),
            v@.len() == s@.len(),
            trim(s@) == trim_end(v@.subrange(i as int, j as int)),
        decreases j,
    {
        assert(v@.subrange(i as int, j as int).drop_last() =~= v@.subrange(i as int, j - 1));
        j = j - 1;
    }
    s.substring_char(i, j)
}

// ---------------------------------------------------------------- search

/// `pat` occurs in `s` starting at index `i`.
pub open spec fn occurs_at(s: Seq<char>, pat: Seq<char>, i: int) -> bool {
    0 <= i && i + pat.len() <= s.len() && s.subrange(i, i + pat.len()) == pat
}

/// `pat` occurs somewhere in `s` (`str::contains`).
pub open spec fn contains_seq(s: Seq<char>, pat: Seq<char>) -> bool {
    exists|i: int| occurs_at(s, pat, i)
}

/// The first index at or after `from` where `pat` occurs in `s`.
pub open spec fn first_occurrence_from(s: Seq<char>, pat: Seq<char>, from: int) -> Option<int>
    decreases s.len() - from,
{
    if from < 0 || from + pat.len() > s.len() {
        None
    } else if occurs_at(s, pat, from) {
        Some(from)
    } else if from >= s.len() {
        None
    } else {
        first_occurrence_from(s, pat, from + 1)
    }
}

/// The first index where `pat` occurs in `s` (`str::find`, counted in chars).
pub open spec fn first_occurrence(s: Seq<char>, pat: Seq<char>) -> Option<int> {
    first_occurrence_from(s, pat, 0)
}

/// `s` begins with `pat` (`str::starts_with`).
pub open spec fn starts_with(s: Seq<char>, pat: Seq<char>) -> bool {
    pat.len() <= s.len() && s.take(pat.len() as int) == pat
}

/// `s` ends with `pat` (`str::ends_with`).
pub open spec fn ends_with(s: Seq<char>, pat: Seq<char>) -> bool {
    pat.len() <= s.len() && s.skip(s.len() - pat.len()) == pat
}

/// The last index of `c` in `s` (`str::rfind` with a char).
pub open spec fn last_index_of(s: Seq<char>, c: char) -> Option<int>
    decreases s.len(),
{
    if s.len() == 0 {
        None
    } else if s.last() == c {
        Some(s.len() - 1)
    } else {
        last_index_of(s.drop_last(), c)
    }
}

/// What `first_occurrence_from` returns is an occurrence, and no occurrence
/// lies between `from` and it; it is `None` exactly when none lies at or
/// after `from`.
pub proof fn lemma_first_occurrence_from(s: Seq<char>, pat: Seq<char>, from: int)
    requires
        0 <= from,
    ensures
        match first_occurrence_from(s, pat, from) {
            Some(i) => from <= i && occurs_at(s, pat, i) && forall|j: int|
                from <= j < i ==> !occurs_at(s, pat, j),
            None => forall|j: int| from <= j ==> !occurs_at(s, pat, j),
        },
    decreases s.len() - from,
{
    if from + pat.len() > s.len() {
    } else if occurs_at(s, pat, from) {
    } else if from >= s.len() {
    } else {
        lemma_first_occurrence_from(s, pat, from + 1);
    }
}

/// `contains_seq` holds exactly when `first_occurrence` finds something.
pub proof fn lemma_contains_iff_found(s: Seq<char>, pat: Seq<char>)
    ensures
        contains_seq(s, pat) <==> first_occurrence(s, pat) is Some,
{
    lemma_first_occurrence_from(s, pat, 0);
    if let Some(i) = first_occurrence(s, pat) {
        assert(occurs_at(s, pat, i));
    }
}

/// Whether `pat` occurs in `hay` at index `i`.
pub fn occurs_at_vec(hay: &Vec<char>, pat: &Vec<char>, i: usize) -> (r: bool)
    ensures
        r == occurs_at(hay@, pat@, i as int),
{
    if pat.len() > hay.len() || i > hay.len() - pat.len() {
        return false;
    }
    let mut k: usize = 0;
    while k < pat.len()
        invariant
            i + pat@.len() <= hay@.len(),
            hay@.len() == hay.len(),
            k <= pat@.len(),
            forall|m: int| 0 <= m < k ==> hay@[i + m] == pat@[m],
        decreases pat@.len() - k,
    {
        if hay[i + k] != pat[k] {
            assert(hay@.subrange(i as int, i + pat@.len())[k as int] != pat@[k as int]);
            return false;
        }
        k = k + 1;
    }
    assert(hay@.subrange(i as int, i + pat@.len()) =~= pat@);
    true
}

/// The first index at or after `from` where `pat` occurs in `hay`.
pub fn find_from(hay: &Vec<char>, pat: &Vec<char>, from: usize) -> (r: Option<usize>)
    ensures
        match r {
            Some(i) => first_occurrence_from(hay@, pat@, from as int) == Some(i as int),
            None => first_occurrence_from(hay@, pat@, from as int) is None,
        },
{
    if from > hay.len() {
        return None;
    }
    let mut i = from;
    loop
        invariant
            from <= i <= hay@.len() + 1,
            hay@.len() == hay.len(),
            first_occurrence_from(hay@, pat@, from as int) == first_occurrence_from(
                hay@,
                pat@,
                i as int,
            ),
        decreases hay@.len() + 1 - i,
    {
        if pat.len() > hay.len() || i > hay.len() - pat.len() {
            return None;
        }
        if occurs_at_vec(hay, pat, i) {
            return Some(i);
        }
        if i >= hay.len() {
            return None;
        }
        i = i + 1;
    }
}

/// The first index where `pat` occurs in `hay`.
pub fn find_vec(hay: &Vec<char>, pat: &Vec<char>) -> (r: Option<usize>)
    ensures
        match r {
            Some(i) => first_occurrence(hay@, pat@) == Some(i as int),
            None => first_occurrence(hay@, pat@) is None,
        },
{
    find_from(hay, pat, 0)
}

/// Whether `pat` occurs in `hay`.
pub fn contains_vec(hay: &Vec<char>, pat: &Vec<char>) -> (r: bool)
    ensures
        r == contains_seq(hay@, pat@),
{
    proof {
        lemma_contains_iff_found(hay@, pat@);
    }
    find_vec(hay, pat).is_some()
}

/// Whether the text `hay` contains the text `pat` (`str::contains`).
pub fn contains_str(hay: &Vec<char>, pat: &str) -> (r: bool)
    ensures
        r == contains_seq(hay@, pat@),
{
    let p = char_vec(pat);
    contains_vec(hay, &p)
}

/// Whether `hay` begins with `pat`.
pub fn starts_with_str(hay: &Vec<char>, pat: &str) -> (r: bool)
    ensures
        r == starts_with(hay@, pat@),
{
    let p = char_vec(pat);
    let r = occurs_at_vec(hay, &p, 0);
    proof {
        if r {
            assert(hay@.take(p@.len() as int) =~= hay@.subrange(0, p@.len() as int));
        }
        if starts_with(hay@, pat@) {
            assert(hay@.take(p@.len() as int) =~= hay@.subrange(0, p@.len() as int));
        }
    }
    r
}

/// Whether `hay` ends with `pat`.
pub fn ends_with_str(hay: &Vec<char>, pat: &str) -> (r: bool)
    ensures
        r == ends_with(hay@, pat@),
{
    let p = char_vec(pat);
    if p.len() > hay.len() {
        return false;
    }
    let r = occurs_at_vec(hay, &p, hay.len() - p.len());
    proof {
        let start = hay@.len() - p@.len();
        assert(hay@.skip(start) =~= hay@.subrange(start, start + p@.len()));
    }
    r
}

/// The last index of `c` in `v`.
pub fn rfind_char(v: &Vec<char>, c: char) -> (r: Option<usize>)
    ensures
        match r {
            Some(i) => last_index_of(v@, c) == Some(i as int),
            None => last_index_of(v@, c) is None,
        },
{
    let mut j = v.len();
    assert(v@.take(j as int) =~= v@);
    while j > 0 && v[j - 1] != c
        invariant
            j <= v@.len(),
            last_index_of(v@, c) == last_index_of(v@.take(j as int), c),
        decreases j,
    {
        assert(v@.take(j as int).drop_last() =~= v@.take(j - 1));
        j = j - 1;
    }
    if j == 0 {
        assert(v@.take(0) =~= Seq::<char>::empty());
        None
    } else {
        Some(j - 1)
    }
}

/// Whether two strings hold the same characters.
pub fn str_eq(a: &str, b: &str) -> (r: bool)
    ensures
        r == (a@ == b@),
{
    let va = char_vec(a);
    let vb = char_vec(b);
    if va.len() != vb.len() {
        return false;
    }
    let r = occurs_at_vec(&va, &vb, 0);
    assert(va@.subrange(0, vb@.len() as int) =~= va@);
    r
}

// ---------------------------------------------------------------- UTF-8 widths

/// Number of bytes in the UTF-8 encoding of `c`.
pub open spec fn utf8_width(c: char) -> nat {
    encode_scalar(c as u32).len()
}

/// Number of bytes in the UTF-8 encoding of `s` (`str::len`).
pub open spec fn utf8_len(s: Seq<char>) -> nat {
    encode_utf8(s).len()
}

/// The longest prefix of `s`, counted in chars, whose UTF-8 encoding takes at
/// most `budget` bytes.
pub open spec fn fitting_prefix_len(s: Seq<char>, budget: int) -> nat
    decreases s.len(),
{
    if s.len() == 0 || utf8_width(s[0]) > budget {
        0
    } else {
        1 + fitting_prefix_len(s.drop_first(), budget - utf8_width(s[0]))
    }
}

pub fn utf8_width_of(c: char) -> (w: usize)
    ensures
        w == utf8_width(c),
        1 <= w <= 4,
{
    proof {
        char_is_scalar(c);
    }
    let u = c as u32;
    if u <= 0x7F {
        1
    } else if u <= 0x7FF {
        2
    } else if u <= 0xFFFF {
        3
    } else {
        4
    }
}

/// The UTF-8 length of a concatenation is the sum of the lengths.
pub proof fn lemma_utf8_len_add(a: Seq<char>, b: Seq<char>)
    ensures
        utf8_len(a + b) == utf8_len(a) + utf8_len(b),
    decreases a.len(),
{
    if a.len() == 0 {
        assert(a + b =~= b);
    } else {
        assert((a + b).drop_first() =~= a.drop_first() + b);
        lemma_utf8_len_add(a.drop_first(), b);
    }
}

/// The UTF-8 length of one char is its width.
pub proof fn lemma_utf8_len_single(c: char)
    ensures
        utf8_len(seq![c]) == utf8_width(c),
{
    assert(seq![c].drop_first() =~= Seq::<char>::empty());
    assert(encode_utf8(Seq::<char>::empty()) =~= Seq::<u8>::empty());
    assert(encode_utf8(seq![c]) =~= encode_scalar(c as u32) + encode_utf8(seq![c].drop_first()));
}

/// The fitting prefix fits the budget, and one more char would not.
pub proof fn lemma_fitting_prefix(s: Seq<char>, budget: int)
    requires
        budget >= 0,
    ensures
        fitting_prefix_len(s, budget) <= s.len(),
        utf8_len(s.take(fitting_prefix_len(s, budget) as int)) <= budget,
        fitting_prefix_len(s, budget) < s.len() ==> utf8_len(
            s.take((fitting_prefix_len(s, budget) + 1) as int),
        ) > budget,
        utf8_len(s) <= budget ==> fitting_prefix_len(s, budget) == s.len(),
    decreases s.len(),
{
    let k = fitting_prefix_len(s, budget);
    if s.len() == 0 {
        assert(s.take(0) =~= Seq::<char>::empty());
    } else if utf8_width(s[0]) > budget {
        assert(s.take(0) =~= Seq::<char>::empty());
        assert(s.take(1) =~= seq![s[0]]);
        lemma_utf8_len_single(s[0]);
        assert(s =~= seq![s[0]] + s.drop_first());
        lemma_utf8_len_add(seq![s[0]], s.drop_first());
    } else {
        let rest = s.drop_first();
        let b2 = budget - utf8_width(s[0]);
        lemma_fitting_prefix(rest, b2);
        lemma_utf8_len_single(s[0]);
        assert(s.take(k as int) =~= seq![s[0]] + rest.take(k - 1));
        lemma_utf8_len_add(seq![s[0]], rest.take(k - 1));
        if k < s.len() {
            assert(s.take((k + 1) as int) =~= seq![s[0]] + rest.take(k as int));
            lemma_utf8_len_add(seq![s[0]], rest.take(k as int));
        }
        assert(s =~= seq![s[0]] + rest);
        lemma_utf8_len_add(seq![s[0]], rest);
    }
}

/// Number of leading chars of `v` whose encoding fits in `budget` bytes.
pub fn fitting_prefix(v: &Vec<char>, budget: usize) -> (k: usize)
    ensures
        k == fitting_prefix_len(v@, budget as int),
{
    let mut k: usize = 0;
    let mut left: usize = budget;
    assert(v@.skip(0) =~= v@);
    while k < v.len() && utf8_width_of(v[k]) <= left
        invariant
            k <= v@.len(),
            left <= budget,
            fitting_prefix_len(v@, budget as int) == k + fitting_prefix_len(
                v@.skip(k as int),
                left as int,
            ),
        decreases v@.len() - k,
    {
        let w = utf8_width_of(v[k]);
        assert(v@.skip(k as int).drop_first() =~= v@.skip(k + 1));
        left = left - w;
        k = k + 1;
    }
    proof {
        if k == v@.len() {
            assert(v@.skip(k as int).len() == 0);
        }
    }
    k
}

// ---------------------------------------------------------------- decimal numbers

/// The decimal digit `d` as a char.
pub open spec fn digit_char(d: nat) -> char {
    if d == 0 {
        '0'
    } else if d == 1 {
        '1'
    } else if d == 2 {
        '2'
    } else if d == 3 {
        '3'
    } else if d == 4 {
        '4'
    } else if d == 5 {
        '5'
    } else if d == 6 {
        '6'
    } else if d == 7 {
        '7'
    } else if d == 8 {
        '8'
    } else {
        '9'
    }
}

/// The decimal rendering of `n` (what `{}` formats an unsigned integer as).
pub open spec fn decimal(n: nat) -> Seq<char>
    decreases n,
{
    if n < 10 {
        seq![digit_char(n)]
    } else {
        decimal(n / 10).push(digit_char(n % 10))
    }
}

fn digit_str(d: u64) -> (r: &'static str)
    requires
        d < 10,
    ensures
        r@ == seq![digit_char(d as nat)],
{
    proof {
        reveal_strlit("0");
        reveal_strlit("1");
        reveal_strlit("2");
        reveal_strlit("3");
        reveal_strlit("4");
        reveal_strlit("5");
        reveal_strlit("6");
        reveal_strlit("7");
        reveal_strlit("8");
        reveal_strlit("9");
    }
    let r = if d == 0 {
        "0"
    } else if d == 1 {
        "1"
    } else if d == 2 {
        "2"
    } else if d == 3 {
        "3"
    } else if d == 4 {
        "4"
    } else if d == 5 {
        "5"
    } else if d == 6 {
        "6"
    } else if d == 7 {
        "7"
    } else if d == 8 {
        "8"
    } else {
        "9"
    };
    assert(r@ =~= seq![digit_char(d as nat)]);
    r
}

/// Appends the decimal rendering of `n` to `out`.
pub fn push_decimal(out: &mut String, n: u64)
    ensures
        final(out)@ == old(out)@ + decimal(n as nat),
    decreases n,
{
    if n >= 10 {
        push_decimal(out, n / 10);
    }
    out.append(digit_str(n % 10));
    proof {
        if n >= 10 {
            assert(decimal(n as nat) == decimal((n / 10) as nat).push(digit_char((n % 10) as nat)));
        }
    }
    assert(final(out)@ =~= old(out)@ + decimal(n as nat));
}

// ---------------------------------------------------------------- unsigned parsing

/// The value of a sequence of ASCII decimal digits.
pub open spec fn digits_value(s: Seq<char>) -> nat
    decreases s.len(),
{
    if s.len() == 0 {
        0
    } else {
        digits_value(s.drop_last()) * 10 + ((s.last() as u32) - 48) as nat
    }
}

pub open spec fn is_ascii_digit(c: char) -> bool {
    '0' <= c <= '9'
}

/// What `str::parse` gives for an unsigned integer type whose largest value
/// is `max`: an optional `+`, then at least one ASCII digit, and nothing else,
/// with a value that fits.
pub open spec fn parse_unsigned(s: Seq<char>, max: nat) -> Option<nat> {
    let digits = sign_stripped(s);
    if digits.len() > 0 && all_ascii_digits(digits) && digits_value(digits) <= max {
        Some(digits_value(digits))
    } else {
        None
    }
}

/// `s` without one leading `+`.
pub open spec fn sign_stripped(s: Seq<char>) -> Seq<char> {
    if s.len() > 0 && s[0] == '+' {
        s.drop_first()
    } else {
        s
    }
}

pub open spec fn all_ascii_digits(s: Seq<char>) -> bool {
    forall|i: int| 0 <= i < s.len() ==> is_ascii_digit(#[trigger] s[i])
}

/// Parses `s` as an unsigned decimal no greater than `max`.
pub fn parse_unsigned_str(s: &str, max: u64) -> (r: Option<u64>)
    ensures
        match r {
            Some(n) => parse_unsigned(s@, max as nat) == Some(n as nat),
            None => parse_unsigned(s@, max as nat) is None,
        },
{
    let v = char_vec(s);
    let start: usize = if v.len() > 0 && v[0] == '+' { 1 } else { 0 };
    let ghost digits = sign_stripped(s@);
    assert(digits =~= v@.skip(start as int));
    if start >= v.len() {
        return None;
    }
    let mut value: u64 = 0;
    let mut i = start;
    while i < v.len()
        invariant
            start <= i <= v@.len(),
            digits == sign_stripped(s@),
            digits =~= v@.skip(start as int),
            value <= max,
            value == digits_value(v@.subrange(start as int, i as int)),
            forall|m: int| start <= m < i ==> is_ascii_digit(#[trigger] v@[m]),
        decreases v@.len() - i,
    {
        let c = v[i];
        if !('0' <= c && c <= '9') {
            assert(digits[i - start] == c);
            assert(!is_ascii_digit(digits[i - start]));
            assert(!all_ascii_digits(digits));
            return None;
        }
        let d = (c as u32 - 48) as u64;
        assert(v@.subrange(start as int, i + 1).drop_last() =~= v@.subrange(start as int, i as int));
        let next: u128 = value as u128 * 10 + d as u128;
        assert(digits_value(v@.subrange(start as int, i + 1)) == next);
        if next > max as u128 {
            proof {
                assert(digits.take((i + 1 - start) as int) =~= v@.subrange(start as int, i + 1));
                if all_ascii_digits(digits) {
                    lemma_digits_value_prefix_monotone(digits, (i + 1 - start) as int);
                }
            }
            return None;
        }
        value = next as u64;
        i = i + 1;
    }
    assert(v@.subrange(start as int, v@.len() as int) =~= digits);
    Some(value)
}

/// Among digit strings, a prefix never has a larger value than the whole.
pub proof fn lemma_digits_value_prefix_monotone(s: Seq<char>, k: int)
    requires
        0 <= k <= s.len(),
        forall|i: int| 0 <= i < s.len() ==> is_ascii_digit(#[trigger] s[i]),
    ensures
        digits_value(s.take(k)) <= digits_value(s),
    decreases s.len() - k,
{
    if k == s.len() {
        assert(s.take(k) =~= s);
    } else {
        lemma_digits_value_prefix_monotone(s, k + 1);
        assert(s.take(k + 1).drop_last() =~= s.take(k));
        assert(is_ascii_digit(s[k]));
    }
}

} // verus!
