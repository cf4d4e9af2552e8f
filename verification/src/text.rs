use vstd::prelude::*;
use vstd::string::*;

verus! {

broadcast use vstd::string::group_string_axioms;

/// Rust's `char::is_whitespace`: the Unicode `White_Space` code points.
pub open spec fn is_whitespace_char(c: char) -> bool {
    let u = c as u32;
    ||| 0x09 <= u <= 0x0D
    ||| u == 0x20
    ||| u == 0x85
    ||| u == 0xA0
    ||| u == 0x1680
    ||| 0x2000 <= u <= 0x200A
    ||| u == 0x2028
    ||| u == 0x2029
    ||| u == 0x202F
    ||| u == 0x205F
    ||| u == 0x3000
}

/// A string whose `trim()` is empty: every character is whitespace.
pub open spec fn is_blank_chars(s: Seq<char>) -> bool {
    forall|i: int| 0 <= i < s.len() ==> is_whitespace_char(#[trigger] s[i])
}

/// ASCII lowercase of one character; other characters are unchanged.
pub open spec fn lower_char(c: char) -> char {
    if 'A' <= c && c <= 'Z' {
        ((c as u32) + 32) as char
    } else {
        c
    }
}

/// ASCII uppercase of one character; other characters are unchanged.
pub open spec fn upper_char(c: char) -> char {
    if 'a' <= c && c <= 'z' {
        ((c as u32) - 32) as char
    } else {
        c
    }
}

/// ASCII lowercase of a whole character sequence.
pub open spec fn lower_chars(s: Seq<char>) -> Seq<char> {
    Seq::new(s.len(), |i: int| lower_char(s[i]))
}

/// Equality up to ASCII case.
pub open spec fn eq_ignore_case_chars(a: Seq<char>, b: Seq<char>) -> bool {
    lower_chars(a) == lower_chars(b)
}

pub fn char_is_whitespace(c: char) -> (b: bool)
    ensures
        b == is_whitespace_char(c),
{
    let u: u32 = c as u32;
    (0x09 <= u && u <= 0x0D) || u == 0x20 || u == 0x85 || u == 0xA0 || u == 0x1680 || (0x2000
        <= u && u <= 0x200A) || u == 0x2028 || u == 0x2029 || u == 0x202F || u == 0x205F || u
        == 0x3000
}

pub fn char_to_lower(c: char) -> (r: char)
    ensures
        r == lower_char(c),
{
    if 'A' <= c && c <= 'Z' {
        let u: u32 = (c as u32) + 32;
        proof {
            assert(0x61 <= u <= 0x7a);
        }
        char_from_ascii(u)
    } else {
        c
    }
}

pub fn char_to_upper(c: char) -> (r: char)
    ensures
        r == upper_char(c),
{
    if 'a' <= c && c <= 'z' {
        let u: u32 = (c as u32) - 32;
        char_from_ascii(u)
    } else {
        c
    }
}

fn char_from_ascii(u: u32) -> (c: char)
    requires
        u < 128,
    ensures
        c == u as char,
        c as u32 == u,
{
    let b: u8 = u as u8;
    b as char
}

/// `s.trim().is_empty()`.
pub fn is_blank(s: &str) -> (b: bool)
    ensures
        b == is_blank_chars(s@),
{
    let n = s.unicode_len();
    let mut i: usize = 0;
    while i < n
        invariant
            n == s@.len(),
            i <= n,
            forall|j: int| 0 <= j < i ==> is_whitespace_char(#[trigger] s@[j]),
        decreases n - i,
    {
        if !char_is_whitespace(s.get_char(i)) {
            return false;
        }
        i = i + 1;
    }
    true
}

/// Appends one character to a string.
/// Calls `String::push`, which the standard library documents as appending the character.
#[verifier::external_body]
pub fn push_char(s: &mut String, c: char)
    ensures
        final(s)@ == old(s)@.push(c),
{
    s.push(c);
}

/// A new owned copy of a string slice.
pub fn copy_str(s: &str) -> (r: String)
    ensures
        r@ == s@,
{
    s.to_string()
}

/// Character-wise equality of two string slices.
pub fn str_eq(a: &str, b: &str) -> (r: bool)
    ensures
        r == (a@ == b@),
{
    let n = a.unicode_len();
    let m = b.unicode_len();
    if n != m {
        return false;
    }
    let mut i: usize = 0;
    while i < n
        invariant
            n == a@.len(),
            m == b@.len(),
            n == m,
            i <= n,
            forall|j: int| 0 <= j < i ==> a@[j] == b@[j],
        decreases n - i,
    {
        if a.get_char(i) != b.get_char(i) {
            return false;
        }
        i = i + 1;
    }
    assert(a@ =~= b@);
    true
}

/// `a.eq_ignore_ascii_case(b)`.
pub fn eq_ignore_ascii_case(a: &str, b: &str) -> (r: bool)
    ensures
        r == eq_ignore_case_chars(a@, b@),
{
    let n = a.unicode_len();
    let m = b.unicode_len();
    if n != m {
        assert(lower_chars(a@).len() != lower_chars(b@).len());
        return false;
    }
    let mut i: usize = 0;
    while i < n
        invariant
            n == a@.len(),
            m == b@.len(),
            n == m,
            i <= n,
            forall|j: int| 0 <= j < i ==> lower_char(a@[j]) == lower_char(b@[j]),
        decreases n - i,
    {
        if char_to_lower(a.get_char(i)) != char_to_lower(b.get_char(i)) {
            assert(lower_chars(a@)[i as int] != lower_chars(b@)[i as int]);
            return false;
        }
        i = i + 1;
    }
    assert(lower_chars(a@) =~= lower_chars(b@));
    true
}

/// `s.to_ascii_lowercase()`.
pub fn to_ascii_lowercase(s: &str) -> (r: String)
    ensures
        r@ == lower_chars(s@),
{
    let n = s.unicode_len();
    let mut out = String::new();
    let mut i: usize = 0;
    while i < n
        invariant
            n == s@.len(),
            i <= n,
            out@ == lower_chars(s@.take(i as int)),
        decreases n - i,
    {
        let c = char_to_lower(s.get_char(i));
        push_char(&mut out, c);
        assert(lower_chars(s@.take(i + 1)) =~= lower_chars(s@.take(i as int)).push(c));
        i = i + 1;
    }
    assert(s@.take(n as int) =~= s@);
    out
}

/// Whether `prefix` begins `s`.
pub open spec fn has_prefix(s: Seq<char>, prefix: Seq<char>) -> bool {
    prefix.len() <= s.len() && s.take(prefix.len() as int) == prefix
}

/// `s.strip_prefix(prefix)`, as an owned string.
pub fn strip_prefix(s: &str, prefix: &str) -> (r: Option<String>)
    ensures
        r is Some <==> has_prefix(s@, prefix@),
        r matches Some(rest) ==> rest@ == s@.skip(prefix@.len() as int),
{
    let n = s.unicode_len();
    let p = prefix.unicode_len();
    if p > n {
        return None;
    }
    let mut i: usize = 0;
    while i < p
        invariant
            n == s@.len(),
            p == prefix@.len(),
            p <= n,
            i <= p,
            forall|j: int| 0 <= j < i ==> s@[j] == prefix@[j],
        decreases p - i,
    {
        if s.get_char(i) != prefix.get_char(i) {
            assert(s@.take(p as int)[i as int] != prefix@[i as int]);
            return None;
        }
        i = i + 1;
    }
    assert(s@.take(p as int) =~= prefix@);
    let rest = s.substring_char(p, n);
    assert(rest@ =~= s@.skip(p as int));
    Some(copy_str(rest))
}

/// `a` followed by `b`, as a new string.
pub fn concat_str(a: &str, b: &str) -> (r: String)
    ensures
        r@ == a@ + b@,
{
    let mut out = copy_str(a);
    out.append(b);
    out
}


/// The character views of a sequence of strings.
pub open spec fn views(v: Seq<String>) -> Seq<Seq<char>> {
    v.map_values(|s: String| s@)
}

/// `s` without its leading whitespace.
pub open spec fn trim_start_chars(s: Seq<char>) -> Seq<char>
    decreases s.len(),
{
    if s.len() > 0 && is_whitespace_char(s[0]) {
        trim_start_chars(s.drop_first())
    } else {
        s
    }
}

/// `s` without its trailing whitespace.
pub open spec fn trim_end_chars(s: Seq<char>) -> Seq<char>
    decreases s.len(),
{
    if s.len() > 0 && is_whitespace_char(s.last()) {
        trim_end_chars(s.drop_last())
    } else {
        s
    }
}

/// `s` without leading and trailing whitespace, as `str::trim` gives it.
pub open spec fn trim_chars(s: Seq<char>) -> Seq<char> {
    trim_end_chars(trim_start_chars(s))
}

/// `s.trim()`.
pub fn trim(s: &str) -> (r: &str)
    ensures
        r@ == trim_chars(s@),
{
    let n = s.unicode_len();
    let mut i: usize = 0;
    assert(s@.skip(0) =~= s@);
    loop
        invariant
            n == s@.len(),
            i <= n,
            trim_start_chars(s@) == trim_start_chars(s@.skip(i as int)),
        ensures
            i <= n,
            trim_start_chars(s@) == s@.skip(i as int),
        decreases n - i,
    {
        if i == n {
            assert(s@.skip(i as int).len() == 0);
            break;
        }
        if !char_is_whitespace(s.get_char(i)) {
            assert(s@.skip(i as int)[0] == s@[i as int]);
            break;
        }
        assert(s@.skip(i as int).drop_first() =~= s@.skip(i + 1));
        i = i + 1;
    }
    let ghost t = s@.skip(i as int);
    let mut j: usize = n;
    assert(t.take(n - i) =~= t);
    loop
        invariant
            n == s@.len(),
            i <= j <= n,
            t == s@.skip(i as int),
            trim_end_chars(t) == trim_end_chars(t.take(j - i)),
        ensures
            i <= j <= n,
            trim_end_chars(t) == t.take(j - i),
        decreases j - i,
    {
        if j == i {
            assert(t.take(0).len() == 0);
            break;
        }
        if !char_is_whitespace(s.get_char(j - 1)) {
            assert(t.take(j - i).last() == s@[j - 1]);
            break;
        }
        assert(t.take(j - i).drop_last() =~= t.take(j - 1 - i));
        assert(t.take(j - i).last() == s@[j - 1]);
        j = j - 1;
    }
    let r = s.substring_char(i, j);
    assert(r@ =~= t.take(j - i));
    r
}

/// Index of the first `c` in `s` at or after `start`.
pub open spec fn char_index_from(s: Seq<char>, c: char, start: int) -> Option<int>
    decreases s.len() - start,
{
    if start < 0 || start >= s.len() {
        None
    } else if s[start] == c {
        Some(start)
    } else {
        char_index_from(s, c, start + 1)
    }
}

/// Index of the first `c` in `s`.
pub open spec fn char_index(s: Seq<char>, c: char) -> Option<int> {
    char_index_from(s, c, 0)
}

/// The text before the first `c`, or all of `s` when it holds none:
/// what `s.split(c).next()` gives.
pub open spec fn split_head(s: Seq<char>, c: char) -> Seq<char> {
    match char_index(s, c) {
        Some(k) => s.take(k),
        None => s,
    }
}

/// The text after the first `c`, when `s` holds one.
pub open spec fn split_tail(s: Seq<char>, c: char) -> Option<Seq<char>> {
    match char_index(s, c) {
        Some(k) => Some(s.skip(k + 1)),
        None => None,
    }
}

pub proof fn lemma_char_index_from(s: Seq<char>, c: char, start: int)
    requires
        0 <= start,
    ensures
        match char_index_from(s, c, start) {
            Some(k) => start <= k < s.len() && s[k] == c && forall|j: int| start <= j < k ==> s[j] != c,
            None => forall|j: int| start <= j < s.len() ==> s[j] != c,
        },
    decreases s.len() - start,
{
    if start < s.len() && s[start] != c {
        lemma_char_index_from(s, c, start + 1);
    }
}

/// Position of the first `c` in `s`.
pub fn find_char(s: &str, c: char) -> (r: Option<usize>)
    ensures
        match r {
            Some(k) => char_index(s@, c) == Some(k as int),
            None => char_index(s@, c) is None,
        },
{
    let n = s.unicode_len();
    let mut i: usize = 0;
    while i < n
        invariant
            n == s@.len(),
            i <= n,
            char_index_from(s@, c, i as int) == char_index(s@, c),
        decreases n - i,
    {
        if s.get_char(i) == c {
            return Some(i);
        }
        i = i + 1;
    }
    None
}

/// The part of `s` before the first `c` and, when there is one, the part after it.
pub fn split_once_char(s: &str, c: char) -> (r: (&str, Option<&str>))
    ensures
        r.0@ == split_head(s@, c),
        match r.1 {
            Some(t) => split_tail(s@, c) == Some(t@),
            None => split_tail(s@, c) is None,
        },
{
    let n = s.unicode_len();
    match find_char(s, c) {
        Some(k) => {
            proof {
                lemma_char_index_from(s@, c, 0);
            }
            let head = s.substring_char(0, k);
            let tail = s.substring_char(k + 1, n);
            assert(head@ =~= s@.take(k as int));
            assert(tail@ =~= s@.skip(k + 1));
            (head, Some(tail))
        },
        None => (s, None),
    }
}

/// Appends `value` unless an equal string is already there; says whether it did.
pub fn push_unique(target: &mut Vec<String>, value: String) -> (added: bool)
    ensures
        added == !views(old(target)@).contains(value@),
        added ==> views(final(target)@) == views(old(target)@).push(value@),
        !added ==> final(target)@ == old(target)@,
{
    let mut i: usize = 0;
    while i < target.len()
        invariant
            i <= target@.len(),
            forall|j: int| 0 <= j < i ==> #[trigger] target@[j]@ != value@,
        decreases target@.len() - i,
    {
        if str_eq(target[i].as_str(), value.as_str()) {
            assert(views(target@)[i as int] == value@);
            return false;
        }
        i = i + 1;
    }
    assert(!views(target@).contains(value@)) by {
        if views(target@).contains(value@) {
            let j = choose|j: int| 0 <= j < views(target@).len() && views(target@)[j] == value@;
            assert(target@[j]@ == value@);
        }
    }
    let ghost before = target@;
    target.push(value);
    assert(views(target@) =~= views(before).push(value@));
    true
}

/// `s` with `x` added at the end unless it is there already.
pub open spec fn insert_new(s: Seq<Seq<char>>, x: Seq<char>) -> Seq<Seq<char>> {
    if s.contains(x) {
        s
    } else {
        s.push(x)
    }
}

/// `tags` with each of `new` added in turn, skipping those already present.
pub open spec fn add_tags(tags: Seq<Seq<char>>, new: Seq<Seq<char>>) -> Seq<Seq<char>>
    decreases new.len(),
{
    if new.len() == 0 {
        tags
    } else {
        insert_new(add_tags(tags, new.drop_last()), new.last())
    }
}

/// Adding tags never repeats one: a list without repeats stays without repeats, and
/// every added tag is in it.
pub proof fn lemma_add_tags_distinct(tags: Seq<Seq<char>>, new: Seq<Seq<char>>)
    requires
        tags.no_duplicates(),
    ensures
        add_tags(tags, new).no_duplicates(),
        forall|i: int| 0 <= i < new.len() ==> add_tags(tags, new).contains(#[trigger] new[i]),
        forall|x: Seq<char>| tags.contains(x) ==> #[trigger] add_tags(tags, new).contains(x),
    decreases new.len(),
{
    if new.len() > 0 {
        lemma_add_tags_distinct(tags, new.drop_last());
        let prev = add_tags(tags, new.drop_last());
        let x = new.last();
        if !prev.contains(x) {
            assert forall|a: int, b: int| 0 <= a < prev.push(x).len() && 0 <= b < prev.push(x).len() && a != b
                implies prev.push(x)[a] != prev.push(x)[b] by {
                if a == prev.len() {
                    assert(prev.contains(prev[b]));
                } else if b == prev.len() {
                    assert(prev.contains(prev[a]));
                }
            }
            assert forall|y: Seq<char>| prev.contains(y) implies #[trigger] prev.push(x).contains(y) by {
                let j = choose|j: int| 0 <= j < prev.len() && prev[j] == y;
                assert(prev.push(x)[j] == y);
            }
            assert(prev.push(x)[prev.len() as int] == x);
        }
        assert forall|i: int| 0 <= i < new.len() implies add_tags(tags, new).contains(#[trigger] new[i]) by {
            if i < new.len() - 1 {
                assert(new.drop_last()[i] == new[i]);
                assert(prev.contains(new[i]));
            }
        }
    }
}

/// Appends a copy of `s`.
pub fn push_literal(list: &mut Vec<String>, s: &str)
    ensures
        views(final(list)@) == views(old(list)@).push(s@),
{
    let ghost before = list@;
    list.push(copy_str(s));
    assert(views(list@) =~= views(before).push(s@));
}

/// Whether `value` is one of `list`.
pub fn contains_str(list: &Vec<String>, value: &str) -> (b: bool)
    ensures
        b == views(list@).contains(value@),
{
    let mut i: usize = 0;
    while i < list.len()
        invariant
            i <= list@.len(),
            forall|j: int| 0 <= j < i ==> #[trigger] list@[j]@ != value@,
        decreases list@.len() - i,
    {
        if str_eq(list[i].as_str(), value) {
            assert(views(list@)[i as int] == value@);
            return true;
        }
        i = i + 1;
    }
    assert(!views(list@).contains(value@)) by {
        if views(list@).contains(value@) {
            let j = choose|j: int| 0 <= j < views(list@).len() && views(list@)[j] == value@;
            assert(list@[j]@ == value@);
        }
    }
    false
}

/// Appends copies of all of `src`.
pub fn extend_copies(dst: &mut Vec<String>, src: &Vec<String>)
    ensures
        views(final(dst)@) == views(old(dst)@) + views(src@),
{
    let ghost start = views(dst@);
    let mut i: usize = 0;
    while i < src.len()
        invariant
            i <= src@.len(),
            views(dst@) == start + views(src@).take(i as int),
        decreases src@.len() - i,
    {
        push_literal(dst, src[i].as_str());
        assert(views(src@).take(i + 1) =~= views(src@).take(i as int).push(src@[i as int]@));
        i = i + 1;
    }
    assert(views(src@).take(src@.len() as int) =~= views(src@));
}

/// The view of an optional string.
pub open spec fn opt_view(s: Option<String>) -> Option<Seq<char>> {
    match s {
        Some(v) => Some(v@),
        None => None,
    }
}

/// The decimal digit for `d` in `0..10`.
pub open spec fn digit(d: int) -> char {
    ('0' as int + d) as char
}

pub fn digit_char(d: u64) -> (c: char)
    requires
        d < 10,
    ensures
        c == digit(d as int),
{
    let b: u8 = 48u8 + d as u8;
    b as char
}

/// The decimal digits of a non-negative number.
pub open spec fn decimal(v: int) -> Seq<char>
    decreases v,
{
    if v < 10 {
        seq![digit(v)]
    } else {
        decimal(v / 10).push(digit(v % 10))
    }
}

/// A number in decimal.
pub fn decimal_text(v: u64) -> (s: String)
    ensures
        s@ == decimal(v as int),
    decreases v,
{
    if v < 10 {
        let mut s = String::new();
        push_char(&mut s, digit_char(v));
        assert(s@ =~= seq![digit(v as int)]);
        s
    } else {
        let mut s = decimal_text(v / 10);
        push_char(&mut s, digit_char(v % 10));
        s
    }
}


/// The words finished so far and the word being read, after scanning `s` left to
/// right and breaking at whitespace.
pub open spec fn word_scan(s: Seq<char>) -> (Seq<Seq<char>>, Seq<char>)
    decreases s.len(),
{
    if s.len() == 0 {
        (Seq::empty(), Seq::empty())
    } else {
        let (done, cur) = word_scan(s.drop_last());
        let c = s.last();
        if is_whitespace_char(c) {
            if cur.len() > 0 {
                (done.push(cur), Seq::empty())
            } else {
                (done, cur)
            }
        } else {
            (done, cur.push(c))
        }
    }
}

/// The maximal runs of non-whitespace characters of `s`, in order, as
/// `str::split_whitespace` yields them.
pub open spec fn words_of(s: Seq<char>) -> Seq<Seq<char>> {
    let (done, cur) = word_scan(s);
    if cur.len() > 0 {
        done.push(cur)
    } else {
        done
    }
}

/// `s.split_whitespace()`, collected.
pub fn split_whitespace(s: &str) -> (r: Vec<String>)
    ensures
        views(r@) == words_of(s@),
{
    let n = s.unicode_len();
    let mut out: Vec<String> = Vec::new();
    let mut start: usize = 0;
    let mut i: usize = 0;
    assert(s@.take(0) =~= Seq::<char>::empty());
    while i < n
        invariant
            n == s@.len(),
            start <= i <= n,
            views(out@) == word_scan(s@.take(i as int)).0,
            word_scan(s@.take(i as int)).1 == s@.subrange(start as int, i as int),
        decreases n - i,
    {
        let c = s.get_char(i);
        let ghost pre = s@.take(i as int);
        assert(s@.take(i + 1).drop_last() =~= pre);
        assert(s@.take(i + 1).last() == c);
        if char_is_whitespace(c) {
            if start < i {
                let w = s.substring_char(start, i);
                let ghost before = out@;
                out.push(copy_str(w));
                assert(views(out@) =~= views(before).push(w@));
            }
            start = i + 1;
            assert(s@.subrange(start as int, i + 1) =~= Seq::<char>::empty());
        } else {
            assert(s@.subrange(start as int, i + 1) =~= s@.subrange(start as int, i as int).push(c));
        }
        i = i + 1;
    }
    assert(s@.take(n as int) =~= s@);
    if start < n {
        let w = s.substring_char(start, n);
        let ghost before = out@;
        out.push(copy_str(w));
        assert(views(out@) =~= views(before).push(w@));
    }
    out
}

/// An ASCII decimal digit.
pub open spec fn is_digit_char(c: char) -> bool {
    '0' <= c && c <= '9'
}

/// A non-empty run of decimal digits.
pub open spec fn all_digit_chars(s: Seq<char>) -> bool {
    s.len() > 0 && forall|i: int| 0 <= i < s.len() ==> is_digit_char(#[trigger] s[i])
}

/// The number that a run of decimal digits denotes.
pub open spec fn digits_value(s: Seq<char>) -> nat
    decreases s.len(),
{
    if s.len() == 0 {
        0
    } else {
        digits_value(s.drop_last()) * 10 + ((s.last() as int) - ('0' as int)) as nat
    }
}

/// The integer a string denotes in Rust's signed integer syntax: an optional `+` or
/// `-`, then one or more decimal digits and nothing else.
pub open spec fn signed_value(s: Seq<char>) -> Option<int> {
    if s.len() > 0 && s[0] == '-' {
        if all_digit_chars(s.skip(1)) { Some(-digits_value(s.skip(1))) } else { None }
    } else if s.len() > 0 && s[0] == '+' {
        if all_digit_chars(s.skip(1)) { Some(digits_value(s.skip(1)) as int) } else { None }
    } else {
        if all_digit_chars(s) { Some(digits_value(s) as int) } else { None }
    }
}

/// What `s.parse::<i32>()` gives: the value when it is in range, else an error.
pub open spec fn parsed_i32(s: Seq<char>) -> Option<i32> {
    match signed_value(s) {
        Some(v) => if i32::MIN <= v <= i32::MAX { Some(v as i32) } else { None },
        None => None,
    }
}

/// What `s.parse::<i64>()` gives: the value when it is in range, else an error.
pub open spec fn parsed_i64(s: Seq<char>) -> Option<i64> {
    match signed_value(s) {
        Some(v) => if i64::MIN <= v <= i64::MAX { Some(v as i64) } else { None },
        None => None,
    }
}

/// The digits of `s` from `start` on, as a number, if they are all digits, there is
/// at least one, and the number is at most `limit`.
fn digits_up_to(s: &str, start: usize, limit: u64) -> (r: Option<u64>)
    requires
        start <= s@.len(),
        limit <= 0x8000_0000_0000_0000,
    ensures
        match r {
            Some(v) => all_digit_chars(s@.skip(start as int)) && v == digits_value(s@.skip(start as int))
                && v <= limit,
            None => !all_digit_chars(s@.skip(start as int)) || digits_value(s@.skip(start as int)) > limit,
        },
{
    let n = s.unicode_len();
    if start == n {
        return None;
    }
    let ghost d = s@.skip(start as int);
    let mut value: u64 = 0;
    let mut big = false;
    let mut i: usize = start;
    assert(d.take(0) =~= Seq::<char>::empty());
    while i < n
        invariant
            n == s@.len(),
            start < n,
            start <= i <= n,
            d == s@.skip(start as int),
            limit <= 0x8000_0000_0000_0000,
            forall|j: int| 0 <= j < i - start ==> is_digit_char(#[trigger] d[j]),
            !big ==> value == digits_value(d.take(i - start)) && value <= limit,
            big ==> digits_value(d.take(i - start)) > limit,
        decreases n - i,
    {
        let c = s.get_char(i);
        assert(d[i - start] == c);
        if !('0' <= c && c <= '9') {
            return None;
        }
        let ghost pre = d.take(i - start);
        assert(d.take(i - start + 1).drop_last() =~= pre);
        let digit_value: u64 = (c as u32 - '0' as u32) as u64;
        assert(digits_value(d.take(i - start + 1)) == digits_value(pre) * 10 + digit_value);
        if !big {
            let next: u128 = value as u128 * 10 + digit_value as u128;
            if next > limit as u128 {
                big = true;
            } else {
                value = next as u64;
            }
        }
        i = i + 1;
    }
    assert(d.take(n - start) =~= d);
    if big {
        None
    } else {
        Some(value)
    }
}

/// `s.parse::<i32>().ok()`.
pub fn parse_i32(s: &str) -> (r: Option<i32>)
    ensures
        r == parsed_i32(s@),
{
    let n = s.unicode_len();
    if n > 0 && s.get_char(0) == '-' {
        match digits_up_to(s, 1, 0x8000_0000) {
            Some(v) => Some((0 - v as i64) as i32),
            None => None,
        }
    } else if n > 0 && s.get_char(0) == '+' {
        match digits_up_to(s, 1, 0x7fff_ffff) {
            Some(v) => Some(v as i32),
            None => None,
        }
    } else {
        assert(s@.skip(0) =~= s@);
        match digits_up_to(s, 0, 0x7fff_ffff) {
            Some(v) => Some(v as i32),
            None => None,
        }
    }
}

/// `s.parse::<i64>().ok()`.
pub fn parse_i64(s: &str) -> (r: Option<i64>)
    ensures
        r == parsed_i64(s@),
{
    let n = s.unicode_len();
    if n > 0 && s.get_char(0) == '-' {
        match digits_up_to(s, 1, 0x8000_0000_0000_0000) {
            Some(v) => Some((0 - v as i128) as i64),
            None => None,
        }
    } else if n > 0 && s.get_char(0) == '+' {
        match digits_up_to(s, 1, 0x7fff_ffff_ffff_ffff) {
            Some(v) => Some(v as i64),
            None => None,
        }
    } else {
        assert(s@.skip(0) =~= s@);
        match digits_up_to(s, 0, 0x7fff_ffff_ffff_ffff) {
            Some(v) => Some(v as i64),
            None => None,
        }
    }
}


/// The pieces of `s` between occurrences of `c`, as `str::split` with a character
/// yields them: always at least one piece, empty pieces kept.
pub open spec fn split_pieces(s: Seq<char>, c: char) -> Seq<Seq<char>>
    decreases s.len(),
{
    if s.len() == 0 {
        seq![Seq::empty()]
    } else {
        let prev = split_pieces(s.drop_last(), c);
        if s.last() == c {
            prev.push(Seq::empty())
        } else {
            prev.update(prev.len() - 1, prev.last().push(s.last()))
        }
    }
}

proof fn lemma_split_pieces_nonempty(s: Seq<char>, c: char)
    ensures
        split_pieces(s, c).len() >= 1,
    decreases s.len(),
{
    if s.len() > 0 {
        lemma_split_pieces_nonempty(s.drop_last(), c);
    }
}

/// `s.split(c)`, collected.
pub fn split_char(s: &str, c: char) -> (r: Vec<String>)
    ensures
        views(r@) == split_pieces(s@, c),
        r@.len() >= 1,
{
    let n = s.unicode_len();
    let mut out: Vec<String> = Vec::new();
    let mut start: usize = 0;
    let mut i: usize = 0;
    assert(s@.take(0) =~= Seq::<char>::empty());
    while i < n
        invariant
            n == s@.len(),
            start <= i <= n,
            split_pieces(s@.take(i as int), c).len() >= 1,
            views(out@) == split_pieces(s@.take(i as int), c).drop_last(),
            split_pieces(s@.take(i as int), c).last() == s@.subrange(start as int, i as int),
        decreases n - i,
    {
        let ch = s.get_char(i);
        let ghost pre = s@.take(i as int);
        assert(s@.take(i + 1).drop_last() =~= pre);
        assert(s@.take(i + 1).last() == ch);
        proof {
            lemma_split_pieces_nonempty(pre, c);
        }
        if ch == c {
            let w = s.substring_char(start, i);
            let ghost before = out@;
            out.push(copy_str(w));
            assert(views(out@) =~= views(before).push(w@));
            assert(views(out@) =~= split_pieces(s@.take(i + 1), c).drop_last());
            start = i + 1;
            assert(s@.subrange(start as int, i + 1) =~= Seq::<char>::empty());
        } else {
            assert(s@.subrange(start as int, i + 1) =~= s@.subrange(start as int, i as int).push(ch));
            assert(split_pieces(s@.take(i + 1), c).drop_last() =~= split_pieces(pre, c).drop_last());
        }
        i = i + 1;
    }
    assert(s@.take(n as int) =~= s@);
    let w = s.substring_char(start, n);
    let ghost before = out@;
    out.push(copy_str(w));
    assert(views(out@) =~= views(before).push(w@));
    assert(views(out@) =~= split_pieces(s@, c));
    out
}

/// A number as `{}` formats it: a minus sign only when negative.
pub open spec fn plain_decimal(v: int) -> Seq<char> {
    if v >= 0 {
        decimal(v)
    } else {
        seq!['-'] + decimal(-v)
    }
}

pub fn plain_decimal_text(v: i64) -> (s: String)
    ensures
        s@ == plain_decimal(v as int),
{
    if v >= 0 {
        decimal_text(v as u64)
    } else {
        let mut s = String::new();
        push_char(&mut s, '-');
        let magnitude: u64 = if v == i64::MIN { 0x8000_0000_0000_0000u64 } else { (0 - v) as u64 };
        let digits = decimal_text(magnitude);
        s.append(digits.as_str());
        s
    }
}

/// A number with its sign always shown, as `{:+}` formats it.
pub open spec fn signed_decimal(v: int) -> Seq<char> {
    if v >= 0 {
        seq!['+'] + decimal(v)
    } else {
        seq!['-'] + decimal(-v)
    }
}

pub fn signed_decimal_text(v: i64) -> (s: String)
    ensures
        s@ == signed_decimal(v as int),
{
    let mut s = String::new();
    if v >= 0 {
        push_char(&mut s, '+');
        let digits = decimal_text(v as u64);
        s.append(digits.as_str());
    } else {
        push_char(&mut s, '-');
        let magnitude: u64 = if v == i64::MIN { 0x8000_0000_0000_0000u64 } else { (0 - v) as u64 };
        let digits = decimal_text(magnitude);
        s.append(digits.as_str());
    }
    s
}


pub fn concat3(a: &str, b: &str, c: &str) -> (r: String)
    ensures
        r@ == a@ + b@ + c@,
{
    let mut out = copy_str(a);
    out.append(b);
    out.append(c);
    out
}

pub fn concat4(a: &str, b: &str, c: &str, d: &str) -> (r: String)
    ensures
        r@ == a@ + b@ + c@ + d@,
{
    let mut out = copy_str(a);
    out.append(b);
    out.append(c);
    out.append(d);
    out
}

} // verus!
