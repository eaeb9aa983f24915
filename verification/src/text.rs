//! Text helpers: strings seen as sequences of characters.

use vstd::prelude::*;
use vstd::string::*;

verus! {

/// `String::push` of std appends one character.
pub assume_specification[ String::push ](s: &mut String, c: char)
    ensures
        final(s)@ == old(s)@.push(c),
;

/// `==` on string slices of std compares them character by character.
pub assume_specification[ <str as PartialEq>::eq ](a: &str, b: &str) -> (r: bool)
    ensures
        r == (a@ == b@),
;

/// Whether two string slices hold the same characters.
pub fn str_eq(a: &str, b: &str) -> (r: bool)
    ensures
        r == (a@ == b@),
{
    <str as PartialEq>::eq(a, b)
}

/// The characters of `s`, in order.
pub fn to_chars(s: &str) -> (v: Vec<char>)
    ensures
        v@ == s@,
{
    let mut v: Vec<char> = Vec::new();
    for c in it: s.chars()
        invariant
            v@ == it.seq().take(it.index() as int),
            it.seq() == s@,
    {
        v.push(c);
    }
    v
}

/// The string made of the characters `v[from..to]`.
pub fn from_chars(v: &Vec<char>, from: usize, to: usize) -> (s: String)
    requires
        from <= to <= v.len(),
    ensures
        s@ == v@.subrange(from as int, to as int),
{
    let mut s = String::new();
    let mut i: usize = from;
    while i < to
        invariant
            from <= i <= to <= v.len(),
            s@ == v@.subrange(from as int, i as int),
        decreases to - i,
    {
        s.push(v[i]);
        i += 1;
        assert(v@.subrange(from as int, i as int) == v@.subrange(from as int, i - 1).push(
            v@[i - 1],
        ));
    }
    s
}

/// The string made of all the characters of `v`.
pub fn string_of(v: &Vec<char>) -> (s: String)
    ensures
        s@ == v@,
{
    let s = from_chars(v, 0, v.len());
    assert(v@.subrange(0, v@.len() as int) == v@);
    s
}

/// `a` followed by `b`.
pub fn concat(a: &str, b: &str) -> (s: String)
    ensures
        s@ == a@ + b@,
{
    let mut s = a.to_owned();
    s.append(b);
    s
}

/// `a`, then `b`, then `c`.
pub fn concat3(a: &str, b: &str, c: &str) -> (s: String)
    ensures
        s@ == a@ + b@ + c@,
{
    let mut s = a.to_owned();
    s.append(b);
    s.append(c);
    s
}

/// A copy of an optional string.
pub fn clone_opt_string(s: &Option<String>) -> (r: Option<String>)
    ensures
        r.deep_view() == s.deep_view(),
        r == *s,
{
    match s {
        Some(x) => Some(x.clone()),
        None => None,
    }
}

/// A copy of a list of strings.
pub fn clone_strings(v: &Vec<String>) -> (r: Vec<String>)
    ensures
        r.deep_view() == v.deep_view(),
{
    let mut r: Vec<String> = Vec::new();
    let mut i: usize = 0;
    while i < v.len()
        invariant
            i <= v.len(),
            r.len() == i,
            forall|k: int| 0 <= k < i ==> r@[k]@ == v@[k]@,
        decreases v.len() - i,
    {
        r.push(v[i].clone());
        i += 1;
    }
    assert(r.deep_view() =~= v.deep_view());
    r
}

/// Whether `v` holds a string equal to `s`.
pub fn contains_str(v: &Vec<String>, s: &str) -> (r: bool)
    ensures
        r == v.deep_view().contains(s@),
{
    let mut i: usize = 0;
    while i < v.len()
        invariant
            i <= v.len(),
            forall|k: int| 0 <= k < i ==> v@[k]@ != s@,
        decreases v.len() - i,
    {
        if str_eq(v[i].as_str(), s) {
            assert(v.deep_view()[i as int] == s@);
            return true;
        }
        i += 1;
    }
    assert(!v.deep_view().contains(s@)) by {
        if v.deep_view().contains(s@) {
            let k = choose|k: int| 0 <= k < v.deep_view().len() && v.deep_view()[k] == s@;
            assert(v@[k]@ == s@);
        }
    }
    false
}

/// What `str::to_lowercase` of std makes of a text.
pub uninterp spec fn unicode_lowercase(text: Seq<char>) -> Seq<char>;

/// The text in lower case, by `str::to_lowercase` of std, whose result
/// `unicode_lowercase` names.
#[verifier::external_body]
pub(crate) fn lowercase(text: &str) -> (lower: String)
    ensures
        lower@ == unicode_lowercase(text@),
{
    text.to_lowercase()
}

/// Whether `p` stands in `s` at the position `at`.
pub open spec fn spec_starts_at(s: Seq<char>, at: int, p: Seq<char>) -> bool {
    0 <= at && at + p.len() <= s.len() && s.subrange(at, at + p.len()) == p
}

/// Whether `p` stands somewhere in `s`.
pub open spec fn spec_contains_seq(s: Seq<char>, p: Seq<char>) -> bool {
    exists|i: int| spec_starts_at(s, i, p)
}

/// Whether `p` stands at a position of `s` from `from` on, before `to`.
pub open spec fn occurs_between(s: Seq<char>, from: int, to: int, p: Seq<char>) -> bool {
    exists|i: int| from <= i < to && spec_starts_at(s, i, p)
}

/// The first position of `s`, from `from` on, at which `p` stands.
pub open spec fn spec_find(s: Seq<char>, from: int, p: Seq<char>) -> Option<int> {
    if occurs_between(s, from, s.len() as int + 1, p) {
        Some(
            choose|i: int|
                from <= i && spec_starts_at(s, i, p) && !occurs_between(s, from, i, p),
        )
    } else {
        None
    }
}

/// A position at which `p` stands, with none before it, is the first.
pub proof fn lemma_find_is(s: Seq<char>, from: int, p: Seq<char>, i: int)
    requires
        from <= i,
        spec_starts_at(s, i, p),
        !occurs_between(s, from, i, p),
    ensures
        spec_find(s, from, p) == Some(i),
{
    assert(occurs_between(s, from, s.len() as int + 1, p));
    let c = choose|c: int| from <= c && spec_starts_at(s, c, p) && !occurs_between(s, from, c, p);
    if c < i {
        assert(occurs_between(s, from, i, p));
    } else if c > i {
        assert(occurs_between(s, from, c, p));
    }
}

/// Whether `p` stands in `v` at the position `at`.
pub fn starts_with(v: &Vec<char>, at: usize, p: &Vec<char>) -> (r: bool)
    ensures
        r == spec_starts_at(v@, at as int, p@),
{
    if at > v.len() || p.len() > v.len() - at {
        return false;
    }
    let mut k: usize = 0;
    while k < p.len()
        invariant
            k <= p.len(),
            at + p.len() <= v.len(),
            forall|j: int| 0 <= j < k ==> v@[at + j] == p@[j],
        decreases p.len() - k,
    {
        if v[at + k] != p[k] {
            assert(v@.subrange(at as int, at + p.len())[k as int] != p@[k as int]);
            return false;
        }
        k += 1;
    }
    assert(v@.subrange(at as int, at + p.len()) =~= p@);
    true
}

/// The first position of `v`, from `from` on, at which `p` stands.
pub fn find(v: &Vec<char>, from: usize, p: &Vec<char>) -> (r: Option<usize>)
    ensures
        spec_find(v@, from as int, p@) == (match r {
            Some(i) => Some(i as int),
            None => None,
        }),
        match r {
            Some(i) => from <= i && spec_starts_at(v@, i as int, p@) && !occurs_between(
                v@,
                from as int,
                i as int,
                p@,
            ),
            None => !occurs_between(v@, from as int, v@.len() as int + 1, p@),
        },
{
    let mut i: usize = from;
    while i <= v.len()
        invariant
            from <= i,
            !occurs_between(v@, from as int, i as int, p@),
        decreases v.len() + 1 - i,
    {
        if starts_with(v, i, p) {
            proof {
                lemma_find_is(v@, from as int, p@, i as int);
            }
            return Some(i);
        }
        if i == v.len() {
            assert(!occurs_between(v@, from as int, v@.len() as int + 1, p@)) by {
                if occurs_between(v@, from as int, v@.len() as int + 1, p@) {
                    let j = choose|j: int|
                        from <= j < v@.len() as int + 1 && spec_starts_at(v@, j, p@);
                    assert(occurs_between(v@, from as int, i as int, p@));
                }
            }
            return None;
        }
        i += 1;
    }
    assert(!occurs_between(v@, from as int, v@.len() as int + 1, p@)) by {
        if occurs_between(v@, from as int, v@.len() as int + 1, p@) {
            let j = choose|j: int| from <= j < v@.len() as int + 1 && spec_starts_at(v@, j, p@);
            assert(occurs_between(v@, from as int, i as int, p@));
        }
    }
    None
}

/// Whether `p` stands somewhere in `v`.
pub fn contains_seq(v: &Vec<char>, p: &Vec<char>) -> (r: bool)
    ensures
        r == spec_contains_seq(v@, p@),
{
    match find(v, 0, p) {
        Some(i) => true,
        None => {
            assert(!spec_contains_seq(v@, p@)) by {
                if spec_contains_seq(v@, p@) {
                    let j = choose|j: int| spec_starts_at(v@, j, p@);
                    assert(occurs_between(v@, 0, v@.len() as int + 1, p@));
                }
            }
            false
        },
    }
}

/// `s` without the run of `c` that it ends in.
pub open spec fn without_trailing(s: Seq<char>, c: char) -> Seq<char>
    decreases s.len(),
{
    if s.len() > 0 && s.last() == c {
        without_trailing(s.drop_last(), c)
    } else {
        s
    }
}

/// `s` without the run of `c` that it ends in.
pub fn trim_end_char(s: &str, c: char) -> (r: String)
    ensures
        r@ == without_trailing(s@, c),
{
    let chars = to_chars(s);
    let mut end: usize = chars.len();
    assert(chars@.subrange(0, end as int) == chars@);
    while end > 0 && chars[end - 1] == c
        invariant
            end <= chars.len(),
            without_trailing(chars@, c) == without_trailing(chars@.subrange(0, end as int), c),
        decreases end,
    {
        assert(chars@.subrange(0, end as int).drop_last() == chars@.subrange(0, end - 1));
        end -= 1;
    }
    assert(chars@.subrange(0, chars@.len() as int) == chars@);
    from_chars(&chars, 0, end)
}

/// Where the first line feed of `s` stands, or the length of `s` where it
/// has none.
pub open spec fn first_newline(s: Seq<char>) -> int
    decreases s.len(),
{
    if s.len() == 0 {
        0
    } else if s[0] == '\n' {
        0
    } else {
        1 + first_newline(s.drop_first())
    }
}

/// A line without the carriage return that it ends in, if it does.
pub open spec fn strip_cr(line: Seq<char>) -> Seq<char> {
    if line.len() > 0 && line.last() == '\r' {
        line.drop_last()
    } else {
        line
    }
}

/// The lines of a text: it is cut at every line feed, and a line that ends
/// there loses the carriage return before the line feed. What follows the
/// last line feed is a line only if it is not empty.
pub open spec fn spec_lines(s: Seq<char>) -> Seq<Seq<char>>
    decreases s.len(),
{
    if s.len() == 0 {
        Seq::empty()
    } else {
        let n = first_newline(s);
        if 0 <= n < s.len() {
            seq![strip_cr(s.subrange(0, n))] + spec_lines(s.subrange(n + 1, s.len() as int))
        } else {
            seq![s]
        }
    }
}

/// The first line feed of `s` stands within `s`, on a line feed, and no
/// line feed stands before it.
pub proof fn lemma_first_newline(s: Seq<char>)
    ensures
        0 <= first_newline(s) <= s.len(),
        first_newline(s) < s.len() ==> s[first_newline(s)] == '\n',
        forall|i: int| 0 <= i < first_newline(s) ==> s[i] != '\n',
    decreases s.len(),
{
    if s.len() > 0 && s[0] != '\n' {
        lemma_first_newline(s.drop_first());
        assert forall|i: int| 0 <= i < first_newline(s) implies s[i] != '\n' by {
            if i > 0 {
                assert(s.drop_first()[i - 1] == s[i]);
            }
        }
    }
}

/// A position that holds the first line feed is the first line feed.
pub proof fn lemma_first_newline_is(s: Seq<char>, n: int)
    requires
        0 <= n <= s.len(),
        forall|i: int| 0 <= i < n ==> s[i] != '\n',
        n < s.len() ==> s[n] == '\n',
    ensures
        first_newline(s) == n,
{
    lemma_first_newline(s);
    let f = first_newline(s);
    if f < n {
        assert(s[f] != '\n');
    }
}

/// The lines of two texts in a row are the lines of the first and then
/// those of the second, if the first is empty or ends its last line.
pub proof fn lemma_lines_concat(a: Seq<char>, b: Seq<char>)
    requires
        a.len() == 0 || a.last() == '\n',
    ensures
        spec_lines(a + b) == spec_lines(a) + spec_lines(b),
    decreases a.len(),
{
    if a.len() == 0 {
        assert(a + b =~= b);
        assert(spec_lines(a) + spec_lines(b) =~= spec_lines(b));
    } else {
        lemma_first_newline(a);
        let n = first_newline(a);
        assert(n < a.len()) by {
            if n == a.len() {
                assert(a[a.len() - 1] != '\n');
            }
        }
        let ab = a + b;
        assert forall|i: int| 0 <= i < n implies ab[i] != '\n' by {
            assert(ab[i] == a[i]);
        }
        assert(ab[n] == a[n]);
        lemma_first_newline_is(ab, n);
        let rest_a = a.subrange(n + 1, a.len() as int);
        assert(ab.subrange(0, n) =~= a.subrange(0, n));
        assert(ab.subrange(n + 1, ab.len() as int) =~= rest_a + b);
        if rest_a.len() > 0 {
            assert(rest_a.last() == a.last());
        }
        lemma_lines_concat(rest_a, b);
        assert(spec_lines(ab) =~= spec_lines(a) + spec_lines(b));
    }
}

/// The lines of a text that is one line, ended by a line feed, with no
/// carriage return before it.
pub proof fn lemma_lines_of_line(line: Seq<char>)
    requires
        forall|i: int| 0 <= i < line.len() ==> line[i] != '\n',
        line.len() == 0 || line.last() != '\r',
    ensures
        spec_lines(line.push('\n')) == seq![line],
{
    let s = line.push('\n');
    lemma_first_newline_is(s, line.len() as int);
    assert(s.subrange(0, line.len() as int) =~= line);
    let rest = s.subrange(line.len() as int + 1, s.len() as int);
    assert(rest =~= Seq::<char>::empty());
    assert(spec_lines(rest) =~= Seq::<Seq<char>>::empty());
    assert(strip_cr(line) == line);
    assert(spec_lines(s) =~= seq![line]);
}

/// The lines of a text.
pub fn lines(text: &Vec<char>) -> (r: Vec<Vec<char>>)
    ensures
        r.deep_view() == spec_lines(text@),
{
    let mut r: Vec<Vec<char>> = Vec::new();
    let mut start: usize = 0;
    let mut i: usize = 0;
    let ghost s = text@;
    assert(s.subrange(0, s.len() as int) =~= s);
    assert(r.deep_view() =~= Seq::<Seq<char>>::empty());
    assert(r.deep_view() + spec_lines(s.subrange(0, s.len() as int)) =~= spec_lines(s));
    while i < text.len()
        invariant
            start <= i <= text.len(),
            s == text@,
            r.deep_view() + spec_lines(s.subrange(start as int, s.len() as int)) == spec_lines(s),
            forall|k: int| start <= k < i ==> s[k] != '\n',
        decreases text.len() - i,
    {
        if text[i] == '\n' {
            let ghost rest = s.subrange(start as int, s.len() as int);
            proof {
                assert forall|k: int| 0 <= k < i - start implies rest[k] != '\n' by {
                    assert(rest[k] == s[start + k]);
                }
                assert(rest[i - start] == s[i as int]);
                lemma_first_newline_is(rest, i - start);
                assert(rest.subrange(0, i - start) =~= s.subrange(start as int, i as int));
                assert(rest.subrange(i - start + 1, rest.len() as int) =~= s.subrange(
                    i + 1,
                    s.len() as int,
                ));
            }
            let mut end: usize = i;
            if end > start && text[end - 1] == '\r' {
                end -= 1;
            }
            let mut line: Vec<char> = Vec::new();
            let mut k: usize = start;
            while k < end
                invariant
                    start <= k <= end <= text.len(),
                    line@ == text@.subrange(start as int, k as int),
                decreases end - k,
            {
                line.push(text[k]);
                k += 1;
                assert(text@.subrange(start as int, k as int) =~= text@.subrange(
                    start as int,
                    k - 1,
                ).push(text@[k - 1]));
            }
            proof {
                let whole = s.subrange(start as int, i as int);
                assert(line@ =~= strip_cr(whole)) by {
                    if end < i {
                        assert(whole.last() == s[i - 1]);
                        assert(whole.drop_last() =~= s.subrange(start as int, end as int));
                    } else if whole.len() > 0 {
                        assert(whole.last() == s[i - 1]);
                    }
                }
            }
            let ghost before = r.deep_view();
            assert(line.deep_view() =~= line@);
            r.push(line);
            assert(r.deep_view() =~= before.push(line@));
            assert(r.deep_view() + spec_lines(s.subrange(i + 1, s.len() as int)) =~= before
                + spec_lines(rest));
            start = i + 1;
        }
        i += 1;
    }
    if start < text.len() {
        let ghost rest = s.subrange(start as int, s.len() as int);
        proof {
            assert forall|k: int| 0 <= k < rest.len() implies rest[k] != '\n' by {
                assert(rest[k] == s[start + k]);
            }
            lemma_first_newline_is(rest, rest.len() as int);
        }
        let mut line: Vec<char> = Vec::new();
        let mut k: usize = start;
        while k < text.len()
            invariant
                start <= k <= text.len(),
                line@ == text@.subrange(start as int, k as int),
            decreases text.len() - k,
        {
            line.push(text[k]);
            k += 1;
            assert(text@.subrange(start as int, k as int) =~= text@.subrange(
                start as int,
                k - 1,
            ).push(text@[k - 1]));
        }
        let ghost before = r.deep_view();
        assert(line.deep_view() =~= line@);
        assert(line@ =~= rest);
        r.push(line);
        assert(r.deep_view() =~= before.push(rest));
        assert(r.deep_view() =~= before + spec_lines(rest));
    } else {
        assert(s.subrange(start as int, s.len() as int) =~= Seq::<char>::empty());
        assert(r.deep_view() + Seq::<Seq<char>>::empty() =~= r.deep_view());
    }
    r
}

/// Whether std's `char::is_whitespace` takes `c` for white space.
pub uninterp spec fn unicode_whitespace(c: char) -> bool;

/// `char::is_whitespace` of std says whether a character has the Unicode
/// property `White_Space`; `unicode_whitespace` names its answer.
pub assume_specification[ char::is_whitespace ](c: char) -> (r: bool)
    ensures
        r == unicode_whitespace(c),
;

/// How many characters of white space `s` begins with.
pub open spec fn leading_space(s: Seq<char>) -> int
    decreases s.len(),
{
    if s.len() > 0 && unicode_whitespace(s[0]) {
        1 + leading_space(s.drop_first())
    } else {
        0
    }
}

/// How many characters of white space `s` ends in.
pub open spec fn trailing_space(s: Seq<char>) -> int
    decreases s.len(),
{
    if s.len() > 0 && unicode_whitespace(s.last()) {
        1 + trailing_space(s.drop_last())
    } else {
        0
    }
}

/// `s` without the white space that it begins with and ends in.
pub open spec fn spec_trim(s: Seq<char>) -> Seq<char> {
    let from = leading_space(s);
    if from == s.len() {
        Seq::empty()
    } else {
        s.subrange(from, s.len() - trailing_space(s))
    }
}

proof fn lemma_leading_space(s: Seq<char>)
    ensures
        0 <= leading_space(s) <= s.len(),
        forall|i: int| 0 <= i < leading_space(s) ==> unicode_whitespace(s[i]),
        leading_space(s) < s.len() ==> !unicode_whitespace(s[leading_space(s)]),
    decreases s.len(),
{
    if s.len() > 0 && unicode_whitespace(s[0]) {
        lemma_leading_space(s.drop_first());
        assert forall|i: int| 0 <= i < leading_space(s) implies unicode_whitespace(s[i]) by {
            if i > 0 {
                assert(s.drop_first()[i - 1] == s[i]);
            }
        }
    }
}

/// A count of leading white space that ends on the first other character,
/// or at the end, is the count.
pub proof fn lemma_leading_space_is(s: Seq<char>, n: int)
    requires
        0 <= n <= s.len(),
        forall|i: int| 0 <= i < n ==> unicode_whitespace(s[i]),
        n < s.len() ==> !unicode_whitespace(s[n]),
    ensures
        leading_space(s) == n,
{
    lemma_leading_space(s);
}

proof fn lemma_trailing_space(s: Seq<char>)
    ensures
        0 <= trailing_space(s) <= s.len(),
        forall|i: int| s.len() - trailing_space(s) <= i < s.len() ==> unicode_whitespace(s[i]),
        trailing_space(s) < s.len() ==> !unicode_whitespace(s[s.len() - trailing_space(s) - 1]),
    decreases s.len(),
{
    if s.len() > 0 && unicode_whitespace(s.last()) {
        lemma_trailing_space(s.drop_last());
        let t = s.drop_last();
        assert forall|i: int| s.len() - trailing_space(s) <= i < s.len() implies unicode_whitespace(
            s[i],
        ) by {
            if i < s.len() - 1 {
                assert(t[i] == s[i]);
            }
        }
        if trailing_space(s) < s.len() {
            assert(t[t.len() - trailing_space(t) - 1] == s[s.len() - trailing_space(s) - 1]);
        }
    }
}

proof fn lemma_trailing_space_is(s: Seq<char>, n: int)
    requires
        0 <= n <= s.len(),
        forall|i: int| s.len() - n <= i < s.len() ==> unicode_whitespace(s[i]),
        n < s.len() ==> !unicode_whitespace(s[s.len() - n - 1]),
    ensures
        trailing_space(s) == n,
{
    lemma_trailing_space(s);
}

/// `v[from..to]` without the white space that it begins with and ends in.
pub fn trim_range(v: &Vec<char>, from: usize, to: usize) -> (r: String)
    requires
        from <= to <= v.len(),
    ensures
        r@ == spec_trim(v@.subrange(from as int, to as int)),
{
    let ghost s = v@.subrange(from as int, to as int);
    let mut a: usize = from;
    while a < to && v[a].is_whitespace()
        invariant
            from <= a <= to <= v.len(),
            forall|i: int| from <= i < a ==> unicode_whitespace(v@[i]),
        decreases to - a,
    {
        a += 1;
    }
    proof {
        assert forall|i: int| 0 <= i < a - from implies unicode_whitespace(s[i]) by {
            assert(s[i] == v@[from + i]);
        }
        if a < to {
            assert(s[a - from] == v@[a as int]);
        }
        lemma_leading_space_is(s, a - from);
    }
    if a == to {
        return String::new();
    }
    let mut b: usize = to;
    while b > a && v[b - 1].is_whitespace()
        invariant
            a <= b <= to <= v.len(),
            forall|i: int| b <= i < to ==> unicode_whitespace(v@[i]),
        decreases b,
    {
        b -= 1;
    }
    proof {
        assert(b > a) by {
            if b == a {
                assert(!unicode_whitespace(v@[a as int]));
            }
        }
        assert forall|i: int| s.len() - (to - b) <= i < s.len() implies unicode_whitespace(
            s[i],
        ) by {
            assert(s[i] == v@[from + i]);
        }
        assert(s[s.len() - (to - b) - 1] == v@[b - 1]);
        lemma_trailing_space_is(s, to - b);
        assert(s.subrange(a - from, s.len() - (to - b)) =~= v@.subrange(a as int, b as int));
    }
    from_chars(v, a, b)
}

/// What `{:?}` of std writes for a list of texts.
pub uninterp spec fn debug_text(list: Seq<Seq<char>>) -> Seq<char>;

/// A list of texts as `{:?}` of std writes it, which `debug_text` names.
#[verifier::external_body]
pub(crate) fn debug_list(list: &Vec<String>) -> (text: String)
    ensures
        text@ == debug_text(list.deep_view()),
{
    format!("{:?}", list)
}

/// The first word of `s`: what stands between the white space that `s`
/// begins with and the next white space, if anything does.
pub open spec fn spec_first_word(s: Seq<char>) -> Option<Seq<char>> {
    let from = leading_space(s);
    if from >= s.len() {
        None
    } else {
        let rest = s.skip(from);
        Some(rest.take(word_length(rest)))
    }
}

/// How many characters `s` begins with that are no white space.
pub open spec fn word_length(s: Seq<char>) -> int
    decreases s.len(),
{
    if s.len() > 0 && !unicode_whitespace(s[0]) {
        1 + word_length(s.drop_first())
    } else {
        0
    }
}

/// The first word of `s`.
pub fn first_word(s: &str) -> (word: Option<String>)
    ensures
        word.deep_view() == spec_first_word(s@),
{
    let v = to_chars(s);
    let mut a: usize = 0;
    while a < v.len() && v[a].is_whitespace()
        invariant
            a <= v.len(),
            forall|i: int| 0 <= i < a ==> unicode_whitespace(v@[i]),
        decreases v.len() - a,
    {
        a += 1;
    }
    proof {
        lemma_leading_space_is(v@, a as int);
    }
    if a == v.len() {
        return None;
    }
    let ghost rest = v@.skip(a as int);
    let mut b: usize = a;
    assert(rest.skip(0) =~= rest);
    while b < v.len() && !v[b].is_whitespace()
        invariant
            a <= b <= v.len(),
            rest == v@.skip(a as int),
            word_length(rest) == (b - a) + word_length(rest.skip(b - a)),
        decreases v.len() - b,
    {
        assert(rest.skip(b - a)[0] == v@[b as int]);
        assert(rest.skip(b - a).drop_first() =~= rest.skip(b - a + 1));
        b += 1;
    }
    proof {
        if b < v.len() {
            assert(rest.skip(b - a)[0] == v@[b as int]);
        } else {
            assert(rest.skip(b - a).len() == 0);
        }
        assert(v@.subrange(a as int, b as int) =~= rest.take(b - a));
    }
    Some(from_chars(&v, a, b))
}

/// `text`, then blanks up to the width `width`.
pub open spec fn padded(text: Seq<char>, width: nat) -> Seq<char> {
    if text.len() >= width {
        text
    } else {
        text + Seq::new((width - text.len()) as nat, |i: int| ' ')
    }
}

/// `text`, then blanks up to the width `width`.
pub fn pad_right(text: &str, width: usize) -> (r: String)
    ensures
        r@ == padded(text@, width as nat),
{
    let mut r = text.to_owned();
    let v = to_chars(text);
    let mut n: usize = v.len();
    while n < width
        invariant
            v@ == text@,
            v.len() <= n,
            n <= width || n == v.len(),
            r@ == text@ + Seq::new((n - v.len()) as nat, |i: int| ' '),
        decreases width - n,
    {
        r.push(' ');
        n += 1;
        assert(r@ =~= text@ + Seq::new((n - v.len()) as nat, |i: int| ' '));
    }
    assert(r@ =~= padded(text@, width as nat));
    r
}

/// `parts`, with `separator` between them.
pub open spec fn spec_join_with(parts: Seq<Seq<char>>, separator: Seq<char>) -> Seq<char>
    decreases parts.len(),
{
    if parts.len() == 0 {
        Seq::empty()
    } else if parts.len() == 1 {
        parts[0]
    } else {
        spec_join_with(parts.drop_last(), separator) + separator + parts.last()
    }
}

/// `parts`, with `separator` between them.
pub fn join_with(parts: &Vec<String>, separator: &str) -> (r: String)
    ensures
        r@ == spec_join_with(parts.deep_view(), separator@),
{
    let mut r = String::new();
    let ghost all = parts.deep_view();
    let mut i: usize = 0;
    assert(all.take(0) =~= Seq::<Seq<char>>::empty());
    while i < parts.len()
        invariant
            i <= parts.len(),
            all == parts.deep_view(),
            r@ == spec_join_with(all.take(i as int), separator@),
        decreases parts.len() - i,
    {
        proof {
            let next = all.take(i + 1);
            assert(next.drop_last() =~= all.take(i as int));
            assert(next.last() == parts@[i as int]@);
        }
        if i > 0 {
            r.append(separator);
        }
        r.append(parts[i].as_str());
        proof {
            if i == 0 {
                assert(r@ =~= parts@[0]@);
            }
        }
        i += 1;
    }
    assert(all.take(all.len() as int) =~= all);
    r
}

} // verus!
