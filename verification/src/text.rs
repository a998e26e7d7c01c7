//! Character-level text primitives shared by the parsers and generators:
//! Unicode whitespace, trimming, first-occurrence search, and substring
//! extraction over a `&str` viewed as its sequence of chars.
use vstd::prelude::*;
use vstd::string::StrSliceExecFns;

verus! {

/// The Unicode `White_Space` property (the set `char::is_whitespace` and
/// `str::trim` use).
pub open spec fn is_ws(c: char) -> bool {
    let u = c as u32;
    ||| 0x09 <= u <= 0x0d
    ||| u == 0x20
    ||| u == 0x85
    ||| u == 0xa0
    ||| u == 0x1680
    ||| 0x2000 <= u <= 0x200a
    ||| u == 0x2028
    ||| u == 0x2029
    ||| u == 0x202f
    ||| u == 0x205f
    ||| u == 0x3000
}

/// `s` without its leading whitespace.
pub open spec fn trim_start(s: Seq<char>) -> Seq<char>
    decreases s.len(),
{
    if s.len() > 0 && is_ws(s[0]) {
        trim_start(s.drop_first())
    } else {
        s
    }
}

/// `s` without its trailing whitespace.
pub open spec fn trim_end(s: Seq<char>) -> Seq<char>
    decreases s.len(),
{
    if s.len() > 0 && is_ws(s.last()) {
        trim_end(s.drop_last())
    } else {
        s
    }
}

/// `s` without leading and trailing whitespace (what `str::trim` returns).
pub open spec fn trim(s: Seq<char>) -> Seq<char> {
    trim_end(trim_start(s))
}

/// `i` is the first position of `c` in `s`.
pub open spec fn is_first_of(s: Seq<char>, c: char, i: int) -> bool {
    &&& 0 <= i < s.len()
    &&& s[i] == c
    &&& forall|j: int| 0 <= j < i ==> s[j] != c
}

/// The first position of `c` in `s`, if `c` occurs in `s`.
pub open spec fn index_of(s: Seq<char>, c: char) -> Option<int> {
    if exists|i: int| is_first_of(s, c, i) {
        Some(choose|i: int| is_first_of(s, c, i))
    } else {
        None
    }
}

/// `i` is the first position where the two-char pattern `a b` starts in `s`.
pub open spec fn is_first_pair(s: Seq<char>, a: char, b: char, i: int) -> bool {
    &&& 0 <= i && i + 1 < s.len()
    &&& s[i] == a && s[i + 1] == b
    &&& forall|j: int| 0 <= j < i ==> !(#[trigger] s[j] == a && s[j + 1] == b)
}

/// The first position where the two-char pattern `a b` starts in `s`.
pub open spec fn index_of_pair(s: Seq<char>, a: char, b: char) -> Option<int> {
    if exists|i: int| is_first_pair(s, a, b, i) {
        Some(choose|i: int| is_first_pair(s, a, b, i))
    } else {
        None
    }
}

/// Shifts an index found in a window that starts at `from` back to a
/// position in the whole sequence.
pub open spec fn shifted(r: Option<int>, from: int) -> Option<int> {
    match r {
        Some(i) => Some(i + from),
        None => None,
    }
}

/// Lifts an `Option<usize>` to the `Option<int>` the specifications use.
pub open spec fn as_int_opt(r: Option<usize>) -> Option<int> {
    match r {
        Some(i) => Some(i as int),
        None => None,
    }
}

pub fn is_whitespace(c: char) -> (b: bool)
    ensures
        b == is_ws(c),
{
    let u = c as u32;
    (0x09 <= u && u <= 0x0d) || u == 0x20 || u == 0x85 || u == 0xa0 || u == 0x1680 || (0x2000
        <= u && u <= 0x200a) || u == 0x2028 || u == 0x2029 || u == 0x202f || u == 0x205f || u
        == 0x3000
}

/// The chars of `s`, in order.
pub fn chars_of(s: &str) -> (v: Vec<char>)
    ensures
        v@ == s@,
{
    let n = s.unicode_len();
    let mut v: Vec<char> = Vec::new();
    let mut i: usize = 0;
    while i < n
        invariant
            n == s@.len(),
            i <= n,
            v@ == s@.take(i as int),
        decreases n - i,
    {
        v.push(s.get_char(i));
        i = i + 1;
        assert(v@ =~= s@.take(i as int));
    }
    assert(s@.take(n as int) =~= s@);
    v
}

/// The owned string made of the chars of `s` in `from..to`.
pub fn substring(s: &str, from: usize, to: usize) -> (r: String)
    requires
        from <= to <= s@.len(),
    ensures
        r@ == s@.subrange(from as int, to as int),
{
    s.substring_char(from, to).to_owned()
}

/// Bounds of `trim(v[from..to])` inside `v`.
pub fn trim_bounds(v: &Vec<char>, from: usize, to: usize) -> (r: (usize, usize))
    requires
        from <= to <= v@.len(),
    ensures
        from <= r.0 <= r.1 <= to,
        v@.subrange(r.0 as int, r.1 as int) == trim(v@.subrange(from as int, to as int)),
{
    let mut i = from;
    while i < to && is_whitespace(v[i])
        invariant
            from <= i <= to <= v@.len(),
            trim_start(v@.subrange(from as int, to as int)) == trim_start(
                v@.subrange(i as int, to as int),
            ),
        decreases to - i,
    {
        assert(v@.subrange(i as int, to as int).drop_first() =~= v@.subrange(
            i + 1,
            to as int,
        ));
        i = i + 1;
    }
    assert(trim_start(v@.subrange(i as int, to as int)) == v@.subrange(i as int, to as int));
    let mut j = to;
    while j > i && is_whitespace(v[j - 1])
        invariant
            from <= i <= j <= to <= v@.len(),
            trim(v@.subrange(from as int, to as int)) == trim_end(
                v@.subrange(i as int, j as int),
            ),
        decreases j - i,
    {
        assert(v@.subrange(i as int, j as int).drop_last() =~= v@.subrange(
            i as int,
            j - 1,
        ));
        j = j - 1;
    }
    (i, j)
}

/// Position of the first `c` in `v[from..to]`, as an index into `v`.
pub fn find_char(v: &Vec<char>, from: usize, to: usize, c: char) -> (r: Option<usize>)
    requires
        from <= to <= v@.len(),
    ensures
        as_int_opt(r) == shifted(index_of(v@.subrange(from as int, to as int), c), from as int),
        r matches Some(k) ==> from <= k < to,
{
    let ghost w = v@.subrange(from as int, to as int);
    let mut i = from;
    while i < to
        invariant
            from <= i <= to <= v@.len(),
            w == v@.subrange(from as int, to as int),
            forall|j: int| 0 <= j < i - from ==> w[j] != c,
        decreases to - i,
    {
        if v[i] == c {
            let ghost k = i - from;
            assert(is_first_of(w, c, k));
            let ghost chosen = choose|m: int| is_first_of(w, c, m);
            assert(chosen == k) by {
                assert(is_first_of(w, c, chosen));
                if chosen < k {
                    assert(w[chosen] != c);
                } else if chosen > k {
                    assert(w[k] != c);
                }
            }
            return Some(i);
        }
        i = i + 1;
    }
    assert(!exists|m: int| is_first_of(w, c, m)) by {
        if exists|m: int| is_first_of(w, c, m) {
            let m = choose|m: int| is_first_of(w, c, m);
            assert(w[m] != c);
        }
    }
    None
}

/// Position of the first pattern `a b` starting in `v[from..to]`, as an
/// index into `v`.
pub fn find_pair(v: &Vec<char>, from: usize, to: usize, a: char, b: char) -> (r: Option<usize>)
    requires
        from <= to <= v@.len(),
    ensures
        as_int_opt(r) == shifted(
            index_of_pair(v@.subrange(from as int, to as int), a, b),
            from as int,
        ),
        r matches Some(k) ==> from <= k && k + 1 < to,
{
    let ghost w = v@.subrange(from as int, to as int);
    let mut i = from;
    while to - i > 1
        invariant
            from <= i <= to <= v@.len(),
            w == v@.subrange(from as int, to as int),
            forall|j: int| 0 <= j < i - from ==> !(#[trigger] w[j] == a && w[j + 1] == b),
        decreases to - i,
    {
        if v[i] == a && v[i + 1] == b {
            let ghost k = i - from;
            assert(is_first_pair(w, a, b, k));
            let ghost chosen = choose|m: int| is_first_pair(w, a, b, m);
            assert(chosen == k) by {
                assert(is_first_pair(w, a, b, chosen));
                if chosen < k {
                    assert(!(w[chosen] == a && w[chosen + 1] == b));
                } else if chosen > k {
                    assert(!(w[k] == a && w[k + 1] == b));
                }
            }
            return Some(i);
        }
        i = i + 1;
    }
    assert(!exists|m: int| is_first_pair(w, a, b, m)) by {
        if exists|m: int| is_first_pair(w, a, b, m) {
            let m = choose|m: int| is_first_pair(w, a, b, m);
            assert(!(w[m] == a && w[m + 1] == b));
        }
    }
    None
}

/// Whether `a` and `b` hold the same chars.
pub fn str_eq(a: &str, b: &str) -> (r: bool)
    ensures
        r == (a@ == b@),
{
    let va = chars_of(a);
    let vb = chars_of(b);
    if va.len() != vb.len() {
        return false;
    }
    let mut i: usize = 0;
    while i < va.len()
        invariant
            va@ == a@,
            vb@ == b@,
            va@.len() == vb@.len(),
            i <= va@.len(),
            forall|j: int| 0 <= j < i ==> va@[j] == vb@[j],
        decreases va@.len() - i,
    {
        if va[i] != vb[i] {
            assert(va@[i as int] != vb@[i as int]);
            return false;
        }
        i = i + 1;
    }
    assert(va@ =~= vb@);
    true
}

/// The chars of an optional string.
pub open spec fn opt_str_view(o: Option<&str>) -> Option<Seq<char>> {
    match o {
        Some(s) => Some(s@),
        None => None,
    }
}

/// Whether `o` holds a string with the chars of `lit`.
pub fn opt_is(o: Option<&str>, lit: &str) -> (r: bool)
    ensures
        r == (opt_str_view(o) == Some(lit@)),
{
    match o {
        Some(s) => str_eq(s, lit),
        None => false,
    }
}

/// Appends `c` to `s` (`String::push`, which appends the char at the end).
#[verifier::external_body]
pub(crate) fn push_char(s: &mut String, c: char)
    ensures
        final(s)@ == old(s)@.push(c),
{
    s.push(c);
}

/// `c` in upper case when it is an ASCII lower-case letter.
pub open spec fn ascii_upper(c: char) -> char {
    if 97 <= (c as u32) <= 122 {
        ((c as u32) - 32) as char
    } else {
        c
    }
}

/// `c` in lower case when it is an ASCII upper-case letter.
pub open spec fn ascii_lower(c: char) -> char {
    if 65 <= (c as u32) <= 90 {
        ((c as u32) + 32) as char
    } else {
        c
    }
}

pub open spec fn is_ascii_upper(c: char) -> bool {
    65 <= (c as u32) <= 90
}

pub fn to_ascii_upper(c: char) -> (r: char)
    ensures
        r == ascii_upper(c),
{
    let u = c as u32;
    if 97 <= u && u <= 122 {
        let b = (u - 32) as u8;
        b as char
    } else {
        c
    }
}

pub fn to_ascii_lower(c: char) -> (r: char)
    ensures
        r == ascii_lower(c),
{
    let u = c as u32;
    if 65 <= u && u <= 90 {
        let b = (u + 32) as u8;
        b as char
    } else {
        c
    }
}

/// `s` with every `-` turned into `_`.
pub open spec fn dashes_to_underscores(s: Seq<char>) -> Seq<char> {
    s.map_values(|c: char| if c == '-' { '_' } else { c })
}

/// `s` with every `-` replaced by `_` (`str::replace('-', "_")`).
pub fn replace_dashes(s: &str) -> (r: String)
    ensures
        r@ == dashes_to_underscores(s@),
{
    let v = chars_of(s);
    let mut r = String::new();
    let mut i: usize = 0;
    while i < v.len()
        invariant
            v@ == s@,
            i <= v@.len(),
            r@ == dashes_to_underscores(s@.take(i as int)),
        decreases v@.len() - i,
    {
        let c = v[i];
        push_char(&mut r, if c == '-' { '_' } else { c });
        i = i + 1;
        assert(r@ =~= dashes_to_underscores(s@.take(i as int)));
    }
    assert(s@.take(v@.len() as int) =~= s@);
    r
}

/// snake_case to PascalCase: underscores dropped, the first char of each
/// word (ASCII letters only) in upper case.
pub open spec fn pascal_of(s: Seq<char>, at_word_start: bool) -> Seq<char>
    decreases s.len(),
{
    if s.len() == 0 {
        seq![]
    } else if s[0] == '_' {
        pascal_of(s.drop_first(), true)
    } else {
        seq![if at_word_start { ascii_upper(s[0]) } else { s[0] }] + pascal_of(s.drop_first(), false)
    }
}

pub fn snake_to_pascal(s: &str) -> (r: String)
    ensures
        r@ == pascal_of(s@, true),
{
    snake_to_case(s, true)
}

/// snake_case to camelCase: as `snake_to_pascal`, the first word left as it
/// is.
pub fn snake_to_camel(s: &str) -> (r: String)
    ensures
        r@ == pascal_of(s@, false),
{
    snake_to_case(s, false)
}

fn snake_to_case(s: &str, capitalize_first: bool) -> (r: String)
    ensures
        r@ == pascal_of(s@, capitalize_first),
{
    let v = chars_of(s);
    let mut r = String::new();
    let mut start = capitalize_first;
    let mut i: usize = 0;
    assert(s@.skip(0) =~= s@);
    assert(r@ + pascal_of(s@, capitalize_first) =~= pascal_of(s@, capitalize_first));
    while i < v.len()
        invariant
            v@ == s@,
            i <= v@.len(),
            r@ + pascal_of(s@.skip(i as int), start) == pascal_of(s@, capitalize_first),
        decreases v@.len() - i,
    {
        let c = v[i];
        let ghost rest = s@.skip(i as int);
        assert(rest.drop_first() =~= s@.skip(i + 1));
        if c == '_' {
            start = true;
        } else {
            let d = if start { to_ascii_upper(c) } else { c };
            let ghost before = r@;
            push_char(&mut r, d);
            assert(r@ + pascal_of(s@.skip(i + 1), false) =~= before + (seq![d] + pascal_of(
                s@.skip(i + 1),
                false,
            )));
            start = false;
        }
        i = i + 1;
    }
    assert(s@.skip(v@.len() as int) =~= Seq::<char>::empty());
    assert(r@ + Seq::<char>::empty() =~= r@);
    r
}

/// PascalCase to snake_case: each ASCII upper-case letter in lower case,
/// with an underscore before it unless it comes first.
pub open spec fn snake_of(s: Seq<char>, first: bool) -> Seq<char>
    decreases s.len(),
{
    if s.len() == 0 {
        seq![]
    } else if is_ascii_upper(s[0]) {
        (if first { seq![] } else { seq!['_'] }) + seq![ascii_lower(s[0])] + snake_of(
            s.drop_first(),
            false,
        )
    } else {
        seq![s[0]] + snake_of(s.drop_first(), false)
    }
}

pub fn pascal_to_snake(s: &str) -> (r: String)
    ensures
        r@ == snake_of(s@, true),
{
    let v = chars_of(s);
    let mut r = String::new();
    let mut i: usize = 0;
    assert(s@.skip(0) =~= s@);
    assert(r@ + snake_of(s@, true) =~= snake_of(s@, true));
    while i < v.len()
        invariant
            v@ == s@,
            i <= v@.len(),
            r@ + snake_of(s@.skip(i as int), i == 0) == snake_of(s@, true),
        decreases v@.len() - i,
    {
        let c = v[i];
        let ghost before = r@;
        let ghost rest = s@.skip(i as int);
        assert(rest.drop_first() =~= s@.skip(i + 1));
        let u = c as u32;
        if 65 <= u && u <= 90 {
            if i > 0 {
                push_char(&mut r, '_');
            }
            push_char(&mut r, to_ascii_lower(c));
            assert(r@ =~= before + (if i == 0 { Seq::<char>::empty() } else { seq!['_'] }) + seq![ascii_lower(c)]);
        } else {
            push_char(&mut r, c);
            assert(r@ =~= before + seq![c]);
        }
        i = i + 1;
    }
    assert(s@.skip(v@.len() as int) =~= Seq::<char>::empty());
    assert(r@ + Seq::<char>::empty() =~= r@);
    r
}

/// The length of the run of non-whitespace chars that starts `s`.
pub open spec fn word_len(s: Seq<char>) -> nat
    decreases s.len(),
{
    if s.len() == 0 || is_ws(s[0]) {
        0
    } else {
        1 + word_len(s.drop_first())
    }
}

pub proof fn lemma_trim_start_len(s: Seq<char>)
    ensures
        trim_start(s).len() <= s.len(),
        trim_start(s).len() > 0 ==> !is_ws(trim_start(s)[0]),
    decreases s.len(),
{
    if s.len() > 0 && is_ws(s[0]) {
        lemma_trim_start_len(s.drop_first());
    }
}

pub proof fn lemma_word_len_bound(s: Seq<char>)
    ensures
        word_len(s) <= s.len(),
    decreases s.len(),
{
    if s.len() > 0 && !is_ws(s[0]) {
        lemma_word_len_bound(s.drop_first());
    }
}

/// The whitespace-separated words of `s`, in order (what
/// `str::split_whitespace` yields).
pub open spec fn words(s: Seq<char>) -> Seq<Seq<char>>
    decreases s.len(),
{
    let t = trim_start(s);
    if t.len() == 0 {
        seq![]
    } else {
        let k = word_len(t);
        proof {
            lemma_trim_start_len(s);
            lemma_word_len_bound(t);
        }
        if 0 < k {
            seq![t.take(k as int)] + words(t.skip(k as int))
        } else {
            seq![]
        }
    }
}

proof fn lemma_word_len_exact(s: Seq<char>, k: int)
    requires
        0 <= k <= s.len(),
        forall|j: int| 0 <= j < k ==> !is_ws(#[trigger] s[j]),
        k == s.len() || is_ws(s[k]),
    ensures
        word_len(s) == k,
    decreases k,
{
    if k > 0 {
        lemma_word_len_exact(s.drop_first(), k - 1);
    }
}

proof fn lemma_trim_start_skip_ws(s: Seq<char>, i: int)
    requires
        0 <= i < s.len(),
        is_ws(s[i]),
    ensures
        trim_start(s.skip(i)) == trim_start(s.skip(i + 1)),
{
    assert(s.skip(i).drop_first() =~= s.skip(i + 1));
}

/// The whitespace-separated words of `s`.
pub fn split_whitespace(s: &str) -> (r: Vec<String>)
    ensures
        r@.map_values(|w: String| w@) == words(s@),
{
    let v = chars_of(s);
    let n = v.len();
    let mut r: Vec<String> = Vec::new();
    let mut i: usize = 0;
    assert(s@.skip(0) =~= s@);
    assert(r@.map_values(|w: String| w@) + words(s@) =~= words(s@));
    loop
        invariant_except_break
            r@.map_values(|w: String| w@) + words(s@.skip(i as int)) == words(s@),
        invariant
            v@ == s@,
            n == v@.len(),
            i <= n,
        ensures
            r@.map_values(|w: String| w@) == words(s@),
        decreases n - i,
    {
        let ghost i0 = i;
        while i < n && is_whitespace(v[i])
            invariant
                v@ == s@,
                n == v@.len(),
                i0 <= i <= n,
                r@.map_values(|w: String| w@) + words(s@.skip(i as int)) == words(s@),
            decreases n - i,
        {
            proof {
                lemma_trim_start_skip_ws(s@, i as int);
                assert(words(s@.skip(i as int)) == words(s@.skip(i + 1)));
            }
            i = i + 1;
        }
        if i == n {
            assert(s@.skip(n as int) =~= Seq::<char>::empty());
            assert(words(s@.skip(n as int)) =~= Seq::<Seq<char>>::empty());
            assert(r@.map_values(|w: String| w@) + Seq::<Seq<char>>::empty() =~= r@.map_values(
                |w: String| w@,
            ));
            break ;
        }
        assert(!is_ws(v@[i as int]));
        let mut j = i;
        while j < n && !is_whitespace(v[j])
            invariant
                v@ == s@,
                n == v@.len(),
                i <= j <= n,
                forall|k: int| i <= k < j ==> !is_ws(#[trigger] v@[k]),
            decreases n - j,
        {
            j = j + 1;
        }
        assert(j > i);
        let ghost t = s@.skip(i as int);
        proof {
            assert(trim_start(t) == t);
            lemma_word_len_exact(t, j - i);
            assert(t.take(j - i) =~= s@.subrange(i as int, j as int));
            assert(t.skip(j - i) =~= s@.skip(j as int));
        }
        let ghost before = r@;
        r.push(substring(s, i, j));
        assert(r@.map_values(|w: String| w@) =~= before.map_values(|w: String| w@).push(
            s@.subrange(i as int, j as int),
        ));
        assert(r@.map_values(|w: String| w@) + words(s@.skip(j as int)) =~= before.map_values(
            |w: String| w@,
        ) + words(t));
        i = j;
    }
    r
}

/// The decimal digits of `n`.
pub open spec fn decimal(n: nat) -> Seq<char>
    decreases n,
{
    if n < 10 {
        seq![(48 + n) as char]
    } else {
        decimal(n / 10) + seq![(48 + n % 10) as char]
    }
}

/// The decimal digits of a byte.
pub fn decimal_u8(n: u8) -> (r: String)
    ensures
        r@ == decimal(n as nat),
{
    let mut r = String::new();
    let c3 = (48 + n % 10) as char;
    assert(c3 == (48 + (n as nat) % 10) as char);
    if n >= 100 {
        let c1 = (48 + n / 100) as char;
        let c2 = (48 + (n / 10) % 10) as char;
        push_char(&mut r, c1);
        push_char(&mut r, c2);
        push_char(&mut r, c3);
        assert(decimal((n / 100) as nat) == seq![c1]);
        assert(decimal((n / 10) as nat) =~= seq![c1, c2]);
        assert(r@ =~= seq![c1, c2, c3]);
    } else if n >= 10 {
        let c1 = (48 + n / 10) as char;
        push_char(&mut r, c1);
        push_char(&mut r, c3);
        assert(decimal((n / 10) as nat) == seq![c1]);
        assert(r@ =~= seq![c1, c3]);
    } else {
        push_char(&mut r, c3);
        assert(r@ =~= seq![c3]);
    }
    r
}

/// The decimal digits of `n`.
pub fn decimal_usize(n: usize) -> (r: String)
    ensures
        r@ == decimal(n as nat),
    decreases n,
{
    let d = (48 + (n % 10) as u8) as char;
    assert(d == (48 + (n as nat) % 10) as char);
    if n < 10 {
        let mut r = String::new();
        push_char(&mut r, d);
        assert(r@ =~= seq![d]);
        r
    } else {
        let mut r = decimal_usize(n / 10);
        push_char(&mut r, d);
        r
    }
}

/// The items joined by `sep`.
pub open spec fn join(items: Seq<Seq<char>>, sep: Seq<char>) -> Seq<char>
    decreases items.len(),
{
    if items.len() == 0 {
        seq![]
    } else if items.len() == 1 {
        items[0]
    } else {
        join(items.drop_last(), sep) + sep + items.last()
    }
}

/// `items.join(sep)`.
pub fn join_strings(items: &Vec<String>, sep: &str) -> (r: String)
    ensures
        r@ == join(items@.map_values(|s: String| s@), sep@),
{
    let ghost all = items@.map_values(|s: String| s@);
    let mut r = String::new();
    let mut i: usize = 0;
    while i < items.len()
        invariant
            all == items@.map_values(|s: String| s@),
            i <= items@.len(),
            r@ == join(all.take(i as int), sep@),
        decreases items@.len() - i,
    {
        if i > 0 {
            r.append(sep);
        }
        r.append(items[i].as_str());
        assert(all.take(i + 1).drop_last() =~= all.take(i as int));
        i = i + 1;
        assert(r@ =~= join(all.take(i as int), sep@));
    }
    assert(all.take(items@.len() as int) =~= all);
    r
}

/// `pat` occurs in `s` at position `i`.
pub open spec fn occurs_at(s: Seq<char>, pat: Seq<char>, i: int) -> bool {
    0 <= i && i + pat.len() <= s.len() && s.subrange(i, i + pat.len()) == pat
}

/// `pat` occurs in `s` (`str::contains`).
pub open spec fn contains_seq(s: Seq<char>, pat: Seq<char>) -> bool {
    exists|i: int| occurs_at(s, pat, i)
}

/// Whether `p` occurs in `v` at position `i`.
fn matches_at(v: &Vec<char>, p: &Vec<char>, i: usize) -> (b: bool)
    requires
        i + p@.len() <= v@.len(),
    ensures
        b == (v@.subrange(i as int, i + p@.len()) == p@),
{
    let n = v.len();
    let mut k: usize = 0;
    while k < p.len()
        invariant
            n == v@.len(),
            i + p@.len() <= v@.len(),
            k <= p@.len(),
            forall|m: int| 0 <= m < k ==> v@[i + m] == p@[m],
        decreases p@.len() - k,
    {
        if v[i + k] != p[k] {
            assert(v@.subrange(i as int, i + p@.len())[k as int] != p@[k as int]);
            return false;
        }
        k = k + 1;
    }
    assert(v@.subrange(i as int, i + p@.len()) =~= p@);
    true
}

/// Whether `pat` occurs in `s`.
pub fn contains_str(s: &str, pat: &str) -> (b: bool)
    ensures
        b == contains_seq(s@, pat@),
{
    let v = chars_of(s);
    let p = chars_of(pat);
    if p.len() > v.len() {
        assert forall|i: int| !occurs_at(s@, pat@, i) by {}
        return false;
    }
    if p.len() == 0 {
        assert(s@.subrange(0, 0) =~= pat@);
        assert(occurs_at(s@, pat@, 0));
        return true;
    }
    let mut i: usize = 0;
    while i <= v.len() - p.len()
        invariant
            v@ == s@,
            p@ == pat@,
            1 <= p@.len() <= v@.len(),
            v@.len() <= usize::MAX,
            i <= v@.len() - p@.len() + 1,
            forall|j: int| 0 <= j < i ==> !occurs_at(s@, pat@, j),
        decreases v@.len() - p@.len() + 1 - i,
    {
        if matches_at(&v, &p, i) {
            assert(occurs_at(s@, pat@, i as int));
            return true;
        }
        i = i + 1;
    }
    assert forall|j: int| !occurs_at(s@, pat@, j) by {
        if 0 <= j < i {
        }
    }
    false
}

proof fn lemma_word_prefix(s: Seq<char>)
    ensures
        forall|i: int| 0 <= i < word_len(s) ==> !is_ws(#[trigger] s[i]),
    decreases s.len(),
{
    lemma_word_len_bound(s);
    if s.len() > 0 && !is_ws(s[0]) {
        lemma_word_prefix(s.drop_first());
        assert forall|i: int| 0 <= i < word_len(s) implies !is_ws(#[trigger] s[i]) by {
            if i > 0 {
                assert(s[i] == s.drop_first()[i - 1]);
            }
        }
    }
}

/// The words of a text are non-empty and hold no whitespace.
pub proof fn words_are_nonblank(s: Seq<char>)
    ensures
        forall|i: int| 0 <= i < words(s).len() ==> (#[trigger] words(s)[i]).len() > 0 && forall|j: int|
            0 <= j < words(s)[i].len() ==> !is_ws(#[trigger] words(s)[i][j]),
    decreases s.len(),
{
    let t = trim_start(s);
    lemma_trim_start_len(s);
    if t.len() > 0 {
        let k = word_len(t);
        lemma_word_len_bound(t);
        if 0 < k {
            lemma_word_prefix(t);
            words_are_nonblank(t.skip(k as int));
            let rest = words(t.skip(k as int));
            assert forall|i: int| 0 <= i < words(s).len() implies (#[trigger] words(s)[i]).len() > 0
                && forall|j: int| 0 <= j < words(s)[i].len() ==> !is_ws(#[trigger] words(s)[i][j]) by {
                if i == 0 {
                    assert(words(s)[0] == t.take(k as int));
                    assert forall|j: int| 0 <= j < words(s)[i].len() implies !is_ws(#[trigger] words(s)[i][j]) by {
                        assert(words(s)[i][j] == t[j]);
                    }
                } else {
                    assert(words(s)[i] == rest[i - 1]);
                }
            }
        }
    }
}

} // verus!
