use vstd::prelude::*;

verus! {

/// The decimal digit character for a value below ten.
pub open spec fn digit_char(d: int) -> char {
    if d == 0 {
        '0'
    } else if d == 1 {
        '1'
    } else if d == 2 {
        '2'
    } else if d == 3 {
        '3'
    } else if d == 4 {
        '4'
    } else if d == 5 {
        '5'
    } else if d == 6 {
        '6'
    } else if d == 7 {
        '7'
    } else if d == 8 {
        '8'
    } else {
        '9'
    }
}

/// The decimal rendering of a natural number, without leading zeros.
pub open spec fn dec(n: nat) -> Seq<char>
    decreases n,
{
    if n < 10 {
        seq![digit_char(n as int)]
    } else {
        dec(n / 10).push(digit_char((n % 10) as int))
    }
}

/// The decimal rendering of an integer, with a leading '-' when negative.
pub open spec fn dec_int(n: int) -> Seq<char> {
    if n < 0 {
        seq!['-'] + dec((-n) as nat)
    } else {
        dec(n as nat)
    }
}

fn digit_str(d: u64) -> (s: &'static str)
    requires
        d < 10,
    ensures
        s@ == seq![digit_char(d as int)],
{
    if d == 0 {
        proof { reveal_strlit("0"); }
        "0"
    } else if d == 1 {
        proof { reveal_strlit("1"); }
        "1"
    } else if d == 2 {
        proof { reveal_strlit("2"); }
        "2"
    } else if d == 3 {
        proof { reveal_strlit("3"); }
        "3"
    } else if d == 4 {
        proof { reveal_strlit("4"); }
        "4"
    } else if d == 5 {
        proof { reveal_strlit("5"); }
        "5"
    } else if d == 6 {
        proof { reveal_strlit("6"); }
        "6"
    } else if d == 7 {
        proof { reveal_strlit("7"); }
        "7"
    } else if d == 8 {
        proof { reveal_strlit("8"); }
        "8"
    } else {
        proof { reveal_strlit("9"); }
        "9"
    }
}

/// Renders an unsigned integer in decimal.
pub fn u64_to_string(n: u64) -> (s: String)
    ensures
        s@ == dec(n as nat),
    decreases n,
{
    if n < 10 {
        digit_str(n).to_owned()
    } else {
        let mut s = u64_to_string(n / 10);
        s.append(digit_str(n % 10));
        s
    }
}

/// Renders a signed integer in decimal.
pub fn i64_to_string(n: i64) -> (s: String)
    ensures
        s@ == dec_int(n as int),
{
    if n < 0 {
        let m: u64 = if n == i64::MIN {
            9223372036854775808u64
        } else {
            (-n) as u64
        };
        let mut s = "-".to_owned();
        proof { reveal_strlit("-"); }
        let d = u64_to_string(m);
        s.append(d.as_str());
        s
    } else {
        u64_to_string(n as u64)
    }
}

/// Joins the strings of `parts` with `sep` between consecutive ones.
pub open spec fn join(parts: Seq<Seq<char>>, sep: Seq<char>) -> Seq<char>
    decreases parts.len(),
{
    if parts.len() == 0 {
        Seq::empty()
    } else if parts.len() == 1 {
        parts[0]
    } else {
        join(parts.drop_last(), sep) + sep + parts.last()
    }
}

/// The views of a vector of strings.
pub open spec fn views(v: Seq<String>) -> Seq<Seq<char>> {
    v.map_values(|s: String| s@)
}

/// Joins `parts` with `sep`.
pub fn join_strings(parts: &Vec<String>, sep: &str) -> (r: String)
    ensures
        r@ == join(views(parts@), sep@),
{
    let mut r = String::new();
    let ghost all = views(parts@);
    let mut i: usize = 0;
    while i < parts.len()
        invariant
            i <= parts.len(),
            all == views(parts@),
            r@ == join(all.take(i as int), sep@),
        decreases parts.len() - i,
    {
        assert(all.take(i as int + 1).drop_last() =~= all.take(i as int));
        if i > 0 {
            r.append(sep);
        }
        r.append(parts[i].as_str());
        i = i + 1;
    }
    assert(all.take(parts.len() as int) =~= all);
    r
}

/// Appends an argument to a list of arguments.
pub fn push_arg(v: &mut Vec<String>, a: &str)
    ensures
        views(final(v)@) == views(old(v)@).push(a@),
{
    v.push(a.to_owned());
    assert(views(v@) =~= views(old(v)@).push(a@));
}

/// Appends the arguments of `more` to a list of arguments.
pub fn extend_args(v: &mut Vec<String>, more: &Vec<String>)
    ensures
        views(final(v)@) == views(old(v)@) + views(more@),
{
    let mut i: usize = 0;
    while i < more.len()
        invariant
            i <= more.len(),
            views(v@) == views(old(v)@) + views(more@.take(i as int)),
        decreases more.len() - i,
    {
        let a = more[i].clone();
        let ghost prev = v@;
        v.push(a);
        assert(v@ == prev.push(a));
        assert(views(v@) =~= views(prev).push(a@));
        assert(views(more@.take(i as int + 1)) =~= views(more@.take(i as int)).push(more@[i as int]@));
        assert(views(v@) =~= views(old(v)@) + views(more@.take(i as int + 1)));
        i = i + 1;
    }
    assert(more@.take(i as int) =~= more@);
}

/// A list of 1 argument.
pub fn args1(a0: &str) -> (r: Vec<String>)
    ensures
        views(r@) == seq![a0@],
{
    let mut v: Vec<String> = Vec::new();
    assert(views(v@) =~= Seq::<Seq<char>>::empty());
    push_arg(&mut v, a0);
    assert(views(v@) =~= seq![a0@]);
    v
}

/// A list of 2 arguments.
pub fn args2(a0: &str, a1: &str) -> (r: Vec<String>)
    ensures
        views(r@) == seq![a0@, a1@],
{
    let mut v: Vec<String> = Vec::new();
    assert(views(v@) =~= Seq::<Seq<char>>::empty());
    push_arg(&mut v, a0);
    push_arg(&mut v, a1);
    assert(views(v@) =~= seq![a0@, a1@]);
    v
}

/// A list of 4 arguments.
pub fn args4(a0: &str, a1: &str, a2: &str, a3: &str) -> (r: Vec<String>)
    ensures
        views(r@) == seq![a0@, a1@, a2@, a3@],
{
    let mut v: Vec<String> = Vec::new();
    assert(views(v@) =~= Seq::<Seq<char>>::empty());
    push_arg(&mut v, a0);
    push_arg(&mut v, a1);
    push_arg(&mut v, a2);
    push_arg(&mut v, a3);
    assert(views(v@) =~= seq![a0@, a1@, a2@, a3@]);
    v
}

/// A list of 6 arguments.
pub fn args6(a0: &str, a1: &str, a2: &str, a3: &str, a4: &str, a5: &str) -> (r: Vec<String>)
    ensures
        views(r@) == seq![a0@, a1@, a2@, a3@, a4@, a5@],
{
    let mut v: Vec<String> = Vec::new();
    assert(views(v@) =~= Seq::<Seq<char>>::empty());
    push_arg(&mut v, a0);
    push_arg(&mut v, a1);
    push_arg(&mut v, a2);
    push_arg(&mut v, a3);
    push_arg(&mut v, a4);
    push_arg(&mut v, a5);
    assert(views(v@) =~= seq![a0@, a1@, a2@, a3@, a4@, a5@]);
    v
}

/// A list of 8 arguments.
pub fn args8(a0: &str, a1: &str, a2: &str, a3: &str, a4: &str, a5: &str, a6: &str, a7: &str) -> (r: Vec<String>)
    ensures
        views(r@) == seq![a0@, a1@, a2@, a3@, a4@, a5@, a6@, a7@],
{
    let mut v: Vec<String> = Vec::new();
    assert(views(v@) =~= Seq::<Seq<char>>::empty());
    push_arg(&mut v, a0);
    push_arg(&mut v, a1);
    push_arg(&mut v, a2);
    push_arg(&mut v, a3);
    push_arg(&mut v, a4);
    push_arg(&mut v, a5);
    push_arg(&mut v, a6);
    push_arg(&mut v, a7);
    assert(views(v@) =~= seq![a0@, a1@, a2@, a3@, a4@, a5@, a6@, a7@]);
    v
}

/// Appends `part` to `s`.
pub fn push_str(s: &mut String, part: &str)
    ensures
        final(s)@ == old(s)@ + part@,
{
    s.append(part);
}


/// ASCII lowercase of one character; other characters are unchanged.
pub open spec fn lower_char(c: char) -> char {
    if 'A' <= c && c <= 'Z' {
        ((c as u32) + 32) as char
    } else {
        c
    }
}

/// ASCII lowercase of a string.
pub open spec fn lower(s: Seq<char>) -> Seq<char> {
    s.map_values(|c: char| lower_char(c))
}

/// Whether `s` equals `t` once the ASCII letters of `s` are lowercased.
pub fn eq_lower(s: &str, t: &str) -> (r: bool)
    ensures
        r == (lower(s@) == t@),
{
    let n = s.unicode_len();
    let m = t.unicode_len();
    if n != m {
        proof {
            if lower(s@) == t@ {
                assert(lower(s@).len() == s@.len());
            }
        }
        return false;
    }
    let mut i: usize = 0;
    while i < n
        invariant
            n == s@.len(),
            m == t@.len(),
            n == m,
            i <= n,
            forall|j: int| 0 <= j < i ==> lower_char(#[trigger] s@[j]) == t@[j],
        decreases n - i,
    {
        let c = s.get_char(i);
        let d = t.get_char(i);
        let lc: char = if 'A' <= c && c <= 'Z' {
            let code: u8 = ((c as u32) + 32) as u8;
            code as char
        } else {
            c
        };
        if lc != d {
            proof {
                assert(lower(s@)[i as int] != t@[i as int]);
            }
            return false;
        }
        i = i + 1;
    }
    assert(lower(s@) =~= t@);
    true
}


/// The characters that Rust's `char::is_whitespace` accepts.
pub open spec fn is_ws(c: char) -> bool {
    ('\u{9}' <= c && c <= '\u{d}') || c == ' ' || c == '\u{85}' || c == '\u{a0}'
        || c == '\u{1680}' || ('\u{2000}' <= c && c <= '\u{200a}') || c == '\u{2028}'
        || c == '\u{2029}' || c == '\u{202f}' || c == '\u{205f}' || c == '\u{3000}'
}

fn is_ws_exec(c: char) -> (r: bool)
    ensures
        r == is_ws(c),
{
    ('\u{9}' <= c && c <= '\u{d}') || c == ' ' || c == '\u{85}' || c == '\u{a0}'
        || c == '\u{1680}' || ('\u{2000}' <= c && c <= '\u{200a}') || c == '\u{2028}'
        || c == '\u{2029}' || c == '\u{202f}' || c == '\u{205f}' || c == '\u{3000}'
}

/// `s` without its leading whitespace.
pub open spec fn trim_start(s: Seq<char>) -> Seq<char>
    decreases s.len(),
{
    if s.len() > 0 && is_ws(s[0]) {
        trim_start(s.drop_first())
    } else {
        s
    }
}

/// `s` without its trailing whitespace.
pub open spec fn trim_end(s: Seq<char>) -> Seq<char>
    decreases s.len(),
{
    if s.len() > 0 && is_ws(s.last()) {
        trim_end(s.drop_last())
    } else {
        s
    }
}

/// `s` without leading and trailing whitespace, as `str::trim` gives it.
pub open spec fn trim(s: Seq<char>) -> Seq<char> {
    trim_end(trim_start(s))
}

proof fn lemma_trim_start_skip(s: Seq<char>, i: int)
    requires
        0 <= i <= s.len(),
        forall|j: int| 0 <= j < i ==> is_ws(#[trigger] s[j]),
    ensures
        trim_start(s) == trim_start(s.subrange(i, s.len() as int)),
    decreases i,
{
    if i > 0 {
        assert(s.drop_first().subrange(i - 1, s.drop_first().len() as int) =~= s.subrange(i, s.len() as int));
        lemma_trim_start_skip(s.drop_first(), i - 1);
    } else {
        assert(s.subrange(0, s.len() as int) =~= s);
    }
}

proof fn lemma_trim_end_skip(s: Seq<char>, k: int)
    requires
        0 <= k <= s.len(),
        forall|j: int| k <= j < s.len() ==> is_ws(#[trigger] s[j]),
    ensures
        trim_end(s) == trim_end(s.subrange(0, k)),
    decreases s.len() - k,
{
    if k < s.len() {
        assert(s.drop_last().subrange(0, k) =~= s.subrange(0, k));
        lemma_trim_end_skip(s.drop_last(), k);
    } else {
        assert(s.subrange(0, k) =~= s);
    }
}

/// `s` without leading and trailing whitespace.
pub fn trim_str(s: &str) -> (r: &str)
    ensures
        r@ == trim(s@),
{
    let n = s.unicode_len();
    let mut i: usize = 0;
    while i < n && is_ws_exec(s.get_char(i))
        invariant
            n == s@.len(),
            i <= n,
            forall|j: int| 0 <= j < i ==> is_ws(#[trigger] s@[j]),
        decreases n - i,
    {
        i = i + 1;
    }
    proof {
        lemma_trim_start_skip(s@, i as int);
    }
    let ghost t = s@.subrange(i as int, n as int);
    assert(trim_start(t) == t);
    let mut k: usize = n;
    while k > i && is_ws_exec(s.get_char(k - 1))
        invariant
            n == s@.len(),
            i <= k <= n,
            forall|j: int| k <= j < n ==> is_ws(#[trigger] s@[j]),
        decreases k,
    {
        k = k - 1;
    }
    proof {
        let t2 = s@.subrange(i as int, k as int);
        assert forall|j: int| (k - i) <= j < t.len() implies is_ws(#[trigger] t[j]) by {
            assert(t[j] == s@[j + i]);
        }
        lemma_trim_end_skip(t, k - i);
        assert(t.subrange(0, k - i) =~= t2);
        if t2.len() > 0 {
            assert(t2.last() == s@[k - 1]);
        }
        assert(trim_end(t2) == t2);
    }
    s.substring_char(i, k)
}

/// The position of the first occurrence of `c` in `s`.
pub open spec fn first_index<A>(s: Seq<A>, c: A) -> int
    decreases s.len(),
{
    if s.len() == 0 {
        -1
    } else if s[0] == c {
        0
    } else {
        let k = first_index(s.drop_first(), c);
        if k < 0 { -1 } else { k + 1 }
    }
}

pub proof fn lemma_first_index<A>(s: Seq<A>, c: A)
    ensures
        -1 <= first_index(s, c) < s.len(),
        first_index(s, c) >= 0 ==> s[first_index(s, c)] == c,
        forall|j: int| 0 <= j < s.len() && (first_index(s, c) < 0 || j < first_index(s, c)) ==> s[j] != c,
    decreases s.len(),
{
    if s.len() > 0 && s[0] != c {
        lemma_first_index(s.drop_first(), c);
        assert forall|j: int| 0 <= j < s.len() && (first_index(s, c) < 0 || j < first_index(s, c)) implies s[j] != c by {
            if j > 0 {
                assert(s[j] == s.drop_first()[j - 1]);
            }
        }
    }
}

pub proof fn lemma_first_index_unique<A>(s: Seq<A>, c: A, k: int)
    requires
        -1 <= k < s.len(),
        k >= 0 ==> s[k] == c,
        forall|j: int| 0 <= j < s.len() && (k < 0 || j < k) ==> s[j] != c,
    ensures
        first_index(s, c) == k,
    decreases s.len(),
{
    if s.len() > 0 && s[0] != c {
        assert forall|j: int| 0 <= j < s.drop_first().len() && (k - 1 < 0 || j < k - 1) implies s.drop_first()[j] != c by {
            assert(s.drop_first()[j] == s[j + 1]);
        }
        if k < 0 {
            lemma_first_index_unique(s.drop_first(), c, -1);
        } else {
            lemma_first_index_unique(s.drop_first(), c, k - 1);
        }
    }
}

/// The position of the first `c` in `s`, if any.
pub fn find_char(s: &str, c: char) -> (r: Option<usize>)
    ensures
        match r {
            Some(k) => k as int == first_index(s@, c) && k < s@.len() && s@[k as int] == c,
            None => first_index(s@, c) == -1,
        },
{
    let n = s.unicode_len();
    let mut i: usize = 0;
    while i < n
        invariant
            n == s@.len(),
            i <= n,
            forall|j: int| 0 <= j < i ==> s@[j] != c,
        decreases n - i,
    {
        if s.get_char(i) == c {
            proof { lemma_first_index_unique(s@, c, i as int); }
            assert(s@[i as int] == c);
            return Some(i);
        }
        i = i + 1;
    }
    proof { lemma_first_index_unique(s@, c, -1); }
    None
}

/// The characters of `s` from `from` to `to`.
pub fn substring(s: &str, from: usize, to: usize) -> (r: &str)
    requires
        from <= to <= s@.len(),
    ensures
        r@ == s@.subrange(from as int, to as int),
{
    s.substring_char(from, to)
}

/// The number of characters of `s`.
pub fn char_len(s: &str) -> (r: usize)
    ensures
        r == s@.len(),
{
    s.unicode_len()
}

/// The character at position `i` of `s`.
pub fn char_at(s: &str, i: usize) -> (c: char)
    requires
        i < s@.len(),
    ensures
        c == s@[i as int],
{
    s.get_char(i)
}

/// Why a decimal integer did not parse, as Rust's `ParseIntError` tells it.
#[derive(Debug, Clone, Copy, PartialEq, Eq, Structural)]
pub enum IntErrorKind {
    Empty,
    InvalidDigit,
    PosOverflow,
}

impl IntErrorKind {
    pub open spec fn spec_message(self) -> Seq<char> {
        match self {
            IntErrorKind::Empty => "cannot parse integer from empty string"@,
            IntErrorKind::InvalidDigit => "invalid digit found in string"@,
            IntErrorKind::PosOverflow => "number too large to fit in target type"@,
        }
    }

    /// The message that Rust's `ParseIntError` displays for this kind.
    pub fn message(&self) -> (r: &'static str)
        ensures
            r@ == self.spec_message(),
    {
        match self {
            IntErrorKind::Empty => "cannot parse integer from empty string",
            IntErrorKind::InvalidDigit => "invalid digit found in string",
            IntErrorKind::PosOverflow => "number too large to fit in target type",
        }
    }
}

pub open spec fn is_digit(c: char) -> bool {
    '0' <= c && c <= '9'
}

pub open spec fn digit_value(c: char) -> nat {
    ((c as u32) - ('0' as u32)) as nat
}

/// Reads the digits of `d` after an accumulated value `acc`, as `u32::from_str` does.
pub open spec fn fold_u32(d: Seq<char>, acc: nat) -> Result<u32, IntErrorKind>
    decreases d.len(),
{
    if d.len() == 0 {
        Ok(acc as u32)
    } else if !is_digit(d[0]) {
        Err(IntErrorKind::InvalidDigit)
    } else if acc * 10 + digit_value(d[0]) > u32::MAX {
        Err(IntErrorKind::PosOverflow)
    } else {
        fold_u32(d.drop_first(), acc * 10 + digit_value(d[0]))
    }
}

/// The result of `s.parse::<u32>()`.
pub open spec fn parse_u32_spec(s: Seq<char>) -> Result<u32, IntErrorKind> {
    if s.len() == 0 {
        Err(IntErrorKind::Empty)
    } else if (s[0] == '+' || s[0] == '-') && s.len() == 1 {
        Err(IntErrorKind::InvalidDigit)
    } else if s[0] == '+' {
        fold_u32(s.drop_first(), 0)
    } else {
        fold_u32(s, 0)
    }
}

/// Parses a decimal `u32` as `str::parse::<u32>` does.
pub fn parse_u32(s: &str) -> (r: Result<u32, IntErrorKind>)
    ensures
        r == parse_u32_spec(s@),
{
    let n = s.unicode_len();
    if n == 0 {
        return Err(IntErrorKind::Empty);
    }
    let first = s.get_char(0);
    if (first == '+' || first == '-') && n == 1 {
        return Err(IntErrorKind::InvalidDigit);
    }
    let mut i: usize = if first == '+' { 1 } else { 0 };
    let ghost d = if first == '+' { s@.drop_first() } else { s@ };
    assert(d =~= s@.subrange(i as int, n as int));
    let mut acc: u32 = 0;
    while i < n
        invariant
            n == s@.len(),
            i <= n,
            fold_u32(s@.subrange(i as int, n as int), acc as nat) == parse_u32_spec(s@),
        decreases n - i,
    {
        let c = s.get_char(i);
        let ghost rest = s@.subrange(i as int, n as int);
        assert(rest[0] == c);
        assert(rest.drop_first() =~= s@.subrange(i as int + 1, n as int));
        if !('0' <= c && c <= '9') {
            return Err(IntErrorKind::InvalidDigit);
        }
        let v: u32 = (c as u32) - ('0' as u32);
        if acc > 429496729 || (acc == 429496729 && v > 5) {
            return Err(IntErrorKind::PosOverflow);
        }
        acc = acc * 10 + v;
        i = i + 1;
    }
    assert(s@.subrange(n as int, n as int).len() == 0);
    Ok(acc)
}

/// Whether two strings hold the same characters.
pub fn str_eq(a: &str, b: &str) -> (r: bool)
    ensures
        r == (a@ == b@),
{
    let n = a.unicode_len();
    if n != b.unicode_len() {
        return false;
    }
    let mut i: usize = 0;
    while i < n
        invariant
            n == a@.len(),
            n == b@.len(),
            i <= n,
            forall|j: int| 0 <= j < i ==> a@[j] == b@[j],
        decreases n - i,
    {
        if a.get_char(i) != b.get_char(i) {
            return false;
        }
        i = i + 1;
    }
    assert(a@ =~= b@);
    true
}

/// The lines of `s`: the parts between `\n` characters, the last part only when
/// it is not empty.
pub open spec fn split_lines(s: Seq<char>) -> Seq<Seq<char>>
    decreases s.len(),
{
    let k = first_index(s, '\n');
    if s.len() == 0 {
        Seq::empty()
    } else if k < 0 {
        seq![s]
    } else {
        proof { lemma_first_index(s, '\n'); }
        seq![s.subrange(0, k)] + split_lines(s.subrange(k + 1, s.len() as int))
    }
}

/// The lines of `s` (see `split_lines`).
pub fn lines(s: &str) -> (r: Vec<String>)
    ensures
        views(r@) == split_lines(s@),
{
    let mut r: Vec<String> = Vec::new();
    let mut rest: &str = s;
    let ghost mut done: Seq<Seq<char>> = Seq::empty();
    loop
        invariant
            done + split_lines(rest@) == split_lines(s@),
            views(r@) == done,
        decreases rest@.len(),
    {
        let n = char_len(rest);
        if n == 0 {
            assert(done + split_lines(rest@) =~= done);
            return r;
        }
        proof { lemma_first_index(rest@, '\n'); }
        match find_char(rest, '\n') {
            None => {
                r.push(rest.to_owned());
                proof {
                    assert(views(r@) =~= done.push(rest@));
                    assert(done + split_lines(rest@) =~= done.push(rest@));
                }
                return r;
            },
            Some(k) => {
                let line = substring(rest, 0, k);
                let next = substring(rest, k + 1, n);
                r.push(line.to_owned());
                proof {
                    assert(views(r@) =~= done.push(line@));
                    assert(done + split_lines(rest@) =~= done.push(line@) + split_lines(next@));
                    done = done.push(line@);
                }
                rest = next;
            },
        }
    }
}

/// The leading run of non-whitespace characters of `s`.
pub open spec fn token_len(s: Seq<char>) -> nat
    decreases s.len(),
{
    if s.len() == 0 || is_ws(s[0]) {
        0
    } else {
        1 + token_len(s.drop_first())
    }
}

/// The second whitespace-separated word of `s`, as `s.split_whitespace().nth(1)` gives it.
pub open spec fn second_word(s: Seq<char>) -> Option<Seq<char>> {
    let a = trim_start(s);
    if a.len() == 0 {
        None
    } else {
        let b = trim_start(a.subrange(token_len(a) as int, a.len() as int));
        if b.len() == 0 {
            None
        } else {
            Some(b.subrange(0, token_len(b) as int))
        }
    }
}

proof fn lemma_token_len(s: Seq<char>)
    ensures
        token_len(s) <= s.len(),
        forall|j: int| 0 <= j < token_len(s) ==> !is_ws(#[trigger] s[j]),
        token_len(s) < s.len() ==> is_ws(s[token_len(s) as int]),
    decreases s.len(),
{
    if s.len() > 0 && !is_ws(s[0]) {
        lemma_token_len(s.drop_first());
        assert forall|j: int| 0 <= j < token_len(s) implies !is_ws(#[trigger] s[j]) by {
            if j > 0 {
                assert(s[j] == s.drop_first()[j - 1]);
            }
        }
    }
}

proof fn lemma_token_len_unique(s: Seq<char>, k: int)
    requires
        0 <= k <= s.len(),
        forall|j: int| 0 <= j < k ==> !is_ws(#[trigger] s[j]),
        k < s.len() ==> is_ws(s[k]),
    ensures
        token_len(s) == k,
    decreases k,
{
    if k > 0 {
        assert forall|j: int| 0 <= j < k - 1 implies !is_ws(#[trigger] s.drop_first()[j]) by {
            assert(s.drop_first()[j] == s[j + 1]);
        }
        lemma_token_len_unique(s.drop_first(), k - 1);
    }
}

fn skip_ws(s: &str) -> (r: &str)
    ensures
        r@ == trim_start(s@),
{
    let n = char_len(s);
    let mut i: usize = 0;
    while i < n && is_ws_exec(char_at(s, i))
        invariant
            n == s@.len(),
            i <= n,
            forall|j: int| 0 <= j < i ==> is_ws(#[trigger] s@[j]),
        decreases n - i,
    {
        i = i + 1;
    }
    proof {
        lemma_trim_start_skip(s@, i as int);
        let t = s@.subrange(i as int, n as int);
        if t.len() > 0 {
            assert(t[0] == s@[i as int]);
        }
    }
    substring(s, i, n)
}

fn token_end(s: &str) -> (k: usize)
    ensures
        k == token_len(s@),
{
    let n = char_len(s);
    let mut i: usize = 0;
    while i < n && !is_ws_exec(char_at(s, i))
        invariant
            n == s@.len(),
            i <= n,
            forall|j: int| 0 <= j < i ==> !is_ws(#[trigger] s@[j]),
        decreases n - i,
    {
        i = i + 1;
    }
    proof { lemma_token_len_unique(s@, i as int); }
    i
}

/// The second whitespace-separated word of `s` (see `second_word`).
pub fn second_word_of(s: &str) -> (r: Option<&str>)
    ensures
        match r {
            Some(w) => second_word(s@) == Some(w@),
            None => second_word(s@).is_none(),
        },
{
    let a = skip_ws(s);
    let an = char_len(a);
    if an == 0 {
        return None;
    }
    proof { lemma_token_len(a@); }
    let t = token_end(a);
    let b = skip_ws(substring(a, t, an));
    let bn = char_len(b);
    if bn == 0 {
        return None;
    }
    proof { lemma_token_len(b@); }
    let t2 = token_end(b);
    Some(substring(b, 0, t2))
}

/// The `w` lowest decimal digits of `f`, with leading zeros.
pub open spec fn pad_digits(f: nat, w: nat) -> Seq<char>
    decreases w,
{
    if w == 0 {
        Seq::empty()
    } else {
        pad_digits(f / 10, (w - 1) as nat).push(digit_char((f % 10) as int))
    }
}

/// `s` without its trailing zeros.
pub open spec fn strip_zeros(s: Seq<char>) -> Seq<char>
    decreases s.len(),
{
    if s.len() > 0 && s.last() == '0' {
        strip_zeros(s.drop_last())
    } else {
        s
    }
}

/// The shortest decimal rendering of `whole + frac / 10^w`: the whole part, and,
/// when the fraction is not zero, a point and its digits without trailing zeros.
pub open spec fn decimal_text(whole: nat, frac: nat, w: nat) -> Seq<char> {
    if frac == 0 {
        dec(whole)
    } else {
        dec(whole) + "."@ + strip_zeros(pad_digits(frac, w))
    }
}

fn pad_digits_exec(f: u64, w: u64) -> (s: String)
    ensures
        s@ == pad_digits(f as nat, w as nat),
    decreases w,
{
    if w == 0 {
        String::new()
    } else {
        let mut s = pad_digits_exec(f / 10, w - 1);
        s.append(digit_str(f % 10));
        s
    }
}

/// Renders `whole + frac / 10^w` (see `decimal_text`).
pub fn decimal_string(whole: u64, frac: u64, w: u64) -> (s: String)
    ensures
        s@ == decimal_text(whole as nat, frac as nat, w as nat),
{
    let mut s = u64_to_string(whole);
    if frac == 0 {
        return s;
    }
    let mut f: u64 = frac;
    let mut k: u64 = w;
    while f % 10 == 0 && k > 0
        invariant
            f > 0,
            strip_zeros(pad_digits(f as nat, k as nat)) == strip_zeros(pad_digits(frac as nat, w as nat)),
        decreases k,
    {
        assert(pad_digits(f as nat, k as nat).last() == '0');
        assert(pad_digits(f as nat, k as nat).drop_last() == pad_digits((f / 10) as nat, (k - 1) as nat));
        f = f / 10;
        k = k - 1;
    }
    let digits = pad_digits_exec(f, k);
    proof {
        if k > 0 {
            let d = (f % 10) as int;
            assert(d != 0);
            assert(digit_char(d) != '0');
            assert(pad_digits(f as nat, k as nat).last() == digit_char(d));
        }
        assert(strip_zeros(pad_digits(f as nat, k as nat)) == pad_digits(f as nat, k as nat));
        reveal_strlit(".");
    }
    s.append(".");
    s.append(digits.as_str());
    s
}

/// Renders a count of milliseconds as seconds, the way Rust displays
/// `Duration::as_secs_f64()`.
pub open spec fn secs_text(ms: nat) -> Seq<char> {
    decimal_text(ms / 1000, ms % 1000, 3)
}

/// Renders milliseconds as seconds (see `secs_text`).
pub fn secs_string(ms: u64) -> (s: String)
    ensures
        s@ == secs_text(ms as nat),
{
    decimal_string(ms / 1000, ms % 1000, 3)
}

/// Renders a count of hundredths, with a leading '-' when negative.
pub open spec fn centi_text(v: int) -> Seq<char> {
    let a: nat = if v < 0 { (-v) as nat } else { v as nat };
    if v < 0 {
        "-"@ + decimal_text(a / 100, a % 100, 2)
    } else {
        decimal_text(a / 100, a % 100, 2)
    }
}

/// Renders hundredths (see `centi_text`).
pub fn centi_string(v: i64) -> (s: String)
    requires
        v > i64::MIN,
    ensures
        s@ == centi_text(v as int),
{
    let a: u64 = if v < 0 { (-v) as u64 } else { v as u64 };
    let t = decimal_string(a / 100, a % 100, 2);
    if v < 0 {
        let mut s = "-".to_owned();
        s.append(t.as_str());
        s
    } else {
        t
    }
}


/// Every character of a decimal rendering is a digit, and there is at least one.
pub proof fn lemma_dec_digits(n: nat)
    ensures
        dec(n).len() >= 1,
        forall|i: int| 0 <= i < dec(n).len() ==> is_digit(#[trigger] dec(n)[i]),
    decreases n,
{
    if n >= 10 {
        lemma_dec_digits(n / 10);
        let d = dec(n / 10);
        assert forall|i: int| 0 <= i < dec(n).len() implies is_digit(#[trigger] dec(n)[i]) by {
            if i < d.len() {
                assert(dec(n)[i] == d[i]);
            }
        }
    }
}

/// Reading one more character after the others: an error stays, a digit
/// extends the value unless it overflows.
pub proof fn lemma_fold_u32_push(s: Seq<char>, c: char, acc: nat)
    requires
        acc <= u32::MAX,
    ensures
        fold_u32(s.push(c), acc) == match fold_u32(s, acc) {
            Ok(v) => if !is_digit(c) {
                Err(IntErrorKind::InvalidDigit)
            } else if v * 10 + digit_value(c) > u32::MAX {
                Err(IntErrorKind::PosOverflow)
            } else {
                Ok((v * 10 + digit_value(c)) as u32)
            },
            Err(e) => Err(e),
        },
    decreases s.len(),
{
    let sc = s.push(c);
    if s.len() == 0 {
        assert(sc[0] == c);
        assert(sc.drop_first().len() == 0);
        assert(fold_u32(s, acc) == Ok::<u32, IntErrorKind>(acc as u32));
        assert((acc as u32) as nat == acc);
        if is_digit(c) && acc * 10 + digit_value(c) <= u32::MAX {
            assert(fold_u32(sc, acc) == fold_u32(sc.drop_first(), acc * 10 + digit_value(c)));
        }
    } else {
        assert(sc[0] == s[0]);
        assert(sc.drop_first() =~= s.drop_first().push(c));
        if is_digit(s[0]) && acc * 10 + digit_value(s[0]) <= u32::MAX {
            lemma_fold_u32_push(s.drop_first(), c, acc * 10 + digit_value(s[0]));
        }
    }
}

/// A decimal rendering of a `u32` reads back as the number.
pub proof fn lemma_parse_dec(n: nat)
    requires
        n <= u32::MAX,
    ensures
        parse_u32_spec(dec(n)) == Ok::<u32, IntErrorKind>(n as u32),
        fold_u32(dec(n), 0) == Ok::<u32, IntErrorKind>(n as u32),
    decreases n,
{
    lemma_dec_digits(n);
    let d = dec(n);
    if n < 10 {
        let c = digit_char(n as int);
        assert(d == seq![c]);
        assert(digit_value(c) == n);
        assert(d[0] == c);
        assert(d.drop_first().len() == 0);
        assert(fold_u32(d.drop_first(), n) == Ok::<u32, IntErrorKind>(n as u32));
        assert(fold_u32(d, 0) == fold_u32(d.drop_first(), 0 * 10 + digit_value(c)));
    } else {
        lemma_parse_dec(n / 10);
        let c = digit_char((n % 10) as int);
        assert(digit_value(c) == n % 10);
        assert(d == dec(n / 10).push(c));
        lemma_fold_u32_push(dec(n / 10), c, 0);
        assert((n / 10) * 10 + n % 10 == n);
        assert(((n / 10) as u32) as nat == n / 10);
    }
    assert(fold_u32(d, 0) == Ok::<u32, IntErrorKind>(n as u32));
    assert(is_digit(d[0]));
    assert(d[0] != '+' && d[0] != '-');
}

/// A decimal rendering has no whitespace to trim.
pub proof fn lemma_trim_dec(n: nat)
    ensures
        trim(dec(n)) == dec(n),
{
    lemma_dec_digits(n);
    let d = dec(n);
    assert(!is_ws(d[0]));
    assert(trim_start(d) == d);
    assert(!is_ws(d.last()));
}

} // verus!
