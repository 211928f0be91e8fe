//! Text helpers over `str` and `String`: whitespace trimming, trailing-slash
//! removal and decimal rendering of integers, each stated over `Seq<char>`.

use vstd::prelude::*;

verus! {

/// The Unicode `White_Space` property, which is what `char::is_whitespace` tests.
pub open spec fn is_white_space(c: char) -> bool {
    let u = c as u32;
    ||| 0x9 <= u <= 0xd
    ||| u == 0x20
    ||| u == 0x85
    ||| u == 0xa0
    ||| u == 0x1680
    ||| 0x2000 <= u <= 0x200a
    ||| u == 0x2028
    ||| u == 0x2029
    ||| u == 0x202f
    ||| u == 0x205f
    ||| u == 0x3000
}

/// `s` without its leading whitespace.
pub open spec fn trim_start(s: Seq<char>) -> Seq<char>
    decreases s.len(),
{
    if s.len() > 0 && is_white_space(s[0]) {
        trim_start(s.drop_first())
    } else {
        s
    }
}

/// `s` without its trailing whitespace.
pub open spec fn trim_end(s: Seq<char>) -> Seq<char>
    decreases s.len(),
{
    if s.len() > 0 && is_white_space(s.last()) {
        trim_end(s.drop_last())
    } else {
        s
    }
}

/// `s` without leading and trailing whitespace, as `str::trim` gives it.
pub open spec fn trim(s: Seq<char>) -> Seq<char> {
    trim_end(trim_start(s))
}

/// `s` without the `'/'` characters at its end, as `trim_end_matches('/')` gives it.
pub open spec fn trim_trailing_slashes(s: Seq<char>) -> Seq<char>
    decreases s.len(),
{
    if s.len() > 0 && s.last() == '/' {
        trim_trailing_slashes(s.drop_last())
    } else {
        s
    }
}

/// The ASCII digit for `d`, which is below ten.
pub open spec fn digit_char(d: nat) -> char {
    (d + 48) as char
}

/// The decimal digits of `n`, most significant first, without leading zeros.
pub open spec fn nat_digits(n: nat) -> Seq<char>
    decreases n,
{
    if n < 10 {
        seq![digit_char(n)]
    } else {
        nat_digits(n / 10).push(digit_char(n % 10))
    }
}

/// The decimal rendering of `n`, with a leading `'-'` when it is negative.
pub open spec fn decimal(n: int) -> Seq<char> {
    if n < 0 {
        seq!['-'].add(nat_digits((-n) as nat))
    } else {
        nat_digits(n as nat)
    }
}

/// Whether `c` is whitespace in the sense of `char::is_whitespace`.
pub fn is_whitespace(c: char) -> (r: bool)
    ensures
        r == is_white_space(c),
{
    let u = c as u32;
    (0x9 <= u && u <= 0xd) || u == 0x20 || u == 0x85 || u == 0xa0 || u == 0x1680 || (0x2000 <= u
        && u <= 0x200a) || u == 0x2028 || u == 0x2029 || u == 0x202f || u == 0x205f || u == 0x3000
}

proof fn lemma_trim_start_at(s: Seq<char>, k: int)
    requires
        0 <= k <= s.len(),
        forall|i: int| 0 <= i < k ==> is_white_space(#[trigger] s[i]),
        k == s.len() || !is_white_space(s[k]),
    ensures
        trim_start(s) == s.subrange(k, s.len() as int),
    decreases k,
{
    if k == 0 {
        assert(s.subrange(0, s.len() as int) =~= s);
    } else {
        let t = s.drop_first();
        assert forall|i: int| 0 <= i < k - 1 implies is_white_space(#[trigger] t[i]) by {
            assert(t[i] == s[i + 1]);
        }
        if k < s.len() {
            assert(t[k - 1] == s[k]);
        }
        lemma_trim_start_at(t, k - 1);
        assert(t.subrange(k - 1, t.len() as int) =~= s.subrange(k, s.len() as int));
    }
}

proof fn lemma_trim_end_at(s: Seq<char>, j: int)
    requires
        0 <= j <= s.len(),
        forall|i: int| j <= i < s.len() ==> is_white_space(#[trigger] s[i]),
        j == 0 || !is_white_space(s[j - 1]),
    ensures
        trim_end(s) == s.subrange(0, j),
    decreases s.len() - j,
{
    if j == s.len() {
        assert(s.subrange(0, j) =~= s);
    } else {
        let t = s.drop_last();
        assert forall|i: int| j <= i < t.len() implies is_white_space(#[trigger] t[i]) by {
            assert(t[i] == s[i]);
        }
        if j > 0 {
            assert(t[j - 1] == s[j - 1]);
        }
        lemma_trim_end_at(t, j);
        assert(t.subrange(0, j) =~= s.subrange(0, j));
    }
}

/// The characters of `s`, in order.
fn chars_of(s: &str) -> (v: Vec<char>)
    ensures
        v@ == s@,
{
    let n = s.unicode_len();
    let mut v: Vec<char> = Vec::new();
    let mut i: usize = 0;
    while i < n
        invariant
            n == s@.len(),
            i <= n,
            v@ == s@.subrange(0, i as int),
        decreases n - i,
    {
        v.push(s.get_char(i));
        i = i + 1;
        assert(v@ =~= s@.subrange(0, i as int));
    }
    assert(v@ =~= s@);
    v
}

/// `s` without leading and trailing whitespace (`str::trim`).
pub fn trim_str(s: &str) -> (r: &str)
    ensures
        r@ == trim(s@),
{
    let v = chars_of(s);
    let n = v.len();
    let mut i: usize = 0;
    while i < n && is_whitespace(v[i])
        invariant
            v@ == s@,
            n == v@.len(),
            i <= n,
            forall|k: int| 0 <= k < i ==> is_white_space(#[trigger] s@[k]),
        decreases n - i,
    {
        i = i + 1;
    }
    proof {
        lemma_trim_start_at(s@, i as int);
    }
    let ghost t = s@.subrange(i as int, n as int);
    let mut j: usize = n;
    while j > i && is_whitespace(v[j - 1])
        invariant
            v@ == s@,
            n == v@.len(),
            i <= j <= n,
            t == s@.subrange(i as int, n as int),
            forall|k: int| j <= k < n ==> is_white_space(#[trigger] s@[k]),
        decreases j,
    {
        j = j - 1;
    }
    proof {
        assert forall|k: int| j - i <= k < t.len() implies is_white_space(#[trigger] t[k]) by {
            assert(t[k] == s@[k + i]);
        }
        if j > i {
            assert(t[j - i - 1] == s@[j - 1]);
        }
        lemma_trim_end_at(t, j - i);
        assert(t.subrange(0, j - i) =~= s@.subrange(i as int, j as int));
    }
    s.substring_char(i, j)
}

proof fn lemma_trim_trailing_slashes_at(s: Seq<char>, j: int)
    requires
        0 <= j <= s.len(),
        forall|i: int| j <= i < s.len() ==> #[trigger] s[i] == '/',
        j == 0 || s[j - 1] != '/',
    ensures
        trim_trailing_slashes(s) == s.subrange(0, j),
    decreases s.len() - j,
{
    if j == s.len() {
        assert(s.subrange(0, j) =~= s);
    } else {
        let t = s.drop_last();
        assert forall|i: int| j <= i < t.len() implies #[trigger] t[i] == '/' by {
            assert(t[i] == s[i]);
        }
        if j > 0 {
            assert(t[j - 1] == s[j - 1]);
        }
        lemma_trim_trailing_slashes_at(t, j);
        assert(t.subrange(0, j) =~= s.subrange(0, j));
    }
}

/// `s` without the `'/'` characters at its end, as an owned string.
pub fn trim_trailing_slashes_str(s: &str) -> (r: String)
    ensures
        r@ == trim_trailing_slashes(s@),
{
    let v = chars_of(s);
    let n = v.len();
    let mut j: usize = n;
    while j > 0 && v[j - 1] == '/'
        invariant
            v@ == s@,
            n == v@.len(),
            j <= n,
            forall|k: int| j <= k < n ==> #[trigger] s@[k] == '/',
        decreases j,
    {
        j = j - 1;
    }
    proof {
        lemma_trim_trailing_slashes_at(s@, j as int);
    }
    s.substring_char(0, j).to_owned()
}

proof fn lemma_trim_start_shape(s: Seq<char>)
    ensures
        trim_start(s).len() == 0 || !is_white_space(trim_start(s)[0]),
    decreases s.len(),
{
    if s.len() > 0 && is_white_space(s[0]) {
        lemma_trim_start_shape(s.drop_first());
    }
}

proof fn lemma_trim_end_shape(s: Seq<char>)
    ensures
        trim_end(s).len() <= s.len(),
        trim_end(s).len() == 0 || !is_white_space(trim_end(s).last()),
        trim_end(s) == s.subrange(0, trim_end(s).len() as int),
    decreases s.len(),
{
    if s.len() > 0 && is_white_space(s.last()) {
        lemma_trim_end_shape(s.drop_last());
        assert(trim_end(s) == trim_end(s.drop_last()));
        assert(s.drop_last().subrange(0, trim_end(s).len() as int) =~= s.subrange(
            0,
            trim_end(s).len() as int,
        ));
    } else {
        assert(s.subrange(0, s.len() as int) =~= s);
    }
}

/// Trimming twice trims no more than trimming once.
pub proof fn lemma_trim_idempotent(s: Seq<char>)
    ensures
        trim(trim(s)) == trim(s),
{
    let y = trim_start(s);
    let t = trim_end(y);
    lemma_trim_start_shape(s);
    lemma_trim_end_shape(y);
    if t.len() > 0 {
        assert(t[0] == y.subrange(0, t.len() as int)[0]);
    }
    assert(trim_start(t) == t);
    assert(trim_end(t) == t);
}

/// Removing trailing slashes twice removes no more than removing them once.
pub proof fn lemma_trim_trailing_slashes_idempotent(s: Seq<char>)
    ensures
        trim_trailing_slashes(trim_trailing_slashes(s)) == trim_trailing_slashes(s),
    decreases s.len(),
{
    if s.len() > 0 && s.last() == '/' {
        lemma_trim_trailing_slashes_idempotent(s.drop_last());
    }
}

/// One more slash at the end changes nothing once trailing slashes are removed.
pub proof fn lemma_trailing_slash_ignored(s: Seq<char>)
    ensures
        trim_trailing_slashes(s.push('/')) == trim_trailing_slashes(s),
{
    assert(s.push('/').drop_last() =~= s);
}

proof fn trim_start_index(s: Seq<char>) -> (k: int)
    ensures
        0 <= k <= s.len(),
        trim_start(s) == s.subrange(k, s.len() as int),
        forall|i: int| 0 <= i < k ==> is_white_space(#[trigger] s[i]),
        k < s.len() ==> !is_white_space(s[k]),
    decreases s.len(),
{
    if s.len() > 0 && is_white_space(s[0]) {
        let t = s.drop_first();
        let k1 = trim_start_index(t);
        assert forall|i: int| 0 <= i < k1 + 1 implies is_white_space(#[trigger] s[i]) by {
            if i > 0 {
                assert(s[i] == t[i - 1]);
            }
        }
        assert(t.subrange(k1, t.len() as int) =~= s.subrange(k1 + 1, s.len() as int));
        if k1 + 1 < s.len() {
            assert(s[k1 + 1] == t[k1]);
        }
        k1 + 1
    } else {
        assert(s.subrange(0, s.len() as int) =~= s);
        0
    }
}

proof fn trim_end_index(s: Seq<char>) -> (m: int)
    ensures
        0 <= m <= s.len(),
        trim_end(s) == s.subrange(0, m),
        forall|i: int| m <= i < s.len() ==> is_white_space(#[trigger] s[i]),
        m > 0 ==> !is_white_space(s[m - 1]),
    decreases s.len(),
{
    if s.len() > 0 && is_white_space(s.last()) {
        let t = s.drop_last();
        let m1 = trim_end_index(t);
        assert forall|i: int| m1 <= i < s.len() implies is_white_space(#[trigger] s[i]) by {
            if i < t.len() {
                assert(s[i] == t[i]);
            }
        }
        assert(t.subrange(0, m1) =~= s.subrange(0, m1));
        if m1 > 0 {
            assert(s[m1 - 1] == t[m1 - 1]);
        }
        m1
    } else {
        assert(s.subrange(0, s.len() as int) =~= s);
        s.len() as int
    }
}

/// Trimming cuts off the whitespace at both ends and nothing else: the result
/// is the run of `s` between its leading and its trailing whitespace, and it
/// neither starts nor ends with whitespace. It is empty exactly when `s` is
/// all whitespace.
pub proof fn lemma_trim_cuts_outer_whitespace(s: Seq<char>)
    ensures
        exists|i: int, j: int|
            {
                &&& 0 <= i <= j <= s.len()
                &&& trim(s) == s.subrange(i, j)
                &&& forall|k: int| 0 <= k < i ==> is_white_space(#[trigger] s[k])
                &&& forall|k: int| j <= k < s.len() ==> is_white_space(#[trigger] s[k])
                &&& i < j ==> !is_white_space(s[i]) && !is_white_space(s[j - 1])
            },
        trim(s).len() == 0 <==> forall|k: int| 0 <= k < s.len() ==> is_white_space(#[trigger] s[k]),
{
    let i = trim_start_index(s);
    let y = s.subrange(i, s.len() as int);
    let m = trim_end_index(y);
    let j = i + m;
    assert(y.subrange(0, m) =~= s.subrange(i, j));
    assert forall|k: int| j <= k < s.len() implies is_white_space(#[trigger] s[k]) by {
        assert(s[k] == y[k - i]);
    }
    if i < j {
        assert(s[i] == y[0]);
        assert(s[j - 1] == y[m - 1]);
    }
    if trim(s).len() == 0 {
        assert forall|k: int| 0 <= k < s.len() implies is_white_space(#[trigger] s[k]) by {
            if k >= i {
                assert(j == i);
            }
        }
    } else {
        assert(!is_white_space(s[i]));
    }
}

/// Removing trailing slashes keeps a prefix of `s`, cuts off only `'/'`
/// characters, and leaves no `'/'` at the end.
pub proof fn lemma_trim_trailing_slashes_cuts_slashes(s: Seq<char>)
    ensures
        trim_trailing_slashes(s).len() <= s.len(),
        trim_trailing_slashes(s) == s.subrange(0, trim_trailing_slashes(s).len() as int),
        forall|k: int|
            trim_trailing_slashes(s).len() <= k < s.len() ==> #[trigger] s[k] == '/',
        trim_trailing_slashes(s).len() > 0 ==> trim_trailing_slashes(s).last() != '/',
    decreases s.len(),
{
    if s.len() > 0 && s.last() == '/' {
        let t = s.drop_last();
        lemma_trim_trailing_slashes_cuts_slashes(t);
        let n = trim_trailing_slashes(s).len() as int;
        assert(t.subrange(0, n) =~= s.subrange(0, n));
        assert forall|k: int| n <= k < s.len() implies #[trigger] s[k] == '/' by {
            if k < t.len() {
                assert(s[k] == t[k]);
            }
        }
    } else {
        assert(s.subrange(0, s.len() as int) =~= s);
    }
}

/// The value that a run of ASCII decimal digits denotes.
pub open spec fn digits_value(s: Seq<char>) -> int
    decreases s.len(),
{
    if s.len() == 0 {
        0
    } else {
        digits_value(s.drop_last()) * 10 + (s.last() as int - 48)
    }
}

/// Whether `c` is an ASCII decimal digit.
pub open spec fn is_digit(c: char) -> bool {
    48 <= c as int <= 57
}

/// The digits of `n` are ASCII digits that denote `n`, with no leading zero.
pub proof fn lemma_nat_digits_denote(n: nat)
    ensures
        nat_digits(n).len() >= 1,
        forall|k: int| 0 <= k < nat_digits(n).len() ==> is_digit(#[trigger] nat_digits(n)[k]),
        digits_value(nat_digits(n)) == n,
        n > 0 ==> nat_digits(n)[0] != '0',
    decreases n,
{
    assert(digit_char(n % 10) as int == n % 10 + 48);
    if n < 10 {
        assert(nat_digits(n).drop_last() =~= Seq::<char>::empty());
        assert(digits_value(nat_digits(n).drop_last()) == 0);
    } else {
        lemma_nat_digits_denote(n / 10);
        let d = nat_digits(n);
        assert(d.last() == digit_char(n % 10));
        assert((n / 10) as int * 10 + n % 10 == n);
        assert(d.drop_last() =~= nat_digits(n / 10));
        assert(d[0] == nat_digits(n / 10)[0]);
        assert forall|k: int| 0 <= k < d.len() implies is_digit(#[trigger] d[k]) by {
            if k < d.len() - 1 {
                assert(d[k] == nat_digits(n / 10)[k]);
            }
        }
    }
}

/// The decimal rendering of `n` is its digits, after a `'-'` when `n` is
/// negative; the digits denote `|n|` with no leading zero.
pub proof fn lemma_decimal_denotes(n: int)
    ensures
        n >= 0 ==> digits_value(decimal(n)) == n && decimal(n).len() >= 1 && (forall|k: int|
            0 <= k < decimal(n).len() ==> is_digit(#[trigger] decimal(n)[k])),
        n < 0 ==> decimal(n).len() >= 2 && decimal(n)[0] == '-' && digits_value(
            decimal(n).drop_first(),
        ) == -n && (forall|k: int|
            1 <= k < decimal(n).len() ==> is_digit(#[trigger] decimal(n)[k])),
        n != 0 ==> decimal(n)[if n < 0 { 1int } else { 0int }] != '0',
{
    if n >= 0 {
        lemma_nat_digits_denote(n as nat);
    } else {
        lemma_nat_digits_denote((-n) as nat);
        let d = nat_digits((-n) as nat);
        assert(decimal(n).drop_first() =~= d);
        assert forall|k: int| 1 <= k < decimal(n).len() implies is_digit(#[trigger] decimal(n)[k]) by {
            assert(decimal(n)[k] == d[k - 1]);
        }
        assert(decimal(n)[1] == d[0]);
    }
}

/// Appends `c` to `s` (`String::push`).
#[verifier::external_body]
pub(crate) fn push_char(s: &mut String, c: char)
    ensures
        final(s)@ == old(s)@.push(c),
{
    s.push(c);
}

fn digit(d: u64) -> (c: char)
    requires
        d < 10,
    ensures
        c == digit_char(d as nat),
{
    let b: u8 = (d as u8) + 48;
    b as char
}

/// The decimal rendering of `n` (what `n.to_string()` gives).
pub fn decimal_string(n: i64) -> (s: String)
    ensures
        s@ == decimal(n as int),
{
    let negative = n < 0;
    let magnitude: u64 = if negative {
        (-(n as i128)) as u64
    } else {
        n as u64
    };
    let mut m: u64 = magnitude;
    let mut tail: Vec<char> = Vec::new();
    while m >= 10
        invariant
            nat_digits(magnitude as nat) == nat_digits(m as nat) + tail@,
        decreases m,
    {
        let d = digit(m % 10);
        let ghost before = tail@;
        tail.insert(0, d);
        assert(nat_digits(m as nat) == nat_digits((m / 10) as nat).push(d));
        assert(nat_digits(m as nat) + before =~= nat_digits((m / 10) as nat) + tail@);
        m = m / 10;
    }
    let mut s = String::new();
    if negative {
        push_char(&mut s, '-');
    }
    push_char(&mut s, digit(m));
    let ghost head = s@;
    let mut i: usize = 0;
    while i < tail.len()
        invariant
            i <= tail@.len(),
            s@ == head + tail@.subrange(0, i as int),
        decreases tail@.len() - i,
    {
        push_char(&mut s, tail[i]);
        i = i + 1;
        assert(s@ =~= head + tail@.subrange(0, i as int));
    }
    assert(tail@.subrange(0, tail@.len() as int) =~= tail@);
    proof {
        assert(nat_digits(m as nat) == seq![digit_char(m as nat)]);
        if negative {
            assert(s@ =~= seq!['-'].add(nat_digits(magnitude as nat)));
        } else {
            assert(s@ =~= nat_digits(magnitude as nat));
        }
    }
    s
}

} // verus!
