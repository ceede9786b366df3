use vstd::prelude::*;
use vstd::string::*;

verus! {

/// A character with the Unicode `White_Space` property.
pub open spec fn is_whitespace(c: char) -> bool {
    let u: u32 = c as u32;
    ||| 0x9 <= u <= 0xd
    ||| u == 0x20
    ||| u == 0x85
    ||| u == 0xa0
    ||| u == 0x1680
    ||| 0x2000 <= u <= 0x200a
    ||| u == 0x2028
    ||| u == 0x2029
    ||| u == 0x202f
    ||| u == 0x205f
    ||| u == 0x3000
}

/// Whether `c` has the Unicode `White_Space` property.
pub fn char_is_whitespace(c: char) -> (b: bool)
    ensures
        b == is_whitespace(c),
{
    let u: u32 = c as u32;
    (0x9 <= u && u <= 0xd) || u == 0x20 || u == 0x85 || u == 0xa0 || u == 0x1680 || (0x2000 <= u
        && u <= 0x200a) || u == 0x2028 || u == 0x2029 || u == 0x202f || u == 0x205f || u == 0x3000
}

/// The text without its leading whitespace.
pub open spec fn trim_start(s: Seq<char>) -> Seq<char>
    decreases s.len(),
{
    if s.len() > 0 && is_whitespace(s[0]) {
        trim_start(s.drop_first())
    } else {
        s
    }
}

/// The text without its trailing whitespace.
pub open spec fn trim_end(s: Seq<char>) -> Seq<char>
    decreases s.len(),
{
    if s.len() > 0 && is_whitespace(s.last()) {
        trim_end(s.drop_last())
    } else {
        s
    }
}

/// The text without its leading and trailing whitespace.
pub open spec fn trimmed(s: Seq<char>) -> Seq<char> {
    trim_end(trim_start(s))
}

/// The text without its leading and trailing whitespace.
pub fn trim(s: &str) -> (r: String)
    ensures
        r@ == trimmed(s@),
{
    let n: usize = s.unicode_len();
    let mut i: usize = 0;
    assert(s@.subrange(0, n as int) =~= s@);
    while i < n && char_is_whitespace(s.get_char(i))
        invariant
            n == s@.len(),
            i <= n,
            trim_start(s@) == trim_start(s@.subrange(i as int, n as int)),
        decreases n - i,
    {
        assert(s@.subrange(i as int, n as int).drop_first() =~= s@.subrange(i + 1, n as int));
        i = i + 1;
    }
    assert(trim_start(s@) == s@.subrange(i as int, n as int));
    let mut j: usize = n;
    while j > i && char_is_whitespace(s.get_char(j - 1))
        invariant
            n == s@.len(),
            i <= j <= n,
            trim_end(s@.subrange(i as int, n as int)) == trim_end(s@.subrange(i as int, j as int)),
        decreases j,
    {
        assert(s@.subrange(i as int, j as int).drop_last() =~= s@.subrange(i as int, j - 1));
        j = j - 1;
    }
    assert(trim_end(s@.subrange(i as int, j as int)) == s@.subrange(i as int, j as int));
    String::from_str(s.substring_char(i, j))
}

proof fn lemma_trim_start_index(s: Seq<char>) -> (i: int)
    ensures
        0 <= i <= s.len(),
        trim_start(s) == s.subrange(i, s.len() as int),
        forall|k: int| 0 <= k < i ==> is_whitespace(#[trigger] s[k]),
        i < s.len() ==> !is_whitespace(s[i]),
    decreases s.len(),
{
    if s.len() > 0 && is_whitespace(s[0]) {
        let i: int = lemma_trim_start_index(s.drop_first());
        assert(s.drop_first().subrange(i, s.drop_first().len() as int) =~= s.subrange(
            i + 1,
            s.len() as int,
        ));
        assert forall|k: int| 0 <= k < i + 1 implies is_whitespace(#[trigger] s[k]) by {
            if k > 0 {
                assert(s[k] == s.drop_first()[k - 1]);
            }
        }
        i + 1
    } else {
        assert(s.subrange(0, s.len() as int) =~= s);
        0
    }
}

proof fn lemma_trim_end_index(s: Seq<char>) -> (j: int)
    ensures
        0 <= j <= s.len(),
        trim_end(s) == s.subrange(0, j),
        forall|k: int| j <= k < s.len() ==> is_whitespace(#[trigger] s[k]),
        0 < j ==> !is_whitespace(s[j - 1]),
    decreases s.len(),
{
    if s.len() > 0 && is_whitespace(s.last()) {
        let j: int = lemma_trim_end_index(s.drop_last());
        assert(s.drop_last().subrange(0, j) =~= s.subrange(0, j));
        assert forall|k: int| j <= k < s.len() implies is_whitespace(#[trigger] s[k]) by {
            if k < s.len() - 1 {
                assert(s[k] == s.drop_last()[k]);
            }
        }
        j
    } else {
        assert(s.subrange(0, s.len() as int) =~= s);
        s.len() as int
    }
}

/// Trimming keeps a stretch of the text that neither begins nor ends with
/// whitespace, and cuts off only whitespace before and after it.
pub proof fn lemma_trimmed_shape(s: Seq<char>)
    ensures
        exists|i: int, j: int|
            0 <= i <= j <= s.len() && trimmed(s) == s.subrange(i, j) && (forall|k: int|
                0 <= k < i ==> is_whitespace(#[trigger] s[k])) && (forall|k: int|
                j <= k < s.len() ==> is_whitespace(#[trigger] s[k])) && (i < j ==> !is_whitespace(
                s[i],
            ) && !is_whitespace(s[j - 1])),
{
    let i: int = lemma_trim_start_index(s);
    let rest = s.subrange(i, s.len() as int);
    let m: int = lemma_trim_end_index(rest);
    let j: int = i + m;
    assert(rest.subrange(0, m) =~= s.subrange(i, j));
    assert forall|k: int| j <= k < s.len() implies is_whitespace(#[trigger] s[k]) by {
        assert(s[k] == rest[k - i]);
    }
    if i < j {
        assert(rest[0] == s[i]);
        assert(rest[m - 1] == s[j - 1]);
    }
}

/// What follows the last space of the text (all of it when it has no space).
pub open spec fn after_last_space(s: Seq<char>) -> Seq<char>
    decreases s.len(),
{
    if s.len() == 0 {
        s
    } else if s.last() == ' ' {
        Seq::empty()
    } else {
        after_last_space(s.drop_last()).push(s.last())
    }
}

proof fn lemma_after_last_space_split(s: Seq<char>, j: int)
    requires
        0 < j <= s.len(),
        s[j - 1] != ' ',
    ensures
        after_last_space(s.subrange(0, j)) + s.subrange(j, s.len() as int) == after_last_space(
            s.subrange(0, j - 1),
        ) + s.subrange(j - 1, s.len() as int),
{
    assert(s.subrange(0, j).drop_last() =~= s.subrange(0, j - 1));
    assert(after_last_space(s.subrange(0, j - 1)).push(s[j - 1]) + s.subrange(j, s.len() as int)
        =~= after_last_space(s.subrange(0, j - 1)) + s.subrange(j - 1, s.len() as int));
}

/// The last of the pieces that the text splits into at each space.
pub fn last_space_separated(s: &str) -> (r: String)
    ensures
        r@ == after_last_space(s@),
{
    let n: usize = s.unicode_len();
    let mut j: usize = n;
    assert(s@.subrange(0, n as int) =~= s@);
    while j > 0 && s.get_char(j - 1) != ' '
        invariant
            n == s@.len(),
            j <= n,
            after_last_space(s@) == after_last_space(s@.subrange(0, j as int)) + s@.subrange(
                j as int,
                n as int,
            ),
        decreases j,
    {
        proof {
            lemma_after_last_space_split(s@, j as int);
        }
        j = j - 1;
    }
    if j > 0 {
        assert(s@.subrange(0, j as int).last() == ' ');
    }
    assert(after_last_space(s@.subrange(0, j as int)) =~= Seq::<char>::empty());
    assert(after_last_space(s@) =~= s@.subrange(j as int, n as int));
    String::from_str(s.substring_char(j, n))
}

/// `prefix` is the beginning of `s`.
pub open spec fn has_prefix(s: Seq<char>, prefix: Seq<char>) -> bool {
    prefix.len() <= s.len() && s.subrange(0, prefix.len() as int) == prefix
}

/// `s` begins with `prefix` exactly when `prefix` is no longer than `s` and
/// every character of `prefix` is the character of `s` at the same position.
pub proof fn lemma_has_prefix_charwise(s: Seq<char>, prefix: Seq<char>)
    ensures
        has_prefix(s, prefix) <==> (prefix.len() <= s.len() && forall|k: int|
            0 <= k < prefix.len() ==> #[trigger] s[k] == prefix[k]),
{
    if prefix.len() <= s.len() && forall|k: int| 0 <= k < prefix.len() ==> #[trigger] s[k] == prefix[k] {
        assert(s.subrange(0, prefix.len() as int) =~= prefix);
    }
    if has_prefix(s, prefix) {
        assert forall|k: int| 0 <= k < prefix.len() implies #[trigger] s[k] == prefix[k] by {
            assert(s.subrange(0, prefix.len() as int)[k] == s[k]);
        }
    }
}

/// Whether `s` begins with `prefix`: whether `prefix` is no longer than `s`
/// and each of its characters is the character of `s` at the same position.
pub fn starts_with(s: &str, prefix: &str) -> (b: bool)
    ensures
        b == has_prefix(s@, prefix@),
        b <==> (prefix@.len() <= s@.len() && forall|k: int|
            0 <= k < prefix@.len() ==> #[trigger] s@[k] == prefix@[k]),
{
    proof {
        lemma_has_prefix_charwise(s@, prefix@);
    }
    let n: usize = s.unicode_len();
    let m: usize = prefix.unicode_len();
    if m > n {
        return false;
    }
    let mut i: usize = 0;
    while i < m
        invariant
            n == s@.len(),
            m == prefix@.len(),
            m <= n,
            i <= m,
            forall|k: int| 0 <= k < i ==> s@[k] == prefix@[k],
        decreases m - i,
    {
        if s.get_char(i) != prefix.get_char(i) {
            assert(s@.subrange(0, m as int)[i as int] != prefix@[i as int]);
            return false;
        }
        i = i + 1;
    }
    assert(s@.subrange(0, m as int) =~= prefix@);
    true
}

/// Whether the two texts are equal.
pub fn str_equal(a: &str, b: &str) -> (r: bool)
    ensures
        r == (a@ == b@),
{
    let n: usize = a.unicode_len();
    if n != b.unicode_len() {
        return false;
    }
    let mut i: usize = 0;
    while i < n
        invariant
            n == a@.len(),
            n == b@.len(),
            i <= n,
            forall|k: int| 0 <= k < i ==> a@[k] == b@[k],
        decreases n - i,
    {
        if a.get_char(i) != b.get_char(i) {
            return false;
        }
        i = i + 1;
    }
    assert(a@ =~= b@);
    true
}

/// The value of a nonempty run of decimal digits.
pub open spec fn digits_value(s: Seq<char>) -> int
    decreases s.len(),
{
    if s.len() == 0 {
        0
    } else {
        digits_value(s.drop_last()) * 10 + (s.last() as u32 - '0' as u32)
    }
}

/// Every character is a decimal digit.
pub open spec fn all_digits(s: Seq<char>) -> bool {
    forall|i: int| 0 <= i < s.len() ==> '0' <= #[trigger] s[i] && s[i] <= '9'
}

/// The digits that follow an optional leading sign.
pub open spec fn unsigned_part(s: Seq<char>) -> Seq<char> {
    if s.len() > 0 && (s[0] == '-' || s[0] == '+') {
        s.drop_first()
    } else {
        s
    }
}

/// The text reads as a decimal integer, as `i32::from_str` reads it: an
/// optional sign, then at least one digit and nothing else, in range.
pub open spec fn parse_i32(s: Seq<char>) -> Option<i32> {
    let body = unsigned_part(s);
    let negative = s.len() > 0 && s[0] == '-';
    let v: int = if negative { -digits_value(body) } else { digits_value(body) };
    if body.len() == 0 || !all_digits(body) || v < i32::MIN || v > i32::MAX {
        None
    } else {
        Some(v as i32)
    }
}

proof fn lemma_digits_value_grows(s: Seq<char>, i: int, j: int)
    requires
        0 <= i <= j <= s.len(),
        all_digits(s),
    ensures
        0 <= digits_value(s.subrange(0, i)) <= digits_value(s.subrange(0, j)),
    decreases j - i,
{
    if i < j {
        lemma_digits_value_grows(s, i, j - 1);
        assert(s.subrange(0, j).drop_last() =~= s.subrange(0, j - 1));
    } else {
        lemma_digits_value_nonneg(s, i);
    }
}

proof fn lemma_digits_value_nonneg(s: Seq<char>, i: int)
    requires
        0 <= i <= s.len(),
        all_digits(s),
    ensures
        0 <= digits_value(s.subrange(0, i)),
    decreases i,
{
    if i > 0 {
        lemma_digits_value_nonneg(s, i - 1);
        assert(s.subrange(0, i).drop_last() =~= s.subrange(0, i - 1));
    }
}

/// The decimal integer that the text reads as, as `i32::from_str` reads it.
pub fn parse_decimal_i32(s: &str) -> (r: Option<i32>)
    ensures
        r == parse_i32(s@),
{
    let n: usize = s.unicode_len();
    let mut start: usize = 0;
    let mut negative = false;
    if n > 0 {
        let c = s.get_char(0);
        if c == '-' {
            negative = true;
            start = 1;
        } else if c == '+' {
            start = 1;
        }
    }
    let ghost body = unsigned_part(s@);
    assert(body =~= s@.subrange(start as int, n as int));
    if start == n {
        return None;
    }
    let mut value: i64 = 0;
    let mut i: usize = start;
    while i < n
        invariant
            n == s@.len(),
            start <= i <= n,
            body == s@.subrange(start as int, n as int),
            body == unsigned_part(s@),
            negative == (s@.len() > 0 && s@[0] == '-'),
            forall|k: int| start <= k < i ==> '0' <= #[trigger] s@[k] && s@[k] <= '9',
            value == digits_value(s@.subrange(start as int, i as int)),
            0 <= value <= 0x8000_0000,
        decreases n - i,
    {
        let c = s.get_char(i);
        if c < '0' || c > '9' {
            assert(body[i - start] == c);
            assert(!all_digits(body));
            return None;
        }
        let d: i64 = (c as u32 - '0' as u32) as i64;
        assert(s@.subrange(start as int, i + 1).drop_last() =~= s@.subrange(start as int, i as int));
        let next: i64 = value * 10 + d;
        if next > 0x8000_0000 {
            proof {
                assert(all_digits(body.subrange(0, i + 1 - start))) by {
                    assert forall|k: int| 0 <= k < i + 1 - start implies '0' <= #[trigger] body.subrange(0, i + 1 - start)[k] && body.subrange(0, i + 1 - start)[k] <= '9' by {
                        assert(body.subrange(0, i + 1 - start)[k] == s@[start + k]);
                    }
                }
                let pre = body.subrange(0, i + 1 - start);
                assert(pre.subrange(0, i + 1 - start) =~= pre);
                assert(s@.subrange(start as int, i + 1) =~= pre);
                assert(pre.last() == c);
                assert(digits_value(pre) == next);
                if all_digits(body) {
                    lemma_digits_value_grows(body, i + 1 - start, body.len() as int);
                    assert(body.subrange(0, body.len() as int) =~= body);
                    assert(body.subrange(0, i + 1 - start) =~= pre);
                }
            }
            return None;
        }
        value = next;
        i = i + 1;
    }
    assert(all_digits(body));
    if negative {
        Some((-value) as i32)
    } else if value > 0x7fff_ffff {
        None
    } else {
        Some(value as i32)
    }
}

/// The decimal digit `d` as a character.
pub open spec fn digit_char(d: nat) -> char {
    ('0' as u32 + d) as char
}

/// The decimal digits of `n`, without leading zeros.
pub open spec fn nat_digits(n: nat) -> Seq<char>
    decreases n,
{
    if n < 10 {
        seq![digit_char(n)]
    } else {
        nat_digits(n / 10).push(digit_char(n % 10))
    }
}

/// `n` written in decimal, with a leading `-` when it is negative.
pub open spec fn decimal_text(n: int) -> Seq<char> {
    if n < 0 {
        seq!['-'] + nat_digits((-n) as nat)
    } else {
        nat_digits(n as nat)
    }
}

fn digit_text(d: u64) -> (r: &'static str)
    requires
        d < 10,
    ensures
        r@ == seq![digit_char(d as nat)],
{
    proof {
        reveal_strlit("0");
        reveal_strlit("1");
        reveal_strlit("2");
        reveal_strlit("3");
        reveal_strlit("4");
        reveal_strlit("5");
        reveal_strlit("6");
        reveal_strlit("7");
        reveal_strlit("8");
        reveal_strlit("9");
    }
    let r = match d {
        0 => "0",
        1 => "1",
        2 => "2",
        3 => "3",
        4 => "4",
        5 => "5",
        6 => "6",
        7 => "7",
        8 => "8",
        _ => "9",
    };
    assert(r@ =~= seq![digit_char(d as nat)]);
    r
}

proof fn lemma_nat_digits_len(n: nat)
    ensures
        nat_digits(n).len() >= 1,
        n < 10 ==> nat_digits(n).len() == 1,
        n >= 10 ==> nat_digits(n).len() == nat_digits(n / 10).len() + 1,
    decreases n,
{
    if n >= 10 {
        lemma_nat_digits_len(n / 10);
    }
}

fn write_nat(out: &mut String, n: u64)
    ensures
        final(out)@ == old(out)@ + nat_digits(n as nat),
    decreases n,
{
    if n < 10 {
        out.append(digit_text(n));
    } else {
        write_nat(out, n / 10);
        out.append(digit_text(n % 10));
        assert(old(out)@ + nat_digits((n / 10) as nat) + seq![digit_char((n % 10) as nat)]
            =~= old(out)@ + nat_digits(n as nat));
    }
}

/// `n` written in decimal, as `i32::to_string` writes it.
pub fn format_i32(n: i32) -> (r: String)
    ensures
        r@ == decimal_text(n as int),
{
    let mut out = String::new();
    let wide: i64 = n as i64;
    if wide < 0 {
        proof {
            reveal_strlit("-");
        }
        out.append("-");
        let magnitude: u64 = (-wide) as u64;
        write_nat(&mut out, magnitude);
        assert(out@ =~= seq!['-'] + nat_digits((-n) as nat));
    } else {
        write_nat(&mut out, wide as u64);
        assert(out@ =~= nat_digits(n as nat));
    }
    out
}

proof fn lemma_nat_digits_value(n: nat)
    ensures
        digits_value(nat_digits(n)) == n,
        all_digits(nat_digits(n)),
        nat_digits(n).len() >= 1,
        '0' <= nat_digits(n)[0] <= '9',
    decreases n,
{
    lemma_nat_digits_len(n);
    if n >= 10 {
        lemma_nat_digits_value(n / 10);
        let s = nat_digits(n);
        assert(s.drop_last() =~= nat_digits(n / 10));
        assert(n == (n / 10) * 10 + n % 10) by (nonlinear_arith);
        assert(s[0] == nat_digits(n / 10)[0]);
        assert(s.last() == digit_char(n % 10));
        assert(digit_char(n % 10) as u32 - '0' as u32 == n % 10);
        assert(digits_value(s) == digits_value(nat_digits(n / 10)) * 10 + n % 10);
        assert(digits_value(s) == n);
    } else {
        let s = nat_digits(n);
        assert(s.drop_last() =~= Seq::<char>::empty());
        assert(s.last() == digit_char(n));
        assert(digit_char(n) as u32 - '0' as u32 == n);
        assert(digits_value(Seq::<char>::empty()) == 0);
        assert(digits_value(s) == n);
    }
}

/// Reading back what `format_i32` writes gives the number written.
pub proof fn lemma_parse_formatted_i32(n: i32)
    ensures
        parse_i32(decimal_text(n as int)) == Some(n),
{
    if n < 0 {
        let m = (-n) as nat;
        lemma_nat_digits_value(m);
        let s = decimal_text(n as int);
        assert(s[0] == '-');
        assert(unsigned_part(s) =~= nat_digits(m));
    } else {
        lemma_nat_digits_value(n as nat);
    }
}

/// Text that neither begins nor ends with whitespace is its own trimmed form.
pub proof fn lemma_trimmed_unchanged(s: Seq<char>)
    requires
        s.len() > 0,
        !is_whitespace(s[0]),
        !is_whitespace(s.last()),
    ensures
        trimmed(s) == s,
{
}

} // verus!
