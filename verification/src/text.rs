//! The texts that the library writes and reads: decimal numbers, quoted strings and
//! prefixes.

use vstd::prelude::*;

verus! {

/// The digit `d`, which is below ten.
pub open spec fn digit(d: int) -> char {
    (('0' as int) + d) as char
}

/// `n` in decimal, without leading zeros.
pub open spec fn decimal(n: nat) -> Seq<char>
    decreases n,
{
    if n < 10 {
        seq![digit(n as int)]
    } else {
        decimal(n / 10).push(digit((n % 10) as int))
    }
}

/// The text that `{:?}` writes for a string of characters `s`: `s` between double quotes,
/// with the characters that do not stand for themselves escaped.
pub uninterp spec fn quoted(s: Seq<char>) -> Seq<char>;

/// Whether `c` stands for itself between double quotes: a printable ASCII character that is
/// neither a double quote nor a backslash.
pub open spec fn is_plain_char(c: char) -> bool {
    32 <= c as int <= 126 && c != '"' && c != '\\'
}

/// Whether every character of `s` stands for itself between double quotes.
pub open spec fn is_plain(s: Seq<char>) -> bool {
    forall|i: int| 0 <= i < s.len() ==> is_plain_char(#[trigger] s[i])
}

/// `s` between double quotes.
pub open spec fn in_quotes(s: Seq<char>) -> Seq<char> {
    seq!['"'] + s + seq!['"']
}

/// The text that `{:?}` writes for `s`, spelled out where every character stands for itself.
pub open spec fn quotation(s: Seq<char>) -> Seq<char> {
    if is_plain(s) {
        in_quotes(s)
    } else {
        quoted(s)
    }
}

/// The characters of an optional string.
pub open spec fn text_of(o: Option<String>) -> Option<Seq<char>> {
    match o {
        Some(s) => Some(s@),
        None => None,
    }
}

/// The text that `{:?}` writes for an optional string.
pub open spec fn quoted_option(o: Option<Seq<char>>) -> Seq<char> {
    match o {
        Some(s) => "Some("@ + quotation(s) + ")"@,
        None => "None"@,
    }
}

/// Calls the `Debug` formatting of `str` in `std`. The contract claims that the text depends on
/// nothing but the characters of `s`, and that it is `s` between double quotes where `s` holds
/// printable ASCII characters only, without the double quote and the backslash. How the other
/// characters are escaped is left to the name `quoted`.
#[verifier::external_body]
fn quote(s: &str) -> (r: String)
    ensures
        r@ == quoted(s@),
        is_plain(s@) ==> r@ == in_quotes(s@),
{
    format!("{:?}", s)
}

/// The text that `{:?}` writes for an optional string.
pub fn quote_option(o: &Option<String>) -> (r: String)
    ensures
        r@ == quoted_option(text_of(*o)),
{
    match o {
        Some(s) => {
            let inner = quote(s.as_str());
            "Some(".to_string().concat(inner.as_str()).concat(")")
        },
        None => "None".to_string(),
    }
}

/// A copy of an optional string.
pub fn copy_text(o: &Option<String>) -> (r: Option<String>)
    ensures
        r == *o,
{
    match o {
        Some(s) => Some(s.clone()),
        None => None,
    }
}

/// The text that `{:?}` writes for a string.
pub fn quote_text(s: &String) -> (r: String)
    ensures
        r@ == quotation(s@),
{
    quote(s.as_str())
}

fn digit_text(d: u64) -> (r: String)
    requires
        d < 10,
    ensures
        r@ == seq![digit(d as int)],
{
    proof {
        reveal_strlit("0");
        reveal_strlit("1");
        reveal_strlit("2");
        reveal_strlit("3");
        reveal_strlit("4");
        reveal_strlit("5");
        reveal_strlit("6");
        reveal_strlit("7");
        reveal_strlit("8");
        reveal_strlit("9");
    }
    let s: &str = match d {
        0 => "0",
        1 => "1",
        2 => "2",
        3 => "3",
        4 => "4",
        5 => "5",
        6 => "6",
        7 => "7",
        8 => "8",
        _ => "9",
    };
    assert(s@ =~= seq![digit(d as int)]);
    s.to_string()
}

/// Writes `n` in decimal.
pub fn decimal_string(n: u64) -> (r: String)
    ensures
        r@ == decimal(n as nat),
    decreases n,
{
    if n < 10 {
        digit_text(n)
    } else {
        let last = digit_text(n % 10);
        let r = decimal_string(n / 10).concat(last.as_str());
        assert(r@ =~= decimal(n as nat));
        r
    }
}

/// Whether `s` begins with `prefix`.
pub fn starts_with(s: &str, prefix: &str) -> (r: bool)
    ensures
        r == prefix@.is_prefix_of(s@),
{
    let n: usize = prefix.unicode_len();
    if s.unicode_len() < n {
        return false;
    }
    let mut i: usize = 0;
    while i < n
        invariant
            n == prefix@.len(),
            n <= s@.len(),
            i <= n,
            forall|j: int| 0 <= j < i ==> s@[j] == prefix@[j],
        decreases n - i,
    {
        if s.get_char(i) != prefix.get_char(i) {
            return false;
        }
        i = i + 1;
    }
    assert(prefix@ =~= s@.subrange(0, n as int));
    true
}

/// Law: no two numbers have the same decimal text.
pub proof fn law_decimal_injective(a: nat, b: nat)
    requires
        decimal(a) == decimal(b),
    ensures
        a == b,
    decreases a,
{
    let da = decimal(a);
    let db = decimal(b);
    lemma_decimal_length(a);
    lemma_decimal_length(b);
    if a >= 10 && b >= 10 {
        assert(da.drop_last() =~= decimal(a / 10));
        assert(db.drop_last() =~= decimal(b / 10));
        law_decimal_injective(a / 10, b / 10);
        assert(da.last() == digit((a % 10) as int));
        assert(db.last() == digit((b % 10) as int));
    } else if a < 10 && b < 10 {
        assert(da[0] == digit(a as int));
        assert(db[0] == digit(b as int));
    }
}

/// Law: every character of a decimal text stands for itself between double quotes.
pub proof fn law_decimal_is_plain(n: nat)
    ensures
        is_plain(decimal(n)),
    decreases n,
{
    if n >= 10 {
        law_decimal_is_plain(n / 10);
    }
}

/// Whether the characters of `s` from `k` on stand for themselves.
pub open spec fn is_plain_from(s: Seq<char>, k: int) -> bool
    decreases s.len() - k,
{
    k >= s.len() || is_plain_char(s[k]) && is_plain_from(s, k + 1)
}

/// What holds of the characters from `k` on holds of each of them.
pub proof fn lemma_plain_from(s: Seq<char>, k: int)
    requires
        is_plain_from(s, k),
    ensures
        forall|i: int| k <= i < s.len() ==> is_plain_char(#[trigger] s[i]),
    decreases s.len() - k,
{
    if k < s.len() {
        lemma_plain_from(s, k + 1);
    }
}

proof fn lemma_decimal_length(n: nat)
    ensures
        n < 10 ==> decimal(n).len() == 1,
        n >= 10 ==> decimal(n).len() >= 2,
    decreases n,
{
    if n >= 10 {
        lemma_decimal_length(n / 10);
    }
}

/// The number that decimal digits stand for.
pub open spec fn number_of(s: Seq<char>) -> int
    decreases s.len(),
{
    if s.len() == 0 {
        0
    } else {
        10 * number_of(s.drop_last()) + (s.last() as int - 48)
    }
}

/// Law: a decimal text stands for its number, is made of the digits from 0 to 9 and has no
/// leading zero.
pub proof fn law_decimal_reads_back(n: nat)
    ensures
        number_of(decimal(n)) == n,
        decimal(n).len() > 0,
        forall|i: int| 0 <= i < decimal(n).len() ==> 48 <= #[trigger] decimal(n)[i] as int <= 57,
        n > 0 ==> decimal(n)[0] != '0',
    decreases n,
{
    reveal_with_fuel(number_of, 2);
    if n >= 10 {
        law_decimal_reads_back(n / 10);
        assert(decimal(n).drop_last() =~= decimal(n / 10));
    } else {
        assert(decimal(n).drop_last() =~= Seq::<char>::empty());
    }
}

/// Law: a plain text is quoted by one double quote before and one behind it, and nothing else.
pub proof fn law_quotation_of_plain_text(s: Seq<char>)
    requires
        forall|i: int|
            0 <= i < s.len() ==> 32 <= #[trigger] s[i] as int <= 126 && s[i] != '"' && s[i]
                != '\\',
    ensures
        quotation(s).len() == s.len() + 2,
        quotation(s).first() == '"',
        quotation(s).last() == '"',
        quotation(s).subrange(1, s.len() as int + 1) == s,
        quoted_option(None) == "None"@,
        quoted_option(Some(s)) == "Some("@ + quotation(s) + ")"@,
{
    assert(is_plain(s));
    assert(quotation(s).subrange(1, s.len() as int + 1) =~= s);
}

/// Law: an optional string has the characters of its string, and none where there is no string.
pub proof fn law_text_of(o: Option<String>)
    ensures
        text_of(o) is Some <==> o is Some,
        o is Some ==> text_of(o) == Some((o->0)@),
{
}

} // verus!
