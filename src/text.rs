//! Padding and truncation of strings, measured in characters.
use vstd::prelude::*;
use vstd::string::*;

verus! {

/// `n` space characters.
pub open spec fn spaces(n: nat) -> Seq<char> {
    Seq::new(n, |_i: int| ' ')
}

/// `s` cut down to at most `n` characters.
pub open spec fn truncated(s: Seq<char>, n: nat) -> Seq<char> {
    if s.len() > n {
        s.take(n as int)
    } else {
        s
    }
}

/// `s` filled with trailing spaces up to `n` characters; longer strings stay as they are.
pub open spec fn padded(s: Seq<char>, n: nat) -> Seq<char> {
    if s.len() < n {
        s + spaces((n - s.len()) as nat)
    } else {
        s
    }
}

/// `s` cut or filled with spaces to exactly `n` characters.
pub open spec fn fitted(s: Seq<char>, n: nat) -> Seq<char> {
    padded(truncated(s, n), n)
}

/// Relies on `str == str`: true exactly when both hold the same characters.
#[verifier::external_body]
pub(crate) fn str_eq(a: &str, b: &str) -> (r: bool)
    ensures
        r == (a@ == b@),
{
    a == b
}

/// What `str::to_uppercase` makes of a string.
pub uninterp spec fn uppercase_of(s: Seq<char>) -> Seq<char>;

/// Relies on `str::to_uppercase`: the result depends on the characters alone.
#[verifier::external_body]
pub fn to_uppercase(s: &str) -> (r: String)
    ensures
        r@ == uppercase_of(s@),
{
    s.to_uppercase()
}

/// The decimal digit for `d`, which is below ten.
pub open spec fn digit_char(d: nat) -> char {
    if d == 0 {
        '0'
    } else if d == 1 {
        '1'
    } else if d == 2 {
        '2'
    } else if d == 3 {
        '3'
    } else if d == 4 {
        '4'
    } else if d == 5 {
        '5'
    } else if d == 6 {
        '6'
    } else if d == 7 {
        '7'
    } else if d == 8 {
        '8'
    } else {
        '9'
    }
}

/// The decimal notation of `n`, without leading zeros.
pub open spec fn decimal(n: nat) -> Seq<char>
    decreases n,
{
    if n < 10 {
        seq![digit_char(n)]
    } else {
        decimal(n / 10).push(digit_char(n % 10))
    }
}

fn digit_str(d: u64) -> (r: &'static str)
    requires
        d < 10,
    ensures
        r@ == seq![digit_char(d as nat)],
{
    proof {
        reveal_strlit("0");
        reveal_strlit("1");
        reveal_strlit("2");
        reveal_strlit("3");
        reveal_strlit("4");
        reveal_strlit("5");
        reveal_strlit("6");
        reveal_strlit("7");
        reveal_strlit("8");
        reveal_strlit("9");
    }
    let r = if d == 0 {
        "0"
    } else if d == 1 {
        "1"
    } else if d == 2 {
        "2"
    } else if d == 3 {
        "3"
    } else if d == 4 {
        "4"
    } else if d == 5 {
        "5"
    } else if d == 6 {
        "6"
    } else if d == 7 {
        "7"
    } else if d == 8 {
        "8"
    } else {
        "9"
    };
    assert(r@ =~= seq![digit_char(d as nat)]);
    r
}

/// Appends the decimal notation of `n`.
pub fn push_decimal(out: &mut String, n: u64)
    ensures
        final(out)@ == old(out)@ + decimal(n as nat),
    decreases n,
{
    if n >= 10 {
        push_decimal(out, n / 10);
    }
    out.append(digit_str(n % 10));
    assert(final(out)@ =~= old(out)@ + decimal(n as nat));
}

/// Appends `n` spaces to `out`.
pub fn push_spaces(out: &mut String, n: usize)
    ensures
        final(out)@ == old(out)@ + spaces(n as nat),
{
    let mut i: usize = 0;
    while i < n
        invariant
            i <= n,
            out@ == old(out)@ + spaces(i as nat),
        decreases n - i,
    {
        proof {
            reveal_strlit(" ");
        }
        assert(" "@ =~= seq![' ']);
        out.append(" ");
        i = i + 1;
        assert(out@ =~= old(out)@ + spaces(i as nat));
    }
}

/// Cuts `string` to `length` characters or fills it with spaces up to
/// `length`; the result always has exactly `length` characters.
pub fn pad_len(string: &str, length: usize) -> (r: String)
    ensures
        r@ == fitted(string@, length as nat),
        r@.len() == length,
{
    let n = string.unicode_len();
    if n > length {
        let r = String::from_str(string.substring_char(0, length));
        assert(r@ =~= fitted(string@, length as nat));
        r
    } else {
        let mut r = String::from_str(string);
        push_spaces(&mut r, length - n);
        r
    }
}

/// Cuts `string` to at most `length` characters.
pub fn trunc(string: &str, length: usize) -> (r: String)
    ensures
        r@ == truncated(string@, length as nat),
        r@.len() <= length,
{
    let n = string.unicode_len();
    if n > length {
        String::from_str(string.substring_char(0, length))
    } else {
        String::from_str(string)
    }
}

/// Fills `string` with spaces up to `length` characters, leaving longer strings whole.
pub fn pad_to(string: &str, length: usize) -> (r: String)
    ensures
        r@ == padded(string@, length as nat),
{
    let n = string.unicode_len();
    let mut r = String::from_str(string);
    if n < length {
        push_spaces(&mut r, length - n);
    }
    r
}

/// The character count of the longest string in `s`, or 0 when `s` is empty.
pub open spec fn longest(s: Seq<Seq<char>>) -> nat
    decreases s.len(),
{
    if s.len() == 0 {
        0
    } else {
        let rest = longest(s.drop_last());
        if s.last().len() > rest {
            s.last().len()
        } else {
            rest
        }
    }
}

/// The characters of each string in `v`.
pub open spec fn views(v: Seq<String>) -> Seq<Seq<char>> {
    v.map_values(|x: String| x@)
}

/// The characters of the string of each pair in `v`.
pub open spec fn value_views<K>(v: Seq<(K, String)>) -> Seq<Seq<char>> {
    v.map_values(|x: (K, String)| x.1@)
}

proof fn lemma_longest_bound(s: Seq<Seq<char>>, i: int)
    requires
        0 <= i < s.len(),
    ensures
        s[i].len() <= longest(s),
    decreases s.len(),
{
    if i < s.len() - 1 {
        lemma_longest_bound(s.drop_last(), i);
    }
}

/// Pads every string of `values` with spaces to the length of the longest one.
pub fn pad_eq(values: &Vec<String>) -> (r: Vec<String>)
    ensures
        r@.len() == values@.len(),
        forall|i: int|
            0 <= i < r@.len() ==> #[trigger] r@[i]@ == padded(
                values@[i]@,
                longest(views(values@)),
            ),
        forall|i: int| 0 <= i < r@.len() ==> #[trigger] r@[i]@.len() == longest(views(values@)),
{
    let ghost vs = views(values@);
    let mut max: usize = 0;
    let mut i: usize = 0;
    while i < values.len()
        invariant
            i <= values@.len(),
            vs == views(values@),
            max == longest(vs.take(i as int)),
        decreases values@.len() - i,
    {
        let n = values[i].as_str().unicode_len();
        assert(vs.take(i as int + 1).drop_last() =~= vs.take(i as int));
        if n > max {
            max = n;
        }
        i = i + 1;
    }
    assert(vs.take(i as int) =~= vs);
    let mut r: Vec<String> = Vec::new();
    let mut j: usize = 0;
    while j < values.len()
        invariant
            j <= values@.len(),
            vs == views(values@),
            max == longest(vs),
            r@.len() == j,
            forall|k: int| 0 <= k < j ==> #[trigger] r@[k]@ == padded(values@[k]@, max as nat),
            forall|k: int| 0 <= k < j ==> #[trigger] r@[k]@.len() == max,
        decreases values@.len() - j,
    {
        proof {
            lemma_longest_bound(vs, j as int);
        }
        r.push(pad_to(values[j].as_str(), max));
        j = j + 1;
    }
    r
}

/// Cuts or pads every string of `values` to exactly `length` characters.
pub fn pad_to_len(values: &Vec<String>, length: usize) -> (r: Vec<String>)
    ensures
        r@.len() == values@.len(),
        forall|i: int| 0 <= i < r@.len() ==> #[trigger] r@[i]@ == fitted(values@[i]@, length as nat),
{
    let mut r: Vec<String> = Vec::new();
    let mut j: usize = 0;
    while j < values.len()
        invariant
            j <= values@.len(),
            r@.len() == j,
            forall|k: int| 0 <= k < j ==> #[trigger] r@[k]@ == fitted(values@[k]@, length as nat),
        decreases values@.len() - j,
    {
        r.push(pad_len(values[j].as_str(), length));
        j = j + 1;
    }
    r
}

/// Cuts or pads `string` to exactly `length` characters.
pub fn pad_string_to_length(string: String, length: usize) -> (r: String)
    ensures
        r@ == fitted(string@, length as nat),
        r@.len() == length,
{
    pad_len(string.as_str(), length)
}

/// Cuts or pads the string of every pair to exactly `length` characters,
/// keeping the keys and their order.
pub fn pad_strings_to_length<K>(strings: Vec<(K, String)>, length: usize) -> (r: Vec<(K, String)>)
    ensures
        r@.len() == strings@.len(),
        forall|i: int| 0 <= i < r@.len() ==> (#[trigger] r@[i]).0 == strings@[i].0,
        forall|i: int|
            0 <= i < r@.len() ==> (#[trigger] r@[i]).1@ == fitted(strings@[i].1@, length as nat),
{
    let ghost orig = strings@;
    let mut rest = strings;
    let mut r: Vec<(K, String)> = Vec::new();
    while rest.len() > 0
        invariant
            r@.len() + rest@.len() == orig.len(),
            rest@ == orig.skip(r@.len() as int),
            forall|k: int| 0 <= k < r@.len() ==> (#[trigger] r@[k]).0 == orig[k].0,
            forall|k: int| 0 <= k < r@.len() ==> (#[trigger] r@[k]).1@ == fitted(orig[k].1@, length as nat),
        decreases rest@.len(),
    {
        let ghost n = r@.len() as int;
        let (key, value) = rest.remove(0);
        assert(orig[n] == (key, value));
        assert(rest@ =~= orig.skip(n + 1));
        let padded_value = pad_len(value.as_str(), length);
        r.push((key, padded_value));
    }
    r
}

/// Pads the string of every pair with spaces to the length of the longest
/// one, keeping the keys and their order.
pub fn pad_strings_to_longest<K>(strings: Vec<(K, String)>) -> (r: Vec<(K, String)>)
    ensures
        r@.len() == strings@.len(),
        forall|i: int| 0 <= i < r@.len() ==> (#[trigger] r@[i]).0 == strings@[i].0,
        forall|i: int|
            0 <= i < r@.len() ==> (#[trigger] r@[i]).1@ == padded(
                strings@[i].1@,
                longest(value_views(strings@)),
            ),
{
    let ghost orig = strings@;
    let ghost vs = value_views(orig);
    let mut max: usize = 0;
    let mut i: usize = 0;
    while i < strings.len()
        invariant
            i <= strings@.len(),
            orig == strings@,
            vs == value_views(orig),
            max == longest(vs.take(i as int)),
        decreases strings@.len() - i,
    {
        let n = strings[i].1.as_str().unicode_len();
        assert(vs.take(i as int + 1).drop_last() =~= vs.take(i as int));
        if n > max {
            max = n;
        }
        i = i + 1;
    }
    assert(vs.take(i as int) =~= vs);
    let mut rest = strings;
    let mut r: Vec<(K, String)> = Vec::new();
    while rest.len() > 0
        invariant
            r@.len() + rest@.len() == orig.len(),
            rest@ == orig.skip(r@.len() as int),
            max == longest(vs),
            forall|k: int| 0 <= k < r@.len() ==> (#[trigger] r@[k]).0 == orig[k].0,
            forall|k: int| 0 <= k < r@.len() ==> (#[trigger] r@[k]).1@ == padded(orig[k].1@, max as nat),
        decreases rest@.len(),
    {
        let ghost n = r@.len() as int;
        let (key, value) = rest.remove(0);
        assert(orig[n] == (key, value));
        assert(rest@ =~= orig.skip(n + 1));
        let padded_value = pad_to(value.as_str(), max);
        r.push((key, padded_value));
    }
    r
}

} // verus!
