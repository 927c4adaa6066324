use vstd::prelude::*;

verus! {

/// The characters of each string of a sequence.
pub open spec fn texts(v: Seq<String>) -> Seq<Seq<char>> {
    v.map_values(|s: String| s@)
}

/// Relies on `String::push`: appends one character.
#[verifier::external_body]
pub(crate) fn push_char(s: &mut String, c: char)
    ensures
        final(s)@ == old(s)@.push(c),
{
    s.push(c)
}

/// Whether two strings hold the same characters.
pub fn same_text(a: &str, b: &str) -> (r: bool)
    ensures
        r == (a@ == b@),
{
    let x = a.to_owned();
    let y = b.to_owned();
    x == y
}


/// One hexadecimal digit, lower or upper case.
pub open spec fn hex_char(d: nat, upper: bool) -> char {
    if d < 10 {
        ((48 + d) as u8) as char
    } else if upper {
        ((55 + d) as u8) as char
    } else {
        ((87 + d) as u8) as char
    }
}

/// The last `k` hexadecimal digits of `n`, most significant first.
pub open spec fn hex_digits(n: nat, k: nat, upper: bool) -> Seq<char>
    decreases k,
{
    if k == 0 {
        seq![]
    } else {
        hex_digits(n / 16, (k - 1) as nat, upper).push(hex_char(n % 16, upper))
    }
}

fn hex_digit(d: u64, upper: bool) -> (c: char)
    requires
        d < 16,
    ensures
        c == hex_char(d as nat, upper),
{
    if d < 10 {
        ((48 + d) as u8) as char
    } else if upper {
        ((55 + d) as u8) as char
    } else {
        ((87 + d) as u8) as char
    }
}

/// Appends the last `width` hexadecimal digits of `n`, zero-padded.
pub fn push_hex(s: &mut String, n: u64, width: usize, upper: bool)
    requires
        width <= 16,
    ensures
        final(s)@ == old(s)@ + hex_digits(n as nat, width as nat, upper),
{
    let mut digits: Vec<char> = vec!['0'; width];
    let mut x: u64 = n;
    let mut i: usize = width;
    let ghost start = old(s)@;
    assert(digits@.subrange(width as int, width as int) =~= Seq::<char>::empty());
    while i > 0
        invariant
            i <= width,
            digits@.len() == width,
            hex_digits(n as nat, width as nat, upper) == hex_digits(x as nat, i as nat, upper)
                + digits@.subrange(i as int, width as int),
        decreases i,
    {
        let d = hex_digit(x % 16, upper);
        let ghost before = digits@;
        digits.set(i - 1, d);
        assert(digits@.subrange((i - 1) as int, width as int) =~= seq![d] + before.subrange(
            i as int,
            width as int,
        ));
        assert(hex_digits(x as nat, i as nat, upper) == hex_digits((x / 16) as nat, (i - 1) as nat, upper).push(d));
        assert(hex_digits((x / 16) as nat, (i - 1) as nat, upper).push(d) + before.subrange(
            i as int,
            width as int,
        ) =~= hex_digits((x / 16) as nat, (i - 1) as nat, upper) + digits@.subrange(
            (i - 1) as int,
            width as int,
        ));
        x = x / 16;
        i = i - 1;
    }
    assert(digits@.subrange(0, width as int) =~= digits@);
    assert(hex_digits(x as nat, 0, upper) =~= Seq::<char>::empty());
    assert(hex_digits(n as nat, width as nat, upper) =~= digits@);
    let mut j: usize = 0;
    while j < width
        invariant
            j <= width,
            digits@.len() == width,
            s@ == start + digits@.subrange(0, j as int),
        decreases width - j,
    {
        push_char(s, digits[j]);
        assert(digits@.subrange(0, j + 1) =~= digits@.subrange(0, j as int).push(digits@[j as int]));
        j = j + 1;
    }
    assert(digits@.subrange(0, width as int) =~= digits@);
}

/// `name` placed under the directory `dir`.
pub open spec fn joined(dir: Seq<char>, name: Seq<char>) -> Seq<char> {
    if dir.len() == 0 {
        name
    } else if dir.last() == '/' {
        dir + name
    } else {
        dir.push('/') + name
    }
}

/// Places `name` under the directory `dir`.
pub fn join_path(dir: &str, name: &str) -> (r: String)
    ensures
        r@ == joined(dir@, name@),
{
    let mut out = dir.to_owned();
    let n = dir.unicode_len();
    if n > 0 && dir.get_char(n - 1) != '/' {
        push_char(&mut out, '/');
    }
    out.append(name);
    out
}

/// The decimal digits of `n`, most significant first.
pub open spec fn decimal_digits(n: nat) -> Seq<char>
    decreases n,
{
    if n < 10 {
        seq![((48 + n) as u8) as char]
    } else {
        decimal_digits(n / 10).push(((48 + n % 10) as u8) as char)
    }
}

/// Appends the decimal digits of `n`.
pub fn push_decimal(s: &mut String, n: u64)
    ensures
        final(s)@ == old(s)@ + decimal_digits(n as nat),
    decreases n,
{
    if n >= 10 {
        push_decimal(s, n / 10);
    }
    let d = ((48 + n % 10) as u8) as char;
    push_char(s, d);
    assert(s@ =~= old(s)@ + decimal_digits(n as nat));
}

} // verus!
