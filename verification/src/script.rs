//! The JavaScript snippets that the window hands to the page: the text of each, with the
//! numbers in it written in decimal as Rust's `Display` writes an `i32`.

use vstd::prelude::*;

verus! {

/// The character of a decimal digit `d`, for `0 <= d < 10`.
pub open spec fn digit_char(d: nat) -> char {
    (d + 48) as char
}

/// The decimal digits of `n`, most significant first, without leading zeros (`0` is `"0"`).
pub open spec fn decimal_nat(n: nat) -> Seq<char>
    decreases n,
{
    if n < 10 {
        seq![digit_char(n)]
    } else {
        decimal_nat(n / 10).push(digit_char(n % 10))
    }
}

/// An integer in decimal: a `-` before the digits of its magnitude when it is negative.
pub open spec fn decimal(v: int) -> Seq<char> {
    if v < 0 {
        seq!['-'] + decimal_nat((-v) as nat)
    } else {
        decimal_nat(v as nat)
    }
}

/// The text holds no NUL character, so it can be handed on as a C string.
pub open spec fn free_of_nul(s: Seq<char>) -> bool {
    forall|i: int| 0 <= i < s.len() ==> s[i] != '\0'
}

/// The script that tells the page where the IME candidate box goes: the area at `(x, y)`,
/// `width` wide and `height` high, in logical pixels.
pub open spec fn ime_cursor_text(x: int, y: int, width: int, height: int) -> Seq<char> {
    "Module.winit.setImeCursor("@ + decimal(x) + ", "@ + decimal(y) + ", "@ + decimal(width)
        + ", "@ + decimal(height) + ")"@
}

/// The script that turns the page's IME on or off.
pub open spec fn ime_allowed_text(allowed: bool) -> Seq<char> {
    if allowed {
        "Module.winit.allowIme(true)"@
    } else {
        "Module.winit.allowIme(false)"@
    }
}


/// A decimal digit character: `'0'` to `'9'`.
pub open spec fn is_digit(c: char) -> bool {
    48 <= c as int <= 57
}

/// The number that a string of decimal digits reads as, most significant digit first
/// (the empty string reads as 0).
pub open spec fn digits_value(s: Seq<char>) -> int
    decreases s.len(),
{
    if s.len() == 0 {
        0
    } else {
        10 * digits_value(s.drop_last()) + (s.last() as int - 48)
    }
}

/// A decimal numeral of a natural number: one or more digits, with no leading `'0'` unless
/// the numeral is `"0"` itself.
pub open spec fn is_numeral(s: Seq<char>) -> bool {
    &&& s.len() >= 1
    &&& forall|i: int| 0 <= i < s.len() ==> is_digit(#[trigger] s[i])
    &&& (s[0] == '0' ==> s.len() == 1)
}

/// A decimal numeral of an integer: a numeral, or `'-'` before the numeral of a positive number.
pub open spec fn is_signed_numeral(s: Seq<char>) -> bool {
    ||| is_numeral(s)
    ||| (s.len() >= 2 && s[0] == '-' && is_numeral(s.drop_first()) && s[1] != '0')
}

/// The integer that a signed numeral reads as.
pub open spec fn signed_value(s: Seq<char>) -> int {
    if s.len() > 0 && s[0] == '-' {
        -digits_value(s.drop_first())
    } else {
        digits_value(s)
    }
}

/// The decimal text of every natural number `n` is its numeral: digits only, no leading zero
/// unless `n` is 0, and the digits read back as `n`.
pub proof fn lemma_decimal_nat_is_numeral(n: nat)
    ensures
        is_numeral(decimal_nat(n)),
        digits_value(decimal_nat(n)) == n,
        n != 0 ==> decimal_nat(n)[0] != '0',
    decreases n,
{
    if n >= 10 {
        lemma_decimal_nat_is_numeral(n / 10);
        let s = decimal_nat(n / 10);
        let t = decimal_nat(n);
        assert(t == s.push(digit_char(n % 10)));
        assert(t.drop_last() =~= s);
        assert(t[0] == s[0]);
        assert(digit_char(n % 10) as int == n % 10 + 48);
        assert(t.last() == digit_char(n % 10));
        assert(digits_value(t) == 10 * digits_value(s) + (t.last() as int - 48));
        assert(n == 10 * (n / 10) + n % 10);
        assert forall|i: int| 0 <= i < t.len() implies is_digit(#[trigger] t[i]) by {
            if i < s.len() {
                assert(t[i] == s[i]);
            }
        }
    } else {
        assert(decimal_nat(n).drop_last() =~= Seq::<char>::empty());
        assert(digit_char(n) as int == n + 48);
        assert(digits_value(decimal_nat(n)) == 10 * digits_value(Seq::<char>::empty()) + (
        digit_char(n) as int - 48));
    }
}

/// The decimal text of every integer `v` is its signed numeral, and it reads back as `v`.
pub proof fn lemma_decimal_is_signed_numeral(v: int)
    ensures
        is_signed_numeral(decimal(v)),
        signed_value(decimal(v)) == v,
        (v < 0) == (decimal(v)[0] == '-'),
{
    if v < 0 {
        let m = (-v) as nat;
        lemma_decimal_nat_is_numeral(m);
        let d = decimal(v);
        assert(d.drop_first() =~= decimal_nat(m));
        assert(d[1] == decimal_nat(m)[0]);
    } else {
        lemma_decimal_nat_is_numeral(v as nat);
    }
}

/// The IME cursor script calls `Module.winit.setImeCursor` with exactly four arguments,
/// separated by `", "`, that are the numerals of `x`, `y`, `width` and `height`, in that order.
pub proof fn lemma_ime_cursor_text_arguments(x: int, y: int, width: int, height: int)
    ensures
        exists|a: Seq<char>, b: Seq<char>, c: Seq<char>, d: Seq<char>|
            {
                &&& is_signed_numeral(a) && signed_value(a) == x
                &&& is_signed_numeral(b) && signed_value(b) == y
                &&& is_signed_numeral(c) && signed_value(c) == width
                &&& is_signed_numeral(d) && signed_value(d) == height
                &&& #[trigger] ime_cursor_text(x, y, width, height) == "Module.winit.setImeCursor("@
                    + a + ", "@ + b + ", "@ + c + ", "@ + d + ")"@
            },
{
    lemma_decimal_is_signed_numeral(x);
    lemma_decimal_is_signed_numeral(y);
    lemma_decimal_is_signed_numeral(width);
    lemma_decimal_is_signed_numeral(height);
    let (a, b, c, d) = (decimal(x), decimal(y), decimal(width), decimal(height));
    assert(ime_cursor_text(x, y, width, height) == "Module.winit.setImeCursor("@ + a + ", "@ + b
        + ", "@ + c + ", "@ + d + ")"@);
}

proof fn lemma_decimal_nat_free_of_nul(n: nat)
    ensures
        free_of_nul(decimal_nat(n)),
        decimal_nat(n).len() >= 1,
    decreases n,
{
    if n >= 10 {
        lemma_decimal_nat_free_of_nul(n / 10);
    }
}

proof fn lemma_decimal_free_of_nul(v: int)
    ensures
        free_of_nul(decimal(v)),
{
    if v < 0 {
        lemma_decimal_nat_free_of_nul((-v) as nat);
        assert(free_of_nul(seq!['-'] + decimal_nat((-v) as nat)));
    } else {
        lemma_decimal_nat_free_of_nul(v as nat);
    }
}

proof fn lemma_concat_free_of_nul(a: Seq<char>, b: Seq<char>)
    requires
        free_of_nul(a),
        free_of_nul(b),
    ensures
        free_of_nul(a + b),
{
    assert forall|i: int| 0 <= i < (a + b).len() implies (a + b)[i] != '\0' by {
        if i < a.len() {
            assert((a + b)[i] == a[i]);
        } else {
            assert((a + b)[i] == b[i - a.len()]);
        }
    }
}

/// The one-character text of the decimal digit `d`.
fn digit_str(d: u32) -> (s: &'static str)
    requires
        d < 10,
    ensures
        s@ == seq![digit_char(d as nat)],
{
    proof {
        reveal_strlit("0");
        reveal_strlit("1");
        reveal_strlit("2");
        reveal_strlit("3");
        reveal_strlit("4");
        reveal_strlit("5");
        reveal_strlit("6");
        reveal_strlit("7");
        reveal_strlit("8");
        reveal_strlit("9");
    }
    match d {
        0 => "0",
        1 => "1",
        2 => "2",
        3 => "3",
        4 => "4",
        5 => "5",
        6 => "6",
        7 => "7",
        8 => "8",
        _ => "9",
    }
}

/// Appends the decimal digits of `n` to `out`.
fn push_decimal_u32(out: &mut String, n: u32)
    ensures
        final(out)@ == old(out)@ + decimal_nat(n as nat),
    decreases n,
{
    if n >= 10 {
        push_decimal_u32(out, n / 10);
    }
    out.append(digit_str(n % 10));
    assert(decimal_nat(n as nat) =~= if n < 10 {
        seq![digit_char(n as nat)]
    } else {
        decimal_nat((n / 10) as nat).push(digit_char((n % 10) as nat))
    });
}

/// Appends `v` in decimal to `out`.
fn push_decimal_i32(out: &mut String, v: i32)
    ensures
        final(out)@ == old(out)@ + decimal(v as int),
{
    if v < 0 {
        proof { reveal_strlit("-"); }
        out.append("-");
        let magnitude: u32 = (0i64 - (v as i64)) as u32;
        push_decimal_u32(out, magnitude);
        assert(out@ =~= old(out)@ + decimal(v as int));
    } else {
        push_decimal_u32(out, v as u32);
    }
}

/// The script that tells the page where the IME candidate box goes. It holds no NUL character.
pub fn ime_cursor_script(x: i32, y: i32, width: i32, height: i32) -> (script: String)
    ensures
        script@ == ime_cursor_text(x as int, y as int, width as int, height as int),
        free_of_nul(script@),
{
    let mut script = String::new();
    script.append("Module.winit.setImeCursor(");
    push_decimal_i32(&mut script, x);
    script.append(", ");
    push_decimal_i32(&mut script, y);
    script.append(", ");
    push_decimal_i32(&mut script, width);
    script.append(", ");
    push_decimal_i32(&mut script, height);
    script.append(")");
    assert(script@ =~= ime_cursor_text(x as int, y as int, width as int, height as int));
    proof {
        reveal_strlit("Module.winit.setImeCursor(");
        reveal_strlit(", ");
        reveal_strlit(")");
        let open_call: Seq<char> = "Module.winit.setImeCursor("@;
        let comma: Seq<char> = ", "@;
        let close: Seq<char> = ")"@;
        assert(free_of_nul(open_call));
        assert(free_of_nul(comma));
        assert(free_of_nul(close));
        lemma_decimal_free_of_nul(x as int);
        lemma_decimal_free_of_nul(y as int);
        lemma_decimal_free_of_nul(width as int);
        lemma_decimal_free_of_nul(height as int);
        lemma_concat_free_of_nul(open_call, decimal(x as int));
        lemma_concat_free_of_nul(open_call + decimal(x as int), comma);
        lemma_concat_free_of_nul(open_call + decimal(x as int) + comma, decimal(y as int));
        lemma_concat_free_of_nul(open_call + decimal(x as int) + comma + decimal(y as int), comma);
        lemma_concat_free_of_nul(
            open_call + decimal(x as int) + comma + decimal(y as int) + comma,
            decimal(width as int),
        );
        lemma_concat_free_of_nul(
            open_call + decimal(x as int) + comma + decimal(y as int) + comma + decimal(
                width as int,
            ),
            comma,
        );
        lemma_concat_free_of_nul(
            open_call + decimal(x as int) + comma + decimal(y as int) + comma + decimal(
                width as int,
            ) + comma,
            decimal(height as int),
        );
        lemma_concat_free_of_nul(
            open_call + decimal(x as int) + comma + decimal(y as int) + comma + decimal(
                width as int,
            ) + comma + decimal(height as int),
            close,
        );
    }
    script
}

/// The script that turns the page's IME on (`allowed`) or off. It holds no NUL character.
pub fn ime_allowed_script(allowed: bool) -> (script: &'static str)
    ensures
        script@ == ime_allowed_text(allowed),
        free_of_nul(script@),
{
    proof {
        reveal_strlit("Module.winit.allowIme(true)");
        reveal_strlit("Module.winit.allowIme(false)");
    }
    if allowed {
        "Module.winit.allowIme(true)"
    } else {
        "Module.winit.allowIme(false)"
    }
}

} // verus!
