use vstd::prelude::*;
use vstd::string::StringExecFns;

verus! {

/// The shape of a JSON value as this library writes it.
pub enum JsonModel {
    Null,
    Bool(bool),
    Str(Seq<char>),
    /// An object whose members all hold strings, in the order given.
    StrMap(Seq<(Seq<char>, Seq<char>)>),
}

/// The decimal digit of `n`.
pub open spec fn digit_char(n: int) -> char
    recommends
        0 <= n < 10,
{
    seq!['0', '1', '2', '3', '4', '5', '6', '7', '8', '9'][n]
}

/// The decimal digits of `n`, most significant first, without leading zeros.
pub open spec fn decimal_of(n: nat) -> Seq<char>
    decreases n,
{
    if n < 10 {
        seq![digit_char(n as int)]
    } else {
        decimal_of(n / 10).push(digit_char((n % 10) as int))
    }
}

/// The JSON string literal that serde_json writes for `s`, quotes included.
pub uninterp spec fn json_string_of(s: Seq<char>) -> Seq<char>;

/// `s` as a JSON string literal.
pub open spec fn quoted(s: Seq<char>) -> Seq<char> {
    json_string_of(s)
}

/// Relies on serde_json::to_string on a `str`: the escaped string literal. Serializing a `str`
/// fails only where the writer fails, and `to_string` writes into a `Vec<u8>`, which never does.
#[verifier::external_body]
fn json_string(s: &str) -> (r: String)
    ensures
        r@ == json_string_of(s@),
{
    serde_json::to_string(s).unwrap_or_default()
}

/// The members of an object of strings, without the braces.
pub open spec fn render_str_members(m: Seq<(Seq<char>, Seq<char>)>) -> Seq<char>
    decreases m.len(),
{
    if m.len() == 0 {
        Seq::empty()
    } else if m.len() == 1 {
        quoted(m[0].0) + seq![':'] + quoted(m[0].1)
    } else {
        render_str_members(m.drop_last()) + seq![','] + quoted(m.last().0) + seq![':'] + quoted(
            m.last().1,
        )
    }
}

/// The compact JSON text of a value.
pub open spec fn render_value(v: JsonModel) -> Seq<char> {
    match v {
        JsonModel::Null => "null"@,
        JsonModel::Bool(b) => if b {
            "true"@
        } else {
            "false"@
        },
        JsonModel::Str(s) => quoted(s),
        JsonModel::StrMap(m) => seq!['{'] + render_str_members(m) + seq!['}'],
    }
}

/// The members of an object, without the braces.
pub open spec fn render_members(m: Seq<(Seq<char>, JsonModel)>) -> Seq<char>
    decreases m.len(),
{
    if m.len() == 0 {
        Seq::empty()
    } else if m.len() == 1 {
        quoted(m[0].0) + seq![':'] + render_value(m[0].1)
    } else {
        render_members(m.drop_last()) + seq![','] + quoted(m.last().0) + seq![':'] + render_value(
            m.last().1,
        )
    }
}

/// The compact JSON text of an object with the given members, in order.
pub open spec fn render_object(m: Seq<(Seq<char>, JsonModel)>) -> Seq<char> {
    seq!['{'] + render_members(m) + seq!['}']
}

/// Relies on String::push: appends one character.
#[verifier::external_body]
pub(crate) fn push_char(s: &mut String, c: char)
    ensures
        final(s)@ == old(s)@.push(c),
{
    s.push(c)
}

/// The character `digit_char(n)`.
pub fn digit(n: u32) -> (c: char)
    requires
        n < 10,
    ensures
        c == digit_char(n as int),
{
    if n == 0 {
        '0'
    } else if n == 1 {
        '1'
    } else if n == 2 {
        '2'
    } else if n == 3 {
        '3'
    } else if n == 4 {
        '4'
    } else if n == 5 {
        '5'
    } else if n == 6 {
        '6'
    } else if n == 7 {
        '7'
    } else if n == 8 {
        '8'
    } else {
        '9'
    }
}

/// Appends the decimal digits of `n`.
pub fn push_decimal(out: &mut String, n: u64)
    ensures
        final(out)@ == old(out)@ + decimal_of(n as nat),
    decreases n,
{
    if n >= 10 {
        push_decimal(out, n / 10);
    }
    push_char(out, digit((n % 10) as u32));
    proof {
        if n >= 10 {
            assert(old(out)@ + decimal_of((n / 10) as nat) + seq![digit_char((n % 10) as int)]
                =~= old(out)@ + decimal_of(n as nat));
        } else {
            assert(old(out)@ + seq![digit_char((n % 10) as int)] =~= old(out)@ + decimal_of(
                n as nat,
            ));
        }
    }
}

/// Appends `s` as a JSON string literal, quotes included.
pub fn push_quoted(out: &mut String, s: &str)
    ensures
        final(out)@ == old(out)@ + quoted(s@),
{
    let q = json_string(s);
    out.append(q.as_str());
}

} // verus!
