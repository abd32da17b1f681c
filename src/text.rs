use vstd::prelude::*;

verus! {

/// The character of a decimal digit.
pub open spec fn digit_char(d: nat) -> char
    recommends
        d < 10,
{
    seq!['0', '1', '2', '3', '4', '5', '6', '7', '8', '9'][d as int]
}

/// The decimal notation of `n`, without sign or leading zeros.
pub open spec fn decimal(n: nat) -> Seq<char>
    decreases n,
{
    if n < 10 {
        seq![digit_char(n)]
    } else {
        decimal(n / 10) + seq![digit_char(n % 10)]
    }
}

/// The label of a texture id input: its name, a space, and the id in decimal.
pub open spec fn texture_id_text(param_name: Seq<char>, id: nat) -> Seq<char> {
    param_name + seq![' '] + decimal(id)
}

/// The caption of the `i`-th entry in the list of texture references.
pub open spec fn texture_reference_text(i: nat) -> Seq<char> {
    "Texture Reference here "@ + decimal(i)
}

fn digit_str(d: u32) -> (r: &'static str)
    requires
        d < 10,
    ensures
        r@ == seq![digit_char(d as nat)],
{
    proof {
        reveal_strlit("0");
        reveal_strlit("1");
        reveal_strlit("2");
        reveal_strlit("3");
        reveal_strlit("4");
        reveal_strlit("5");
        reveal_strlit("6");
        reveal_strlit("7");
        reveal_strlit("8");
        reveal_strlit("9");
    }
    let r = match d {
        0 => "0",
        1 => "1",
        2 => "2",
        3 => "3",
        4 => "4",
        5 => "5",
        6 => "6",
        7 => "7",
        8 => "8",
        _ => "9",
    };
    assert(r@ =~= seq![digit_char(d as nat)]);
    r
}

/// `n` in decimal notation.
pub fn decimal_string(n: u32) -> (r: String)
    ensures
        r@ == decimal(n as nat),
    decreases n,
{
    if n < 10 {
        String::from_str(digit_str(n))
    } else {
        let mut s = decimal_string(n / 10);
        s.append(digit_str(n % 10));
        s
    }
}

/// The label shown for a texture id input.
pub fn texture_id_label(param_name: &str, id: u32) -> (r: String)
    ensures
        r@ == texture_id_text(param_name@, id as nat),
{
    let mut s = String::from_str(param_name);
    s.append(" ");
    let digits = decimal_string(id);
    s.append(digits.as_str());
    proof {
        reveal_strlit(" ");
    }
    assert(s@ =~= texture_id_text(param_name@, id as nat));
    s
}

/// The caption of an entry in the list of texture references.
pub fn texture_reference_label(i: u32) -> (r: String)
    ensures
        r@ == texture_reference_text(i as nat),
{
    let mut s = String::from_str("Texture Reference here ");
    let digits = decimal_string(i);
    s.append(digits.as_str());
    s
}

} // verus!
