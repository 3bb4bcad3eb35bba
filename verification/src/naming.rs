//! Names of fuzzing states on disk.
//!
//! A coordinate `(2, 5)` is written `c2s5`: the letter `c`, the client round
//! in decimal, the letter `s`, the server round in decimal. A store may put a
//! prefix and a hyphen in front, as in `fitm-c2s5`. Different coordinates
//! never share a name.

use vstd::prelude::*;

verus! {

/// The character that writes the digit `d`.
pub open spec fn digit(d: nat) -> char
    recommends
        d < 10,
{
    if d == 0 {
        '0'
    } else if d == 1 {
        '1'
    } else if d == 2 {
        '2'
    } else if d == 3 {
        '3'
    } else if d == 4 {
        '4'
    } else if d == 5 {
        '5'
    } else if d == 6 {
        '6'
    } else if d == 7 {
        '7'
    } else if d == 8 {
        '8'
    } else {
        '9'
    }
}

/// Whether `c` is one of the ten decimal digits.
pub open spec fn is_digit(c: char) -> bool {
    '0' <= c <= '9'
}

/// Whether `name` holds no path separator.
pub open spec fn is_plain(name: Seq<char>) -> bool {
    forall|i: int| 0 <= i < name.len() ==> name[i] != '/'
}

/// The decimal numeral of `n`, without leading zeros.
pub open spec fn decimal(n: nat) -> Seq<char>
    decreases n,
{
    if n < 10 {
        seq![digit(n)]
    } else {
        decimal(n / 10).push(digit(n % 10))
    }
}

/// The name of a coordinate: `c<client_round>s<server_round>`.
pub open spec fn coordinate_name(state: (nat, nat)) -> Seq<char> {
    seq!['c'] + decimal(state.0) + seq!['s'] + decimal(state.1)
}

/// The name of a state: the coordinate's name, behind `prefix` and a hyphen
/// where a prefix is given.
pub open spec fn state_name_of(prefix: Option<Seq<char>>, state: (nat, nat)) -> Seq<char> {
    match prefix {
        Some(p) => p + seq!['-'] + coordinate_name(state),
        None => coordinate_name(state),
    }
}

/// The view of an optional prefix.
pub open spec fn prefix_view(prefix: Option<&str>) -> Option<Seq<char>> {
    match prefix {
        Some(p) => Some(p@),
        None => None,
    }
}

fn digit_str(d: u32) -> (s: &'static str)
    requires
        d < 10,
    ensures
        s@ == seq![digit(d as nat)],
{
    proof {
        reveal_strlit("0");
        reveal_strlit("1");
        reveal_strlit("2");
        reveal_strlit("3");
        reveal_strlit("4");
        reveal_strlit("5");
        reveal_strlit("6");
        reveal_strlit("7");
        reveal_strlit("8");
        reveal_strlit("9");
    }
    if d == 0 {
        "0"
    } else if d == 1 {
        "1"
    } else if d == 2 {
        "2"
    } else if d == 3 {
        "3"
    } else if d == 4 {
        "4"
    } else if d == 5 {
        "5"
    } else if d == 6 {
        "6"
    } else if d == 7 {
        "7"
    } else if d == 8 {
        "8"
    } else {
        "9"
    }
}

/// Writes `n` in decimal.
pub fn decimal_string(n: u32) -> (s: String)
    ensures
        s@ == decimal(n as nat),
    decreases n,
{
    if n < 10 {
        String::from_str(digit_str(n))
    } else {
        let mut s = decimal_string(n / 10);
        s.append(digit_str(n % 10));
        s
    }
}

/// Writes the name of the state at `state`: `c<client_round>s<server_round>`,
/// behind `prefix` and a hyphen where a prefix is given.
pub fn state_name(prefix: Option<&str>, state: (u32, u32)) -> (name: String)
    ensures
        name@ == state_name_of(prefix_view(prefix), (state.0 as nat, state.1 as nat)),
{
    proof {
        reveal_strlit("-");
        reveal_strlit("c");
        reveal_strlit("s");
    }
    let mut name = String::new();
    match prefix {
        Some(p) => {
            name.append(p);
            name.append("-");
        },
        None => {},
    }
    let client = decimal_string(state.0);
    let server = decimal_string(state.1);
    name.append("c");
    name.append(client.as_str());
    name.append("s");
    name.append(server.as_str());
    name
}

/// A decimal numeral is made of digits, at least one.
pub proof fn lemma_decimal_is_digits(n: nat)
    ensures
        decimal(n).len() >= 1,
        n >= 10 ==> decimal(n).len() >= 2,
        forall|i: int| 0 <= i < decimal(n).len() ==> is_digit(#[trigger] decimal(n)[i]),
    decreases n,
{
    if n >= 10 {
        lemma_decimal_is_digits(n / 10);
    }
}

/// A coordinate's name is made of the letters `c` and `s` and of digits.
pub proof fn lemma_coordinate_name_is_letters_and_digits(state: (nat, nat))
    ensures
        forall|i: int|
            0 <= i < coordinate_name(state).len() ==> {
                let ch = #[trigger] coordinate_name(state)[i];
                ch == 'c' || ch == 's' || is_digit(ch)
            },
{
    lemma_decimal_is_digits(state.0);
    lemma_decimal_is_digits(state.1);
    let name = coordinate_name(state);
    let k = decimal(state.0).len() as int;
    assert forall|i: int| 0 <= i < name.len() implies ({
        let ch = #[trigger] name[i];
        ch == 'c' || ch == 's' || is_digit(ch)
    }) by {
        if 1 <= i < 1 + k {
            assert(name[i] == decimal(state.0)[i - 1]);
        } else if i >= 2 + k {
            assert(name[i] == decimal(state.1)[i - 2 - k]);
        }
    }
}

/// A state's name holds no path separator, unless its prefix brings one.
pub proof fn lemma_state_name_is_plain(prefix: Option<Seq<char>>, state: (nat, nat))
    requires
        prefix matches Some(p) ==> is_plain(p),
    ensures
        is_plain(state_name_of(prefix, state)),
{
    lemma_coordinate_name_is_letters_and_digits(state);
    let coordinate = coordinate_name(state);
    let name = state_name_of(prefix, state);
    assert forall|i: int| 0 <= i < name.len() implies name[i] != '/' by {
        match prefix {
            Some(p) => {
                if i > p.len() {
                    assert(name[i] == coordinate[i - p.len() - 1]);
                }
            },
            None => {
                assert(name[i] == coordinate[i]);
            },
        }
    }
}

/// Different numbers have different decimal numerals.
pub proof fn lemma_decimal_injective(a: nat, b: nat)
    requires
        decimal(a) == decimal(b),
    ensures
        a == b,
    decreases a,
{
    lemma_decimal_is_digits(a);
    lemma_decimal_is_digits(b);
    if a < 10 {
        assert(decimal(a)[0] == digit(a));
        assert(decimal(b)[0] == digit(b));
    } else {
        assert(decimal(a).last() == digit(a % 10));
        assert(decimal(b).last() == digit(b % 10));
        assert(decimal(a).drop_last() =~= decimal(a / 10));
        assert(decimal(b).drop_last() =~= decimal(b / 10));
        lemma_decimal_injective(a / 10, b / 10);
    }
}

/// Different coordinates have different names.
pub proof fn lemma_coordinate_name_injective(a: (nat, nat), b: (nat, nat))
    requires
        coordinate_name(a) == coordinate_name(b),
    ensures
        a == b,
{
    let na = coordinate_name(a);
    let nb = coordinate_name(b);
    let ka = decimal(a.0).len() as int;
    let kb = decimal(b.0).len() as int;
    lemma_decimal_is_digits(a.0);
    lemma_decimal_is_digits(b.0);
    // The letter `s` stands behind the client round in both names, and no
    // numeral holds it: the two client numerals are equally long.
    assert(na[1 + ka] == 's');
    assert(nb[1 + kb] == 's');
    if ka < kb {
        assert(nb[1 + ka] == decimal(b.0)[ka]);
    }
    if kb < ka {
        assert(na[1 + kb] == decimal(a.0)[kb]);
    }
    assert(ka == kb);
    assert(decimal(a.0) =~= na.subrange(1, 1 + ka));
    assert(decimal(b.0) =~= nb.subrange(1, 1 + kb));
    assert(decimal(a.1) =~= na.subrange(2 + ka, na.len() as int));
    assert(decimal(b.1) =~= nb.subrange(2 + kb, nb.len() as int));
    lemma_decimal_injective(a.0, b.0);
    lemma_decimal_injective(a.1, b.1);
}

/// Under one prefix, or under none, different coordinates have different
/// state names.
pub proof fn lemma_state_name_injective(prefix: Option<Seq<char>>, a: (nat, nat), b: (nat, nat))
    requires
        state_name_of(prefix, a) == state_name_of(prefix, b),
    ensures
        a == b,
{
    match prefix {
        Some(p) => {
            let na = state_name_of(prefix, a);
            let nb = state_name_of(prefix, b);
            let k = p.len() as int + 1;
            assert(coordinate_name(a) =~= na.subrange(k, na.len() as int));
            assert(coordinate_name(b) =~= nb.subrange(k, nb.len() as int));
        },
        None => {},
    }
    lemma_coordinate_name_injective(a, b);
}

} // verus!
