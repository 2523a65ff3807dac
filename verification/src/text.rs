//! Text encodings that the wire format uses for numbers and lists.

use vstd::prelude::*;
use vstd::string::StringExecFns;

verus! {

/// The character that stands for the decimal digit `d`.
pub open spec fn digit(d: nat) -> char
    recommends
        d < 10,
{
    if d == 0 {
        '0'
    } else if d == 1 {
        '1'
    } else if d == 2 {
        '2'
    } else if d == 3 {
        '3'
    } else if d == 4 {
        '4'
    } else if d == 5 {
        '5'
    } else if d == 6 {
        '6'
    } else if d == 7 {
        '7'
    } else if d == 8 {
        '8'
    } else {
        '9'
    }
}

/// The decimal numeral of `n`: most significant digit first, no leading zero
/// but for zero itself.
pub open spec fn decimal(n: nat) -> Seq<char>
    decreases n,
{
    if n < 10 {
        seq![digit(n)]
    } else {
        decimal(n / 10).push(digit(n % 10))
    }
}

/// A numeral has at least one digit.
proof fn lemma_decimal_is_not_empty(n: nat)
    ensures
        decimal(n).len() >= 1,
    decreases n,
{
    if n >= 10 {
        lemma_decimal_is_not_empty(n / 10);
    }
}

/// The digit tells the number below ten.
proof fn lemma_digit_tells_number(a: nat, b: nat)
    requires
        a < 10,
        b < 10,
        digit(a) == digit(b),
    ensures
        a == b,
{
}

/// The numeral tells the number: two numbers with the same decimal numeral
/// are the same number.
pub proof fn lemma_decimal_tells_number(a: nat, b: nat)
    requires
        decimal(a) == decimal(b),
    ensures
        a == b,
    decreases a,
{
    if a < 10 && b < 10 {
        assert(decimal(a) == seq![digit(a)]);
        assert(decimal(b) == seq![digit(b)]);
        assert(seq![digit(a)][0] == seq![digit(b)][0]);
        lemma_digit_tells_number(a, b);
    } else if a < 10 {
        lemma_decimal_is_not_empty(b / 10);
        assert(decimal(a).len() == 1);
        assert(decimal(b).len() == decimal(b / 10).len() + 1);
    } else if b < 10 {
        lemma_decimal_is_not_empty(a / 10);
        assert(decimal(b).len() == 1);
        assert(decimal(a).len() == decimal(a / 10).len() + 1);
    } else {
        let front_a = decimal(a / 10);
        let front_b = decimal(b / 10);
        assert(decimal(a) == front_a.push(digit(a % 10)));
        assert(decimal(b) == front_b.push(digit(b % 10)));
        assert(decimal(a).last() == digit(a % 10));
        assert(decimal(b).last() == digit(b % 10));
        assert(front_a =~= decimal(a).drop_last());
        assert(front_b =~= decimal(b).drop_last());
        lemma_decimal_tells_number(a / 10, b / 10);
        lemma_digit_tells_number(a % 10, b % 10);
        assert(a == 10 * (a / 10) + a % 10);
        assert(b == 10 * (b / 10) + b % 10);
    }
}

/// `parts` written one after the other with `separator` between neighbours.
pub open spec fn joined(parts: Seq<Seq<char>>, separator: Seq<char>) -> Seq<char>
    decreases parts.len(),
{
    if parts.len() == 0 {
        Seq::empty()
    } else if parts.len() == 1 {
        parts[0]
    } else {
        joined(parts.drop_last(), separator) + separator + parts.last()
    }
}

/// The comma that separates the names of a list on the wire.
pub open spec fn comma() -> Seq<char> {
    seq![',']
}

/// The texts of a list of strings.
pub open spec fn texts(strings: Seq<String>) -> Seq<Seq<char>> {
    strings.map_values(|s: String| s@)
}

/// The text of an optional string.
pub open spec fn optional_text(string: Option<String>) -> Option<Seq<char>> {
    match string {
        Some(s) => Some(s@),
        None => None,
    }
}

fn digit_text(d: u64) -> (text: &'static str)
    requires
        d < 10,
    ensures
        text@ == seq![digit(d as nat)],
{
    proof {
        reveal_strlit("0");
        reveal_strlit("1");
        reveal_strlit("2");
        reveal_strlit("3");
        reveal_strlit("4");
        reveal_strlit("5");
        reveal_strlit("6");
        reveal_strlit("7");
        reveal_strlit("8");
        reveal_strlit("9");
    }
    let text = if d == 0 {
        "0"
    } else if d == 1 {
        "1"
    } else if d == 2 {
        "2"
    } else if d == 3 {
        "3"
    } else if d == 4 {
        "4"
    } else if d == 5 {
        "5"
    } else if d == 6 {
        "6"
    } else if d == 7 {
        "7"
    } else if d == 8 {
        "8"
    } else {
        "9"
    };
    assert(text@ =~= seq![digit(d as nat)]);
    text
}

/// Writes `n` as a decimal numeral.
pub fn decimal_string(n: u64) -> (text: String)
    ensures
        text@ == decimal(n as nat),
    decreases n,
{
    if n < 10 {
        String::from_str(digit_text(n))
    } else {
        let mut text = decimal_string(n / 10);
        text.append(digit_text(n % 10));
        assert(text@ =~= decimal((n / 10) as nat).push(digit((n % 10) as nat)));
        text
    }
}

/// Joins `names` into one string, with a comma between neighbours.
pub fn join_with_commas(names: &Vec<String>) -> (text: String)
    ensures
        text@ == joined(texts(names@), comma()),
{
    let mut text = String::new();
    let mut i: usize = 0;
    while i < names.len()
        invariant
            i <= names.len(),
            text@ == joined(texts(names@).take(i as int), comma()),
        decreases names.len() - i,
    {
        let ghost before = texts(names@).take(i as int);
        let ghost after = texts(names@).take(i + 1);
        proof {
            reveal_strlit(",");
            assert(after.drop_last() =~= before);
            assert(after.last() == names@[i as int]@);
        }
        if i > 0 {
            text.append(",");
            assert(","@ =~= comma());
        }
        text.append(names[i].as_str());
        proof {
            if i == 0 {
                assert(before.len() == 0);
                assert(text@ =~= names@[0]@);
            }
        }
        i += 1;
    }
    assert(texts(names@).take(names.len() as int) =~= texts(names@));
    text
}

/// `name` holds no comma.
pub open spec fn comma_free(name: Seq<char>) -> bool {
    forall|i: int| 0 <= i < name.len() ==> name[i] != ','
}

/// The list can be read back from its joined form: no name holds a comma,
/// and the list is not the one empty name, which joins to the same text as
/// the empty list.
pub open spec fn names_separable(names: Seq<Seq<char>>) -> bool {
    &&& forall|i: int| 0 <= i < names.len() ==> comma_free(#[trigger] names[i])
    &&& !(names.len() == 1 && names[0].len() == 0)
}

/// The joined form of two or more names ends with a comma and the last name.
proof fn lemma_joined_ends_with_last(names: Seq<Seq<char>>)
    requires
        names.len() >= 2,
    ensures
        joined(names, comma()) == joined(names.drop_last(), comma()) + comma() + names.last(),
        joined(names, comma()).len() == joined(names.drop_last(), comma()).len() + 1
            + names.last().len(),
        joined(names, comma())[joined(names.drop_last(), comma()).len() as int] == ',',
{
}

/// Among lists of one or more names without commas, the joined form tells the
/// list.
proof fn lemma_joined_tells_nonempty_list(a: Seq<Seq<char>>, b: Seq<Seq<char>>)
    requires
        a.len() >= 1,
        b.len() >= 1,
        forall|i: int| 0 <= i < a.len() ==> comma_free(#[trigger] a[i]),
        forall|i: int| 0 <= i < b.len() ==> comma_free(#[trigger] b[i]),
        joined(a, comma()) == joined(b, comma()),
    ensures
        a == b,
    decreases a.len(),
{
    let text = joined(a, comma());
    if a.len() == 1 && b.len() == 1 {
        assert(a =~= b);
    } else if a.len() == 1 {
        lemma_joined_ends_with_last(b);
        assert(comma_free(a[0]));
    } else if b.len() == 1 {
        lemma_joined_ends_with_last(a);
        assert(comma_free(b[0]));
    } else {
        lemma_joined_ends_with_last(a);
        lemma_joined_ends_with_last(b);
        let front_a = joined(a.drop_last(), comma());
        let front_b = joined(b.drop_last(), comma());
        assert(comma_free(a.last()));
        assert(comma_free(b.last()));
        if front_a.len() < front_b.len() {
            // the comma that ends b's front would stand inside a's last name
            let at = front_b.len() as int;
            assert(text[at] == a.last()[at - front_a.len() - 1]);
        }
        if front_b.len() < front_a.len() {
            let at = front_a.len() as int;
            assert(text[at] == b.last()[at - front_b.len() - 1]);
        }
        assert(front_a.len() == front_b.len());
        assert(front_a =~= text.subrange(0, front_a.len() as int));
        assert(front_b =~= text.subrange(0, front_b.len() as int));
        assert(a.last() =~= text.subrange(front_a.len() as int + 1, text.len() as int));
        assert(b.last() =~= text.subrange(front_b.len() as int + 1, text.len() as int));
        assert forall|i: int| 0 <= i < a.drop_last().len() implies comma_free(
            #[trigger] a.drop_last()[i],
        ) by {
            assert(a.drop_last()[i] == a[i]);
        }
        assert forall|i: int| 0 <= i < b.drop_last().len() implies comma_free(
            #[trigger] b.drop_last()[i],
        ) by {
            assert(b.drop_last()[i] == b[i]);
        }
        lemma_joined_tells_nonempty_list(a.drop_last(), b.drop_last());
        assert(a =~= a.drop_last().push(a.last()));
        assert(b =~= b.drop_last().push(b.last()));
    }
}

/// Joining with commas loses nothing on separable lists: two of them with the
/// same joined form are the same list.
pub proof fn lemma_joined_tells_list(a: Seq<Seq<char>>, b: Seq<Seq<char>>)
    requires
        names_separable(a),
        names_separable(b),
        joined(a, comma()) == joined(b, comma()),
    ensures
        a == b,
{
    if a.len() == 0 && b.len() == 0 {
        assert(a =~= b);
    } else if a.len() == 0 {
        if b.len() >= 2 {
            lemma_joined_ends_with_last(b);
        }
    } else if b.len() == 0 {
        if a.len() >= 2 {
            lemma_joined_ends_with_last(a);
        }
    } else {
        lemma_joined_tells_nonempty_list(a, b);
    }
}

} // verus!
