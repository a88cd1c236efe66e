//! Object identifiers as text.
use vstd::prelude::*;
use vstd::string::StringExecFns;

verus! {

/// The sixteen hexadecimal digits, lower case.
pub open spec fn hex_digits() -> Seq<char> {
    seq!['0', '1', '2', '3', '4', '5', '6', '7', '8', '9', 'a', 'b', 'c', 'd', 'e', 'f']
}

/// The hexadecimal text of `bytes`: two digits for each byte, the high half
/// first, in the order of the bytes.
pub open spec fn hex_of(bytes: Seq<u8>) -> Seq<char> {
    Seq::new(
        2 * bytes.len(),
        |i: int|
            if i % 2 == 0 {
                hex_digits()[bytes[i / 2] as int / 16]
            } else {
                hex_digits()[bytes[i / 2] as int % 16]
            },
    )
}

/// The digit for a value below sixteen, as a text of one character.
fn digit(value: u8) -> (text: &'static str)
    requires
        value < 16,
    ensures
        text@ == seq![hex_digits()[value as int]],
{
    proof {
        reveal_strlit("0");
        reveal_strlit("1");
        reveal_strlit("2");
        reveal_strlit("3");
        reveal_strlit("4");
        reveal_strlit("5");
        reveal_strlit("6");
        reveal_strlit("7");
        reveal_strlit("8");
        reveal_strlit("9");
        reveal_strlit("a");
        reveal_strlit("b");
        reveal_strlit("c");
        reveal_strlit("d");
        reveal_strlit("e");
        reveal_strlit("f");
    }
    let text = match value {
        0 => "0",
        1 => "1",
        2 => "2",
        3 => "3",
        4 => "4",
        5 => "5",
        6 => "6",
        7 => "7",
        8 => "8",
        9 => "9",
        10 => "a",
        11 => "b",
        12 => "c",
        13 => "d",
        14 => "e",
        _ => "f",
    };
    assert(text@ =~= seq![hex_digits()[value as int]]);
    text
}

/// The text that stands for an object identifier in a document: the
/// twenty-four hexadecimal digits of its twelve bytes, lower case, as
/// `bson` writes an `ObjectId`.
pub fn object_to_hex(id: &[u8; 12]) -> (text: String)
    ensures
        text@ == hex_of(id@),
        text@.len() == 24,
        forall|i: int| 0 <= i < 24 ==> hex_digits().contains(#[trigger] text@[i]),
{
    let mut text = String::new();
    let mut at: usize = 0;
    while at < 12
        invariant
            at <= 12,
            text@.len() == 2 * at,
            forall|i: int| 0 <= i < 2 * at ==> #[trigger] text@[i] == hex_of(id@)[i],
        decreases 12 - at,
    {
        let byte = id[at];
        let ghost before = text@;
        text.append(digit(byte / 16));
        text.append(digit(byte % 16));
        assert forall|i: int| 0 <= i < 2 * (at + 1) implies #[trigger] text@[i] == hex_of(
            id@,
        )[i] by {
            if i < 2 * at {
                assert(text@[i] == before[i]);
            } else if i == 2 * at {
                assert(i / 2 == at as int && i % 2 == 0);
            } else {
                assert(i / 2 == at as int && i % 2 == 1);
            }
        }
        at = at + 1;
    }
    assert(text@ =~= hex_of(id@));
    assert forall|i: int| 0 <= i < 24 implies hex_digits().contains(#[trigger] text@[i]) by {
        let byte = id@[i / 2] as int;
        if i % 2 == 0 {
            assert(text@[i] == hex_digits()[byte / 16]);
        } else {
            assert(text@[i] == hex_digits()[byte % 16]);
        }
    }
    text
}

} // verus!
