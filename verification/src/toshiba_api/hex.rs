use vstd::prelude::*;

verus! {

/// The value of one hexadecimal digit, in either case; `None` for any other character.
pub open spec fn digit_value(c: char) -> Option<u8> {
    if '0' <= c && c <= '9' {
        Some((c as u32 - '0' as u32) as u8)
    } else if 'a' <= c && c <= 'f' {
        Some((c as u32 - 'a' as u32 + 10) as u8)
    } else if 'A' <= c && c <= 'F' {
        Some((c as u32 - 'A' as u32 + 10) as u8)
    } else {
        None
    }
}

/// The value of a digit, and zero for a character that is none.
pub open spec fn digit_or_zero(c: char) -> int {
    match digit_value(c) {
        Some(v) => v as int,
        None => 0,
    }
}

/// Whether every character of `text` is a hexadecimal digit.
pub open spec fn all_digits(text: Seq<char>) -> bool {
    forall|i: int| 0 <= i < text.len() ==> (#[trigger] digit_value(text[i])) is Some
}

/// The index of the first character at or after `from` that is no hexadecimal digit,
/// or the length of the text where there is none.
pub open spec fn first_non_digit(text: Seq<char>, from: int) -> int
    decreases text.len() - from,
{
    if from < 0 || from >= text.len() {
        text.len() as int
    } else if digit_value(text[from]) is None {
        from
    } else {
        first_non_digit(text, from + 1)
    }
}

/// The byte that two hexadecimal digits spell, the high digit first.
pub open spec fn pair_value(high: char, low: char) -> u8 {
    (16 * digit_or_zero(high) + digit_or_zero(low)) as u8
}

/// The bytes that a text of hexadecimal digit pairs spells.
pub open spec fn hex_bytes(text: Seq<char>) -> Seq<u8> {
    Seq::new(text.len() / 2, |k: int| pair_value(text[2 * k], text[2 * k + 1]))
}

/// The place at which `text` stops being a sequence of hexadecimal digit pairs:
/// the first character that is no digit or, where all are digits and their number
/// is odd, the last one, which has no partner. `None` where the text is sound.
pub open spec fn hex_fault(text: Seq<char>) -> Option<int> {
    let stop = first_non_digit(text, 0);
    if stop < text.len() {
        Some(stop)
    } else if text.len() % 2 == 1 {
        Some(text.len() - 1)
    } else {
        None
    }
}

/// Where every character of `text` from `from` up to `stop` is a digit, the search
/// from `from` gives what the search from `stop` gives.
pub proof fn lemma_first_non_digit_skips(text: Seq<char>, from: int, stop: int)
    requires
        0 <= from <= stop <= text.len(),
        forall|i: int| from <= i < stop ==> (#[trigger] digit_value(text[i])) is Some,
    ensures
        first_non_digit(text, from) == first_non_digit(text, stop),
    decreases stop - from,
{
    if from < stop {
        lemma_first_non_digit_skips(text, from + 1, stop);
    }
}

/// The search for a character that is no digit ends inside the text or at its end,
/// passes digits only, and stops at the end or on a character that is none.
pub proof fn lemma_first_non_digit_found(text: Seq<char>, from: int)
    requires
        0 <= from <= text.len(),
    ensures
        from <= first_non_digit(text, from) <= text.len(),
        forall|i: int|
            from <= i < first_non_digit(text, from) ==> (#[trigger] digit_value(text[i])) is Some,
        first_non_digit(text, from) < text.len() ==> digit_value(
            text[first_non_digit(text, from)],
        ) is None,
    decreases text.len() - from,
{
    if from < text.len() && digit_value(text[from]) is Some {
        lemma_first_non_digit_found(text, from + 1);
    }
}

/// A text has no fault exactly when it is made of digits throughout and their
/// number is even; a fault lies inside the text.
pub proof fn lemma_hex_fault_none(text: Seq<char>)
    ensures
        hex_fault(text) is None <==> all_digits(text) && text.len() % 2 == 0,
        hex_fault(text) matches Some(position) ==> 0 <= position < text.len(),
{
    lemma_first_non_digit_found(text, 0);
    if all_digits(text) {
        lemma_first_non_digit_skips(text, 0, text.len() as int);
    }
}

/// Reads one hexadecimal digit.
pub fn hex_digit(c: char) -> (r: Option<u8>)
    ensures
        r == digit_value(c),
        r matches Some(v) ==> v < 16,
{
    if '0' <= c && c <= '9' {
        Some((c as u32 - '0' as u32) as u8)
    } else if 'a' <= c && c <= 'f' {
        Some((c as u32 - 'a' as u32 + 10) as u8)
    } else if 'A' <= c && c <= 'F' {
        Some((c as u32 - 'A' as u32 + 10) as u8)
    } else {
        None
    }
}

/// Collects the digit values of `text` up to its first character that is no digit,
/// and says whether it came to the end of the text.
fn leading_digits(text: &str) -> (r: (Vec<u8>, bool))
    ensures
        r.0@.len() == first_non_digit(text@, 0),
        r.0@.len() <= text@.len(),
        r.1 == (r.0@.len() == text@.len()),
        forall|i: int|
            #![trigger r.0@[i]]
            #![trigger digit_value(text@[i])]
            0 <= i < r.0@.len() ==> digit_value(text@[i]) == Some(r.0@[i]),
        forall|i: int| 0 <= i < r.0@.len() ==> (#[trigger] r.0@[i]) < 16,
{
    let mut digits: Vec<u8> = Vec::new();
    let mut chars = text.chars();
    for c in it: chars
        invariant
            digits@.len() == it.index(),
            it.seq() == text@,
            forall|i: int|
                #![trigger digits@[i]]
                #![trigger digit_value(text@[i])]
                0 <= i < digits@.len() ==> digit_value(text@[i]) == Some(digits@[i]),
            forall|i: int| 0 <= i < digits@.len() ==> (#[trigger] digits@[i]) < 16,
    {
        match hex_digit(c) {
            Some(v) => digits.push(v),
            None => {
                proof {
                    lemma_first_non_digit_skips(text@, 0, digits@.len() as int);
                }
                return (digits, false);
            },
        }
    }
    proof {
        lemma_first_non_digit_skips(text@, 0, digits@.len() as int);
    }
    (digits, true)
}

/// Turns a text of hexadecimal digit pairs into the bytes it spells. A text that is
/// none is refused with the index of the offending character: the first one that is
/// no digit or, where all are digits, the last one of an odd number.
pub fn decode_hex(text: &str) -> (r: Result<Vec<u8>, usize>)
    ensures
        match r {
            Ok(bytes) => hex_fault(text@) is None && bytes@ == hex_bytes(text@),
            Err(position) => hex_fault(text@) == Some(position as int),
        },
        r is Ok <==> all_digits(text@) && text@.len() % 2 == 0,
        r matches Ok(bytes) ==> text@.len() == 2 * bytes@.len(),
{
    proof {
        lemma_hex_fault_none(text@);
    }
    let (digits, complete) = leading_digits(text);
    let count = digits.len();
    if !complete {
        return Err(count);
    }
    if count % 2 == 1 {
        return Err(count - 1);
    }
    let mut bytes: Vec<u8> = Vec::new();
    let mut k: usize = 0;
    while k < count / 2
        invariant
            count == digits@.len(),
            count == text@.len(),
            count % 2 == 0,
            k <= count / 2,
            bytes@.len() == k,
            forall|i: int|
                #![trigger digits@[i]]
                #![trigger digit_value(text@[i])]
                0 <= i < digits@.len() ==> digit_value(text@[i]) == Some(digits@[i]),
            forall|i: int| 0 <= i < digits@.len() ==> (#[trigger] digits@[i]) < 16,
            forall|j: int|
                0 <= j < k ==> (#[trigger] bytes@[j]) == pair_value(text@[2 * j], text@[2 * j + 1]),
        decreases count / 2 - k,
    {
        let high = digits[2 * k];
        let low = digits[2 * k + 1];
        assert(digit_value(text@[2 * k]) == Some(high));
        assert(digit_value(text@[2 * k + 1]) == Some(low));
        bytes.push(16 * high + low);
        k += 1;
    }
    assert(bytes@ =~= hex_bytes(text@));
    Ok(bytes)
}

} // verus!
