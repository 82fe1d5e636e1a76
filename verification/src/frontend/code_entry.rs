//! Entering the email confirmation code, one digit per box.
use vstd::prelude::*;
use vstd::string::StringExecFns;

verus! {

broadcast use vstd::string::group_string_axioms;

/// Length of the code sent by email.
pub const CODE_LEN: usize = 6;

/// The ASCII digits of a text, in order.
pub open spec fn ascii_digits(s: Seq<char>) -> Seq<char>
    decreases s.len(),
{
    if s.len() == 0 {
        Seq::empty()
    } else if '0' <= s.last() <= '9' {
        ascii_digits(s.drop_last()).push(s.last())
    } else {
        ascii_digits(s.drop_last())
    }
}

/// A text of one character, as `char::to_string` gives it.
#[verifier::external_body]
fn char_string(c: char) -> (r: String)
    ensures
        r@ == seq![c],
{
    c.to_string()
}

/// The ASCII digits typed into a box.
fn digits_of(input: &str) -> (r: Vec<char>)
    ensures
        r@ == ascii_digits(input@),
{
    let mut out: Vec<char> = Vec::new();
    for c in it: input.chars()
        invariant
            it.seq() == input@,
            out@ == ascii_digits(input@.take(it.index() as int)),
    {
        proof {
            let k = it.index() as int;
            assert(input@.take(k + 1).drop_last() =~= input@.take(k));
            assert(input@.take(k + 1).last() == c);
        }
        if '0' <= c && c <= '9' {
            out.push(c);
        }
    }
    assert(input@.take(input@.len() as int) =~= input@);
    out
}

/// The boxes after typing `digits` into box `index`: each digit goes into the
/// next box, from `index` on, until the boxes run out; no digit clears the
/// box.
pub open spec fn spread_spec(slots: Seq<Seq<char>>, index: int, digits: Seq<char>) -> Seq<Seq<char>> {
    if digits.len() == 0 {
        slots.update(index, Seq::empty())
    } else {
        Seq::new(
            slots.len(),
            |k: int|
                if index <= k < index + digits.len() {
                    seq![digits[k - index]]
                } else {
                    slots[k]
                },
        )
    }
}

/// The box that gets the focus after typing `digits` into box `index`: the
/// one after the last digit written, or the last box; none when nothing
/// was typed.
pub open spec fn focus_after(index: int, digits: Seq<char>) -> Option<usize> {
    if digits.len() == 0 {
        None
    } else if index + digits.len() >= CODE_LEN {
        Some((CODE_LEN - 1) as usize)
    } else {
        Some((index + digits.len()) as usize)
    }
}

/// Typing into box `index` touches only the boxes the digits go to: box
/// `index + k` gets the `k`-th digit while boxes last, every other box keeps
/// what it held, and typing no digit clears box `index` alone. The focus then
/// moves to the box after the last digit, or stays on the last box.
pub proof fn typing_touches_only_its_boxes(slots: Seq<Seq<char>>, index: int, input: Seq<char>)
    requires
        slots.len() == CODE_LEN,
        0 <= index < CODE_LEN,
    ensures
        ({
            let d = ascii_digits(input);
            let after = spread_spec(slots, index, d);
            &&& after.len() == slots.len()
            &&& forall|k: int|
                0 <= k < slots.len() && !(index <= k < index + d.len()) && !(d.len() == 0 && k == index)
                    ==> #[trigger] after[k] == slots[k]
            &&& forall|k: int| index <= k < slots.len() && k < index + d.len() ==> #[trigger] after[k] == seq![d[k - index]]
            &&& d.len() == 0 ==> after[index].len() == 0
            &&& d.len() == 0 ==> focus_after(index, d) is None
            &&& d.len() > 0 ==> focus_after(index, d) == Some(
                (if index + d.len() < 6 {
                    index + d.len()
                } else {
                    5
                }) as usize,
            )
        }),
{
}

/// What is typed keeps its ASCII digits, in order, and nothing else: every
/// character kept is a digit, none is invented, and a text of digits alone is
/// kept whole.
pub proof fn typing_keeps_the_digits(s: Seq<char>)
    ensures
        ascii_digits(s).len() <= s.len(),
        forall|i: int| 0 <= i < ascii_digits(s).len() ==> '0' <= #[trigger] ascii_digits(s)[i] <= '9',
        (forall|i: int| 0 <= i < s.len() ==> '0' <= #[trigger] s[i] <= '9') ==> ascii_digits(s) == s,
        (forall|i: int| 0 <= i < s.len() ==> !('0' <= #[trigger] s[i] <= '9')) ==> ascii_digits(s).len() == 0,
    decreases s.len(),
{
    if s.len() > 0 {
        let front = s.drop_last();
        typing_keeps_the_digits(front);
        if forall|i: int| 0 <= i < s.len() ==> '0' <= #[trigger] s[i] <= '9' {
            assert forall|i: int| 0 <= i < front.len() implies '0' <= #[trigger] front[i] <= '9' by {
                assert(front[i] == s[i]);
            }
            assert(s[s.len() - 1] == s.last());
            assert(front.push(s.last()) =~= s);
        }
        if forall|i: int| 0 <= i < s.len() ==> !('0' <= #[trigger] s[i] <= '9') {
            assert forall|i: int| 0 <= i < front.len() implies !('0' <= #[trigger] front[i] <= '9') by {
                assert(front[i] == s[i]);
            }
            assert(s[s.len() - 1] == s.last());
        }
    }
}

/// Handles input into box `index`: only ASCII digits are kept; several digits
/// (a paste, fast typing) spread over the following boxes. Gives the box to
/// focus next.
pub fn spread_digits(slots: &mut Vec<String>, index: usize, input: &str) -> (focus: Option<usize>)
    requires
        old(slots)@.len() == CODE_LEN,
        index < CODE_LEN,
    ensures
        final(slots)@.len() == CODE_LEN,
        final(slots)@.map_values(|s: String| s@) == spread_spec(
            old(slots)@.map_values(|s: String| s@),
            index as int,
            ascii_digits(input@),
        ),
        focus == focus_after(index as int, ascii_digits(input@)),
{
    let digits = digits_of(input);
    let ghost before = old(slots)@.map_values(|s: String| s@);
    if digits.len() == 0 {
        slots.set(index, String::new());
        proof {
            assert(slots@.map_values(|s: String| s@) =~= spread_spec(before, index as int, digits@));
        }
        return None;
    }
    let mut cursor = index;
    let mut i: usize = 0;
    while i < digits.len() && cursor < CODE_LEN
        invariant
            index <= cursor <= CODE_LEN,
            cursor == index + i,
            i <= digits@.len(),
            slots@.len() == CODE_LEN,
            before.len() == CODE_LEN,
            forall|k: int|
                0 <= k < CODE_LEN ==> #[trigger] slots@[k]@ == (if index <= k < cursor {
                    seq![digits@[k - index]]
                } else {
                    before[k]
                }),
        decreases digits@.len() - i,
    {
        let s = char_string(digits[i]);
        slots.set(cursor, s);
        cursor = cursor + 1;
        i = i + 1;
    }
    proof {
        let after = slots@.map_values(|s: String| s@);
        assert forall|k: int| 0 <= k < CODE_LEN implies #[trigger] after[k]
            == spread_spec(before, index as int, digits@)[k] by {
            if index <= k < index + digits@.len() {
                assert(k < cursor);
            }
        }
        assert(after =~= spread_spec(before, index as int, digits@));
    }
    if cursor < CODE_LEN - 1 {
        Some(cursor)
    } else {
        Some(CODE_LEN - 1)
    }
}

/// Backspace in an empty box moves the focus back to the previous box.
pub fn backspace_focus(index: usize, box_is_empty: bool) -> (r: Option<usize>)
    ensures
        r == (if index > 0 && box_is_empty {
            Some((index - 1) as usize)
        } else {
            None
        }),
{
    if index > 0 && box_is_empty {
        Some(index - 1)
    } else {
        None
    }
}

/// The boxes' texts, joined.
pub open spec fn joined(slots: Seq<Seq<char>>) -> Seq<char>
    decreases slots.len(),
{
    if slots.len() == 0 {
        Seq::empty()
    } else {
        joined(slots.drop_last()) + slots.last()
    }
}

/// The code in the boxes, when it has `CODE_LEN` characters; otherwise the
/// message asking for all the digits.
pub fn code_from_slots(slots: &Vec<String>) -> (r: Result<String, String>)
    ensures
        r matches Ok(code) ==> code@ == joined(slots@.map_values(|s: String| s@)) && code@.len()
            == CODE_LEN,
        r is Err <==> joined(slots@.map_values(|s: String| s@)).len() != CODE_LEN,
        r matches Err(m) ==> m@ == "Kodning 6 ta raqamini ham kiriting"@,
{
    let ghost all = slots@.map_values(|s: String| s@);
    let mut code = String::new();
    let mut i: usize = 0;
    while i < slots.len()
        invariant
            i <= slots@.len(),
            all == slots@.map_values(|s: String| s@),
            code@ == joined(all.take(i as int)),
        decreases slots@.len() - i,
    {
        code.append(slots[i].as_str());
        proof {
            assert(all.take(i + 1).drop_last() =~= all.take(i as int));
        }
        i = i + 1;
    }
    assert(all.take(slots@.len() as int) =~= all);
    if code.as_str().unicode_len() != CODE_LEN {
        Err("Kodning 6 ta raqamini ham kiriting".to_owned())
    } else {
        Ok(code)
    }
}

/// The two password fields of the sign-up form must agree; otherwise the
/// message to show.
pub fn check_password_repeat(password: &str, repeat: &str) -> (r: Result<(), &'static str>)
    ensures
        r is Ok <==> password@ == repeat@,
        r matches Err(m) ==> m == "Parollar mos kelmadi",
{
    if password.to_owned() == repeat.to_owned() {
        Ok(())
    } else {
        Err("Parollar mos kelmadi")
    }
}

} // verus!
