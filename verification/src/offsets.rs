//! The resume offsets as the host hands them over: each chat id as decimal
//! text, with the id of the last message that the host has seen of that
//! chat.

use crate::caches::{new_offset_map, offsets_in, put_offset};
use dashmap::DashMap;
use vstd::prelude::*;
use vstd::string::*;

verus! {

/// The value of a decimal digit.
pub open spec fn digit_value(c: char) -> Option<nat> {
    if c == '0' {
        Some(0)
    } else if c == '1' {
        Some(1)
    } else if c == '2' {
        Some(2)
    } else if c == '3' {
        Some(3)
    } else if c == '4' {
        Some(4)
    } else if c == '5' {
        Some(5)
    } else if c == '6' {
        Some(6)
    } else if c == '7' {
        Some(7)
    } else if c == '8' {
        Some(8)
    } else if c == '9' {
        Some(9)
    } else {
        None
    }
}

/// The number that a text of decimal digits stands for; `None` for the
/// empty text and for a text that holds anything but digits.
pub open spec fn digits_value(text: Seq<char>) -> Option<nat>
    decreases text.len(),
{
    if text.len() == 0 {
        None
    } else if text.len() == 1 {
        digit_value(text[0])
    } else {
        match (digits_value(text.drop_last()), digit_value(text.last())) {
            (Some(front), Some(digit)) => Some(front * 10 + digit),
            _ => None,
        }
    }
}

/// The chat id that a text stands for: decimal digits, after a `+` or a `-`
/// where there is one, whose number fits in 64 bits with its sign.
pub open spec fn chat_id_of_text(text: Seq<char>) -> Option<i64> {
    if text.len() > 0 && text[0] == '-' {
        match digits_value(text.skip(1)) {
            Some(magnitude) => if magnitude <= 0x8000_0000_0000_0000 {
                Some((-(magnitude as int)) as i64)
            } else {
                None
            },
            None => None,
        }
    } else {
        let digits = if text.len() > 0 && text[0] == '+' {
            text.skip(1)
        } else {
            text
        };
        match digits_value(digits) {
            Some(magnitude) => if magnitude <= 0x7fff_ffff_ffff_ffff {
                Some(magnitude as i64)
            } else {
                None
            },
            None => None,
        }
    }
}

/// A text of digits that goes on with more digits stands for a number that
/// is not smaller.
proof fn lemma_digits_grow(text: Seq<char>, n: int)
    requires
        1 <= n <= text.len(),
        digits_value(text) is Some,
    ensures
        digits_value(text.take(n)) is Some,
        digits_value(text.take(n))->0 <= digits_value(text)->0,
    decreases text.len(),
{
    if n == text.len() {
        assert(text.take(n) =~= text);
    } else {
        assert(text.len() >= 2);
        assert(text.drop_last().take(n) =~= text.take(n));
        lemma_digits_grow(text.drop_last(), n);
    }
}

/// A text of digits with something else in it stands for no number.
proof fn lemma_digits_need_digits(text: Seq<char>, at: int)
    requires
        0 <= at < text.len(),
        digit_value(text[at]) is None,
    ensures
        digits_value(text) is None,
    decreases text.len(),
{
    if text.len() == 1 {
    } else if at == text.len() - 1 {
    } else {
        lemma_digits_need_digits(text.drop_last(), at);
    }
}

fn digit_of(c: char) -> (value: Option<u64>)
    ensures
        match value {
            Some(v) => digit_value(c) == Some(v as nat) && v < 10,
            None => digit_value(c) is None,
        },
{
    if c == '0' {
        Some(0)
    } else if c == '1' {
        Some(1)
    } else if c == '2' {
        Some(2)
    } else if c == '3' {
        Some(3)
    } else if c == '4' {
        Some(4)
    } else if c == '5' {
        Some(5)
    } else if c == '6' {
        Some(6)
    } else if c == '7' {
        Some(7)
    } else if c == '8' {
        Some(8)
    } else if c == '9' {
        Some(9)
    } else {
        None
    }
}

/// Reads the digits of `text` from `from` on, as a number up to `limit`:
/// `None` where there are no digits, where something else stands among
/// them, and where the number exceeds the limit.
fn read_digits(text: &str, from: usize, limit: u64) -> (value: Option<u64>)
    requires
        from <= text@.len(),
        9 <= limit <= 0x8000_0000_0000_0000,
    ensures
        value == match digits_value(text@.skip(from as int)) {
            Some(magnitude) => if magnitude <= limit {
                Some(magnitude as u64)
            } else {
                None
            },
            None => None,
        },
{
    let len = text.unicode_len();
    let ghost digits = text@.skip(from as int);
    if from == len {
        return None;
    }
    let mut at: usize = from;
    let mut total: u64 = 0;
    while at < len
        invariant
            from <= at <= len,
            len == text@.len(),
            digits == text@.skip(from as int),
            9 <= limit <= 0x8000_0000_0000_0000,
            total <= limit,
            at > from ==> digits_value(digits.take(at - from)) == Some(total as nat),
            at == from ==> total == 0,
        decreases len - at,
    {
        let c = text.get_char(at);
        assert(digits[at - from] == c);
        let digit = match digit_of(c) {
            Some(digit) => digit,
            None => {
                proof {
                    lemma_digits_need_digits(digits, at - from);
                }
                return None;
            },
        };
        proof {
            let next = digits.take(at - from + 1);
            assert(next.last() == c);
            assert(next.drop_last() =~= digits.take(at - from));
            if at == from {
                assert(next.len() == 1);
                assert(next[0] == c);
            }
        }
        if total > (limit - digit) / 10 {
            proof {
                let next = digits.take(at - from + 1);
                assert(digits_value(next) == Some((total * 10 + digit) as nat));
                assert(total * 10 + digit > limit) by (nonlinear_arith)
                    requires
                        total > (limit - digit) / 10,
                        digit <= limit,
                        digit < 10,
                ;
                if digits_value(digits) is Some {
                    lemma_digits_grow(digits, at - from + 1);
                }
            }
            return None;
        }
        assert(total * 10 + digit <= limit) by (nonlinear_arith)
            requires
                total <= (limit - digit) / 10,
                digit <= limit,
        ;
        total = total * 10 + digit;
        at = at + 1;
    }
    proof {
        assert(digits.take(at - from) =~= digits);
    }
    Some(total)
}

/// Reads a chat id from its decimal text.
pub fn parse_chat_id(text: &str) -> (chat_id: Option<i64>)
    ensures
        chat_id == chat_id_of_text(text@),
{
    let len = text.unicode_len();
    if len > 0 && text.get_char(0) == '-' {
        match read_digits(text, 1, 0x8000_0000_0000_0000) {
            Some(magnitude) => {
                if magnitude == 0x8000_0000_0000_0000 {
                    Some(i64::MIN)
                } else {
                    Some(-(magnitude as i64))
                }
            },
            None => None,
        }
    } else {
        let from: usize = if len > 0 && text.get_char(0) == '+' {
            1
        } else {
            0
        };
        assert(text@.skip(0) =~= text@);
        match read_digits(text, from, 0x7fff_ffff_ffff_ffff) {
            Some(magnitude) => Some(magnitude as i64),
            None => None,
        }
    }
}

/// The view of the entries of the host.
pub open spec fn entry_views(entries: Seq<(String, i32)>) -> Seq<(Seq<char>, i32)> {
    entries.map_values(|e: (String, i32)| (e.0@, e.1))
}

/// Whether every key is the decimal text of a chat id.
pub open spec fn all_keys_valid(entries: Seq<(Seq<char>, i32)>) -> bool {
    forall|i: int| 0 <= i < entries.len() ==> chat_id_of_text((#[trigger] entries[i]).0) is Some
}

/// The offsets by chat id: each entry under the chat id of its key, a later
/// entry in place of an earlier one with the same chat id.
pub open spec fn offsets_of(entries: Seq<(Seq<char>, i32)>) -> Map<i64, i32>
    decreases entries.len(),
{
    if entries.len() == 0 {
        Map::empty()
    } else {
        offsets_of(entries.drop_last()).insert(
            chat_id_of_text(entries.last().0)->0,
            entries.last().1,
        )
    }
}

/// Builds the resume offsets from the entries of the host; `None` where a
/// key is not the decimal text of a chat id.
pub fn offsets_from_host(entries: &Vec<(String, i32)>) -> (offsets: Option<DashMap<i64, i32>>)
    ensures
        all_keys_valid(entry_views(entries@)) ==> offsets is Some && offsets_in(offsets->0)
            == offsets_of(entry_views(entries@)),
        !all_keys_valid(entry_views(entries@)) ==> offsets is None,
{
    let mut offsets = new_offset_map();
    let ghost all = entry_views(entries@);
    assert(offsets_in(offsets) =~= offsets_of(all.take(0)));
    let mut i: usize = 0;
    while i < entries.len()
        invariant
            i <= entries.len(),
            all == entry_views(entries@),
            offsets_in(offsets) == offsets_of(all.take(i as int)),
            forall|k: int| 0 <= k < i ==> chat_id_of_text((#[trigger] all[k]).0) is Some,
        decreases entries.len() - i,
    {
        let chat_id = match parse_chat_id(entries[i].0.as_str()) {
            Some(chat_id) => chat_id,
            None => {
                assert(chat_id_of_text(all[i as int].0) is None);
                return None;
            },
        };
        put_offset(&mut offsets, chat_id, entries[i].1);
        proof {
            let next = all.take(i + 1);
            assert(next.drop_last() =~= all.take(i as int));
            assert(next.last() == all[i as int]);
        }
        i = i + 1;
    }
    proof {
        assert(all.take(i as int) =~= all);
    }
    Some(offsets)
}

} // verus!
