//! Byte-length arithmetic on UTF-8 text and the note truncation of event messages.

use vstd::prelude::*;
use vstd::string::StringExecFns;
use vstd::string::StrSliceExecFns;
use vstd::utf8::encode_scalar;
use vstd::utf8::encode_utf8;

verus! {

/// Number of bytes in the UTF-8 encoding of `s`.
pub open spec fn utf8_len(s: Seq<char>) -> nat {
    encode_utf8(s).len()
}

/// The marker appended to a truncated note.
pub open spec fn ellipsis() -> Seq<char> {
    seq!['.', '.', '.']
}

/// The note that `truncate_note` produces for `message` and the byte limit `max_len`:
/// the message itself when it fits, otherwise the longest prefix that leaves room for the
/// ellipsis within the limit, followed by the ellipsis.
pub open spec fn is_truncated_note(message: Seq<char>, max_len: nat, note: Seq<char>) -> bool {
    if utf8_len(message) <= max_len {
        note == message
    } else {
        exists|k: int|
            0 <= k < message.len() && note == message.take(k) + ellipsis() && utf8_len(
                #[trigger] message.take(k),
            ) + 3 <= max_len && utf8_len(message.take(k + 1)) + 3 > max_len
    }
}

/// UTF-8 encoding distributes over concatenation.
pub proof fn lemma_encode_utf8_concat(a: Seq<char>, b: Seq<char>)
    ensures
        encode_utf8(a + b) == encode_utf8(a) + encode_utf8(b),
    decreases a.len(),
{
    if a.len() == 0 {
        assert(a + b =~= b);
        assert(encode_utf8(a) =~= Seq::<u8>::empty());
        assert(encode_utf8(a) + encode_utf8(b) =~= encode_utf8(b));
    } else {
        assert((a + b)[0] == a[0]);
        assert((a + b).drop_first() =~= a.drop_first() + b);
        lemma_encode_utf8_concat(a.drop_first(), b);
        assert(encode_utf8(a + b) =~= encode_scalar(a[0] as u32) + (encode_utf8(a.drop_first())
            + encode_utf8(b)));
    }
}

/// Appending one character adds the width of its encoding.
pub proof fn lemma_utf8_len_push(s: Seq<char>, c: char)
    ensures
        utf8_len(s.push(c)) == utf8_len(s) + encode_scalar(c as u32).len(),
{
    lemma_encode_utf8_concat(s, seq![c]);
    assert(s.push(c) =~= s + seq![c]);
    assert(seq![c].drop_first() =~= Seq::<char>::empty());
    assert(encode_utf8(seq![c]) =~= encode_scalar(c as u32) + encode_utf8(Seq::<char>::empty()));
}

/// The prefixes of `s` grow by the width of the next character.
pub proof fn lemma_utf8_len_take_next(s: Seq<char>, k: int)
    requires
        0 <= k < s.len(),
    ensures
        utf8_len(s.take(k + 1)) == utf8_len(s.take(k)) + encode_scalar(s[k] as u32).len(),
{
    assert(s.take(k + 1) =~= s.take(k).push(s[k]));
    lemma_utf8_len_push(s.take(k), s[k]);
}

/// Longer prefixes take at least as many bytes.
pub proof fn lemma_utf8_len_monotone(s: Seq<char>, i: int, j: int)
    requires
        0 <= i <= j <= s.len(),
    ensures
        utf8_len(s.take(i)) <= utf8_len(s.take(j)),
    decreases j - i,
{
    if i < j {
        lemma_utf8_len_take_next(s, j - 1);
        lemma_utf8_len_monotone(s, i, j - 1);
    }
}

/// The ellipsis takes three bytes.
pub proof fn lemma_utf8_len_ellipsis()
    ensures
        utf8_len(ellipsis()) == 3,
{
    reveal_with_fuel(encode_utf8, 4);
    assert(ellipsis().drop_first() =~= seq!['.', '.']);
    assert(ellipsis().drop_first().drop_first() =~= seq!['.']);
    assert(ellipsis().drop_first().drop_first().drop_first() =~= Seq::<char>::empty());
}

/// A truncated note never exceeds the limit it was truncated to.
pub proof fn law_truncated_note_fits(message: Seq<char>, max_len: nat, note: Seq<char>)
    requires
        is_truncated_note(message, max_len, note),
    ensures
        utf8_len(note) <= max_len,
{
    if utf8_len(message) > max_len {
        let k = choose|k: int|
            0 <= k < message.len() && note == message.take(k) + ellipsis() && utf8_len(
                #[trigger] message.take(k),
            ) + 3 <= max_len && utf8_len(message.take(k + 1)) + 3 > max_len;
        lemma_encode_utf8_concat(message.take(k), ellipsis());
        lemma_utf8_len_ellipsis();
    }
}

/// Truncating a note that was already truncated to the same limit leaves it unchanged.
pub proof fn law_truncation_idempotent(message: Seq<char>, max_len: nat, note: Seq<char>)
    requires
        is_truncated_note(message, max_len, note),
    ensures
        is_truncated_note(note, max_len, note),
{
    law_truncated_note_fits(message, max_len, note);
}

/// A note that had to be truncated keeps a prefix of the message, whole characters only,
/// and ends with the ellipsis.
pub proof fn law_truncated_note_is_prefix_and_ellipsis(message: Seq<char>, max_len: nat, note: Seq<char>)
    requires
        is_truncated_note(message, max_len, note),
        utf8_len(message) > max_len,
    ensures
        note.len() >= 3,
        note.skip(note.len() - 3) == ellipsis(),
        note.take(note.len() - 3).is_prefix_of(message),
{
    let k = choose|k: int|
        0 <= k < message.len() && note == message.take(k) + ellipsis() && utf8_len(
            #[trigger] message.take(k),
        ) + 3 <= max_len && utf8_len(message.take(k + 1)) + 3 > max_len;
    assert(note.skip(note.len() - 3) =~= ellipsis());
    assert(note.take(note.len() - 3) =~= message.take(k));
}

/// Number of bytes that `c` takes in UTF-8.
pub fn char_utf8_width(c: char) -> (w: usize)
    ensures
        w == encode_scalar(c as u32).len(),
        1 <= w <= 4,
{
    let v = c as u32;
    proof {
        vstd::utf8::char_is_scalar(c);
    }
    if v <= 0x7F {
        1
    } else if v <= 0x7FF {
        2
    } else if v <= 0xFFFF {
        3
    } else {
        4
    }
}

/// Truncates a message to fit within `max_len` bytes of UTF-8.
///
/// A message that fits is returned unchanged. Otherwise the result is the longest
/// character prefix that leaves room for `"..."`, followed by `"..."`; it never splits a
/// character and never exceeds `max_len` bytes.
pub fn truncate_note(message: String, max_len: usize) -> (note: String)
    requires
        utf8_len(message@) > max_len ==> max_len >= 3,
    ensures
        is_truncated_note(message@, max_len as nat, note@),
        utf8_len(note@) <= max_len,
{
    let s = message.as_str();
    let ghost chars = s@;
    let mut it = s.chars();
    // `pos` is the byte offset of the `k`-th character; `cut` is the last character
    // index whose offset leaves room for the ellipsis.
    let mut k: usize = 0;
    let mut pos: usize = 0;
    let mut cut: usize = 0;
    let mut fits = false;
    proof {
        assert(chars.take(0) =~= Seq::<char>::empty());
        assert(chars.skip(0) =~= chars);
    }
    loop
        invariant_except_break
            vstd::std_specs::iter::IteratorSpec::remaining(&it) == chars.skip(k as int),
            vstd::std_specs::iter::IteratorSpec::obeys_prophetic_iter_laws(&it),
            !fits,
        invariant
            chars == s@,
            chars == message@,
            0 <= k <= chars.len(),
            pos == utf8_len(chars.take(k as int)),
            pos <= max_len,
            k <= pos,
            cut <= k,
            max_len >= 3 ==> utf8_len(chars.take(cut as int)) + 3 <= max_len,
            max_len >= 3 ==> (cut < k ==> utf8_len(chars.take(cut + 1)) + 3 > max_len),
        ensures
            fits ==> k == chars.len(),
            !fits ==> k < chars.len() && utf8_len(chars.take(k + 1)) > max_len,
        decreases chars.len() - k,
    {
        let next = it.next();
        match next {
            None => {
                fits = true;
                break ;
            },
            Some(c) => {
                assert(c == chars[k as int]);
                let w = char_utf8_width(c);
                proof {
                    lemma_utf8_len_take_next(chars, k as int);
                }
                if w > max_len - pos {
                    break ;
                }
                pos = pos + w;
                k = k + 1;
                if max_len >= 3 && pos <= max_len - 3 {
                    cut = k;
                }
                assert(chars.skip(k - 1).drop_first() =~= chars.skip(k as int));
            },
        }
    }
    if fits {
        proof {
            assert(chars.take(k as int) =~= chars);
        }
        return message;
    }
    proof {
        lemma_utf8_len_monotone(chars, k + 1, chars.len() as int);
        assert(chars.take(chars.len() as int) =~= chars);
        lemma_utf8_len_take_next(chars, cut as int);
    }
    let prefix = s.substring_char(0, cut);
    let ellipsis_str = "...";
    proof {
        reveal_strlit("...");
        assert(ellipsis_str@ =~= ellipsis());
        assert(prefix@ =~= chars.take(cut as int));
        lemma_encode_utf8_concat(chars.take(cut as int), ellipsis());
        lemma_utf8_len_ellipsis();
    }
    let note = prefix.to_owned().concat(ellipsis_str);
    proof {
        assert(note@ =~= message@.take(cut as int) + ellipsis());
    }
    note
}

} // verus!
