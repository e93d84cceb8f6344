//! Removal of terminal styling sequences from a buffer of bytes.
//!
//! A styling sequence is the escape byte, an opening bracket, any bytes, and
//! the first `m` that follows. Nothing else that starts with the escape byte
//! is recognised.

use vstd::prelude::*;

verus! {

/// The escape byte.
pub const ESC: u8 = 0x1b;

/// The byte `[`, which follows the escape byte at the start of a styling sequence.
pub const OPEN: u8 = 0x5b;

/// The byte `m`, which ends a styling sequence.
pub const CLOSE: u8 = 0x6d;

/// Whether `s` begins with the two bytes that start a styling sequence.
pub open spec fn opens_sequence(s: Seq<u8>) -> bool {
    s.len() >= 2 && s[0] == ESC && s[1] == OPEN
}

/// What stands in `s` behind its first `m`; nothing, where `s` holds no `m`.
pub open spec fn after_terminator(s: Seq<u8>) -> Seq<u8>
    decreases s.len(),
{
    if s.len() == 0 {
        s
    } else if s[0] == CLOSE {
        s.skip(1)
    } else {
        after_terminator(s.skip(1))
    }
}

/// `s` without its styling sequences.
///
/// Reading from the left: where a sequence starts, it is left out up to and
/// including its first `m`, or up to the end of `s` if no `m` follows; any
/// other byte is kept.
pub open spec fn stripped(s: Seq<u8>) -> Seq<u8>
    decreases s.len(),
    via stripped_decreases
{
    if s.len() == 0 {
        s
    } else if opens_sequence(s) {
        stripped(after_terminator(s.skip(2)))
    } else {
        seq![s[0]] + stripped(s.skip(1))
    }
}

#[via_fn]
proof fn stripped_decreases(s: Seq<u8>) {
    if s.len() != 0 && opens_sequence(s) {
        lemma_after_terminator_len(s.skip(2));
    }
}

/// What stands behind the first `m` is shorter than the whole, or both are empty.
pub proof fn lemma_after_terminator_len(s: Seq<u8>)
    ensures
        after_terminator(s).len() <= s.len(),
        s.len() > 0 ==> after_terminator(s).len() < s.len(),
    decreases s.len(),
{
    if s.len() != 0 && s[0] != CLOSE {
        lemma_after_terminator_len(s.skip(1));
    }
}

/// What the scan still has to deliver when it stands before `rest`, inside a
/// styling sequence or not.
spec fn pending(rest: Seq<u8>, inside: bool) -> Seq<u8> {
    if inside {
        stripped(after_terminator(rest))
    } else {
        stripped(rest)
    }
}

/// Removes the styling sequences from `in_buffer`. `out_buffer` is emptied
/// first, so nothing of what it held before remains in it.
pub fn strip_ansi_escapes(in_buffer: &[u8], out_buffer: &mut Vec<u8>)
    ensures
        final(out_buffer)@ == stripped(in_buffer@),
{
    out_buffer.clear();

    let mut is_escape_sequence = false;
    let len = in_buffer.len();
    let mut i: usize = 0;
    assert(in_buffer@.skip(0) == in_buffer@);
    while i < len
        invariant
            len == in_buffer@.len(),
            i <= len,
            stripped(in_buffer@) == out_buffer@ + pending(
                in_buffer@.skip(i as int),
                is_escape_sequence,
            ),
        decreases len - i,
    {
        let ghost rest = in_buffer@.skip(i as int);
        assert(rest.len() == len - i);
        assert(rest[0] == in_buffer@[i as int]);
        assert(rest.skip(1) == in_buffer@.skip(i + 1));
        if is_escape_sequence {
            if in_buffer[i] == CLOSE {
                is_escape_sequence = false;
            }
        } else if in_buffer[i] == ESC && i + 1 < len && in_buffer[i + 1] == OPEN {
            assert(rest[1] == in_buffer@[i + 1]);
            assert(rest.skip(2) == in_buffer@.skip(i + 2));
            is_escape_sequence = true;
            i += 1;
        } else {
            let ghost kept = out_buffer@;
            out_buffer.push(in_buffer[i]);
            assert(out_buffer@ + stripped(rest.skip(1)) == kept + (seq![rest[0]] + stripped(
                rest.skip(1),
            )));
        }
        i += 1;
    }
    assert(in_buffer@.skip(i as int).len() == 0);
}

/// Whether a styling sequence starts at position `i` of `s`.
pub open spec fn sequence_starts_at(s: Seq<u8>, i: int) -> bool {
    0 <= i && i + 1 < s.len() && s[i] == ESC && s[i + 1] == OPEN
}

/// Whether no styling sequence starts anywhere in `s`.
pub open spec fn is_plain(s: Seq<u8>) -> bool {
    forall|i: int| !sequence_starts_at(s, i)
}

/// Whether the byte `b` occurs nowhere in `s`.
pub open spec fn lacks(s: Seq<u8>, b: u8) -> bool {
    forall|i: int| 0 <= i < s.len() ==> s[i] != b
}

/// Where no `m` stands in `body`, what follows the first `m` of
/// `body + m + rest` is `rest`.
pub proof fn lemma_after_terminator_found(body: Seq<u8>, rest: Seq<u8>)
    requires
        lacks(body, CLOSE),
    ensures
        after_terminator(body + seq![CLOSE] + rest) == rest,
    decreases body.len(),
{
    let whole = body + seq![CLOSE] + rest;
    if body.len() == 0 {
        assert(whole[0] == CLOSE);
        assert(whole.skip(1) == rest);
    } else {
        assert(whole[0] == body[0]);
        assert(whole.skip(1) == body.skip(1) + seq![CLOSE] + rest);
        assert forall|i: int| 0 <= i < body.skip(1).len() implies body.skip(1)[i] != CLOSE by {
            assert(body.skip(1)[i] == body[i + 1]);
        }
        lemma_after_terminator_found(body.skip(1), rest);
    }
}

/// Where no `m` stands in `tail`, nothing follows its first `m`.
pub proof fn lemma_after_terminator_none(tail: Seq<u8>)
    requires
        lacks(tail, CLOSE),
    ensures
        after_terminator(tail).len() == 0,
    decreases tail.len(),
{
    if tail.len() != 0 {
        assert(tail[0] != CLOSE);
        assert forall|i: int| 0 <= i < tail.skip(1).len() implies tail.skip(1)[i] != CLOSE by {
            assert(tail.skip(1)[i] == tail[i + 1]);
        }
        lemma_after_terminator_none(tail.skip(1));
    }
}

/// A plain stretch at the front is kept as it is, and what follows is
/// stripped by itself, unless a sequence starts across the seam.
pub proof fn lemma_strip_plain_front(front: Seq<u8>, rest: Seq<u8>)
    requires
        is_plain(front),
        !(front.len() > 0 && rest.len() > 0 && front.last() == ESC && rest[0] == OPEN),
    ensures
        stripped(front + rest) == front + stripped(rest),
    decreases front.len(),
{
    let whole = front + rest;
    if front.len() == 0 {
        assert(whole == rest);
        assert(front + stripped(rest) == stripped(rest));
    } else {
        let shorter = front.skip(1);
        assert(whole[0] == front[0]);
        assert(!opens_sequence(whole)) by {
            if front.len() >= 2 {
                assert(whole[1] == front[1]);
                assert(!sequence_starts_at(front, 0));
            } else if rest.len() > 0 {
                assert(whole[1] == rest[0]);
            }
        }
        assert(whole.skip(1) == shorter + rest);
        assert forall|i: int| !sequence_starts_at(shorter, i) by {
            assert(!sequence_starts_at(front, i + 1));
        }
        if shorter.len() > 0 {
            assert(shorter.last() == front.last());
        }
        lemma_strip_plain_front(shorter, rest);
        assert(seq![front[0]] + (shorter + stripped(rest)) == front + stripped(rest));
    }
}

/// Stripping never makes a buffer longer, and makes it shorter wherever a
/// styling sequence starts in it.
pub proof fn lemma_strip_len(s: Seq<u8>)
    ensures
        stripped(s).len() <= s.len(),
        !is_plain(s) ==> stripped(s).len() < s.len(),
    decreases s.len(),
{
    if s.len() == 0 {
        assert forall|i: int| !sequence_starts_at(s, i) by {}
    } else if opens_sequence(s) {
        lemma_after_terminator_len(s.skip(2));
        lemma_strip_len(after_terminator(s.skip(2)));
    } else {
        lemma_strip_len(s.skip(1));
        if !is_plain(s) {
            let i = choose|i: int| sequence_starts_at(s, i);
            assert(i != 0);
            assert(sequence_starts_at(s.skip(1), i - 1));
        }
    }
}

/// Stripping leaves a buffer as it is exactly when no styling sequence
/// starts in it.
pub proof fn lemma_strip_unchanged_iff_plain(s: Seq<u8>)
    ensures
        stripped(s) == s <==> is_plain(s),
{
    if is_plain(s) {
        let nothing = Seq::<u8>::empty();
        lemma_strip_plain_front(s, nothing);
        assert(s + nothing == s);
        assert(s + stripped(nothing) == s);
    } else {
        lemma_strip_len(s);
    }
}

/// A buffer without the escape byte is stripped to itself.
pub proof fn lemma_strip_without_escape(s: Seq<u8>)
    requires
        lacks(s, ESC),
    ensures
        stripped(s) == s,
{
    assert forall|i: int| !sequence_starts_at(s, i) by {}
    lemma_strip_unchanged_iff_plain(s);
}

/// A styling sequence that is closed, behind a plain front: the front stays,
/// the sequence goes, and what follows is stripped by itself.
pub proof fn lemma_strip_closed_sequence(front: Seq<u8>, body: Seq<u8>, rest: Seq<u8>)
    requires
        is_plain(front),
        lacks(body, CLOSE),
    ensures
        stripped(front + seq![ESC, OPEN] + body + seq![CLOSE] + rest) == front + stripped(rest),
{
    let sequence_on = seq![ESC, OPEN] + body + seq![CLOSE] + rest;
    assert(front + seq![ESC, OPEN] + body + seq![CLOSE] + rest == front + sequence_on);
    assert(sequence_on[0] == ESC);
    assert(sequence_on[1] == OPEN);
    lemma_strip_plain_front(front, sequence_on);
    assert(sequence_on.skip(2) == body + seq![CLOSE] + rest);
    lemma_after_terminator_found(body, rest);
}

/// Between two plain stretches a closed styling sequence is removed, and
/// nothing else: the result is the front followed by the rest.
pub proof fn lemma_strip_removes_sequence(front: Seq<u8>, body: Seq<u8>, rest: Seq<u8>)
    requires
        is_plain(front),
        lacks(body, CLOSE),
        is_plain(rest),
    ensures
        stripped(front + seq![ESC, OPEN] + body + seq![CLOSE] + rest) == front + rest,
{
    lemma_strip_closed_sequence(front, body, rest);
    lemma_strip_unchanged_iff_plain(rest);
}

/// A styling sequence that is never closed is dropped with all that follows
/// it: behind a plain front, only the front remains.
pub proof fn lemma_strip_unterminated(front: Seq<u8>, tail: Seq<u8>)
    requires
        is_plain(front),
        lacks(tail, CLOSE),
    ensures
        stripped(front + seq![ESC, OPEN] + tail) == front,
{
    let sequence_on = seq![ESC, OPEN] + tail;
    assert(front + seq![ESC, OPEN] + tail == front + sequence_on);
    assert(sequence_on[0] == ESC);
    assert(sequence_on[1] == OPEN);
    lemma_strip_plain_front(front, sequence_on);
    assert(sequence_on.skip(2) == tail);
    lemma_after_terminator_none(tail);
    assert(stripped(after_terminator(tail)) == Seq::<u8>::empty());
    assert(front + stripped(sequence_on) == front);
}

} // verus!
