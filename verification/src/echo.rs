//! Terminal-friendly echo of bytes received over UART.
//!
//! Backspace and DEL erase the previous character on the terminal
//! (backspace, space, backspace), carriage return and line feed both
//! become a CR+LF pair, and every other byte is sent back unchanged.
use vstd::prelude::*;

verus! {

/// ASCII backspace (BS).
pub const BACKSPACE: u8 = 0x08;

/// ASCII delete (DEL), sent by many terminals for the backspace key.
pub const DELETE: u8 = 0x7F;

/// ASCII carriage return (CR).
pub const CARRIAGE_RETURN: u8 = 0x0D;

/// ASCII line feed (LF).
pub const LINE_FEED: u8 = 0x0A;

/// ASCII space.
pub const SPACE: u8 = 0x20;

/// Bytes that erase the previous character: BS or DEL.
pub open spec fn is_erase(b: u8) -> bool {
    b == BACKSPACE || b == DELETE
}

/// Bytes that end a line: CR or LF.
pub open spec fn is_newline(b: u8) -> bool {
    b == CARRIAGE_RETURN || b == LINE_FEED
}

/// What the terminal is sent to erase the previous character.
pub open spec fn erase_sequence() -> Seq<u8> {
    seq![BACKSPACE, SPACE, BACKSPACE]
}

/// What the terminal is sent to start a new line.
pub open spec fn newline_sequence() -> Seq<u8> {
    seq![CARRIAGE_RETURN, LINE_FEED]
}

/// The bytes written back for one received byte.
pub open spec fn echo_of(b: u8) -> Seq<u8> {
    if is_erase(b) {
        erase_sequence()
    } else if is_newline(b) {
        newline_sequence()
    } else {
        seq![b]
    }
}

/// The bytes written back for a stream of received bytes, in order.
pub open spec fn echo_stream(s: Seq<u8>) -> Seq<u8>
    decreases s.len(),
{
    if s.len() == 0 {
        Seq::empty()
    } else {
        echo_stream(s.drop_last()) + echo_of(s.last())
    }
}

/// Sends the erase sequence: backspace, space, backspace.
pub fn handle_backspace(out: &mut Vec<u8>)
    ensures
        final(out)@ == old(out)@ + erase_sequence(),
        final(out)@ == old(out)@ + seq![0x08u8, 0x20u8, 0x08u8],
{
    out.push(BACKSPACE);
    out.push(SPACE);
    out.push(BACKSPACE);
}

/// Sends CR followed by LF.
pub fn handle_newline(out: &mut Vec<u8>)
    ensures
        final(out)@ == old(out)@ + newline_sequence(),
        final(out)@ == old(out)@ + seq![0x0Du8, 0x0Au8],
{
    out.push(CARRIAGE_RETURN);
    out.push(LINE_FEED);
}

/// Echoes one received byte by appending what the terminal is sent to `out`.
pub fn echo_char(out: &mut Vec<u8>, b: u8)
    ensures
        final(out)@ == old(out)@ + echo_of(b),
        (b == 0x08 || b == 0x7F) ==> final(out)@ == old(out)@ + seq![0x08u8, 0x20u8, 0x08u8],
        (b == 0x0D || b == 0x0A) ==> final(out)@ == old(out)@ + seq![0x0Du8, 0x0Au8],
        (b != 0x08 && b != 0x7F && b != 0x0D && b != 0x0A) ==> final(out)@ == old(out)@.push(b),
{
    if b == BACKSPACE || b == DELETE {
        handle_backspace(out);
    } else if b == CARRIAGE_RETURN || b == LINE_FEED {
        handle_newline(out);
    } else {
        out.push(b);
    }
}

/// Echoes every byte of `input` in order, as the receive loop does for a
/// finite stream.
pub fn echo_all(input: &[u8]) -> (res: Vec<u8>)
    ensures
        res@ == echo_stream(input@),
{
    let mut out: Vec<u8> = Vec::new();
    let n: usize = input.len();
    let mut i: usize = 0;
    while i < n
        invariant
            n == input@.len(),
            i <= n,
            out@ == echo_stream(input@.take(i as int)),
        decreases n - i,
    {
        let b: u8 = input[i];
        echo_char(&mut out, b);
        assert(input@.take(i + 1).drop_last() == input@.take(i as int));
        i = i + 1;
    }
    assert(input@.take(n as int) == input@);
    out
}

/// Echoing two streams one after the other sends exactly what echoing
/// each of them sends, one after the other: the receive loop keeps no
/// state between bytes.
pub proof fn lemma_echo_stream_concat(a: Seq<u8>, b: Seq<u8>)
    ensures
        echo_stream(a + b) == echo_stream(a) + echo_stream(b),
    decreases b.len(),
{
    if b.len() == 0 {
        assert(a + b == a);
        assert(echo_stream(b) == Seq::<u8>::empty());
        assert(echo_stream(a) + echo_stream(b) == echo_stream(a));
    } else {
        let b0 = b.drop_last();
        lemma_echo_stream_concat(a, b0);
        assert((a + b).drop_last() == a + b0);
        assert((a + b).last() == b.last());
        assert(echo_stream(a + b) == echo_stream(a + b0) + echo_of(b.last()));
        assert(echo_stream(b) == echo_stream(b0) + echo_of(b.last()));
        assert(echo_stream(a) + echo_stream(b0) + echo_of(b.last()) == echo_stream(a) + (
        echo_stream(b0) + echo_of(b.last())));
    }
}

/// Text without erase or newline bytes is echoed back unchanged.
pub proof fn lemma_plain_text_unchanged(s: Seq<u8>)
    requires
        forall|i: int| 0 <= i < s.len() ==> !is_erase(#[trigger] s[i]) && !is_newline(s[i]),
    ensures
        echo_stream(s) == s,
    decreases s.len(),
{
    if s.len() > 0 {
        let s0 = s.drop_last();
        assert forall|i: int| 0 <= i < s0.len() implies !is_erase(#[trigger] s0[i]) && !is_newline(
            s0[i],
        ) by {
            assert(s0[i] == s[i]);
        }
        lemma_plain_text_unchanged(s0);
        assert(!is_erase(s[s.len() - 1]) && !is_newline(s[s.len() - 1]));
        assert(s0.push(s.last()) == s);
    }
}

/// Every received byte makes the terminal receive at least one and at most
/// three bytes.
pub proof fn lemma_echo_stream_len(s: Seq<u8>)
    ensures
        s.len() <= echo_stream(s).len() <= 3 * s.len(),
    decreases s.len(),
{
    if s.len() > 0 {
        lemma_echo_stream_len(s.drop_last());
    }
}

/// The terminal is never sent a DEL byte.
pub proof fn lemma_echo_never_sends_delete(s: Seq<u8>)
    ensures
        !echo_stream(s).contains(DELETE),
    decreases s.len(),
{
    if s.len() > 0 {
        let s0 = s.drop_last();
        lemma_echo_never_sends_delete(s0);
        let out = echo_stream(s);
        let e = echo_of(s.last());
        assert(out == echo_stream(s0) + e);
        if out.contains(DELETE) {
            let k = choose|k: int| 0 <= k < out.len() && out[k] == DELETE;
            if k < echo_stream(s0).len() {
                assert(echo_stream(s0)[k] == DELETE);
            } else {
                assert(e[k - echo_stream(s0).len()] == DELETE);
            }
        }
    }
}

/// A line feed is only ever sent right after a carriage return.
pub proof fn lemma_line_feed_follows_carriage_return(s: Seq<u8>)
    ensures
        forall|k: int|
            0 <= k < echo_stream(s).len() && #[trigger] echo_stream(s)[k] == LINE_FEED ==> 0 < k
                && echo_stream(s)[k - 1] == CARRIAGE_RETURN,
    decreases s.len(),
{
    if s.len() > 0 {
        let s0 = s.drop_last();
        lemma_line_feed_follows_carriage_return(s0);
        let p = echo_stream(s0);
        let e = echo_of(s.last());
        let out = echo_stream(s);
        assert(out == p + e);
        assert forall|k: int| 0 <= k < out.len() && #[trigger] out[k] == LINE_FEED implies 0 < k
            && out[k - 1] == CARRIAGE_RETURN by {
            if k < p.len() {
                assert(p[k] == LINE_FEED);
                assert(out[k - 1] == p[k - 1]);
            } else {
                let j = k - p.len();
                assert(e[j] == LINE_FEED);
                assert(is_newline(s.last()) && !is_erase(s.last()));
                assert(j == 1);
                assert(out[k - 1] == e[0]);
            }
        }
    }
}

/// What one received byte is echoed as, by byte value: BS (0x08) and DEL
/// (0x7F) give BS, space, BS; CR (0x0D) and LF (0x0A) give CR, LF; every
/// other byte, including every byte of 0x80..=0xFF, is sent back alone.
pub proof fn lemma_echo_of_byte(b: u8)
    ensures
        (b == 0x08 || b == 0x7F) ==> echo_of(b) == seq![0x08u8, 0x20u8, 0x08u8],
        (b == 0x0D || b == 0x0A) ==> echo_of(b) == seq![0x0Du8, 0x0Au8],
        (b != 0x08 && b != 0x7F && b != 0x0D && b != 0x0A) ==> echo_of(b) == seq![b],
{
}

/// Echoing nothing sends nothing.
pub proof fn lemma_echo_stream_empty()
    ensures
        echo_stream(Seq::<u8>::empty()) == Seq::<u8>::empty(),
{
}

/// Receiving one more byte `b` after the stream `s` sends what `s` sent,
/// followed by the echo of `b` by byte value: BS, space, BS for 0x08 and
/// 0x7F; CR, LF for 0x0D and 0x0A; `b` itself for every other byte.
pub proof fn lemma_echo_stream_push(s: Seq<u8>, b: u8)
    ensures
        (b == 0x08 || b == 0x7F) ==> echo_stream(s.push(b)) == echo_stream(s) + seq![
            0x08u8,
            0x20u8,
            0x08u8,
        ],
        (b == 0x0D || b == 0x0A) ==> echo_stream(s.push(b)) == echo_stream(s) + seq![
            0x0Du8,
            0x0Au8,
        ],
        (b != 0x08 && b != 0x7F && b != 0x0D && b != 0x0A) ==> echo_stream(s.push(b))
            == echo_stream(s).push(b),
{
    assert(s.push(b).drop_last() == s);
    assert(s.push(b).last() == b);
    lemma_echo_of_byte(b);
}

/// The echo of a stream is, in input order, the concatenation of the
/// echoes of its bytes: position by position, each received byte is
/// answered by exactly the bytes `echo_char` appends for it.
pub proof fn lemma_echo_stream_is_bytewise(s: Seq<u8>, i: int)
    requires
        0 <= i < s.len(),
    ensures
        echo_stream(s) == echo_stream(s.take(i)) + echo_of(s[i]) + echo_stream(s.skip(i + 1)),
{
    let a = s.take(i);
    let rest = s.skip(i);
    assert(s == a + rest);
    lemma_echo_stream_concat(a, rest);
    let one = seq![s[i]];
    let tail = s.skip(i + 1);
    assert(rest == one + tail);
    lemma_echo_stream_concat(one, tail);
    assert(one == Seq::<u8>::empty().push(s[i]));
    assert(one.drop_last() == Seq::<u8>::empty());
    assert(one.last() == s[i]);
    lemma_echo_stream_empty();
    assert(echo_stream(one) == Seq::<u8>::empty() + echo_of(s[i]));
    assert(Seq::<u8>::empty() + echo_of(s[i]) == echo_of(s[i]));
    assert(echo_stream(a) + (echo_of(s[i]) + echo_stream(tail)) == echo_stream(a) + echo_of(s[i])
        + echo_stream(tail));
}

} // verus!
