//! Datagram framing: a reading arrives as text at the front of a buffer that
//! is padded with NUL bytes to the buffer's size, and the text may have white
//! space around it.

use vstd::prelude::*;
use vstd::slice::slice_subrange;
use vstd::string::*;

verus! {

/// The largest datagram that the bridge reads.
pub const MAX_DATAGRAM: usize = 512;

/// Where the content of a padded buffer ends: behind its last byte that is
/// not NUL, or at 0 where every byte is NUL.
pub open spec fn content_end(bytes: Seq<u8>) -> int
    decreases bytes.len(),
{
    if bytes.len() > 0 && bytes.last() == 0 {
        content_end(bytes.drop_last())
    } else {
        bytes.len() as int
    }
}

/// The buffer without its trailing NUL padding.
pub open spec fn unpadded(bytes: Seq<u8>) -> Seq<u8> {
    bytes.take(content_end(bytes))
}

/// A run of NUL bytes, as padding.
pub open spec fn padding(count: nat) -> Seq<u8> {
    Seq::new(count, |i: int| 0u8)
}

/// The characters that Unicode gives the property `White_Space`.
pub open spec fn is_white_space(c: char) -> bool {
    let code = c as u32;
    (0x09 <= code && code <= 0x0d) || code == 0x20 || code == 0x85 || code == 0xa0 || code
        == 0x1680 || (0x2000 <= code && code <= 0x200a) || code == 0x2028 || code == 0x2029
        || code == 0x202f || code == 0x205f || code == 0x3000
}

/// Where the text ends once trailing white space is dropped.
pub open spec fn text_end(text: Seq<char>) -> int
    decreases text.len(),
{
    if text.len() > 0 && is_white_space(text.last()) {
        text_end(text.drop_last())
    } else {
        text.len() as int
    }
}

/// Where the text starts once leading white space is dropped.
pub open spec fn text_start(text: Seq<char>) -> int
    decreases text.len(),
{
    if text.len() > 0 && is_white_space(text.first()) {
        1 + text_start(text.drop_first())
    } else {
        0
    }
}

/// The text without the white space around it.
pub open spec fn trimmed(text: Seq<char>) -> Seq<char> {
    let head = text.take(text_end(text));
    head.skip(text_start(head))
}

/// The buffer without its trailing NUL padding.
pub fn unpad(bytes: &[u8]) -> (content: &[u8])
    ensures
        content@ == unpadded(bytes@),
{
    let mut end: usize = bytes.len();
    assert(bytes@.take(end as int) =~= bytes@);
    while end > 0 && bytes[end - 1] == 0
        invariant
            end <= bytes.len(),
            content_end(bytes@) == content_end(bytes@.take(end as int)),
        decreases end,
    {
        assert(bytes@.take(end as int).drop_last() =~= bytes@.take(end as int - 1));
        end = end - 1;
    }
    let content = slice_subrange(bytes, 0, end);
    assert(content@ =~= unpadded(bytes@));
    content
}

fn is_white_space_char(c: char) -> (white: bool)
    ensures
        white == is_white_space(c),
{
    let code: u32 = c as u32;
    (0x09 <= code && code <= 0x0d) || code == 0x20 || code == 0x85 || code == 0xa0 || code
        == 0x1680 || (0x2000 <= code && code <= 0x200a) || code == 0x2028 || code == 0x2029
        || code == 0x202f || code == 0x205f || code == 0x3000
}

/// The text without the white space around it.
pub fn trim(text: &str) -> (inner: &str)
    ensures
        inner@ == trimmed(text@),
{
    let mut end: usize = text.unicode_len();
    assert(text@.take(end as int) =~= text@);
    while end > 0 && is_white_space_char(text.get_char(end - 1))
        invariant
            end <= text@.len(),
            text_end(text@) == text_end(text@.take(end as int)),
        decreases end,
    {
        assert(text@.take(end as int).drop_last() =~= text@.take(end as int - 1));
        end = end - 1;
    }
    let ghost head = text@.take(end as int);
    assert(head.skip(0) =~= head);
    let mut start: usize = 0;
    while start < end && is_white_space_char(text.get_char(start))
        invariant
            start <= end <= text@.len(),
            head == text@.take(end as int),
            text_start(head) == start + text_start(head.skip(start as int)),
        decreases end - start,
    {
        assert(head.skip(start as int).drop_first() =~= head.skip(start as int + 1));
        start = start + 1;
    }
    assert(text@.subrange(start as int, end as int) =~= head.skip(start as int));
    text.substring_char(start, end)
}

/// The content ends inside the buffer, with nothing but NUL bytes behind it
/// and no NUL byte directly before it.
pub proof fn lemma_content_end(bytes: Seq<u8>)
    ensures
        0 <= content_end(bytes) <= bytes.len(),
        forall|i: int| content_end(bytes) <= i < bytes.len() ==> bytes[i] == 0,
        content_end(bytes) > 0 ==> bytes[content_end(bytes) - 1] != 0,
    decreases bytes.len(),
{
    if bytes.len() > 0 && bytes.last() == 0 {
        let front = bytes.drop_last();
        lemma_content_end(front);
        assert forall|i: int| content_end(bytes) <= i < bytes.len() implies bytes[i] == 0 by {
            if i < front.len() {
                assert(bytes[i] == front[i]);
            }
        }
        if content_end(bytes) > 0 {
            assert(bytes[content_end(bytes) - 1] == front[content_end(front) - 1]);
        }
    }
}

/// Padding takes nothing from a message and adds nothing to it: a message
/// that does not end with NUL is what is left of the message padded to any
/// size once the padding is dropped.
pub proof fn lemma_unpadded_padded(body: Seq<u8>, count: nat)
    requires
        body.len() > 0 ==> body.last() != 0,
    ensures
        unpadded(body + padding(count)) == body,
    decreases count,
{
    let buffer = body + padding(count);
    if count > 0 {
        assert(buffer.drop_last() =~= body + padding((count - 1) as nat));
        lemma_unpadded_padded(body, (count - 1) as nat);
        lemma_content_end(buffer.drop_last());
        assert(unpadded(buffer) =~= unpadded(buffer.drop_last()));
    } else {
        assert(buffer =~= body);
        assert(unpadded(body) =~= body);
    }
}

/// The trimmed text is a part of the text that neither starts nor ends with
/// white space, and what stands before and behind it in the text is white
/// space only.
pub proof fn lemma_trimmed(text: Seq<char>)
    ensures
        0 <= text_start(text.take(text_end(text))) <= text_end(text) <= text.len(),
        trimmed(text) == text.subrange(text_start(text.take(text_end(text))), text_end(text)),
        forall|i: int| text_end(text) <= i < text.len() ==> is_white_space(text[i]),
        forall|i: int|
            0 <= i < text_start(text.take(text_end(text))) ==> is_white_space(text[i]),
        trimmed(text).len() > 0 ==> !is_white_space(trimmed(text).first()) && !is_white_space(
            trimmed(text).last(),
        ),
{
    lemma_text_end(text);
    let head = text.take(text_end(text));
    lemma_text_start(head);
    assert(trimmed(text) =~= text.subrange(text_start(head), text_end(text)));
    assert forall|i: int| 0 <= i < text_start(head) implies is_white_space(text[i]) by {
        assert(text[i] == head[i]);
    }
    if trimmed(text).len() > 0 {
        assert(trimmed(text).first() == head[text_start(head)]);
        assert(trimmed(text).last() == text[text_end(text) - 1]);
    }
}

proof fn lemma_text_end(text: Seq<char>)
    ensures
        0 <= text_end(text) <= text.len(),
        forall|i: int| text_end(text) <= i < text.len() ==> is_white_space(text[i]),
        text_end(text) > 0 ==> !is_white_space(text[text_end(text) - 1]),
    decreases text.len(),
{
    if text.len() > 0 && is_white_space(text.last()) {
        let front = text.drop_last();
        lemma_text_end(front);
        assert forall|i: int| text_end(text) <= i < text.len() implies is_white_space(
            text[i],
        ) by {
            if i < front.len() {
                assert(text[i] == front[i]);
            }
        }
        if text_end(text) > 0 {
            assert(text[text_end(text) - 1] == front[text_end(front) - 1]);
        }
    }
}

proof fn lemma_text_start(text: Seq<char>)
    ensures
        0 <= text_start(text) <= text.len(),
        forall|i: int| 0 <= i < text_start(text) ==> is_white_space(text[i]),
        text_start(text) < text.len() ==> !is_white_space(text[text_start(text)]),
    decreases text.len(),
{
    if text.len() > 0 && is_white_space(text.first()) {
        let rest = text.drop_first();
        lemma_text_start(rest);
        assert forall|i: int| 0 <= i < text_start(text) implies is_white_space(text[i]) by {
            if i > 0 {
                assert(text[i] == rest[i - 1]);
            }
        }
        if text_start(text) < text.len() {
            assert(text[text_start(text)] == rest[text_start(rest)]);
        }
    }
}

/// Text that neither starts nor ends with white space is left as it is.
pub proof fn lemma_trimmed_unchanged(text: Seq<char>)
    requires
        text.len() > 0 ==> !is_white_space(text.first()) && !is_white_space(text.last()),
    ensures
        trimmed(text) == text,
{
    assert(text.take(text.len() as int) =~= text);
    assert(text.skip(0) =~= text);
}

} // verus!
