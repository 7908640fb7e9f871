use vstd::prelude::*;
use vstd::string::StrSliceExecFns;
use vstd::utf8::*;

verus! {

/// Upper bound, in UTF-8 bytes, on every piece of dynamic metadata text.
pub const MAX_METADATA_TEXT_BYTES: usize = 128;

/// Number of bytes in the UTF-8 encoding of `c`.
pub open spec fn utf8_width(c: char) -> nat {
    if (c as u32) < 0x80 {
        1
    } else if (c as u32) < 0x800 {
        2
    } else if (c as u32) < 0x10000 {
        3
    } else {
        4
    }
}

/// The longest prefix of `s` whose UTF-8 encoding fits in `budget` bytes.
pub open spec fn prefix_within(s: Seq<char>, budget: nat) -> Seq<char>
    decreases s.len(),
{
    if s.len() == 0 {
        seq![]
    } else if utf8_width(s[0]) <= budget {
        seq![s[0]] + prefix_within(s.drop_first(), (budget - utf8_width(s[0])) as nat)
    } else {
        seq![]
    }
}

/// Metadata text as disclosed: the longest prefix within [`MAX_METADATA_TEXT_BYTES`] bytes.
pub open spec fn bounded_text(s: Seq<char>) -> Seq<char> {
    prefix_within(s, MAX_METADATA_TEXT_BYTES as nat)
}

proof fn lemma_encode_scalar_len(c: char)
    ensures
        encode_scalar(c as u32).len() == utf8_width(c),
{
    char_is_scalar(c);
}

proof fn lemma_encode_single(c: char)
    ensures
        encode_utf8(seq![c]) == encode_scalar(c as u32),
        encode_utf8(seq![c]).len() == utf8_width(c),
{
    let single = seq![c];
    assert(single.drop_first() =~= Seq::<char>::empty());
    assert(encode_utf8(single.drop_first()) =~= Seq::<u8>::empty());
    assert(encode_utf8(single) == encode_scalar(single[0] as u32) + encode_utf8(single.drop_first()));
    assert(encode_utf8(single) =~= encode_scalar(c as u32));
    lemma_encode_scalar_len(c);
}

proof fn lemma_encode_utf8_concat(a: Seq<char>, b: Seq<char>)
    ensures
        encode_utf8(a + b) == encode_utf8(a) + encode_utf8(b),
    decreases a.len(),
{
    if a.len() == 0 {
        assert(a + b =~= b);
    } else {
        lemma_encode_utf8_concat(a.drop_first(), b);
        assert((a + b).drop_first() =~= a.drop_first() + b);
        assert(encode_utf8(a + b) =~= encode_utf8(a) + encode_utf8(b));
    }
}

/// Length in bytes of the UTF-8 encoding of `s.take(k + 1)`.
proof fn lemma_encoded_len_step(s: Seq<char>, k: int)
    requires
        0 <= k < s.len(),
    ensures
        encode_utf8(s.take(k + 1)).len() == encode_utf8(s.take(k)).len() + utf8_width(s[k]),
{
    assert(s.take(k + 1) =~= s.take(k) + seq![s[k]]);
    lemma_encode_utf8_concat(s.take(k), seq![s[k]]);
    lemma_encode_single(s[k]);
}

proof fn lemma_prefix_within_properties(s: Seq<char>, budget: nat)
    ensures
        prefix_within(s, budget).len() <= s.len(),
        prefix_within(s, budget) == s.take(prefix_within(s, budget).len() as int),
        encode_utf8(prefix_within(s, budget)).len() <= budget,
        prefix_within(s, budget).len() < s.len() ==> encode_utf8(
            s.take(prefix_within(s, budget).len() + 1int),
        ).len() > budget,
    decreases s.len(),
{
    let p = prefix_within(s, budget);
    if s.len() == 0 {
        assert(p =~= s.take(0));
    } else if utf8_width(s[0]) <= budget {
        let rest = s.drop_first();
        let b2 = (budget - utf8_width(s[0])) as nat;
        lemma_prefix_within_properties(rest, b2);
        let q = prefix_within(rest, b2);
        assert(p =~= seq![s[0]] + q);
        assert(s.take(p.len() as int) =~= seq![s[0]] + rest.take(q.len() as int));
        lemma_encode_utf8_concat(seq![s[0]], q);
        lemma_encode_single(s[0]);
        if p.len() < s.len() {
            assert(s.take(p.len() + 1int) =~= seq![s[0]] + rest.take(q.len() + 1int));
            lemma_encode_utf8_concat(seq![s[0]], rest.take(q.len() + 1int));
        }
    } else {
        assert(p =~= s.take(0));
        lemma_encoded_len_step(s, 0);
        assert(s.take(0) =~= Seq::<char>::empty());
    }
}

/// Disclosed metadata text is a prefix of the original text, fits in
/// [`MAX_METADATA_TEXT_BYTES`] UTF-8 bytes, and is cut only where the next character would
/// not fit.
pub proof fn lemma_bounded_text_is_longest_fitting_prefix(s: Seq<char>)
    ensures
        bounded_text(s) == s.take(bounded_text(s).len() as int),
        encode_utf8(bounded_text(s)).len() <= MAX_METADATA_TEXT_BYTES,
        bounded_text(s).len() < s.len() ==> encode_utf8(s.take(bounded_text(s).len() + 1int)).len()
            > MAX_METADATA_TEXT_BYTES,
        encode_utf8(s).len() <= MAX_METADATA_TEXT_BYTES ==> bounded_text(s) == s,
{
    lemma_prefix_within_properties(s, MAX_METADATA_TEXT_BYTES as nat);
    let p = bounded_text(s);
    if encode_utf8(s).len() <= MAX_METADATA_TEXT_BYTES && p.len() < s.len() {
        // Encoded length only grows along prefixes.
        lemma_encode_utf8_concat(s.take(p.len() + 1int), s.skip(p.len() + 1int));
        assert(s.take(p.len() + 1int) + s.skip(p.len() + 1int) =~= s);
    }
    if p.len() == s.len() {
        assert(s.take(s.len() as int) =~= s);
    }
}

fn char_width(c: char) -> (width: usize)
    ensures
        width == utf8_width(c),
{
    let code = c as u32;
    if code < 0x80 {
        1
    } else if code < 0x800 {
        2
    } else if code < 0x10000 {
        3
    } else {
        4
    }
}

/// Truncates `value` to at most [`MAX_METADATA_TEXT_BYTES`] UTF-8 bytes on a character
/// boundary.
pub(crate) fn bounded_metadata_text(value: &str) -> (text: String)
    ensures
        text@ == bounded_text(value@),
{
    let count = value.unicode_len();
    let mut text = String::new();
    let mut remaining: usize = MAX_METADATA_TEXT_BYTES;
    let mut i: usize = 0;
    assert(value@.skip(0) =~= value@);
    assert(value@.take(0) + bounded_text(value@) =~= bounded_text(value@));
    while i < count
        invariant
            count == value@.len(),
            i <= count,
            remaining <= MAX_METADATA_TEXT_BYTES,
            text@ == value@.take(i as int),
            bounded_text(value@) == value@.take(i as int) + prefix_within(
                value@.skip(i as int),
                remaining as nat,
            ),
        decreases count - i,
    {
        let c = value.get_char(i);
        let width = char_width(c);
        let ghost tail = value@.skip(i as int);
        assert(tail[0] == c);
        if width > remaining {
            assert(prefix_within(tail, remaining as nat) =~= Seq::<char>::empty());
            assert(value@.take(i as int) + Seq::<char>::empty() =~= value@.take(i as int));
            return text;
        }
        assert(tail.drop_first() =~= value@.skip(i + 1));
        assert(value@.take(i + 1) =~= value@.take(i as int) + seq![c]);
        text.push(c);
        remaining = remaining - width;
        i = i + 1;
    }
    assert(value@.skip(i as int) =~= Seq::<char>::empty());
    assert(value@.take(i as int) + Seq::<char>::empty() =~= value@.take(i as int));
    text
}

} // verus!
