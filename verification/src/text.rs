//! Substitution on raw bytes: splicing a replacement into matched regions, and
//! replacing every occurrence of a literal.

use vstd::prelude::*;

verus! {

/// Whether `span` lies inside a text of `len` bytes and starts at or after `from`.
pub open spec fn span_fits(span: (usize, usize), from: int, len: int) -> bool {
    from <= span.0 <= span.1 <= len
}

/// The text from `from` on, where each span that fits behind the one taken
/// before it is replaced; a span that does not fit is passed over.
pub open spec fn spliced_from(
    text: Seq<u8>,
    spans: Seq<(usize, usize)>,
    replacement: Seq<u8>,
    from: int,
) -> Seq<u8>
    decreases spans.len(),
{
    if spans.len() == 0 {
        text.subrange(from, text.len() as int)
    } else if span_fits(spans[0], from, text.len() as int) {
        text.subrange(from, spans[0].0 as int) + replacement + spliced_from(
            text,
            spans.drop_first(),
            replacement,
            spans[0].1 as int,
        )
    } else {
        spliced_from(text, spans.drop_first(), replacement, from)
    }
}

/// The text rebuilt as prefix, replacement, what lies between two regions,
/// replacement, and so on to the suffix.
pub open spec fn spliced(text: Seq<u8>, spans: Seq<(usize, usize)>, replacement: Seq<u8>) -> Seq<
    u8,
> {
    spliced_from(text, spans, replacement, 0)
}

/// Appends the bytes of `src` to `out`.
pub fn append_bytes(out: &mut Vec<u8>, src: &[u8])
    ensures
        final(out)@ == old(out)@ + src@,
{
    let mut i: usize = 0;
    while i < src.len()
        invariant
            i <= src.len(),
            out@ == old(out)@ + src@.subrange(0, i as int),
        decreases src.len() - i,
    {
        out.push(src[i]);
        i += 1;
        assert(src@.subrange(0, i as int) == src@.subrange(0, i - 1).push(src@[i - 1]));
    }
    assert(src@.subrange(0, i as int) == src@);
}

/// Replaces each of the given regions of `text` by `replacement` and leaves
/// every other byte as it is.
pub fn replace_spans(text: &[u8], spans: &Vec<(usize, usize)>, replacement: &[u8]) -> (out: Vec<u8>)
    ensures
        out@ == spliced(text@, spans@, replacement@),
{
    let mut out: Vec<u8> = Vec::new();
    let mut pos: usize = 0;
    let mut k: usize = 0;
    proof {
        assert(spans@.skip(0) =~= spans@);
        assert(out@ + spliced(text@, spans@, replacement@) =~= spliced(
            text@,
            spans@,
            replacement@,
        ));
    }
    while k < spans.len()
        invariant
            k <= spans.len(),
            pos <= text.len(),
            out@ + spliced_from(text@, spans@.skip(k as int), replacement@, pos as int) == spliced(
                text@,
                spans@,
                replacement@,
            ),
        decreases spans.len() - k,
    {
        let start: usize = spans[k].0;
        let end: usize = spans[k].1;
        assert(spans@.skip(k as int)[0] == spans@[k as int]);
        assert(spans@.skip(k as int).drop_first() == spans@.skip(k + 1));
        if pos <= start && start <= end && end <= text.len() {
            append_bytes(&mut out, vstd::slice::slice_subrange(text, pos, start));
            append_bytes(&mut out, replacement);
            pos = end;
        }
        k += 1;
    }
    append_bytes(&mut out, vstd::slice::slice_subrange(text, pos, text.len()));
    out
}

/// With no region to replace the text stays as it is.
pub proof fn spliced_without_spans(text: Seq<u8>, replacement: Seq<u8>)
    ensures
        spliced(text, Seq::empty(), replacement) == text,
{
    assert(text.subrange(0, text.len() as int) == text);
}

/// Where every region inside the text already holds the replacement, the
/// text from `from` on stays as it is.
pub proof fn spliced_from_settled(
    text: Seq<u8>,
    spans: Seq<(usize, usize)>,
    replacement: Seq<u8>,
    from: int,
)
    requires
        0 <= from <= text.len(),
        forall|i: int|
            0 <= i < spans.len() && spans[i].0 <= spans[i].1 <= text.len() ==> text.subrange(
                #[trigger] spans[i].0 as int,
                spans[i].1 as int,
            ) == replacement,
    ensures
        spliced_from(text, spans, replacement, from) == text.subrange(from, text.len() as int),
    decreases spans.len(),
{
    if spans.len() > 0 {
        let rest = spans.drop_first();
        assert forall|i: int|
            0 <= i < rest.len() && rest[i].0 <= rest[i].1 <= text.len() implies text.subrange(
            #[trigger] rest[i].0 as int,
            rest[i].1 as int,
        ) == replacement by {
            assert(rest[i] == spans[i + 1]);
        }
        if span_fits(spans[0], from, text.len() as int) {
            spliced_from_settled(text, rest, replacement, spans[0].1 as int);
            assert(text.subrange(spans[0].0 as int, spans[0].1 as int) == replacement);
            assert(text.subrange(from, spans[0].0 as int) + replacement + text.subrange(
                spans[0].1 as int,
                text.len() as int,
            ) == text.subrange(from, text.len() as int));
        } else {
            spliced_from_settled(text, rest, replacement, from);
        }
    }
}

/// A second substitution changes nothing: where every region inside the text
/// already holds the replacement, splicing the replacement in gives the same
/// text.
pub proof fn spliced_settled(text: Seq<u8>, spans: Seq<(usize, usize)>, replacement: Seq<u8>)
    requires
        forall|i: int|
            0 <= i < spans.len() && spans[i].0 <= spans[i].1 <= text.len() ==> text.subrange(
                #[trigger] spans[i].0 as int,
                spans[i].1 as int,
            ) == replacement,
    ensures
        spliced(text, spans, replacement) == text,
{
    spliced_from_settled(text, spans, replacement, 0);
    assert(text.subrange(0, text.len() as int) == text);
}

/// Whether `pattern` stands in `text` at offset `at`.
pub open spec fn occurs_at(text: Seq<u8>, pattern: Seq<u8>, at: int) -> bool {
    &&& 0 <= at
    &&& at + pattern.len() <= text.len()
    &&& text.subrange(at, at + pattern.len()) == pattern
}

/// Whether a character of UTF-8 text may begin with this byte: every byte
/// but those that continue a character.
pub open spec fn starts_char(byte: u8) -> bool {
    !(0x80 <= byte < 0xC0)
}

/// The text from `from` on with `new` put in front of every character and
/// behind the last one: what replacing the empty literal means.
pub open spec fn interleaved_from(text: Seq<u8>, new: Seq<u8>, from: int) -> Seq<u8>
    decreases text.len() - from,
{
    if from >= text.len() {
        new
    } else if starts_char(text[from]) {
        new + seq![text[from]] + interleaved_from(text, new, from + 1)
    } else {
        seq![text[from]] + interleaved_from(text, new, from + 1)
    }
}

/// The text from `from` on with every occurrence of the literal `old`
/// replaced by `new`: occurrences are taken from the left and do not overlap.
pub open spec fn substituted_from(text: Seq<u8>, old: Seq<u8>, new: Seq<u8>, from: int) -> Seq<u8>
    decreases text.len() - from,
{
    if from >= text.len() || old.len() == 0 {
        Seq::empty()
    } else if occurs_at(text, old, from) {
        new + substituted_from(text, old, new, from + old.len())
    } else {
        seq![text[from]] + substituted_from(text, old, new, from + 1)
    }
}

/// The text with every occurrence of the literal `old` replaced by `new`.
pub open spec fn replaced(text: Seq<u8>, old: Seq<u8>, new: Seq<u8>) -> Seq<u8> {
    if old.len() == 0 {
        interleaved_from(text, new, 0)
    } else {
        substituted_from(text, old, new, 0)
    }
}

/// Tells whether `pattern` stands in `text` at offset `at`.
pub fn matches_at(text: &[u8], pattern: &[u8], at: usize) -> (r: bool)
    ensures
        r == occurs_at(text@, pattern@, at as int),
{
    if at > text.len() || pattern.len() > text.len() - at {
        return false;
    }
    let mut j: usize = 0;
    while j < pattern.len()
        invariant
            j <= pattern.len(),
            at + pattern.len() <= text.len(),
            text@.subrange(at as int, at + j) == pattern@.subrange(0, j as int),
        decreases pattern.len() - j,
    {
        if text[at + j] != pattern[j] {
            proof {
                let found = text@.subrange(at as int, at + pattern.len());
                assert(found[j as int] == text@[at + j]);
            }
            return false;
        }
        j += 1;
        assert(text@.subrange(at as int, at + j) == text@.subrange(at as int, at + j - 1).push(
            text@[at + j - 1],
        ));
        assert(pattern@.subrange(0, j as int) == pattern@.subrange(0, j - 1).push(pattern@[j - 1]));
    }
    assert(pattern@.subrange(0, j as int) == pattern@);
    true
}

/// Replaces every occurrence of the literal `old` in `text` by `new` and
/// leaves every other byte as it is.
pub fn replace_all(text: &[u8], old: &[u8], new: &[u8]) -> (out: Vec<u8>)
    ensures
        out@ == replaced(text@, old@, new@),
{
    let mut out: Vec<u8> = Vec::new();
    let mut i: usize = 0;
    if old.len() == 0 {
        proof {
            assert(out@ + replaced(text@, old@, new@) =~= replaced(text@, old@, new@));
        }
        while i < text.len()
            invariant
                i <= text.len(),
                old@.len() == 0,
                out@ + interleaved_from(text@, new@, i as int) == replaced(text@, old@, new@),
            decreases text.len() - i,
        {
            let ghost before = out@;
            let byte: u8 = text[i];
            if !(0x80 <= byte && byte < 0xC0) {
                append_bytes(&mut out, new);
            }
            out.push(byte);
            i += 1;
            assert(out@ + interleaved_from(text@, new@, i as int) =~= before + interleaved_from(
                text@,
                new@,
                i - 1,
            ));
        }
        append_bytes(&mut out, new);
        return out;
    }
    proof {
        assert(out@ + replaced(text@, old@, new@) =~= replaced(text@, old@, new@));
    }
    while i < text.len()
        invariant
            i <= text.len(),
            old@.len() > 0,
            out@ + substituted_from(text@, old@, new@, i as int) == replaced(text@, old@, new@),
        decreases text.len() - i,
    {
        let ghost before = out@;
        let ghost at = i as int;
        if matches_at(text, old, i) {
            append_bytes(&mut out, new);
            i += old.len();
        } else {
            out.push(text[i]);
            i += 1;
        }
        assert(out@ + substituted_from(text@, old@, new@, i as int) =~= before + substituted_from(
            text@,
            old@,
            new@,
            at,
        ));
    }
    assert(out@ + Seq::<u8>::empty() =~= out@);
    out
}

/// Replacing a literal by itself changes nothing, from any offset on.
pub proof fn substituted_from_same(text: Seq<u8>, old: Seq<u8>, from: int)
    requires
        0 <= from <= text.len(),
        old.len() > 0,
    ensures
        substituted_from(text, old, old, from) == text.subrange(from, text.len() as int),
    decreases text.len() - from,
{
    if from < text.len() {
        if occurs_at(text, old, from) {
            substituted_from_same(text, old, from + old.len());
            assert(old + text.subrange(from + old.len(), text.len() as int) =~= text.subrange(
                from,
                text.len() as int,
            ));
        } else {
            substituted_from_same(text, old, from + 1);
            assert(seq![text[from]] + text.subrange(from + 1, text.len() as int) =~= text.subrange(
                from,
                text.len() as int,
            ));
        }
    } else {
        assert(text.subrange(from, text.len() as int) =~= Seq::<u8>::empty());
    }
}

/// Putting the empty text in front of every character changes nothing.
pub proof fn interleaved_from_empty(text: Seq<u8>, from: int)
    requires
        0 <= from <= text.len(),
    ensures
        interleaved_from(text, Seq::empty(), from) == text.subrange(from, text.len() as int),
    decreases text.len() - from,
{
    if from < text.len() {
        interleaved_from_empty(text, from + 1);
        assert(seq![text[from]] + text.subrange(from + 1, text.len() as int) =~= text.subrange(
            from,
            text.len() as int,
        ));
        assert(Seq::<u8>::empty() + seq![text[from]] =~= seq![text[from]]);
    } else {
        assert(text.subrange(from, text.len() as int) =~= Seq::<u8>::empty());
    }
}

/// A second replacement changes nothing: a text in which the literal is
/// replaced by itself stays as it is.
pub proof fn replaced_same(text: Seq<u8>, old: Seq<u8>)
    ensures
        replaced(text, old, old) == text,
{
    if old.len() == 0 {
        assert(old =~= Seq::<u8>::empty());
        interleaved_from_empty(text, 0);
    } else {
        substituted_from_same(text, old, 0);
    }
    assert(text.subrange(0, text.len() as int) =~= text);
}

/// Where the literal does not occur from `from` on, the text stays as it is.
pub proof fn substituted_from_absent(text: Seq<u8>, old: Seq<u8>, new: Seq<u8>, from: int)
    requires
        0 <= from <= text.len(),
        old.len() > 0,
        forall|at: int| from <= at ==> !occurs_at(text, old, at),
    ensures
        substituted_from(text, old, new, from) == text.subrange(from, text.len() as int),
    decreases text.len() - from,
{
    if from < text.len() {
        substituted_from_absent(text, old, new, from + 1);
        assert(seq![text[from]] + text.subrange(from + 1, text.len() as int) =~= text.subrange(
            from,
            text.len() as int,
        ));
    } else {
        assert(text.subrange(from, text.len() as int) =~= Seq::<u8>::empty());
    }
}

/// Only occurrences are touched: a text in which the literal does not occur
/// stays as it is.
pub proof fn replaced_absent(text: Seq<u8>, old: Seq<u8>, new: Seq<u8>)
    requires
        old.len() > 0,
        forall|at: int| !occurs_at(text, old, at),
    ensures
        replaced(text, old, new) == text,
{
    substituted_from_absent(text, old, new, 0);
    assert(text.subrange(0, text.len() as int) =~= text);
}

} // verus!
