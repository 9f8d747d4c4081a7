//! Two functions of the standard library on text.
use vstd::prelude::*;

verus! {

/// Whether a character has the Unicode property `White_Space`.
pub open spec fn is_white_space(c: char) -> bool {
    ||| '\u{9}' <= c <= '\u{d}'
    ||| c == ' '
    ||| c == '\u{85}'
    ||| c == '\u{a0}'
    ||| c == '\u{1680}'
    ||| '\u{2000}' <= c <= '\u{200a}'
    ||| '\u{2028}' <= c <= '\u{2029}'
    ||| c == '\u{202f}'
    ||| c == '\u{205f}'
    ||| c == '\u{3000}'
}

/// A text without the white space in front of it.
pub open spec fn trimmed_start(text: Seq<char>) -> Seq<char>
    decreases text.len(),
{
    if text.len() > 0 && is_white_space(text.first()) {
        trimmed_start(text.drop_first())
    } else {
        text
    }
}

/// A text without the white space behind it.
pub open spec fn trimmed_end(text: Seq<char>) -> Seq<char>
    decreases text.len(),
{
    if text.len() > 0 && is_white_space(text.last()) {
        trimmed_end(text.drop_last())
    } else {
        text
    }
}

/// A text without the white space around it.
pub open spec fn trimmed(text: Seq<char>) -> Seq<char> {
    trimmed_end(trimmed_start(text))
}

/// `str::trim` of the standard library: the text without leading and trailing characters that
/// have the Unicode property `White_Space`.
#[verifier::external_body]
pub(crate) fn trim(text: &str) -> (r: &str)
    ensures
        r@ == trimmed(text@),
{
    text.trim()
}

/// The text that bytes stand for, where what is not UTF-8 among them is replaced.
pub uninterp spec fn utf8_lossy(bytes: Seq<u8>) -> Seq<char>;

/// `String::from_utf8_lossy` of the standard library: bytes that are UTF-8 are decoded, and in
/// others each sequence that is invalid is replaced by U+FFFD, so that one stands in the text. How
/// many bytes each U+FFFD replaces is left unsaid.
#[verifier::external_body]
pub(crate) fn from_utf8_lossy(bytes: &[u8]) -> (r: String)
    ensures
        r@ == utf8_lossy(bytes@),
        vstd::utf8::valid_utf8(bytes@) ==> r@ == vstd::utf8::decode_utf8(bytes@),
        !vstd::utf8::valid_utf8(bytes@) ==> r@.contains('\u{fffd}'),
{
    String::from_utf8_lossy(bytes).into_owned()
}

/// Whether a text is nothing but white space.
pub open spec fn all_white_space(text: Seq<char>) -> bool {
    forall|i: int| 0 <= i < text.len() ==> is_white_space(#[trigger] text[i])
}

proof fn lemma_trimmed_start_skips(lead: Seq<char>, text: Seq<char>)
    requires
        all_white_space(lead),
    ensures
        trimmed_start(lead + text) == trimmed_start(text),
    decreases lead.len(),
{
    if lead.len() == 0 {
        assert(lead + text =~= text);
    } else {
        assert((lead + text).first() == lead[0]);
        assert((lead + text).drop_first() =~= lead.drop_first() + text);
        lemma_trimmed_start_skips(lead.drop_first(), text);
    }
}

proof fn lemma_trimmed_end_skips(text: Seq<char>, trail: Seq<char>)
    requires
        all_white_space(trail),
    ensures
        trimmed_end(text + trail) == trimmed_end(text),
    decreases trail.len(),
{
    if trail.len() == 0 {
        assert(text + trail =~= text);
    } else {
        assert((text + trail).last() == trail[trail.len() - 1]);
        assert((text + trail).drop_last() =~= text + trail.drop_last());
        lemma_trimmed_end_skips(text, trail.drop_last());
    }
}

proof fn lemma_trimmed_skips_end(text: Seq<char>, trail: Seq<char>)
    requires
        all_white_space(trail),
    ensures
        trimmed(text + trail) == trimmed(text),
    decreases text.len(),
{
    if text.len() == 0 {
        assert(text + trail =~= trail + text);
        lemma_trimmed_start_skips(trail, text);
    } else {
        assert((text + trail).first() == text[0]);
        if is_white_space(text.first()) {
            assert((text + trail).drop_first() =~= text.drop_first() + trail);
            lemma_trimmed_skips_end(text.drop_first(), trail);
        } else {
            lemma_trimmed_end_skips(text, trail);
        }
    }
}

/// White space around a text is trimmed away, whatever the text.
pub proof fn trimmed_ignores_white_space(lead: Seq<char>, text: Seq<char>, trail: Seq<char>)
    requires
        all_white_space(lead),
        all_white_space(trail),
    ensures
        trimmed(lead + text + trail) == trimmed(text),
{
    assert(lead + text + trail =~= lead + (text + trail));
    lemma_trimmed_start_skips(lead, text + trail);
    lemma_trimmed_skips_end(text, trail);
}

/// The characters that are white space, by their codes.
pub proof fn white_space_codes(c: char)
    ensures
        is_white_space(c) <==> {
            let code = c as u32;
            ||| 9 <= code <= 13
            ||| code == 32
            ||| code == 0x85
            ||| code == 0xa0
            ||| code == 0x1680
            ||| 0x2000 <= code <= 0x200a
            ||| code == 0x2028
            ||| code == 0x2029
            ||| code == 0x202f
            ||| code == 0x205f
            ||| code == 0x3000
        },
{
}

/// Whether a text neither starts nor ends with white space.
pub open spec fn is_tight(text: Seq<char>) -> bool {
    text.len() > 0 ==> !is_white_space(text[0]) && !is_white_space(text[text.len() - 1])
}

proof fn lemma_trimmed_start_parts(text: Seq<char>) -> (lead: Seq<char>)
    ensures
        text == lead + trimmed_start(text),
        all_white_space(lead),
        trimmed_start(text).len() > 0 ==> !is_white_space(trimmed_start(text)[0]),
    decreases text.len(),
{
    if text.len() > 0 && is_white_space(text.first()) {
        let lead = lemma_trimmed_start_parts(text.drop_first());
        let whole = seq![text.first()] + lead;
        assert(whole + trimmed_start(text) =~= seq![text.first()] + (lead + trimmed_start(text)));
        assert(text =~= seq![text.first()] + text.drop_first());
        whole
    } else {
        assert(text =~= Seq::<char>::empty() + text);
        Seq::empty()
    }
}

proof fn lemma_trimmed_end_parts(text: Seq<char>) -> (trail: Seq<char>)
    ensures
        text == trimmed_end(text) + trail,
        all_white_space(trail),
        trimmed_end(text).len() > 0 ==> !is_white_space(
            trimmed_end(text)[trimmed_end(text).len() - 1],
        ),
    decreases text.len(),
{
    if text.len() > 0 && is_white_space(text.last()) {
        let trail = lemma_trimmed_end_parts(text.drop_last());
        let whole = trail + seq![text.last()];
        assert(trimmed_end(text) + whole =~= (trimmed_end(text) + trail) + seq![text.last()]);
        assert(text =~= text.drop_last() + seq![text.last()]);
        whole
    } else {
        assert(text =~= text + Seq::<char>::empty());
        Seq::empty()
    }
}

/// Every text is what trimming leaves of it with white space around it, and what trimming leaves
/// neither starts nor ends with white space.
pub proof fn trimmed_parts(text: Seq<char>) -> (around: (Seq<char>, Seq<char>))
    ensures
        text == around.0 + trimmed(text) + around.1,
        all_white_space(around.0),
        all_white_space(around.1),
        is_tight(trimmed(text)),
{
    let rest = trimmed_start(text);
    let lead = lemma_trimmed_start_parts(text);
    let trail = lemma_trimmed_end_parts(rest);
    assert(lead + (trimmed(text) + trail) =~= lead + trimmed(text) + trail);
    if trimmed(text).len() > 0 {
        assert(rest[0] == trimmed(text)[0]);
    }
    (lead, trail)
}

/// Trimming leaves a text that neither starts nor ends with white space as it is, and takes all
/// white space around it away.
pub proof fn tight_text_is_kept(lead: Seq<char>, text: Seq<char>, trail: Seq<char>)
    requires
        all_white_space(lead),
        is_tight(text),
        all_white_space(trail),
    ensures
        trimmed(text) == text,
        trimmed(lead + text + trail) == text,
{
    trimmed_ignores_white_space(lead, text, trail);
}

} // verus!
