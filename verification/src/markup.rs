//! The chat's markup dialect: which characters it reads as markup, and what
//! escaping, a link and italics look like in it.

use vstd::prelude::*;

verus! {

/// The characters that the dialect reads as markup.
pub open spec fn is_markup_char(c: char) -> bool {
    c == '_' || c == '*' || c == '[' || c == ']' || c == '(' || c == ')' || c == '~' || c == '`'
        || c == '>' || c == '#' || c == '+' || c == '-' || c == '=' || c == '|' || c == '{'
        || c == '}' || c == '.' || c == '!'
}

/// The characters that would end a link's target early.
pub open spec fn is_link_char(c: char) -> bool {
    c == '`' || c == ')'
}

/// One character of free text as it is shown: a markup character gets a
/// backslash in front of it, any other stays as it is.
pub open spec fn escaped_char(c: char) -> Seq<char> {
    if is_markup_char(c) {
        seq!['\\', c]
    } else {
        seq![c]
    }
}

/// Free text as it is shown: each character escaped in turn.
pub open spec fn escaped(s: Seq<char>) -> Seq<char>
    decreases s.len(),
{
    if s.len() == 0 {
        Seq::empty()
    } else {
        escaped_char(s[0]) + escaped(s.subrange(1, s.len() as int))
    }
}

/// A link's target as it is written: a backslash in front of each character
/// that would end the target early.
pub open spec fn escaped_target(s: Seq<char>) -> Seq<char>
    decreases s.len(),
{
    if s.len() == 0 {
        Seq::empty()
    } else {
        (if is_link_char(s[0]) {
            seq!['\\', s[0]]
        } else {
            seq![s[0]]
        }) + escaped_target(s.subrange(1, s.len() as int))
    }
}

/// An inline link: the label in square brackets, then the escaped target in
/// round ones. The label is taken as it comes.
pub open spec fn link_of(target: Seq<char>, label: Seq<char>) -> Seq<char> {
    seq!['['] + label + seq![']', '('] + escaped_target(target) + seq![')']
}

/// Whether a text both begins and ends with two underscores.
pub open spec fn is_underlined(s: Seq<char>) -> bool {
    s.len() >= 2 && s[0] == '_' && s[1] == '_' && s[s.len() - 1] == '_' && s[s.len() - 2] == '_'
}

/// A text in italics: between two underscores. One that is underlined
/// already loses its last underscore and gets a backslash, the letter r and
/// two underscores in its place, so that the dialect can tell the two apart.
pub open spec fn italic_of(s: Seq<char>) -> Seq<char> {
    if is_underlined(s) {
        seq!['_'] + s.subrange(0, s.len() - 1) + seq!['\\', 'r', '_', '_']
    } else {
        seq!['_'] + s + seq!['_']
    }
}

/// `teloxide::utils::markdown::escape`. Believed, not proved: it puts a
/// backslash in front of each of the eighteen markup characters and changes
/// nothing else.
#[verifier::external_body]
pub(crate) fn escape(s: &str) -> (r: String)
    ensures
        r@ == escaped(s@),
{
    teloxide::utils::markdown::escape(s)
}

/// `teloxide::utils::markdown::link`. Believed, not proved: it writes the
/// label as given between square brackets and the target between round ones,
/// with a backslash before each backtick and closing round bracket of the
/// target.
#[verifier::external_body]
pub(crate) fn link(target: &str, label: &str) -> (r: String)
    ensures
        r@ == link_of(target@, label@),
{
    teloxide::utils::markdown::link(target, label)
}

/// `teloxide::utils::markdown::italic`. Believed, not proved: it puts the
/// text between two underscores, and treats a text that begins and ends with
/// two underscores as `italic_of` says.
#[verifier::external_body]
pub(crate) fn italic(s: &str) -> (r: String)
    ensures
        r@ == italic_of(s@),
{
    teloxide::utils::markdown::italic(s)
}

/// Escaping goes through a text piece by piece.
pub proof fn lemma_escaped_concat(a: Seq<char>, b: Seq<char>)
    ensures
        escaped(a + b) == escaped(a) + escaped(b),
    decreases a.len(),
{
    if a.len() == 0 {
        assert(a + b =~= b);
        assert(escaped(a) + escaped(b) =~= escaped(b));
    } else {
        let rest = a.subrange(1, a.len() as int);
        assert((a + b).subrange(1, (a + b).len() as int) =~= rest + b);
        lemma_escaped_concat(rest, b);
        assert(escaped(a + b) =~= escaped(a) + escaped(b));
    }
}

/// In escaped text every markup character stands directly behind a
/// backslash, whatever the text was: none of them opens or closes markup of
/// its own accord.
pub proof fn lemma_escaped_guards_markup(s: Seq<char>, i: int)
    requires
        0 <= i < escaped(s).len(),
        is_markup_char(escaped(s)[i]),
    ensures
        i > 0,
        escaped(s)[i - 1] == '\\',
    decreases s.len(),
{
    if s.len() > 0 {
        let head = escaped_char(s[0]);
        let rest = s.subrange(1, s.len() as int);
        if i >= head.len() {
            assert(escaped(s)[i] == escaped(rest)[i - head.len()]);
            lemma_escaped_guards_markup(rest, i - head.len());
            assert(escaped(s)[i - 1] == escaped(rest)[i - 1 - head.len()]);
        }
    }
}

/// Escaping loses nothing: two texts that are shown alike are the same text.
pub proof fn lemma_escaped_injective(a: Seq<char>, b: Seq<char>)
    requires
        escaped(a) == escaped(b),
    ensures
        a == b,
    decreases a.len(),
{
    if a.len() == 0 {
        if b.len() > 0 {
            assert(escaped(b).len() >= escaped_char(b[0]).len());
        }
        assert(a =~= b);
    } else if b.len() == 0 {
        assert(escaped(a).len() >= escaped_char(a[0]).len());
    } else {
        let ra = a.subrange(1, a.len() as int);
        let rb = b.subrange(1, b.len() as int);
        let ha = escaped_char(a[0]);
        let hb = escaped_char(b[0]);
        assert(escaped(a)[0] == ha[0]);
        assert(escaped(b)[0] == hb[0]);
        if is_markup_char(a[0]) != is_markup_char(b[0]) {
            // One text opens with a guarded markup character, the other with
            // a plain backslash: the character behind it gives them away.
            let (long, short_rest) = if is_markup_char(a[0]) {
                (a, rb)
            } else {
                (b, ra)
            };
            let other = if is_markup_char(a[0]) { b } else { a };
            assert(escaped(long)[1] == long[0]);
            assert(escaped(other)[0] == '\\');
            assert(escaped(other).len() >= 2);
            assert(escaped(other)[1] == escaped(short_rest)[0]);
            assert(short_rest.len() > 0);
            assert(escaped(short_rest)[0] == escaped_char(short_rest[0])[0]);
            assert(false);
        } else {
            assert(ha.len() == hb.len());
            assert(escaped(a)[ha.len() - 1] == a[0]);
            assert(escaped(b)[hb.len() - 1] == b[0]);
            assert(escaped(ra) =~= escaped(a).subrange(ha.len() as int, escaped(a).len() as int));
            assert(escaped(rb) =~= escaped(b).subrange(hb.len() as int, escaped(b).len() as int));
            lemma_escaped_injective(ra, rb);
            assert(a =~= seq![a[0]] + ra);
            assert(b =~= seq![b[0]] + rb);
        }
    }
}

} // verus!
