//! Font descriptor for text rendering.
use vstd::prelude::*;

use crate::text::{
    chars_eq_lower_word, chars_to_string, eq_lower_word, join_chars, join_with, seqs_of,
    signed_decimal, signed_decimal_chars, str_chars,
};

verus! {

/// The characters that `char::to_uppercase` yields for `c`.
pub uninterp spec fn uppercase_of(c: char) -> Seq<char>;

/// Calls `char::to_uppercase` (std) and collects what it yields.
///
/// Claimed of it, after the std documentation: the result is `uppercase_of(c)`;
/// an ASCII lowercase letter gives its capital alone, and any other ASCII
/// character, which has no uppercase mapping, gives itself. The mapping of
/// other characters is left to the name.
#[verifier::external_body]
fn uppercase_chars(c: char) -> (r: Vec<char>)
    ensures
        r@ == uppercase_of(c),
        'a' <= c && c <= 'z' ==> r@ == seq![((c as u32) - 32) as char],
        (c as u32) < 128 && !('a' <= c && c <= 'z') ==> r@ == seq![c],
{
    c.to_uppercase().collect()
}

/// `s` with its first character uppercased.
pub open spec fn capitalized(s: Seq<char>) -> Seq<char> {
    if s.len() == 0 {
        Seq::<char>::empty()
    } else {
        uppercase_of(s[0]) + s.skip(1)
    }
}

/// `c` with an ASCII lowercase letter made capital.
pub open spec fn ascii_upper(c: char) -> char {
    if 'a' <= c && c <= 'z' {
        ((c as u32) - 32) as char
    } else {
        c
    }
}

/// `s` is empty or starts with an ASCII character.
pub open spec fn first_is_ascii(s: Seq<char>) -> bool {
    s.len() == 0 || (s[0] as u32) < 128
}

/// `s` with its first character made capital, for a text starting in ASCII.
pub open spec fn ascii_capitalized(s: Seq<char>) -> Seq<char> {
    if s.len() == 0 {
        Seq::<char>::empty()
    } else {
        seq![ascii_upper(s[0])] + s.skip(1)
    }
}

/// The Pango description when the style and weight start in ASCII: as
/// `pango_description`, with their first letters made capital.
pub open spec fn ascii_pango_description(family: Seq<char>, style: Seq<char>, weight: Seq<char>, size: i32) -> Seq<char> {
    let with_style = if eq_lower_word(style, normal_word()) {
        seq![family]
    } else {
        seq![family, ascii_capitalized(style)]
    };
    let with_weight = if eq_lower_word(weight, normal_word()) {
        with_style
    } else {
        with_style.push(ascii_capitalized(weight))
    };
    join_with(with_weight.push(signed_decimal(size as int)), seq![' '])
}

/// The word a style or weight of "normal" (in any case) leaves out.
pub open spec fn normal_word() -> Seq<char> {
    seq!['n', 'o', 'r', 'm', 'a', 'l']
}

/// The pieces of a Pango description: the family, then the style and the
/// weight unless "normal" (capitalized), then the size.
pub open spec fn pango_parts(family: Seq<char>, style: Seq<char>, weight: Seq<char>, size: i32) -> Seq<Seq<char>> {
    let with_style = if eq_lower_word(style, normal_word()) {
        seq![family]
    } else {
        seq![family, capitalized(style)]
    };
    let with_weight = if eq_lower_word(weight, normal_word()) {
        with_style
    } else {
        with_style.push(capitalized(weight))
    };
    with_weight.push(signed_decimal(size as int))
}

/// The Pango font description "Family Style Weight Size".
pub open spec fn pango_description(family: Seq<char>, style: Seq<char>, weight: Seq<char>, size: i32) -> Seq<char> {
    join_with(pango_parts(family, style, weight, size), seq![' '])
}

/// Law: a Pango description reads "Family Style Weight Size" with single
/// spaces: the family as given, the style and then the weight with their
/// first letter made capital, each left out when it is "normal" in any
/// case, and the size in decimal.
pub proof fn law_pango_description_layout(family: Seq<char>, style: Seq<char>, weight: Seq<char>, size: i32)
    ensures
        ({
            let normal = seq!['n', 'o', 'r', 'm', 'a', 'l'];
            let sz = signed_decimal(size as int);
            let d = pango_description(family, style, weight, size);
            &&& (eq_lower_word(style, normal) && eq_lower_word(weight, normal)) ==> d == family + seq![' '] + sz
            &&& (!eq_lower_word(style, normal) && eq_lower_word(weight, normal)) ==> d == family + seq![' ']
                + capitalized(style) + seq![' '] + sz
            &&& (eq_lower_word(style, normal) && !eq_lower_word(weight, normal)) ==> d == family + seq![' ']
                + capitalized(weight) + seq![' '] + sz
            &&& (!eq_lower_word(style, normal) && !eq_lower_word(weight, normal)) ==> d == family + seq![' ']
                + capitalized(style) + seq![' '] + capitalized(weight) + seq![' '] + sz
        }),
{
    let ps = pango_parts(family, style, weight, size);
    assert(normal_word() == seq!['n', 'o', 'r', 'm', 'a', 'l']);
    reveal_with_fuel(join_with, 5);
    if ps.len() == 2 {
        assert(ps.drop_last() =~= seq![family]);
    } else if ps.len() == 3 {
        assert(ps.drop_last().drop_last() =~= seq![family]);
    } else {
        assert(ps.drop_last().drop_last().drop_last() =~= seq![family]);
    }
}

/// Font configuration for text rendering.
///
/// Describes which font to use, including family name, weight, and style.
/// This descriptor is passed through the rendering pipeline to ensure
/// consistent font usage across preview and finalized text.
#[derive(Debug, Clone)]
pub struct FontDescriptor {
    /// Font family name (e.g., "Sans", "Monospace", "JetBrains Mono")
    pub family: String,
    /// Font weight (e.g., "normal", "bold", "light" or numeric 100-900)
    pub weight: String,
    /// Font style (e.g., "normal", "italic", "oblique")
    pub style: String,
}

/// Capitalizes the first letter of a string.
fn capitalize_first(s: &Vec<char>) -> (r: Vec<char>)
    ensures
        r@ == capitalized(s@),
        first_is_ascii(s@) ==> r@ == ascii_capitalized(s@),
{
    if s.len() == 0 {
        return Vec::new();
    }
    let mut out = uppercase_chars(s[0]);
    let ghost head = out@;
    proof {
        if (s@[0] as u32) < 128 {
            assert(head == seq![ascii_upper(s@[0])]);
        }
    }
    let mut i: usize = 1;
    while i < s.len()
        invariant
            1 <= i <= s.len(),
            s.len() > 0,
            head == uppercase_of(s@[0]),
            out@ == head + s@.subrange(1, i as int),
        decreases s.len() - i,
    {
        out.push(s[i]);
        proof {
            assert(s@.subrange(1, i as int + 1) =~= s@.subrange(1, i as int).push(s@[i as int]));
        }
        i += 1;
    }
    proof {
        assert(s@.subrange(1, s.len() as int) =~= s@.skip(1));
    }
    out
}

impl FontDescriptor {
    /// Creates a new font descriptor with the specified parameters.
    pub fn new(family: String, weight: String, style: String) -> (f: Self)
        ensures
            f.family@ == family@,
            f.weight@ == weight@,
            f.style@ == style@,
    {
        Self { family, weight, style }
    }

    /// Creates a default font descriptor: Sans, bold, normal.
    pub fn default() -> (f: Self)
        ensures
            f.family@ == seq!['S', 'a', 'n', 's'],
            f.weight@ == seq!['b', 'o', 'l', 'd'],
            f.style@ == normal_word(),
    {
        let family = String::from_str("Sans");
        let weight = String::from_str("bold");
        let style = String::from_str("normal");
        proof {
            reveal_strlit("Sans");
            reveal_strlit("bold");
            reveal_strlit("normal");
        }
        Self { family, weight, style }
    }

    /// Converts this font descriptor to a Pango font description string.
    ///
    /// Format: "Family Style Weight Size", leaving out a style or weight of
    /// "normal"; `size` is the point size already rounded to a whole number.
    /// Example: "Sans Bold 32" or "Monospace Italic 24".
    pub fn to_pango_string(&self, size: i32) -> (r: String)
        ensures
            r@ == pango_description(self.family@, self.style@, self.weight@, size),
            first_is_ascii(self.style@) && first_is_ascii(self.weight@) ==> r@ == ascii_pango_description(
                self.family@,
                self.style@,
                self.weight@,
                size,
            ),
    {
        let normal = vec!['n', 'o', 'r', 'm', 'a', 'l'];
        proof {
            assert(normal@ =~= normal_word());
        }
        let style = str_chars(self.style.as_str());
        let weight = str_chars(self.weight.as_str());
        let mut parts: Vec<Vec<char>> = Vec::new();
        parts.push(str_chars(self.family.as_str()));
        let ghost p0 = seqs_of(parts@);
        if !chars_eq_lower_word(&style, &normal) {
            parts.push(capitalize_first(&style));
        }
        let ghost p1 = seqs_of(parts@);
        if !chars_eq_lower_word(&weight, &normal) {
            parts.push(capitalize_first(&weight));
        }
        let ghost p2 = seqs_of(parts@);
        parts.push(signed_decimal_chars(size as i64));
        proof {
            assert(p0 =~= seq![self.family@]);
            if eq_lower_word(self.style@, normal_word()) {
                assert(p1 =~= seq![self.family@]);
            } else {
                assert(p1 =~= seq![self.family@, capitalized(self.style@)]);
            }
            if eq_lower_word(self.weight@, normal_word()) {
                assert(p2 =~= p1);
            } else {
                assert(p2 =~= p1.push(capitalized(self.weight@)));
            }
            assert(seqs_of(parts@) =~= p2.push(signed_decimal(size as int)));
            assert(seqs_of(parts@) =~= pango_parts(self.family@, self.style@, self.weight@, size));
            if first_is_ascii(self.style@) && first_is_ascii(self.weight@) {
                assert(pango_description(self.family@, self.style@, self.weight@, size) == ascii_pango_description(
                    self.family@,
                    self.style@,
                    self.weight@,
                    size,
                ));
            }
        }
        let joined = join_chars(&parts, ' ');
        chars_to_string(&joined)
    }
}

} // verus!
