//! Integer literals, as the `syn` crate reads them.
//!
//! A text is shown to the outside parser only if it has the shape of one
//! integer literal of the plainest kind: a digit run, with a radix prefix,
//! digit separators, a type suffix and a minus sign where they are wanted.
//! Every lexer of the language reads such a text as the same tokens, so the
//! parser's answer depends on the text and on nothing else. Every other
//! text is no integer here.

use vstd::prelude::*;

verus! {

/// The integer that `syn` reads from `text` as a lone integer literal and
/// that fits an `i128`; `None` where `text` is no such literal.
///
/// This is the result of `syn::parse_str::<syn::LitInt>` followed by
/// `syn::LitInt::base10_parse::<i128>`. Nothing is proved of it: the value
/// that the digits denote is the outside crate's to compute.
pub uninterp spec fn literal_integer(text: Seq<char>) -> Option<i128>;

/// The position behind the spaces that stand at `from`.
pub open spec fn spaces_end(text: Seq<char>, from: int) -> int
    decreases text.len() - from,
{
    if 0 <= from < text.len() && text[from] == ' ' {
        spaces_end(text, from + 1)
    } else {
        from
    }
}

/// The radix that the prefix at `from` announces: 16 for `0x`, 8 for `0o`,
/// 2 for `0b`, and 10 where no prefix stands.
pub open spec fn radix_at(text: Seq<char>, from: int) -> int {
    if 0 <= from && from + 1 < text.len() && text[from] == '0' {
        if text[from + 1] == 'x' {
            16
        } else if text[from + 1] == 'o' {
            8
        } else if text[from + 1] == 'b' {
            2
        } else {
            10
        }
    } else {
        10
    }
}

/// Whether `c` is a digit of the given radix.
pub open spec fn is_digit(c: char, radix: int) -> bool {
    if radix == 2 {
        '0' <= c <= '1'
    } else if radix == 8 {
        '0' <= c <= '7'
    } else if radix == 16 {
        '0' <= c <= '9' || 'a' <= c <= 'f' || 'A' <= c <= 'F'
    } else {
        '0' <= c <= '9'
    }
}

/// The position behind the digits and digit separators that stand at
/// `from`.
pub open spec fn digits_end(text: Seq<char>, from: int, radix: int) -> int
    decreases text.len() - from,
{
    if 0 <= from < text.len() && (is_digit(text[from], radix) || text[from] == '_') {
        digits_end(text, from + 1, radix)
    } else {
        from
    }
}

/// Whether `word` stands in `text` at `from`.
pub open spec fn stands_at(text: Seq<char>, from: int, word: Seq<char>) -> bool {
    0 <= from && from + word.len() <= text.len() && text.subrange(from, from + word.len())
        == word
}

/// The position behind `word` where it stands at `from`, and `from` where
/// it does not.
pub open spec fn word_end(text: Seq<char>, from: int, word: Seq<char>) -> int {
    if stands_at(text, from, word) {
        from + word.len()
    } else {
        from
    }
}

/// The position behind the integer type suffix that stands at `from`, and
/// `from` where none stands there.
pub open spec fn suffix_end(text: Seq<char>, from: int) -> int {
    if stands_at(text, from, "u8"@) {
        word_end(text, from, "u8"@)
    } else if stands_at(text, from, "u16"@) {
        word_end(text, from, "u16"@)
    } else if stands_at(text, from, "u32"@) {
        word_end(text, from, "u32"@)
    } else if stands_at(text, from, "u64"@) {
        word_end(text, from, "u64"@)
    } else if stands_at(text, from, "u128"@) {
        word_end(text, from, "u128"@)
    } else if stands_at(text, from, "usize"@) {
        word_end(text, from, "usize"@)
    } else if stands_at(text, from, "i8"@) {
        word_end(text, from, "i8"@)
    } else if stands_at(text, from, "i16"@) {
        word_end(text, from, "i16"@)
    } else if stands_at(text, from, "i32"@) {
        word_end(text, from, "i32"@)
    } else if stands_at(text, from, "i64"@) {
        word_end(text, from, "i64"@)
    } else if stands_at(text, from, "i128"@) {
        word_end(text, from, "i128"@)
    } else {
        word_end(text, from, "isize"@)
    }
}

/// Where the digits of the literal begin: behind leading spaces, a minus
/// sign if there is one, and the spaces that follow it.
pub open spec fn number_start(text: Seq<char>) -> int {
    let sign = spaces_end(text, 0);
    if sign < text.len() && text[sign] == '-' {
        spaces_end(text, sign + 1)
    } else {
        sign
    }
}

/// Whether `text` has the shape of one integer literal: spaces and at most
/// one minus sign; then a radix prefix or none; then a digit of that radix,
/// followed by more digits and digit separators; then an integer type
/// suffix or none; then spaces to the end.
///
/// No exponent, no point and no other suffix passes. On such a text the
/// lexers cannot differ: it holds one number token that is well-formed by
/// every reading.
pub open spec fn literal_shape(text: Seq<char>) -> bool {
    let start = number_start(text);
    let radix = radix_at(text, start);
    let first = if radix == 10 {
        start
    } else {
        start + 2
    };
    &&& first < text.len()
    &&& is_digit(text[first], radix)
    &&& spaces_end(text, suffix_end(text, digits_end(text, first, radix))) == text.len()
}

/// Calls `syn::parse_str::<syn::LitInt>` on `text` and, on a literal,
/// `syn::LitInt::base10_parse::<i128>`.
///
/// Trusted: the result is named, not described. `syn` takes its tokens from
/// one of two lexers, its own or the compiler's, by where the process runs.
/// The precondition admits only texts that both read as the same tokens: a
/// minus sign or none, and one integer literal of the shape above, which
/// `syn` takes for an integer whichever lexer cut it. On those the two
/// calls depend on the text alone, and neither panics.
#[verifier::external_body]
fn read_literal(text: &str) -> (value: Option<i128>)
    requires
        literal_shape(text@),
    ensures
        value == literal_integer(text@),
{
    match syn::parse_str::<syn::LitInt>(text) {
        Ok(literal) => literal.base10_parse::<i128>().ok(),
        Err(_) => None,
    }
}

fn skip_spaces(text: &str, length: usize, from: usize) -> (end: usize)
    requires
        length == text@.len(),
        from <= length,
    ensures
        end == spaces_end(text@, from as int),
        from <= end <= length,
{
    let mut index: usize = from;
    while index < length && text.get_char(index) == ' '
        invariant
            length == text@.len(),
            from <= index <= length,
            spaces_end(text@, from as int) == spaces_end(text@, index as int),
        decreases length - index,
    {
        index += 1;
    }
    index
}

fn digit_in(c: char, radix: u8) -> (digit: bool)
    ensures
        digit == is_digit(c, radix as int),
{
    if radix == 2 {
        '0' <= c && c <= '1'
    } else if radix == 8 {
        '0' <= c && c <= '7'
    } else if radix == 16 {
        ('0' <= c && c <= '9') || ('a' <= c && c <= 'f') || ('A' <= c && c <= 'F')
    } else {
        '0' <= c && c <= '9'
    }
}

fn skip_digits(text: &str, length: usize, from: usize, radix: u8) -> (end: usize)
    requires
        length == text@.len(),
        from <= length,
    ensures
        end == digits_end(text@, from as int, radix as int),
        from <= end <= length,
{
    let mut index: usize = from;
    while index < length
        invariant
            length == text@.len(),
            from <= index <= length,
            digits_end(text@, from as int, radix as int) == digits_end(
                text@,
                index as int,
                radix as int,
            ),
        decreases length - index,
    {
        let c = text.get_char(index);
        if !(digit_in(c, radix) || c == '_') {
            return index;
        }
        index += 1;
    }
    index
}

fn find_radix(text: &str, length: usize, from: usize) -> (radix: u8)
    requires
        length == text@.len(),
        from <= length,
    ensures
        radix == radix_at(text@, from as int),
{
    if length - from >= 2 && text.get_char(from) == '0' {
        let mark = text.get_char(from + 1);
        if mark == 'x' {
            16
        } else if mark == 'o' {
            8
        } else if mark == 'b' {
            2
        } else {
            10
        }
    } else {
        10
    }
}

fn skip_word(text: &str, length: usize, from: usize, word: &str) -> (end: usize)
    requires
        length == text@.len(),
        from <= length,
    ensures
        end == word_end(text@, from as int, word@),
        (end != from || word@.len() == 0) == stands_at(text@, from as int, word@),
        from <= end <= length,
{
    let size: usize = word.unicode_len();
    if size > length - from {
        return from;
    }
    let mut index: usize = 0;
    while index < size
        invariant
            length == text@.len(),
            size == word@.len(),
            from + size <= length,
            index <= size,
            forall|i: int| 0 <= i < index ==> text@[from + i] == #[trigger] word@[i],
        decreases size - index,
    {
        if text.get_char(from + index) != word.get_char(index) {
            proof {
                assert(text@.subrange(from as int, from + size)[index as int] == text@[from
                    + index]);
            }
            return from;
        }
        index += 1;
    }
    proof {
        assert(text@.subrange(from as int, from + size) =~= word@);
    }
    from + size
}

fn skip_suffix(text: &str, length: usize, from: usize) -> (end: usize)
    requires
        length == text@.len(),
        from <= length,
    ensures
        end == suffix_end(text@, from as int),
        from <= end <= length,
{
    proof {
        reveal_strlit("u8");
        reveal_strlit("u16");
        reveal_strlit("u32");
        reveal_strlit("u64");
        reveal_strlit("u128");
        reveal_strlit("usize");
        reveal_strlit("i8");
        reveal_strlit("i16");
        reveal_strlit("i32");
        reveal_strlit("i64");
        reveal_strlit("i128");
        reveal_strlit("isize");
    }
    let end = skip_word(text, length, from, "u8");
    if end != from {
        return end;
    }
    let end = skip_word(text, length, from, "u16");
    if end != from {
        return end;
    }
    let end = skip_word(text, length, from, "u32");
    if end != from {
        return end;
    }
    let end = skip_word(text, length, from, "u64");
    if end != from {
        return end;
    }
    let end = skip_word(text, length, from, "u128");
    if end != from {
        return end;
    }
    let end = skip_word(text, length, from, "usize");
    if end != from {
        return end;
    }
    let end = skip_word(text, length, from, "i8");
    if end != from {
        return end;
    }
    let end = skip_word(text, length, from, "i16");
    if end != from {
        return end;
    }
    let end = skip_word(text, length, from, "i32");
    if end != from {
        return end;
    }
    let end = skip_word(text, length, from, "i64");
    if end != from {
        return end;
    }
    let end = skip_word(text, length, from, "i128");
    if end != from {
        return end;
    }
    skip_word(text, length, from, "isize")
}

/// Tests a text against [`literal_shape`].
pub fn has_literal_shape(text: &str) -> (shaped: bool)
    ensures
        shaped == literal_shape(text@),
{
    let length: usize = text.unicode_len();
    let sign = skip_spaces(text, length, 0);
    let start = if sign < length && text.get_char(sign) == '-' {
        skip_spaces(text, length, sign + 1)
    } else {
        sign
    };
    let radix = find_radix(text, length, start);
    let first = if radix == 10 {
        start
    } else {
        start + 2
    };
    if first >= length || !digit_in(text.get_char(first), radix) {
        return false;
    }
    let body = skip_digits(text, length, first, radix);
    let suffix = skip_suffix(text, length, body);
    skip_spaces(text, length, suffix) == length
}

/// The integer that `text` denotes: [`literal_integer`] of a text that has
/// the shape of a literal, and `None` for every other text.
pub open spec fn integer_of(text: Seq<char>) -> Option<i128> {
    if literal_shape(text) {
        literal_integer(text)
    } else {
        None
    }
}

/// Reads `text` as an integer literal.
pub fn parse_integer(text: &str) -> (value: Option<i128>)
    ensures
        value == integer_of(text@),
{
    if has_literal_shape(text) {
        read_literal(text)
    } else {
        None
    }
}

} // verus!
