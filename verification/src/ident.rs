use vstd::prelude::*;

verus! {

/// True of the characters that may appear in a Move identifier after its
/// first character: ASCII letters, ASCII digits, and the underscore.
pub open spec fn is_valid_ident_char(c: char) -> bool {
    ||| c == '_'
    ||| ('a' <= c && c <= 'z')
    ||| ('A' <= c && c <= 'Z')
    ||| ('0' <= c && c <= '9')
}

/// True of the first character of a Move identifier that does not start with
/// an underscore: an ASCII letter.
pub open spec fn is_ascii_letter(c: char) -> bool {
    ('a' <= c && c <= 'z') || ('A' <= c && c <= 'Z')
}

/// The identifier rule of the Move bytecode layer: an ASCII letter followed
/// by letters, digits or underscores; or an underscore followed by at least
/// one more such character; or the reserved name `<SELF>`.
pub open spec fn is_valid_move_identifier(s: Seq<char>) -> bool {
    ||| s =~= seq!['<', 'S', 'E', 'L', 'F', '>']
    ||| (s.len() >= 1 && is_ascii_letter(s[0]) && (forall|i: int|
        1 <= i < s.len() ==> is_valid_ident_char(#[trigger] s[i])))
    ||| (s.len() >= 2 && s[0] == '_' && (forall|i: int|
        1 <= i < s.len() ==> is_valid_ident_char(#[trigger] s[i])))
}

/// Relies on move_core_types::identifier::is_valid: it accepts exactly the
/// strings of `is_valid_move_identifier` — an ASCII letter or underscore head
/// with letter/digit/underscore tail (an underscore head needs a nonempty
/// tail), plus the reserved name `<SELF>`.
#[verifier::external_body]
pub(crate) fn identifier_is_valid(s: &str) -> (r: bool)
    ensures
        r == is_valid_move_identifier(s@),
{
    move_core_types::identifier::is_valid(s)
}

} // verus!
