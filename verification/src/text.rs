use vstd::prelude::*;

verus! {

/// The Unicode `White_Space` property (PropList.txt), the set that
/// `char::is_whitespace` tests.
pub open spec fn is_white_space(c: char) -> bool {
    ||| ('\u{9}' <= c && c <= '\u{d}')
    ||| c == ' '
    ||| c == '\u{85}'
    ||| c == '\u{a0}'
    ||| c == '\u{1680}'
    ||| ('\u{2000}' <= c && c <= '\u{200a}')
    ||| c == '\u{2028}'
    ||| c == '\u{2029}'
    ||| c == '\u{202f}'
    ||| c == '\u{205f}'
    ||| c == '\u{3000}'
}

/// A text is blank when trimming it leaves nothing: every character is white space.
pub open spec fn is_blank_spec(s: Seq<char>) -> bool {
    forall|i: int| 0 <= i < s.len() ==> is_white_space(#[trigger] s[i])
}

/// The three dots that end a chat title.
pub open spec fn ellipsis() -> Seq<char> {
    seq!['.', '.', '.']
}

/// At most this many characters of the first message make a chat's title.
pub open spec fn title_width() -> nat {
    15
}

/// The title made from a text: its first fifteen characters (all of them when
/// it is shorter), then three dots, as `format!("{:.15}...", text)` writes it.
pub open spec fn title_of(s: Seq<char>) -> Seq<char> {
    let n = if s.len() < title_width() { s.len() } else { title_width() };
    s.take(n as int) + ellipsis()
}

/// `char::is_whitespace`. Trusted: std documents it as the test for the
/// Unicode `White_Space` property, which `is_white_space` lists.
#[verifier::external_body]
pub(crate) fn char_is_whitespace(c: char) -> (b: bool)
    ensures
        b == is_white_space(c),
{
    c.is_whitespace()
}

/// Whether `text.trim().is_empty()` holds: the text has no character other than
/// white space.
pub fn is_blank(text: &str) -> (b: bool)
    ensures
        b == is_blank_spec(text@),
{
    let n = text.unicode_len();
    let mut i: usize = 0;
    while i < n
        invariant
            n == text@.len(),
            i <= n,
            forall|j: int| 0 <= j < i ==> is_white_space(#[trigger] text@[j]),
        decreases n - i,
    {
        let c = text.get_char(i);
        if !char_is_whitespace(c) {
            return false;
        }
        i = i + 1;
    }
    true
}

/// The title of a chat begun with `text`: its first fifteen characters, then "...".
pub fn title_from(text: &str) -> (title: String)
    ensures
        title@ == title_of(text@),
{
    let n = text.unicode_len();
    let k: usize = if n < 15 { n } else { 15 };
    let prefix = text.substring_char(0, k);
    let mut title = String::from_str(prefix);
    let dots = "...";
    proof {
        reveal_strlit("...");
    }
    title.append(dots);
    assert(title@ =~= title_of(text@));
    title
}

} // verus!

verus! {

/// A title is at most eighteen characters: a prefix of the text of at most
/// fifteen, then three dots.
pub proof fn law_title_shape(s: Seq<char>)
    ensures
        title_of(s).len() <= title_width() + 3,
        title_of(s).len() >= 3,
        title_of(s).subrange(title_of(s).len() - 3, title_of(s).len() as int) == ellipsis(),
        s.take(title_of(s).len() - 3) == title_of(s).take(title_of(s).len() - 3),
{
    let t = title_of(s);
    assert(t.subrange(t.len() - 3, t.len() as int) =~= ellipsis());
    assert(s.take(t.len() - 3) =~= t.take(t.len() - 3));
}

} // verus!

verus! {

/// A text of fewer than fifteen characters is kept whole before the dots; a
/// longer one is cut to exactly its first fifteen.
pub proof fn law_title_cut(s: Seq<char>)
    ensures
        s.len() < 15 ==> title_of(s) == s + seq!['.', '.', '.'],
        s.len() >= 15 ==> title_of(s).len() == 18 && title_of(s).take(15) == s.take(15),
{
    if s.len() < 15 {
        assert(s.take(s.len() as int) =~= s);
    } else {
        assert(title_of(s).take(15) =~= s.take(15));
    }
}

} // verus!
