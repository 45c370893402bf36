//! Names that follow from a document's name: the file it is saved to and
//! the title of its window.

use vstd::prelude::*;
use vstd::string::*;

verus! {

/// The character is white space: a space, a tab, a line break or one of
/// the other characters that Unicode lists as white space.
pub open spec fn is_whitespace(c: char) -> bool {
    let n = c as u32;
    ||| 0x09 <= n <= 0x0D
    ||| n == 0x20
    ||| n == 0x85
    ||| n == 0xA0
    ||| n == 0x1680
    ||| 0x2000 <= n <= 0x200A
    ||| n == 0x2028
    ||| n == 0x2029
    ||| n == 0x202F
    ||| n == 0x205F
    ||| n == 0x3000
}

/// A character as it goes into a file name: an underscore for white
/// space, else the character itself.
pub open spec fn file_name_char(c: char) -> char {
    if is_whitespace(c) {
        '_'
    } else {
        c
    }
}

/// A name with each white-space character replaced by an underscore.
pub open spec fn whitespace_replaced(name: Seq<char>) -> Seq<char> {
    name.map_values(|c: char| file_name_char(c))
}

/// The text holds no white space.
pub open spec fn has_no_whitespace(text: Seq<char>) -> bool {
    forall|i: int| 0 <= i < text.len() ==> !is_whitespace(#[trigger] text[i])
}

/// The file that a document of this name is saved to when it has none yet.
pub open spec fn derived_file_name(name: Seq<char>) -> Seq<char> {
    whitespace_replaced(name) + ".json"@
}

/// The title of the window that shows a document of this name.
pub open spec fn title_of(name: Seq<char>) -> Seq<char> {
    if name.len() == 0 {
        "AI Mind Map - Untitled"@
    } else {
        "AI Mind Map - "@ + name
    }
}

/// Whether a character is white space.
pub fn is_whitespace_char(c: char) -> (found: bool)
    ensures
        found == is_whitespace(c),
{
    let n = c as u32;
    (0x09 <= n && n <= 0x0D) || n == 0x20 || n == 0x85 || n == 0xA0 || n == 0x1680 || (0x2000 <= n
        && n <= 0x200A) || n == 0x2028 || n == 0x2029 || n == 0x202F || n == 0x205F || n == 0x3000
}

/// A derived file name holds no white space and ends in `.json`.
pub proof fn lemma_derived_file_name_is_plain(name: Seq<char>)
    ensures
        has_no_whitespace(derived_file_name(name)),
        derived_file_name(name).len() == name.len() + 5,
        derived_file_name(name).subrange(name.len() as int, name.len() as int + 5) == ".json"@,
{
    reveal_strlit(".json");
    let out = derived_file_name(name);
    assert forall|i: int| 0 <= i < out.len() implies !is_whitespace(#[trigger] out[i]) by {
        if i < name.len() {
            assert(out[i] == file_name_char(name[i]));
        } else {
            assert(out[i] == ".json"@[i - name.len()]);
        }
    }
    assert(out.subrange(name.len() as int, name.len() as int + 5) =~= ".json"@);
}

/// The file that a document of this name is saved to when it has none
/// yet: the name with an underscore for each white-space character, and
/// `.json` after it. The file name holds no white space.
pub fn derive_file_name(name: &str) -> (file_name: String)
    ensures
        file_name@ == derived_file_name(name@),
        file_name@.len() == name@.len() + 5,
        has_no_whitespace(file_name@),
{
    let len = name.unicode_len();
    let mut out = String::new();
    let mut i: usize = 0;
    proof {
        reveal_strlit("_");
        reveal_strlit(".json");
        assert(out@ =~= whitespace_replaced(name@.take(0)));
    }
    while i < len
        invariant
            len == name@.len(),
            i <= len,
            out@ == whitespace_replaced(name@.take(i as int)),
            "_"@ == seq!['_'],
        decreases len - i,
    {
        let c = name.get_char(i);
        if is_whitespace_char(c) {
            out.append("_");
        } else {
            let piece = name.substring_char(i, i + 1);
            out.append(piece);
        }
        proof {
            assert(name@.subrange(i as int, i + 1) =~= seq![c]);
            assert(out@ =~= whitespace_replaced(name@.take(i + 1)));
        }
        i += 1;
    }
    proof {
        assert(name@.take(len as int) =~= name@);
        lemma_derived_file_name_is_plain(name@);
    }
    out.append(".json");
    out
}

/// The title of the window that shows a document of this name. A
/// document without a name is shown as untitled.
pub fn window_title(name: &str) -> (title: String)
    ensures
        title@ == title_of(name@),
{
    if name.is_empty() {
        "AI Mind Map - Untitled".to_owned()
    } else {
        let mut title = "AI Mind Map - ".to_owned();
        title.append(name);
        title
    }
}

/// The character of a decimal digit.
pub open spec fn digit_char(d: nat) -> char {
    if d == 0 {
        '0'
    } else if d == 1 {
        '1'
    } else if d == 2 {
        '2'
    } else if d == 3 {
        '3'
    } else if d == 4 {
        '4'
    } else if d == 5 {
        '5'
    } else if d == 6 {
        '6'
    } else if d == 7 {
        '7'
    } else if d == 8 {
        '8'
    } else {
        '9'
    }
}

/// A number in decimal digits, without leading zeros.
pub open spec fn decimal_text(n: nat) -> Seq<char>
    decreases n,
{
    if n < 10 {
        seq![digit_char(n)]
    } else {
        decimal_text(n / 10).push(digit_char(n % 10))
    }
}

/// The text of one decimal digit.
fn digit_text(d: u64) -> (text: &'static str)
    requires
        d < 10,
    ensures
        text@ == seq![digit_char(d as nat)],
{
    proof {
        reveal_strlit("0");
        reveal_strlit("1");
        reveal_strlit("2");
        reveal_strlit("3");
        reveal_strlit("4");
        reveal_strlit("5");
        reveal_strlit("6");
        reveal_strlit("7");
        reveal_strlit("8");
        reveal_strlit("9");
    }
    let text = if d == 0 {
        "0"
    } else if d == 1 {
        "1"
    } else if d == 2 {
        "2"
    } else if d == 3 {
        "3"
    } else if d == 4 {
        "4"
    } else if d == 5 {
        "5"
    } else if d == 6 {
        "6"
    } else if d == 7 {
        "7"
    } else if d == 8 {
        "8"
    } else {
        "9"
    };
    assert(text@ =~= seq![digit_char(d as nat)]);
    text
}

/// A number written in decimal digits.
pub fn decimal(n: u64) -> (text: String)
    ensures
        text@ == decimal_text(n as nat),
    decreases n,
{
    if n < 10 {
        digit_text(n).to_owned()
    } else {
        let mut text = decimal(n / 10);
        text.append(digit_text(n % 10));
        proof {
            assert(text@ =~= decimal_text((n / 10) as nat).push(digit_char((n % 10) as nat)));
        }
        text
    }
}

} // verus!
