//! Selectors for the options of a `<select>` element.

use vstd::prelude::*;
use vstd::string::StringExecFns;

verus! {

broadcast use vstd::string::group_string_axioms;

/// The text with every double quote replaced by what closes a quoted piece,
/// names a double quote and opens the next piece.
pub open spec fn spliced(value: Seq<char>) -> Seq<char>
    decreases value.len(),
{
    if value.len() == 0 {
        Seq::empty()
    } else if value.last() == '"' {
        spliced(value.drop_last()) + "\", '\"', \""@
    } else {
        spliced(value.drop_last()).push(value.last())
    }
}

/// The text as a string literal of XPath or CSS. A text without a double
/// quote stands in double quotes and one without a single quote in single
/// quotes. A text with both becomes a call of `concat` on its pieces between
/// the double quotes, each in double quotes, with a double quote in single
/// quotes between two of them, and one more of those at the end where the text
/// ends in a double quote.
pub open spec fn escaped(value: Seq<char>) -> Seq<char> {
    if value.contains('\'') && value.contains('"') {
        "concat(\""@ + spliced(value) + "\""@ + (if value.last() == '"' {
            ", '\"'"@
        } else {
            Seq::empty()
        }) + ")"@
    } else if value.contains('"') {
        "'"@ + value + "'"@
    } else {
        "\""@ + value + "\""@
    }
}

fn has_char(value: &str, wanted: char) -> (found: bool)
    ensures
        found == value@.contains(wanted),
{
    let mut found = false;
    for c in it: value.chars()
        invariant
            it.seq() == value@,
            found == value@.take(it.index() as int).contains(wanted),
    {
        proof {
            let now = value@.take(it.index() + 1);
            if c == wanted {
                assert(now[now.len() - 1] == wanted);
            }
        }
        if c == wanted {
            found = true;
        }
    }
    assert(value@.take(value@.len() as int) == value@);
    found
}

/// Escape the specified string for use in Css or XPath selector.
pub fn escape_string(value: &str) -> (result: String)
    ensures
        result@ == escaped(value@),
{
    let contains_single = has_char(value, '\'');
    let contains_double = has_char(value, '"');
    if contains_single && contains_double {
        let mut result = String::from_str("concat(\"");
        let mut ends_with_double = false;
        for c in it: value.chars()
            invariant
                it.seq() == value@,
                result@ == "concat(\""@ + spliced(value@.take(it.index() as int)),
                ends_with_double == (it.index() > 0 && value@[it.index() - 1] == '"'),
        {
            let ghost before = value@.take(it.index() as int);
            let ghost now = value@.take(it.index() + 1);
            assert(now.drop_last() == before);
            if c == '"' {
                result.append("\", '\"', \"");
                ends_with_double = true;
            } else {
                result.push(c);
                ends_with_double = false;
            }
            assert(result@ == "concat(\""@ + spliced(now));
        }
        assert(value@.take(value@.len() as int) == value@);
        result.append("\"");
        if ends_with_double {
            result.append(", '\"'");
        }
        result.append(")");
        return result;
    }
    if contains_double {
        let mut result = String::from_str("'");
        result.append(value);
        result.append("'");
        result
    } else {
        let mut result = String::from_str("\"");
        result.append(value);
        result.append("\"");
        result
    }
}


/// The number of bytes that a character takes in UTF-8.
pub open spec fn width(ch: char) -> nat {
    if (ch as u32) < 0x80 {
        1
    } else if (ch as u32) < 0x800 {
        2
    } else if (ch as u32) < 0x10000 {
        3
    } else {
        4
    }
}

/// The number of bytes that a text takes in UTF-8.
pub open spec fn byte_len(text: Seq<char>) -> nat
    decreases text.len(),
{
    if text.len() == 0 {
        0
    } else {
        byte_len(text.drop_last()) + width(text.last())
    }
}

/// The pieces of a text between its spaces, in order. A text without a space
/// is one piece; two spaces in a row have an empty piece between them.
pub open spec fn tokens(value: Seq<char>) -> Seq<Seq<char>>
    decreases value.len(),
{
    if value.len() == 0 {
        seq![Seq::empty()]
    } else {
        let before = tokens(value.drop_last());
        if value.last() == ' ' {
            before.push(Seq::empty())
        } else {
            before.drop_last().push(before.last().push(value.last()))
        }
    }
}

/// The first of the pieces that takes the most bytes, and the empty text
/// where every piece is empty.
pub open spec fn longest(pieces: Seq<Seq<char>>) -> Seq<char>
    decreases pieces.len(),
{
    if pieces.len() == 0 {
        Seq::empty()
    } else {
        let best = longest(pieces.drop_last());
        if byte_len(pieces.last()) > byte_len(best) {
            pieces.last()
        } else {
            best
        }
    }
}

fn char_width(ch: char) -> (bytes: u128)
    ensures
        bytes == width(ch),
        1 <= bytes <= 4,
{
    let code: u32 = ch as u32;
    if code < 0x80 {
        1
    } else if code < 0x800 {
        2
    } else if code < 0x10000 {
        3
    } else {
        4
    }
}

proof fn byte_len_is_bounded(text: Seq<char>)
    ensures
        byte_len(text) <= 4 * text.len(),
    decreases text.len(),
{
    if text.len() > 0 {
        byte_len_is_bounded(text.drop_last());
    }
}

proof fn tokens_are_never_none(value: Seq<char>)
    ensures
        tokens(value).len() >= 1,
        tokens(value).last().len() <= value.len(),
    decreases value.len(),
{
    if value.len() > 0 {
        tokens_are_never_none(value.drop_last());
    }
}

/// Get the longest word in the specified string.
pub fn get_longest_token(value: &str) -> (token: String)
    ensures
        token@ == longest(tokens(value@)),
{
    let total: usize = value.unicode_len();
    let mut best = String::new();
    let mut best_len: u128 = 0;
    let mut current = String::new();
    let mut current_len: u128 = 0;
    let ghost mut done: Seq<Seq<char>> = Seq::empty();
    for c in it: value.chars()
        invariant
            it.seq() == value@,
            total == value@.len(),
            tokens(value@.take(it.index() as int)) == done.push(current@),
            best@ == longest(done),
            best_len == byte_len(best@),
            current_len == byte_len(current@),
            current@.len() <= it.index(),
    {
        let ghost before = value@.take(it.index() as int);
        let ghost now = value@.take(it.index() + 1);
        proof {
            assert(now.drop_last() == before);
            byte_len_is_bounded(current@);
        }
        if c == ' ' {
            if current_len > best_len {
                best = current;
                best_len = current_len;
            }
            proof {
                let finished = done.push(current@);
                assert(finished.drop_last() == done);
                done = finished;
            }
            current = String::new();
            current_len = 0;
        } else {
            let ghost word = current@;
            current.push(c);
            current_len = current_len + char_width(c);
            proof {
                assert(current@.drop_last() == word);
            }
        }
    }
    proof {
        assert(value@.take(value@.len() as int) == value@);
        assert(done.push(current@).drop_last() == done);
    }
    if current_len > best_len {
        current
    } else {
        best
    }
}

/// Whether a `<select>` takes more than one option, by its `multiple`
/// attribute: it does when the attribute is there and is not `false`.
pub fn is_multiple(attribute: Option<&str>) -> (multiple: bool)
    ensures
        multiple == match attribute {
            Some(value) => value@ != "false"@,
            None => false,
        },
{
    match attribute {
        Some(value) => {
            let given = String::from_str(value);
            let off = String::from_str("false");
            !(given == off)
        },
        None => false,
    }
}

/// Whether an option has to be clicked to bring it to the wanted state: a
/// click toggles it, so it is clicked when its state is the other one.
pub fn needs_click(selected: bool, select: bool) -> (click: bool)
    ensures
        click == (selected != select),
{
    selected != select
}

/// The CSS selector of the options of the given value.
pub fn option_by_value(value: &str) -> (selector: String)
    ensures
        selector@ == "option[value="@ + escaped(value@) + "]"@,
{
    let mut selector = String::from_str("option[value=");
    selector.append(escape_string(value).as_str());
    selector.append("]");
    selector
}

/// The XPath of the options whose text, with its white space normalised, is
/// the given text.
pub fn option_by_visible_text(text: &str) -> (xpath: String)
    ensures
        xpath@ == ".//option[normalize-space(.) = "@ + escaped(text@) + "]"@,
{
    let mut xpath = String::from_str(".//option[normalize-space(.) = ");
    xpath.append(escape_string(text).as_str());
    xpath.append("]");
    xpath
}

/// The XPath of the options that contain the given text.
pub fn option_containing(text: &str) -> (xpath: String)
    ensures
        xpath@ == ".//option[contains(.,"@ + escaped(text@) + ")]"@,
{
    let mut xpath = String::from_str(".//option[contains(.,");
    xpath.append(escape_string(text).as_str());
    xpath.append(")]");
    xpath
}

/// The XPath of the options that meet the given XPath condition.
pub fn option_by_condition(condition: &str) -> (xpath: String)
    ensures
        xpath@ == ".//option["@ + condition@ + "]"@,
{
    let mut xpath = String::from_str(".//option[");
    xpath.append(condition);
    xpath.append("]");
    xpath
}

/// The XPath condition on an option that its text is exactly the given text.
pub fn exact_text_condition(text: &str) -> (condition: String)
    ensures
        condition@ == "text() = "@ + escaped(text@),
{
    let mut condition = String::from_str("text() = ");
    condition.append(escape_string(text).as_str());
    condition
}

/// The XPath condition on an option that its text contains the given text.
pub fn partial_text_condition(text: &str) -> (condition: String)
    ensures
        condition@ == "contains(text(), "@ + escaped(text@) + ")"@,
{
    let mut condition = String::from_str("contains(text(), ");
    condition.append(escape_string(text).as_str());
    condition.append(")");
    condition
}

/// Where to look for options by their visible text once the exact lookup has
/// found none.
#[derive(Debug, Clone, PartialEq, Eq)]
pub enum Candidates {
    /// Nowhere: the text has no space, so the exact lookup was complete.
    Nowhere,
    /// Among all options of the element.
    AllOptions,
    /// Among the options that this XPath finds.
    Matching(String),
}

/// The candidates, as far as the decision goes.
pub open spec fn candidates_for(text: Seq<char>) -> Option<Option<Seq<char>>> {
    if !text.contains(' ') {
        None
    } else if longest(tokens(text)).len() == 0 {
        Some(None)
    } else {
        Some(Some(".//option[contains(.,"@ + escaped(longest(tokens(text))) + ")]"@))
    }
}

/// Where to look for the options of the given visible text once the lookup
/// by the whole text has found none. An XPath lookup cannot be trusted with a
/// text that holds spaces, so the options that contain its longest word are
/// looked up and their texts compared; a text of spaces only has no word, and
/// all options are compared.
pub fn candidates(text: &str) -> (found: Candidates)
    ensures
        match found {
            Candidates::Nowhere => candidates_for(text@) == None::<Option<Seq<char>>>,
            Candidates::AllOptions => candidates_for(text@) == Some(None::<Seq<char>>),
            Candidates::Matching(xpath) => candidates_for(text@) == Some(Some(xpath@)),
        },
{
    if !has_char(text, ' ') {
        return Candidates::Nowhere;
    }
    let substring_without_space = get_longest_token(text);
    if substring_without_space.as_str().is_empty() {
        Candidates::AllOptions
    } else {
        Candidates::Matching(option_containing(substring_without_space.as_str()))
    }
}


/// The character of a decimal digit.
pub open spec fn digit(d: nat) -> char {
    if d == 0 {
        '0'
    } else if d == 1 {
        '1'
    } else if d == 2 {
        '2'
    } else if d == 3 {
        '3'
    } else if d == 4 {
        '4'
    } else if d == 5 {
        '5'
    } else if d == 6 {
        '6'
    } else if d == 7 {
        '7'
    } else if d == 8 {
        '8'
    } else {
        '9'
    }
}

/// A number as it is written in decimal, without leading zeros.
pub open spec fn decimal(n: nat) -> Seq<char>
    decreases n,
{
    if n < 10 {
        seq![digit(n)]
    } else {
        decimal(n / 10).push(digit(n % 10))
    }
}

fn digit_char(d: u32) -> (ch: char)
    requires
        d < 10,
    ensures
        ch == digit(d as nat),
{
    if d == 0 {
        '0'
    } else if d == 1 {
        '1'
    } else if d == 2 {
        '2'
    } else if d == 3 {
        '3'
    } else if d == 4 {
        '4'
    } else if d == 5 {
        '5'
    } else if d == 6 {
        '6'
    } else if d == 7 {
        '7'
    } else if d == 8 {
        '8'
    } else {
        '9'
    }
}

fn push_decimal(text: &mut String, n: u32)
    ensures
        final(text)@ == old(text)@ + decimal(n as nat),
    decreases n,
{
    if n >= 10 {
        push_decimal(text, n / 10);
    }
    text.push(digit_char(n % 10));
}

/// Whether an option is the one at the given index, by its `index`
/// attribute: the attribute has to be there and to be the index in decimal.
pub fn has_index(attribute: Option<&str>, index: u32) -> (found: bool)
    ensures
        found == match attribute {
            Some(value) => value@ == decimal(index as nat),
            None => false,
        },
{
    match attribute {
        Some(value) => {
            let given = String::from_str(value);
            let mut wanted = String::new();
            push_decimal(&mut wanted, index);
            given == wanted
        },
        None => false,
    }
}

/// What is reported when no option has the given index.
pub fn index_not_found(index: u32) -> (message: String)
    ensures
        message@ == "Could not locate element with index "@ + decimal(index as nat),
{
    let mut message = String::from_str("Could not locate element with index ");
    push_decimal(&mut message, index);
    message
}

/// What is reported when no option shows the given text.
pub fn visible_text_not_found(text: &str) -> (message: String)
    ensures
        message@ == "Could not locate element with visible text: "@ + text@,
{
    let mut message = String::from_str("Could not locate element with visible text: ");
    message.append(text);
    message
}

} // verus!
