//! The external encoder's command lines: the argument vectors that are
//! executed, and the shell-quoted rendering of the trim command that is
//! shown to the user.

use crate::numbers::{i32_to_string, int_rep};
use vstd::prelude::*;
use vstd::string::*;

verus! {

/// Whether a character makes a word need quoting in a Unix shell.
pub open spec fn shell_special(c: char) -> bool {
    ||| c == '\n'
    ||| c == '\''
    ||| c == '|'
    ||| c == '&'
    ||| c == ';'
    ||| c == '<'
    ||| c == '>'
    ||| c == '('
    ||| c == ')'
    ||| c == '$'
    ||| c == '`'
    ||| c == '\\'
    ||| c == '"'
    ||| c == ' '
    ||| c == '\t'
    ||| c == '*'
    ||| c == '?'
    ||| c == '['
    ||| c == '#'
    ||| c == '~'
    ||| c == '='
    ||| c == '%'
}

/// Whether some character of the word needs quoting.
pub open spec fn has_shell_special(s: Seq<char>) -> bool {
    exists|i: int| 0 <= i < s.len() && shell_special(#[trigger] s[i])
}

/// Whether the word holds the given character.
pub open spec fn has_char(s: Seq<char>, c: char) -> bool {
    exists|i: int| 0 <= i < s.len() && s[i] == c
}

/// The word with every single quote replaced by the four characters `'\''`.
pub open spec fn escape_single_quotes(s: Seq<char>) -> Seq<char>
    decreases s.len(),
{
    if s.len() == 0 {
        Seq::empty()
    } else {
        (if s[0] == '\'' {
            seq!['\'', '\\', '\'', '\'']
        } else {
            seq![s[0]]
        }) + escape_single_quotes(s.subrange(1, s.len() as int))
    }
}

/// The word as the shell quoter emits it: an empty word becomes `''`; a word
/// with no character that needs quoting is kept as it is; a word whose only
/// troublesome characters include a newline but no single quote is wrapped in
/// single quotes; any other troublesome word is wrapped in single quotes with
/// each inner single quote escaped.
pub open spec fn quoted_word(s: Seq<char>) -> Seq<char> {
    if s.len() == 0 {
        seq!['\'', '\'']
    } else if !has_shell_special(s) {
        s
    } else if has_char(s, '\n') && !has_char(s, '\'') {
        seq!['\''] + s + seq!['\'']
    } else {
        seq!['\''] + escape_single_quotes(s) + seq!['\'']
    }
}

/// Relies on `shell_words::quote`: it returns the word unchanged when no
/// character of it is shell-special, and otherwise wraps it in single quotes,
/// escaping inner single quotes, exactly as [`quoted_word`] states.
#[verifier::external_body]
fn quote_word(s: &str) -> (r: String)
    ensures
        r@ == quoted_word(s@),
{
    shell_words::quote(s).into_owned()
}

/// The argument vector that trims a 30-second window starting at `offset`
/// out of `input` into `output`, copying both streams without re-encoding.
pub open spec fn trim_argv(input: Seq<char>, offset: int, output: Seq<char>) -> Seq<Seq<char>> {
    seq![
        "ffmpeg"@,
        "-i"@,
        input,
        "-ss"@,
        int_rep(offset),
        "-t"@,
        "30"@,
        "-c:v"@,
        "copy"@,
        "-c:a"@,
        "copy"@,
        output,
    ]
}

/// Builds the trim argument vector.
pub fn build_trim_argv(input: &str, offset: i32, output: &str) -> (r: Vec<String>)
    ensures
        r.deep_view() == trim_argv(input@, offset as int, output@),
{
    let mut r: Vec<String> = Vec::new();
    r.push(String::from_str("ffmpeg"));
    r.push(String::from_str("-i"));
    r.push(String::from_str(input));
    r.push(String::from_str("-ss"));
    r.push(i32_to_string(offset));
    r.push(String::from_str("-t"));
    r.push(String::from_str("30"));
    r.push(String::from_str("-c:v"));
    r.push(String::from_str("copy"));
    r.push(String::from_str("-c:a"));
    r.push(String::from_str("copy"));
    r.push(String::from_str(output));
    proof {
        assert(r.deep_view() =~~= trim_argv(input@, offset as int, output@));
    }
    r
}

/// The argument vector that drops the video stream of `input` and encodes
/// its audio into `output` as compressed audio.
pub open spec fn extract_argv(input: Seq<char>, output: Seq<char>) -> Seq<Seq<char>> {
    seq!["ffmpeg"@, "-i"@, input, "-vn"@, "-c:a"@, "libmp3lame"@, output]
}

/// Builds the audio-extraction argument vector.
pub fn build_extract_argv(input: &str, output: &str) -> (r: Vec<String>)
    ensures
        r.deep_view() == extract_argv(input@, output@),
{
    let mut r: Vec<String> = Vec::new();
    r.push(String::from_str("ffmpeg"));
    r.push(String::from_str("-i"));
    r.push(String::from_str(input));
    r.push(String::from_str("-vn"));
    r.push(String::from_str("-c:a"));
    r.push(String::from_str("libmp3lame"));
    r.push(String::from_str(output));
    proof {
        assert(r.deep_view() =~~= extract_argv(input@, output@));
    }
    r
}

/// The trim command rendered as one shell line, with both file names quoted
/// for the shell and the offset in decimal.
pub open spec fn rendered_trim_command(input: Seq<char>, offset: int, output: Seq<char>) -> Seq<
    char,
> {
    "ffmpeg -i "@ + quoted_word(input) + " -ss "@ + int_rep(offset)
        + " -t 30 -c:v copy -c:a copy "@ + quoted_word(output)
}

/// Renders the trim command as one shell line.
pub fn render_trim_command(input: &str, offset: i32, output: &str) -> (r: String)
    ensures
        r@ == rendered_trim_command(input@, offset as int, output@),
{
    let mut r = String::from_str("ffmpeg -i ");
    let qi = quote_word(input);
    r.append(qi.as_str());
    r.append(" -ss ");
    let num = i32_to_string(offset);
    r.append(num.as_str());
    r.append(" -t 30 -c:v copy -c:a copy ");
    let qo = quote_word(output);
    r.append(qo.as_str());
    r
}

} // verus!
