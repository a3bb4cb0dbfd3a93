//! How a command line is shown to the user.
use vstd::prelude::*;

use crate::text::{join_with_spaces, spaced, texts};

verus! {

/// Why a list of words cannot be quoted for a shell.
#[verifier::external_type_specification]
#[verifier::external_body]
pub struct ExQuoteError(shlex::QuoteError);

/// What `shlex::try_join` makes of a list of words: the words quoted for a shell and joined, or
/// `None` where it refuses them.
pub uninterp spec fn shell_joined(words: Seq<Seq<char>>) -> Option<Seq<char>>;

/// What `shlex::split` makes of a text: the words that a shell reads from it, or `None` where a quote
/// is left open.
pub uninterp spec fn shell_split(text: Seq<char>) -> Option<Seq<Seq<char>>>;

/// Whether some word holds a nul character.
pub open spec fn has_nul(words: Seq<Seq<char>>) -> bool {
    exists|i: int| 0 <= i < words.len() && #[trigger] words[i].contains('\0')
}

/// Whether a shell reads the character as itself, without quotes.
pub open spec fn is_plain_char(c: char) -> bool {
    ||| 'a' <= c <= 'z'
    ||| 'A' <= c <= 'Z'
    ||| '0' <= c <= '9'
    ||| c == '+' || c == '-' || c == '.' || c == '/' || c == ':' || c == '@' || c == ']' || c == '_'
}

/// Whether a shell reads every word as itself, without quotes.
pub open spec fn all_plain(words: Seq<Seq<char>>) -> bool {
    forall|i: int|
        0 <= i < words.len() ==> (#[trigger] words[i]).len() > 0 && forall|j: int|
            0 <= j < words[i].len() ==> is_plain_char(#[trigger] words[i][j])
}

/// Whether a command is a script handed to `bash -lc`.
pub open spec fn is_bash_lc(command: Seq<Seq<char>>) -> bool {
    command.len() == 3 && command[0] == "bash"@ && command[1] == "-lc"@
}

/// The text of a command, given the words as they were quoted for a shell: the quoted form where
/// there is one, else the bare words.
pub open spec fn escaped(command: Seq<Seq<char>>, joined: Option<Seq<char>>) -> Seq<char> {
    match joined {
        Some(text) => text,
        None => spaced(command),
    }
}

/// The text of a command as the user sees it: the script alone where the command hands one to
/// `bash -lc`, else the command's words, quoted as `joined` has them.
pub open spec fn displayed(command: Seq<Seq<char>>, joined: Option<Seq<char>>) -> Seq<char> {
    if is_bash_lc(command) {
        command[2]
    } else {
        escaped(command, joined)
    }
}

/// Whether quoting keeps the words of a command: they have a quoted form just where no word holds a
/// nul character, a shell reads the same words from it, and words that need no quotes have none.
pub open spec fn quoted_faithfully(command: Seq<Seq<char>>) -> bool {
    &&& shell_joined(command) is None <==> has_nul(command)
    &&& !has_nul(command) ==> shell_split(shell_joined(command)->0) == Some(command)
    &&& all_plain(command) ==> shell_joined(command) == Some(spaced(command))
}

/// Whether a command that is shown word by word is quoted faithfully.
pub open spec fn shown_faithfully(command: Seq<Seq<char>>) -> bool {
    !is_bash_lc(command) ==> quoted_faithfully(command)
}

/// Quotes each word for a shell and joins the words, by `shlex::try_join`.
///
/// Taken on trust: the call succeeds exactly where no word holds a nul character, its result is
/// `shell_joined` of the words, `shlex::split` reads the same words from it, and words that need no
/// quotes come out as they are, with single spaces between them.
#[verifier::external_body]
fn try_join(words: &[String]) -> (joined: Result<String, shlex::QuoteError>)
    ensures
        joined is Err <==> has_nul(texts(words@)),
        shell_joined(texts(words@)) == (match joined {
            Ok(text) => Some(text@),
            Err(_) => None,
        }),
        joined is Ok ==> shell_split(joined->Ok_0@) == Some(texts(words@)),
        all_plain(texts(words@)) ==> (joined is Ok && joined->Ok_0@ == spaced(texts(words@))),
{
    shlex::try_join(words.iter().map(|word| word.as_str()))
}

/// The text of a command, from the words as they were quoted for a shell. `None` stands for words
/// that cannot be quoted.
pub fn escape_or_join(command: &[String], joined: Option<String>) -> (text: String)
    ensures
        text@ == escaped(
            texts(command@),
            match joined {
                Some(quoted) => Some(quoted@),
                None => None,
            },
        ),
{
    match joined {
        Some(quoted) => quoted,
        None => join_with_spaces(command),
    }
}

/// The words of a command quoted for a shell, or the bare words with spaces between them where one
/// of them cannot be quoted.
pub fn escape_command(command: &[String]) -> (text: String)
    ensures
        text@ == escaped(texts(command@), shell_joined(texts(command@))),
        shell_joined(texts(command@)) is None <==> has_nul(texts(command@)),
        has_nul(texts(command@)) || all_plain(texts(command@)) ==> text@ == spaced(texts(command@)),
        !has_nul(texts(command@)) ==> shell_split(text@) == Some(texts(command@)),
        quoted_faithfully(texts(command@)),
        match shell_joined(Seq::new(command@.len(), |i: int| command@[i]@)) {
            Some(quoted) => text@ == quoted,
            None => text@ == spaced(Seq::new(command@.len(), |i: int| command@[i]@)),
        },
        shell_joined(Seq::new(command@.len(), |i: int| command@[i]@)) is None <==> exists|i: int|
            0 <= i < command@.len() && (#[trigger] command@[i])@.contains('\0'),
{
    proof {
        assert(Seq::new(command@.len(), |i: int| command@[i]@) =~= texts(command@));
        if exists|i: int| 0 <= i < command@.len() && (#[trigger] command@[i])@.contains('\0') {
            let i = choose|i: int|
                0 <= i < command@.len() && (#[trigger] command@[i])@.contains('\0');
            assert(texts(command@)[i].contains('\0'));
        }
    }
    match try_join(command) {
        Ok(quoted) => escape_or_join(command, Some(quoted)),
        Err(_) => escape_or_join(command, None),
    }
}

/// The script of a command that hands one to `bash -lc`.
pub fn bash_lc_script(command: &[String]) -> (script: Option<String>)
    ensures
        script is Some <==> is_bash_lc(texts(command@)),
        script matches Some(text) ==> text@ == texts(command@)[2],
        script is Some <==> command@.len() == 3 && command@[0]@ == "bash"@ && command@[1]@ == "-lc"@,
        script matches Some(text) ==> text@ == command@[2]@,
{
    if command.len() == 3 && command[0] == "bash".to_owned() && command[1] == "-lc".to_owned() {
        Some(command[2].clone())
    } else {
        None
    }
}

/// The text of a command as the user sees it: a script that is handed to `bash -lc` stands alone,
/// any other command is quoted for a shell.
pub fn strip_bash_lc_and_escape(command: &[String]) -> (text: String)
    ensures
        text@ == displayed(texts(command@), shell_joined(texts(command@))),
        shown_faithfully(texts(command@)),
        command@.len() == 3 && command@[0]@ == "bash"@ && command@[1]@ == "-lc"@ ==> text@
            == command@[2]@,
        !(command@.len() == 3 && command@[0]@ == "bash"@ && command@[1]@ == "-lc"@)
            ==> match shell_joined(Seq::new(command@.len(), |i: int| command@[i]@)) {
            Some(quoted) => text@ == quoted,
            None => text@ == spaced(Seq::new(command@.len(), |i: int| command@[i]@)),
        },
{
    match bash_lc_script(command) {
        Some(script) => script,
        None => escape_command(command),
    }
}

} // verus!
