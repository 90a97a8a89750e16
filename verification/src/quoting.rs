//! Texts that another program reads: quoting for POSIX shells, for the Windows command line, for
//! AppleScript and for PowerShell. Each notation has a reader, given as a spec function, and the
//! laws at the end of the file say that the reader gives back what was quoted.

use vstd::prelude::*;
use vstd::string::*;

use crate::text::{
    chars_of, join, joined, law_joining_keeps_the_order, law_replacing_exchanges_one_character,
    lemma_replaced_absent, lemma_replaced_concat, lemma_replaced_one, push_text, replace_char,
    replaced, texts,
};

verus! {

// ---------------------------------------------------------------------------------------------
// POSIX shells
// ---------------------------------------------------------------------------------------------

/// `value` between apostrophes; an apostrophe inside is closed, put between double quotes, and
/// opened again.
pub open spec fn shell_quoted(value: Seq<char>) -> Seq<char> {
    "'"@ + replaced(value, '\'', "'\"'\"'"@) + "'"@
}

/// The quoted form of each text.
pub open spec fn shell_quoted_all(values: Seq<Seq<char>>) -> Seq<Seq<char>> {
    Seq::new(values.len(), |i: int| shell_quoted(values[i]))
}

/// The command line that names `words` one by one.
pub open spec fn shell_line(words: Seq<Seq<char>>) -> Seq<char> {
    joined(shell_quoted_all(words), " "@)
}

pub enum ShellMode {
    Plain,
    Single,
    Double,
}

/// How far a shell has read a command line: the words that are complete, the word that it is in,
/// the quotes that are open, and whether all that it read so far was literal text.
pub struct ShellReading {
    pub words: Seq<Seq<char>>,
    pub word: Option<Seq<char>>,
    pub mode: ShellMode,
    pub literal: bool,
}

/// The characters that mean more than themselves to a shell where no quotes are open.
pub open spec fn is_shell_special(c: char) -> bool {
    ||| c == '|'
    ||| c == '&'
    ||| c == ';'
    ||| c == '<'
    ||| c == '>'
    ||| c == '('
    ||| c == ')'
    ||| c == '$'
    ||| c == '`'
    ||| c == '\\'
    ||| c == '*'
    ||| c == '?'
    ||| c == '['
    ||| c == '#'
    ||| c == '~'
    ||| c == '='
    ||| c == '%'
    ||| c == '!'
    ||| c == '{'
    ||| c == '}'
    ||| c == '\n'
}

/// The word being read, which is empty where none was begun.
pub open spec fn word_text(word: Option<Seq<char>>) -> Seq<char> {
    match word {
        Some(text) => text,
        None => Seq::empty(),
    }
}

/// Reading one more character of a command line.
pub open spec fn shell_read_char(at: ShellReading, c: char) -> ShellReading {
    match at.mode {
        ShellMode::Plain => if c == ' ' || c == '\t' {
            match at.word {
                Some(text) => ShellReading { words: at.words.push(text), word: None, ..at },
                None => at,
            }
        } else if c == '\'' {
            ShellReading { word: Some(word_text(at.word)), mode: ShellMode::Single, ..at }
        } else if c == '"' {
            ShellReading { word: Some(word_text(at.word)), mode: ShellMode::Double, ..at }
        } else if is_shell_special(c) {
            ShellReading { literal: false, ..at }
        } else {
            ShellReading { word: Some(word_text(at.word).push(c)), ..at }
        },
        ShellMode::Single => if c == '\'' {
            ShellReading { mode: ShellMode::Plain, ..at }
        } else {
            ShellReading { word: Some(word_text(at.word).push(c)), ..at }
        },
        ShellMode::Double => if c == '"' {
            ShellReading { mode: ShellMode::Plain, ..at }
        } else if c == '$' || c == '`' || c == '\\' || c == '!' {
            ShellReading { literal: false, ..at }
        } else {
            ShellReading { word: Some(word_text(at.word).push(c)), ..at }
        },
    }
}

/// Reading the characters of `s` one after the other.
pub open spec fn shell_read(at: ShellReading, s: Seq<char>) -> ShellReading
    decreases s.len(),
{
    if s.len() == 0 {
        at
    } else {
        shell_read_char(shell_read(at, s.drop_last()), s.last())
    }
}

/// A shell that has read `words` and stands between words.
pub open spec fn shell_between(words: Seq<Seq<char>>) -> ShellReading {
    ShellReading { words, word: None, mode: ShellMode::Plain, literal: true }
}

/// The words of a command line, as a POSIX shell splits it: none where a quote stays open or
/// where the line holds anything that the shell would expand or act on.
pub open spec fn shell_words(line: Seq<char>) -> Option<Seq<Seq<char>>> {
    let end = shell_read(shell_between(Seq::empty()), line);
    if end.literal && end.mode is Plain {
        match end.word {
            Some(text) => Some(end.words.push(text)),
            None => Some(end.words),
        }
    } else {
        None
    }
}

/// Quotes `value` as one word of a shell command line.
pub fn shell_quote(value: &str) -> (quoted: String)
    ensures
        quoted@ == shell_quoted(value@),
{
    "'".to_string().concat(replace_char(value, '\'', "'\"'\"'").as_str()).concat("'")
}

/// Quotes `value` as one word of a shell command line; an empty value becomes a pair of
/// apostrophes.
pub fn shell_quote_arg(value: &str) -> (quoted: String)
    ensures
        quoted@ == shell_quoted(value@),
{
    if value.is_empty() {
        proof {
            reveal_strlit("''");
            reveal_strlit("'");
            assert(value@ =~= Seq::<char>::empty());
            assert("''"@ =~= shell_quoted(value@));
        }
        return "''".to_string();
    }
    shell_quote(value)
}

/// The quoted words of a command: the program, then its arguments.
fn shell_quoted_words(executable: &str, args: &Vec<String>) -> (parts: Vec<String>)
    ensures
        texts(parts@) == shell_quoted_all(seq![executable@] + texts(args@)),
{
    let ghost words = seq![executable@] + texts(args@);
    let mut parts: Vec<String> = Vec::new();
    push_text(&mut parts, shell_quote(executable));
    for i in 0..args.len()
        invariant
            words == seq![executable@] + texts(args@),
            texts(parts@) =~= shell_quoted_all(words).take(i + 1),
    {
        push_text(&mut parts, shell_quote(args[i].as_str()));
    }
    parts
}

/// The command line that runs `executable` with `args`.
pub fn shell_join(executable: &str, args: &Vec<String>) -> (line: String)
    ensures
        line@ == shell_line(seq![executable@] + texts(args@)),
{
    let parts = shell_quoted_words(executable, args);
    join(&parts, " ")
}

// ---------------------------------------------------------------------------------------------
// Windows
// ---------------------------------------------------------------------------------------------

/// `n` backslashes.
pub open spec fn backslashes(n: nat) -> Seq<char> {
    Seq::new(n, |i: int| '\\')
}

/// A character that makes quotes necessary around an argument.
pub open spec fn needs_quotes_char(c: char) -> bool {
    c == ' ' || c == '\t' || c == '"'
}

/// What stands between the quotes of an argument, for the rest `s` of it after `pending`
/// backslashes: backslashes are doubled before a quote and at the end, and a quote gets a
/// backslash of its own.
pub open spec fn windows_escaped(s: Seq<char>, pending: nat) -> Seq<char>
    decreases s.len(),
{
    if s.len() == 0 {
        backslashes(2 * pending)
    } else if s[0] == '\\' {
        windows_escaped(s.drop_first(), pending + 1)
    } else if s[0] == '"' {
        backslashes(2 * pending + 1).push('"') + windows_escaped(s.drop_first(), 0)
    } else {
        backslashes(pending).push(s[0]) + windows_escaped(s.drop_first(), 0)
    }
}

/// `value` as one argument of a Windows command line.
pub open spec fn windows_quoted(value: Seq<char>) -> Seq<char> {
    if value.len() == 0 {
        "\"\""@
    } else if forall|i: int| 0 <= i < value.len() ==> !needs_quotes_char(#[trigger] value[i]) {
        value
    } else {
        seq!['"'] + windows_escaped(value, 0) + seq!['"']
    }
}

/// Each value as an argument.
pub open spec fn windows_quoted_all(values: Seq<Seq<char>>) -> Seq<Seq<char>> {
    Seq::new(values.len(), |i: int| windows_quoted(values[i]))
}

/// The command line with `values` as arguments.
pub open spec fn windows_line(values: Seq<Seq<char>>) -> Seq<char> {
    joined(windows_quoted_all(values), " "@)
}

/// How far a program has read its command line: the arguments that are complete, the argument
/// that it is in, whether quotes are open, the backslashes just read, whether the character just
/// read was a closing quote, and whether it met nothing that C runtimes read in different ways.
pub struct ArgvReading {
    pub args: Seq<Seq<char>>,
    pub arg: Option<Seq<char>>,
    pub quoted: bool,
    pub slashes: nat,
    pub closed: bool,
    pub sound: bool,
}

/// Reading one more character of a Windows command line: `2n` backslashes and a quote are `n`
/// backslashes and a quote that opens or closes, `2n + 1` backslashes and a quote are `n`
/// backslashes and a literal quote, and other backslashes stand for themselves.
pub open spec fn argv_read_char(at: ArgvReading, c: char) -> ArgvReading {
    if c == '\\' {
        ArgvReading { slashes: at.slashes + 1, closed: false, ..at }
    } else if c == '"' {
        let text = word_text(at.arg) + backslashes(at.slashes / 2);
        if at.slashes % 2 == 1 {
            ArgvReading { arg: Some(text.push('"')), slashes: 0, closed: false, ..at }
        } else if at.closed {
            ArgvReading { sound: false, ..at }
        } else {
            ArgvReading { arg: Some(text), quoted: !at.quoted, slashes: 0, closed: at.quoted, ..at }
        }
    } else {
        let text = word_text(at.arg) + backslashes(at.slashes);
        if (c == ' ' || c == '\t') && !at.quoted {
            if at.arg is Some || at.slashes > 0 {
                ArgvReading { args: at.args.push(text), arg: None, slashes: 0, closed: false, ..at }
            } else {
                ArgvReading { closed: false, ..at }
            }
        } else {
            ArgvReading { arg: Some(text.push(c)), slashes: 0, closed: false, ..at }
        }
    }
}

/// Reading the characters of `s` one after the other.
pub open spec fn argv_read(at: ArgvReading, s: Seq<char>) -> ArgvReading
    decreases s.len(),
{
    if s.len() == 0 {
        at
    } else {
        argv_read_char(argv_read(at, s.drop_last()), s.last())
    }
}

/// A program that has read `args` and stands between arguments.
pub open spec fn argv_between(args: Seq<Seq<char>>) -> ArgvReading {
    ArgvReading { args, arg: None, quoted: false, slashes: 0, closed: false, sound: true }
}

/// The arguments on a Windows command line; none where a quote stays open or where C runtimes
/// differ on how to read it.
pub open spec fn windows_args(line: Seq<char>) -> Option<Seq<Seq<char>>> {
    let end = argv_read(argv_between(Seq::empty()), line);
    if end.sound && !end.quoted {
        if end.arg is Some || end.slashes > 0 {
            Some(end.args.push(word_text(end.arg) + backslashes(end.slashes)))
        } else {
            Some(end.args)
        }
    } else {
        None
    }
}

/// Adds `count` backslashes.
fn push_backslashes(s: &mut String, count: usize)
    ensures
        final(s)@ == old(s)@ + backslashes(count as nat),
{
    let ghost before = s@;
    for i in 0..count
        invariant
            s@ =~= before + backslashes(i as nat),
    {
        s.push('\\');
    }
}

/// Whether `value` holds a blank or a quote.
fn needs_quotes(chars: &Vec<char>) -> (needed: bool)
    ensures
        needed == !(forall|i: int|
            0 <= i < chars@.len() ==> !needs_quotes_char(#[trigger] chars@[i])),
{
    for i in 0..chars.len()
        invariant
            forall|j: int| 0 <= j < i ==> !needs_quotes_char(#[trigger] chars@[j]),
    {
        let c = chars[i];
        if c == ' ' || c == '\t' || c == '"' {
            assert(needs_quotes_char(chars@[i as int]));
            return true;
        }
    }
    false
}

/// Quotes `value` as one argument of a Windows command line.
pub fn windows_quote_arg(value: &str) -> (quoted: String)
    ensures
        quoted@ == windows_quoted(value@),
{
    if value.is_empty() {
        return "\"\"".to_string();
    }
    let chars = chars_of(value);
    if !needs_quotes(&chars) {
        return value.to_string();
    }
    let mut result = String::new();
    result.push('"');
    let mut pending: usize = 0;
    let ghost body = windows_escaped(value@, 0);
    assert(value@.skip(0) =~= value@);
    assert(result@ + body =~= seq!['"'] + body);
    for i in 0..chars.len()
        invariant
            chars@ == value@,
            pending <= i,
            result@ + windows_escaped(value@.skip(i as int), pending as nat) == seq!['"'] + body,
    {
        let c = chars[i];
        let ghost rest = value@.skip(i as int);
        let ghost before = result@;
        assert(rest.drop_first() =~= value@.skip(i + 1));
        if c == '\\' {
            pending = pending + 1;
        } else if c == '"' {
            push_backslashes(&mut result, pending);
            push_backslashes(&mut result, pending);
            result.push('\\');
            result.push('"');
            assert(result@ =~= before + backslashes(2 * pending as nat + 1).push('"'));
            assert(result@ + windows_escaped(rest.drop_first(), 0) =~= before + windows_escaped(
                rest,
                pending as nat,
            ));
            pending = 0;
        } else {
            push_backslashes(&mut result, pending);
            result.push(c);
            assert(result@ =~= before + backslashes(pending as nat).push(c));
            assert(result@ + windows_escaped(rest.drop_first(), 0) =~= before + windows_escaped(
                rest,
                pending as nat,
            ));
            pending = 0;
        }
    }
    let ghost before = result@;
    push_backslashes(&mut result, pending);
    push_backslashes(&mut result, pending);
    assert(result@ =~= before + backslashes(2 * pending as nat));
    result.push('"');
    assert(result@ =~= seq!['"'] + body + seq!['"']);
    result
}

/// The command line with `args` as arguments.
pub fn windows_command_line(args: &Vec<String>) -> (line: String)
    ensures
        line@ == windows_line(texts(args@)),
{
    let mut parts: Vec<String> = Vec::new();
    for i in 0..args.len()
        invariant
            texts(parts@) =~= windows_quoted_all(texts(args@)).take(i as int),
    {
        push_text(&mut parts, windows_quote_arg(args[i].as_str()));
    }
    assert(windows_quoted_all(texts(args@)).take(args@.len() as int) =~= windows_quoted_all(
        texts(args@),
    ));
    join(&parts, " ")
}

// ---------------------------------------------------------------------------------------------
// AppleScript and PowerShell
// ---------------------------------------------------------------------------------------------

/// `value` as the inside of an AppleScript string literal.
pub open spec fn applescript_escaped(value: Seq<char>) -> Seq<char> {
    replaced(replaced(value, '\\', "\\\\"@), '"', "\\\""@)
}

/// The text that the inside of an AppleScript string literal stands for; none where it holds the
/// quote that ends the literal, or a backslash before anything but a backslash or a quote.
pub open spec fn applescript_text(s: Seq<char>) -> Option<Seq<char>>
    decreases s.len(),
{
    if s.len() == 0 {
        Some(Seq::empty())
    } else if s[0] == '"' {
        None
    } else if s[0] == '\\' {
        if s.len() > 1 && (s[1] == '\\' || s[1] == '"') {
            match applescript_text(s.skip(2)) {
                Some(rest) => Some(seq![s[1]] + rest),
                None => None,
            }
        } else {
            None
        }
    } else {
        match applescript_text(s.drop_first()) {
            Some(rest) => Some(seq![s[0]] + rest),
            None => None,
        }
    }
}

/// Escapes `value` for use between the quotes of an AppleScript string literal.
pub fn applescript_escape(value: &str) -> (escaped: String)
    ensures
        escaped@ == applescript_escaped(value@),
{
    replace_char(replace_char(value, '\\', "\\\\").as_str(), '"', "\\\"")
}

/// `value` as the inside of a PowerShell literal between apostrophes.
pub open spec fn powershell_escaped(value: Seq<char>) -> Seq<char> {
    replaced(value, '\'', "''"@)
}

/// The characters that PowerShell takes for an apostrophe.
pub open spec fn is_powershell_quote(c: char) -> bool {
    c == '\'' || '\u{2018}' <= c <= '\u{201b}'
}

/// The text that the inside of a PowerShell literal between apostrophes stands for: two quotes
/// stand for one, and a single one would end the literal.
pub open spec fn powershell_text(s: Seq<char>) -> Option<Seq<char>>
    decreases s.len(),
{
    if s.len() == 0 {
        Some(Seq::empty())
    } else if is_powershell_quote(s[0]) {
        if s.len() > 1 && is_powershell_quote(s[1]) {
            match powershell_text(s.skip(2)) {
                Some(rest) => Some(seq![s[0]] + rest),
                None => None,
            }
        } else {
            None
        }
    } else {
        match powershell_text(s.drop_first()) {
            Some(rest) => Some(seq![s[0]] + rest),
            None => None,
        }
    }
}

/// Escapes the path of a file for use between the apostrophes of a PowerShell literal.
pub fn powershell_literal(path: &str) -> (escaped: String)
    ensures
        escaped@ == powershell_escaped(path@),
{
    replace_char(path, '\'', "''")
}

// ---------------------------------------------------------------------------------------------
// Laws
// ---------------------------------------------------------------------------------------------

/// A shell reads the command line that names `words` as exactly these words, whatever
/// characters they hold.
pub proof fn law_shell_line_is_read_back(words: Seq<Seq<char>>)
    ensures
        shell_words(shell_line(words)) == Some(words),
{
    if words.len() == 0 {
        assert(shell_words(shell_line(words))->0 =~= words);
    } else {
        lemma_shell_line(words);
        assert(words.drop_last().push(words.last()) =~= words);
    }
}

/// A program reads the Windows command line with `values` as arguments as exactly these
/// arguments, whatever characters they hold.
pub proof fn law_windows_line_is_read_back(values: Seq<Seq<char>>)
    ensures
        windows_args(windows_line(values)) == Some(values),
{
    if values.len() == 0 {
        assert(windows_args(windows_line(values))->0 =~= values);
    } else {
        lemma_windows_line(values);
        assert(values.drop_last().push(values.last()) =~= values);
    }
}

/// AppleScript reads an escaped text as the text itself; in particular the escaped text holds no
/// quote that would end the literal.
pub proof fn law_applescript_is_read_back(value: Seq<char>)
    ensures
        applescript_text(applescript_escaped(value)) == Some(value),
    decreases value.len(),
{
    reveal_strlit("\\\\");
    reveal_strlit("\\\"");
    if value.len() == 0 {
        assert(value =~= Seq::<char>::empty());
    } else {
        let c = value[0];
        let rest = value.drop_first();
        law_applescript_is_read_back(rest);
        assert(value =~= seq![c] + rest);
        lemma_replaced_concat(seq![c], rest, '\\', "\\\\"@);
        lemma_replaced_one(c, '\\', "\\\\"@);
        let first = if c == '\\' {
            "\\\\"@
        } else {
            seq![c]
        };
        lemma_replaced_concat(first, replaced(rest, '\\', "\\\\"@), '"', "\\\""@);
        if c == '\\' {
            assert(first =~= seq!['\\'] + seq!['\\']);
            lemma_replaced_concat(seq!['\\'], seq!['\\'], '"', "\\\""@);
            lemma_replaced_one('\\', '"', "\\\""@);
            assert(replaced(first, '"', "\\\""@) =~= seq!['\\', '\\']);
        } else {
            lemma_replaced_one(c, '"', "\\\""@);
        }
        let head = replaced(first, '"', "\\\""@);
        let whole = applescript_escaped(value);
        assert(whole == head + applescript_escaped(rest));
        if c == '\\' || c == '"' {
            assert(head =~= seq!['\\', c]);
            assert(whole.skip(2) =~= applescript_escaped(rest));
        } else {
            assert(head =~= seq![c]);
            assert(whole.drop_first() =~= applescript_escaped(rest));
        }
        assert(seq![c] + rest =~= value);
    }
}

/// PowerShell reads an escaped path as the path itself, where the path holds none of the
/// typographic apostrophes, which are not escaped.
pub proof fn law_powershell_is_read_back(value: Seq<char>)
    requires
        forall|i: int| 0 <= i < value.len() ==> !('\u{2018}' <= #[trigger] value[i] <= '\u{201b}'),
    ensures
        powershell_text(powershell_escaped(value)) == Some(value),
    decreases value.len(),
{
    reveal_strlit("''");
    if value.len() == 0 {
        assert(value =~= Seq::<char>::empty());
    } else {
        let c = value[0];
        let rest = value.drop_first();
        law_powershell_is_read_back(rest);
        assert(value =~= seq![c] + rest);
        lemma_replaced_concat(seq![c], rest, '\'', "''"@);
        lemma_replaced_one(c, '\'', "''"@);
        let whole = powershell_escaped(value);
        if c == '\'' {
            assert(whole.skip(2) =~= powershell_escaped(rest));
        } else {
            assert(whole.drop_first() =~= powershell_escaped(rest));
        }
        assert(seq![c] + rest =~= value);
    }
}

// ---------------------------------------------------------------------------------------------
// Proofs: the shell
// ---------------------------------------------------------------------------------------------

proof fn lemma_shell_read_concat(at: ShellReading, a: Seq<char>, b: Seq<char>)
    ensures
        shell_read(at, a + b) == shell_read(shell_read(at, a), b),
    decreases b.len(),
{
    if b.len() == 0 {
        assert(a + b =~= a);
    } else {
        lemma_shell_read_concat(at, a, b.drop_last());
        assert((a + b).drop_last() =~= a + b.drop_last());
    }
}

proof fn lemma_shell_read_one(at: ShellReading, c: char)
    ensures
        shell_read(at, seq![c]) == shell_read_char(at, c),
{
    reveal_with_fuel(shell_read, 2);
    assert(seq![c].drop_last() =~= Seq::<char>::empty());
}

/// Inside apostrophes, the replaced text is read as the text itself.
proof fn lemma_shell_read_inside(at: ShellReading, start: Seq<char>, value: Seq<char>)
    requires
        at.mode is Single,
        at.literal,
        at.word == Some(start),
    ensures
        shell_read(at, replaced(value, '\'', "'\"'\"'"@)) == (ShellReading {
            word: Some(start + value),
            ..at
        }),
    decreases value.len(),
{
    reveal_strlit("'\"'\"'");
    let escape = "'\"'\"'"@;
    if value.len() == 0 {
        assert(start + value =~= start);
    } else {
        let head = value.drop_last();
        let c = value.last();
        lemma_shell_read_inside(at, start, head);
        let mid = ShellReading { word: Some(start + head), ..at };
        let tail = if c == '\'' {
            escape
        } else {
            seq![c]
        };
        lemma_shell_read_concat(at, replaced(head, '\'', escape), tail);
        if c == '\'' {
            assert(escape =~= seq!['\''] + seq!['"'] + seq!['\''] + seq!['"'] + seq!['\'']);
            lemma_shell_read_concat(mid, seq!['\''] + seq!['"'] + seq!['\''] + seq!['"'], seq!['\'']);
            lemma_shell_read_concat(mid, seq!['\''] + seq!['"'] + seq!['\''], seq!['"']);
            lemma_shell_read_concat(mid, seq!['\''] + seq!['"'], seq!['\'']);
            lemma_shell_read_concat(mid, seq!['\''], seq!['"']);
            lemma_shell_read_one(mid, '\'');
            let s1 = shell_read_char(mid, '\'');
            lemma_shell_read_one(s1, '"');
            let s2 = shell_read_char(s1, '"');
            lemma_shell_read_one(s2, '\'');
            let s3 = shell_read_char(s2, '\'');
            lemma_shell_read_one(s3, '"');
            let s4 = shell_read_char(s3, '"');
            lemma_shell_read_one(s4, '\'');
            assert((start + head).push('\'') =~= start + value);
        } else {
            lemma_shell_read_one(mid, c);
            assert((start + head).push(c) =~= start + value);
        }
    }
}

/// Between words, a quoted value is read as a word of its own.
proof fn lemma_shell_read_quoted(words: Seq<Seq<char>>, value: Seq<char>)
    ensures
        shell_read(shell_between(words), shell_quoted(value)) == (ShellReading {
            words,
            word: Some(value),
            mode: ShellMode::Plain,
            literal: true,
        }),
{
    reveal_strlit("'");
    let at = shell_between(words);
    let body = replaced(value, '\'', "'\"'\"'"@);
    assert("'"@ =~= seq!['\'']);
    lemma_shell_read_concat(at, "'"@ + body, "'"@);
    lemma_shell_read_concat(at, "'"@, body);
    lemma_shell_read_one(at, '\'');
    let open = shell_read_char(at, '\'');
    lemma_shell_read_inside(open, Seq::empty(), value);
    assert(Seq::<char>::empty() + value =~= value);
    let inside = ShellReading { word: Some(value), ..open };
    lemma_shell_read_one(inside, '\'');
}

proof fn lemma_shell_line(words: Seq<Seq<char>>)
    requires
        words.len() > 0,
    ensures
        shell_read(shell_between(Seq::empty()), shell_line(words)) == (ShellReading {
            words: words.drop_last(),
            word: Some(words.last()),
            mode: ShellMode::Plain,
            literal: true,
        }),
    decreases words.len(),
{
    let start = shell_between(Seq::empty());
    let quoted = shell_quoted_all(words);
    if words.len() == 1 {
        lemma_shell_read_quoted(Seq::empty(), words[0]);
        assert(words.drop_last() =~= Seq::<Seq<char>>::empty());
    } else {
        let head = words.drop_last();
        lemma_shell_line(head);
        assert(quoted.drop_last() =~= shell_quoted_all(head));
        assert(quoted.last() == shell_quoted(words.last()));
        let line = shell_line(head);
        reveal_strlit(" ");
        assert(" "@ =~= seq![' ']);
        lemma_shell_read_concat(start, line + " "@, quoted.last());
        lemma_shell_read_concat(start, line, " "@);
        let before = shell_read(start, line);
        lemma_shell_read_one(before, ' ');
        assert(head.drop_last().push(head.last()) =~= head);
        assert(shell_read_char(before, ' ') == shell_between(head));
        lemma_shell_read_quoted(head, words.last());
    }
}

// ---------------------------------------------------------------------------------------------
// Proofs: Windows
// ---------------------------------------------------------------------------------------------

proof fn lemma_argv_read_concat(at: ArgvReading, a: Seq<char>, b: Seq<char>)
    ensures
        argv_read(at, a + b) == argv_read(argv_read(at, a), b),
    decreases b.len(),
{
    if b.len() == 0 {
        assert(a + b =~= a);
    } else {
        lemma_argv_read_concat(at, a, b.drop_last());
        assert((a + b).drop_last() =~= a + b.drop_last());
    }
}

proof fn lemma_argv_read_one(at: ArgvReading, c: char)
    ensures
        argv_read(at, seq![c]) == argv_read_char(at, c),
{
    reveal_with_fuel(argv_read, 2);
    assert(seq![c].drop_last() =~= Seq::<char>::empty());
}

proof fn lemma_argv_read_backslashes(at: ArgvReading, n: nat)
    requires
        !at.closed,
    ensures
        argv_read(at, backslashes(n)) == (ArgvReading { slashes: at.slashes + n, ..at }),
    decreases n,
{
    if n > 0 {
        lemma_argv_read_backslashes(at, (n - 1) as nat);
        assert(backslashes(n).drop_last() =~= backslashes((n - 1) as nat));
    }
}

/// Inside quotes, the escaped text and the closing quote are read as the text itself.
proof fn lemma_argv_read_escaped(at: ArgvReading, start: Seq<char>, s: Seq<char>, pending: nat)
    requires
        at.quoted,
        !at.closed,
        at.slashes == 0,
        at.arg == Some(start),
    ensures
        argv_read(at, windows_escaped(s, pending).push('"')) == (ArgvReading {
            arg: Some(start + backslashes(pending) + s),
            quoted: false,
            closed: true,
            ..at
        }),
    decreases s.len(),
{
    let escaped = windows_escaped(s, pending);
    if s.len() == 0 {
        lemma_argv_read_backslashes(at, 2 * pending);
        assert(escaped.push('"').drop_last() =~= escaped);
        assert(start + backslashes(pending) + s =~= start + backslashes(pending));
    } else if s[0] == '\\' {
        lemma_argv_read_escaped(at, start, s.drop_first(), pending + 1);
        assert(start + backslashes(pending + 1) + s.drop_first() =~= start + backslashes(pending)
            + s);
    } else {
        let rest = s.drop_first();
        let tail = windows_escaped(rest, 0).push('"');
        let n = if s[0] == '"' {
            2 * pending + 1
        } else {
            pending
        };
        let head = backslashes(n).push(s[0]);
        assert(escaped.push('"') =~= head + tail);
        lemma_argv_read_concat(at, head, tail);
        lemma_argv_read_backslashes(at, n);
        assert(head.drop_last() =~= backslashes(n));
        let mid = argv_read(at, head);
        let text = (start + backslashes(pending)).push(s[0]);
        assert(mid == ArgvReading { arg: Some(text), ..at });
        lemma_argv_read_escaped(mid, text, rest, 0);
        assert(text + backslashes(0) + rest =~= start + backslashes(pending) + s);
    }
}

/// An argument has been read to its end and not yet closed off.
spec fn argument_read(at: ArgvReading, args: Seq<Seq<char>>, value: Seq<char>) -> bool {
    &&& at.args == args
    &&& at.sound
    &&& !at.quoted
    &&& at.arg is Some || at.slashes > 0
    &&& word_text(at.arg) + backslashes(at.slashes) == value
}

/// Characters that need no quotes are read as themselves.
proof fn lemma_argv_read_plain(args: Seq<Seq<char>>, value: Seq<char>)
    requires
        forall|i: int| 0 <= i < value.len() ==> !needs_quotes_char(#[trigger] value[i]),
    ensures
        value.len() > 0 ==> argument_read(argv_read(argv_between(args), value), args, value),
    decreases value.len(),
{
    if value.len() > 0 {
        let head = value.drop_last();
        let c = value.last();
        assert(!needs_quotes_char(c));
        assert forall|i: int| 0 <= i < head.len() implies !needs_quotes_char(#[trigger] head[i]) by {
            assert(head[i] == value[i]);
        }
        lemma_argv_read_plain(args, head);
        let mid = argv_read(argv_between(args), head);
        let end = argv_read_char(mid, c);
        if head.len() == 0 {
            assert(mid == argv_between(args));
            assert(Seq::<char>::empty() + backslashes(0) =~= Seq::<char>::empty());
        }
        assert(word_text(mid.arg) + backslashes(mid.slashes) =~= head);
        if c == '\\' {
            assert(word_text(end.arg) + backslashes(end.slashes) =~= head.push(c));
        } else {
            assert(word_text(end.arg) + backslashes(end.slashes) =~= head.push(c));
        }
        assert(head.push(c) =~= value);
    }
}

/// Between arguments, a quoted value is read as an argument of its own.
proof fn lemma_argv_read_quoted(args: Seq<Seq<char>>, value: Seq<char>)
    ensures
        argument_read(argv_read(argv_between(args), windows_quoted(value)), args, value),
{
    let at = argv_between(args);
    let open = ArgvReading { arg: Some(Seq::empty()), quoted: true, ..at };
    lemma_argv_read_one(at, '"');
    assert(Seq::<char>::empty() + backslashes(0) =~= Seq::<char>::empty());
    assert(argv_read(at, seq!['"']) == open);
    if value.len() == 0 {
        reveal_strlit("\"\"");
        assert("\"\""@ =~= seq!['"'] + seq!['"']);
        lemma_argv_read_concat(at, seq!['"'], seq!['"']);
        lemma_argv_read_one(open, '"');
        let end = argv_read(at, "\"\""@);
        assert(word_text(end.arg) + backslashes(end.slashes) =~= value);
    } else if forall|i: int| 0 <= i < value.len() ==> !needs_quotes_char(#[trigger] value[i]) {
        lemma_argv_read_plain(args, value);
    } else {
        let body = windows_escaped(value, 0);
        assert(seq!['"'] + body + seq!['"'] =~= seq!['"'] + body.push('"'));
        lemma_argv_read_concat(at, seq!['"'], body.push('"'));
        lemma_argv_read_escaped(open, Seq::empty(), value, 0);
        assert(Seq::<char>::empty() + backslashes(0) + value =~= value);
        let end = argv_read(at, windows_quoted(value));
        assert(word_text(end.arg) + backslashes(end.slashes) =~= value);
    }
}

proof fn lemma_windows_line(values: Seq<Seq<char>>)
    requires
        values.len() > 0,
    ensures
        argument_read(
            argv_read(argv_between(Seq::empty()), windows_line(values)),
            values.drop_last(),
            values.last(),
        ),
    decreases values.len(),
{
    let start = argv_between(Seq::empty());
    let quoted = windows_quoted_all(values);
    if values.len() == 1 {
        lemma_argv_read_quoted(Seq::empty(), values[0]);
        assert(values.drop_last() =~= Seq::<Seq<char>>::empty());
    } else {
        let head = values.drop_last();
        lemma_windows_line(head);
        assert(quoted.drop_last() =~= windows_quoted_all(head));
        assert(quoted.last() == windows_quoted(values.last()));
        let line = windows_line(head);
        reveal_strlit(" ");
        assert(" "@ =~= seq![' ']);
        lemma_argv_read_concat(start, line + " "@, quoted.last());
        lemma_argv_read_concat(start, line, " "@);
        let before = argv_read(start, line);
        lemma_argv_read_one(before, ' ');
        assert(head.drop_last().push(head.last()) =~= head);
        assert(argv_read_char(before, ' ') == argv_between(head));
        lemma_argv_read_quoted(head, values.last());
    }
}

// ---------------------------------------------------------------------------------------------
// Laws: what the notations look like
// ---------------------------------------------------------------------------------------------

/// A word is put between apostrophes in any case; an apostrophe in it is written outside of them, between
/// double quotes.
pub proof fn law_words_stand_between_apostrophes(a: Seq<char>, b: Seq<char>, plain: Seq<char>)
    requires
        forall|i: int| 0 <= i < plain.len() ==> #[trigger] plain[i] != '\'',
    ensures
        shell_quoted(plain) == seq!['\''] + plain + seq!['\''],
        shell_quoted(a + seq!['\''] + b) == shell_quoted(a) + seq!['"', '\'', '"'] + shell_quoted(b),
{
    reveal_strlit("'");
    reveal_strlit("'\"'\"'");
    let escape = "'\"'\"'"@;
    assert("'"@ =~= seq!['\'']);
    lemma_replaced_absent(plain, '\'', escape);
    law_replacing_exchanges_one_character(a, '\'', b, '\'', escape);
    assert(escape =~= seq!['\''] + seq!['"', '\'', '"'] + seq!['\'']);
    assert(shell_quoted(a + seq!['\''] + b) =~= shell_quoted(a) + seq!['"', '\'', '"'] + shell_quoted(
        b,
    ));
}

/// The words of a command line are quoted one by one, with a blank between each two.
pub proof fn law_shell_lines_are_words_and_blanks(
    a: Seq<Seq<char>>,
    b: Seq<Seq<char>>,
    word: Seq<char>,
)
    requires
        a.len() > 0,
        b.len() > 0,
    ensures
        shell_line(seq![word]) == shell_quoted(word),
        shell_line(a + b) == shell_line(a) + seq![' '] + shell_line(b),
        windows_line(seq![word]) == windows_quoted(word),
        windows_line(a + b) == windows_line(a) + seq![' '] + windows_line(b),
{
    reveal_strlit(" ");
    assert(" "@ =~= seq![' ']);
    law_joining_keeps_the_order(
        shell_quoted_all(a),
        shell_quoted_all(b),
        shell_quoted(word),
        " "@,
    );
    law_joining_keeps_the_order(
        windows_quoted_all(a),
        windows_quoted_all(b),
        windows_quoted(word),
        " "@,
    );
    assert(shell_quoted_all(a + b) =~= shell_quoted_all(a) + shell_quoted_all(b));
    assert(shell_quoted_all(seq![word]) =~= seq![shell_quoted(word)]);
    assert(windows_quoted_all(a + b) =~= windows_quoted_all(a) + windows_quoted_all(b));
    assert(windows_quoted_all(seq![word]) =~= seq![windows_quoted(word)]);
}

/// An argument of Windows stands as it is unless it is empty or holds a blank, a tab or a quote; else it
/// stands between quotes.
pub proof fn law_arguments_are_quoted_where_needed(value: Seq<char>)
    ensures
        windows_quoted(value) == value <==> value.len() > 0 && forall|i: int|
            0 <= i < value.len() ==> #[trigger] value[i] != ' ' && value[i] != '\t' && value[i]
                != '"',
        windows_quoted(value) != value ==> windows_quoted(value).len() >= 2 && windows_quoted(
            value,
        )[0] == '"' && windows_quoted(value).last() == '"',
{
    reveal_strlit("\"\"");
    lemma_escaped_is_no_shorter(value, 0);
    let plain = forall|i: int|
        0 <= i < value.len() ==> #[trigger] value[i] != ' ' && value[i] != '\t' && value[i] != '"';
    if plain {
        assert forall|i: int| 0 <= i < value.len() implies !needs_quotes_char(#[trigger] value[i]) by {
            assert(value[i] != ' ' && value[i] != '\t' && value[i] != '"');
        }
    } else {
        let i = choose|i: int|
            0 <= i < value.len() && !(#[trigger] value[i] != ' ' && value[i] != '\t' && value[i]
                != '"');
        assert(needs_quotes_char(value[i]));
        if value.len() > 0 {
            assert(windows_quoted(value).len() > value.len());
        }
    }
}

proof fn lemma_escaped_is_no_shorter(s: Seq<char>, pending: nat)
    ensures
        windows_escaped(s, pending).len() >= s.len() + pending,
    decreases s.len(),
{
    if s.len() > 0 {
        if s[0] == '\\' {
            lemma_escaped_is_no_shorter(s.drop_first(), pending + 1);
        } else {
            lemma_escaped_is_no_shorter(s.drop_first(), 0);
        }
    }
}

/// Between the quotes an argument of Windows is left as it is but for its quotes, and for the backslashes
/// before a quote and at the end.
pub proof fn law_backslashes_are_left_alone(s: Seq<char>, pending: nat)
    requires
        s.len() > 0,
        s.last() != '\\',
        forall|i: int| 0 <= i < s.len() ==> #[trigger] s[i] != '"',
    ensures
        windows_escaped(s, pending) == backslashes(pending) + s,
    decreases s.len(),
{
    let rest = s.drop_first();
    reveal_with_fuel(windows_escaped, 2);
    assert(forall|i: int| 0 <= i < rest.len() ==> #[trigger] rest[i] == s[i + 1]);
    assert(s =~= seq![s[0]] + rest);
    if s[0] == '\\' {
        assert(rest.last() == s.last());
        law_backslashes_are_left_alone(rest, pending + 1);
        assert(backslashes(pending + 1) + rest =~= backslashes(pending) + s);
    } else if rest.len() > 0 {
        assert(rest.last() == s.last());
        law_backslashes_are_left_alone(rest, 0);
        assert(backslashes(pending).push(s[0]) + (backslashes(0) + rest) =~= backslashes(pending) + s);
    } else {
        assert(backslashes(pending).push(s[0]) + backslashes(0) =~= backslashes(pending) + s);
    }
}

/// Escaping for AppleScript and PowerShell goes character by character: a backslash and a quote get a
/// backslash, an apostrophe is doubled, and all else stays.
pub proof fn law_escapes_go_by_characters(a: Seq<char>, x: char, b: Seq<char>)
    ensures
        applescript_escaped(Seq::empty()).len() == 0,
        applescript_escaped(a + seq![x] + b) == applescript_escaped(a) + (if x == '\\' || x == '"' {
            seq!['\\', x]
        } else {
            seq![x]
        }) + applescript_escaped(b),
        powershell_escaped(Seq::empty()).len() == 0,
        powershell_escaped(a + seq![x] + b) == powershell_escaped(a) + (if x == '\'' {
            seq!['\'', '\'']
        } else {
            seq![x]
        }) + powershell_escaped(b),
{
    reveal_strlit("\\\\");
    reveal_strlit("\\\"");
    reveal_strlit("''");
    let slash = "\\\\"@;
    let quote = "\\\""@;
    assert(slash =~= seq!['\\', '\\']);
    assert(quote =~= seq!['\\', '"']);
    assert("''"@ =~= seq!['\'', '\'']);
    law_replacing_exchanges_one_character(a, x, b, '\'', "''"@);
    law_replacing_exchanges_one_character(a, x, b, '\\', slash);
    let first = if x == '\\' {
        slash
    } else {
        seq![x]
    };
    let left = replaced(a, '\\', slash);
    let right = replaced(b, '\\', slash);
    lemma_replaced_concat(left + first, right, '"', quote);
    lemma_replaced_concat(left, first, '"', quote);
    if x == '\\' {
        assert(first =~= seq!['\\'] + seq!['\\']);
        lemma_replaced_concat(seq!['\\'], seq!['\\'], '"', quote);
        lemma_replaced_one('\\', '"', quote);
        assert(replaced(first, '"', quote) =~= seq!['\\', '\\']);
    } else {
        lemma_replaced_one(x, '"', quote);
    }
}

} // verus!
