//! The commands typed at the console of the time server: a line is
//! trimmed, lowercased and split at spaces; its first word names the
//! command.

use vstd::prelude::*;

verus! {

/// A console command.
#[derive(Debug)]
pub enum Command {
    /// `stop`: shut the console down.
    Stop,
    /// `pause`: pause the timer.
    Pause,
    /// `addtime <minutes>` or `add <minutes>` (the second word as typed, lowercased).
    AddTime(String),
    /// `addtime` or `add` with nothing after it: ignored.
    AddTimeWithoutAmount,
    /// Anything else; holds the trimmed, lowercased line.
    Unrecognized(String),
}

/// The content of a [`Command`].
pub enum CommandView {
    Stop,
    Pause,
    AddTime(Seq<char>),
    AddTimeWithoutAmount,
    Unrecognized(Seq<char>),
}

impl View for Command {
    type V = CommandView;

    open spec fn view(&self) -> CommandView {
        match self {
            Command::Stop => CommandView::Stop,
            Command::Pause => CommandView::Pause,
            Command::AddTime(m) => CommandView::AddTime(m@),
            Command::AddTimeWithoutAmount => CommandView::AddTimeWithoutAmount,
            Command::Unrecognized(l) => CommandView::Unrecognized(l@),
        }
    }
}

/// Whether `c` has the Unicode `White_Space` property (what `char::is_whitespace` and
/// `str::trim` go by).
pub open spec fn is_white_space(c: char) -> bool {
    let n = c as u32;
    ||| 0x09 <= n <= 0x0d
    ||| n == 0x20
    ||| n == 0x85
    ||| n == 0xa0
    ||| n == 0x1680
    ||| 0x2000 <= n <= 0x200a
    ||| n == 0x2028
    ||| n == 0x2029
    ||| n == 0x202f
    ||| n == 0x205f
    ||| n == 0x3000
}

/// `s` without its leading white space.
pub open spec fn trim_start(s: Seq<char>) -> Seq<char>
    decreases s.len(),
{
    if s.len() > 0 && is_white_space(s[0]) {
        trim_start(s.drop_first())
    } else {
        s
    }
}

/// `s` without its trailing white space.
pub open spec fn trim_end(s: Seq<char>) -> Seq<char>
    decreases s.len(),
{
    if s.len() > 0 && is_white_space(s.last()) {
        trim_end(s.drop_last())
    } else {
        s
    }
}

/// `s` without leading and trailing white space.
pub open spec fn trim(s: Seq<char>) -> Seq<char> {
    trim_end(trim_start(s))
}

/// `c` with an ASCII capital letter turned into the small one.
pub open spec fn ascii_lower(c: char) -> char {
    if 'A' <= c && c <= 'Z' {
        ((c as u32) + 32) as char
    } else {
        c
    }
}

/// `s` with its ASCII capitals turned into small letters.
pub open spec fn lower(s: Seq<char>) -> Seq<char> {
    s.map_values(|c: char| ascii_lower(c))
}

/// The part of `s` before its first space (all of it when it has none).
pub open spec fn before_space(s: Seq<char>) -> Seq<char>
    decreases s.len(),
{
    if s.len() == 0 {
        s
    } else if s[0] == ' ' {
        Seq::empty()
    } else {
        seq![s[0]] + before_space(s.drop_first())
    }
}

/// The part of `s` after its first space, if it has one.
pub open spec fn after_space(s: Seq<char>) -> Option<Seq<char>>
    decreases s.len(),
{
    if s.len() == 0 {
        None
    } else if s[0] == ' ' {
        Some(s.drop_first())
    } else {
        after_space(s.drop_first())
    }
}

/// The command that the line `input` gives.
pub open spec fn spec_parse_command(input: Seq<char>) -> CommandView {
    let line = lower(trim(input));
    let word = before_space(line);
    if word == "stop"@ {
        CommandView::Stop
    } else if word == "pause"@ {
        CommandView::Pause
    } else if word == "addtime"@ || word == "add"@ {
        match after_space(line) {
            None => CommandView::AddTimeWithoutAmount,
            Some(rest) => CommandView::AddTime(before_space(rest)),
        }
    } else {
        CommandView::Unrecognized(line)
    }
}

/// Lowercasing a character keeps whether it is white space, and lowercasing twice is lowercasing once.
proof fn lemma_lower_char(c: char)
    ensures
        is_white_space(ascii_lower(c)) == is_white_space(c),
        ascii_lower(ascii_lower(c)) == ascii_lower(c),
{
}

proof fn lemma_trim_start_lower(s: Seq<char>)
    ensures
        trim_start(lower(s)) == lower(trim_start(s)),
    decreases s.len(),
{
    if s.len() > 0 {
        lemma_lower_char(s[0]);
        assert(lower(s).drop_first() =~= lower(s.drop_first()));
        lemma_trim_start_lower(s.drop_first());
    }
}

proof fn lemma_trim_end_lower(s: Seq<char>)
    ensures
        trim_end(lower(s)) == lower(trim_end(s)),
    decreases s.len(),
{
    if s.len() > 0 {
        lemma_lower_char(s.last());
        assert(lower(s).drop_last() =~= lower(s.drop_last()));
        lemma_trim_end_lower(s.drop_last());
    }
}

proof fn lemma_lower_twice(s: Seq<char>)
    ensures
        lower(lower(s)) == lower(s),
{
    assert forall|i: int| 0 <= i < s.len() implies lower(lower(s))[i] == lower(s)[i] by {
        lemma_lower_char(s[i]);
    }
    assert(lower(lower(s)) =~= lower(s));
}

/// Commands are read without regard to ASCII case: each capital `A`..`Z`
/// is read as the letter 32 code points further (its small letter), every
/// other character as itself, so a line and the line with its capitals
/// made small give the same command (`STOP` stops, `Pause` pauses).
pub proof fn lemma_commands_ignore_case(s: Seq<char>)
    ensures
        forall|c: char|
            'A' <= c && c <= 'Z' ==> #[trigger] ascii_lower(c) as u32 == c as u32 + 32,
        forall|c: char| !('A' <= c && c <= 'Z') ==> #[trigger] ascii_lower(c) == c,
        spec_parse_command(
            s.map_values(|c: char| if 'A' <= c && c <= 'Z' { ((c as u32) + 32) as char } else { c }),
        ) == spec_parse_command(s),
{
    let small = s.map_values(|c: char| if 'A' <= c && c <= 'Z' { ((c as u32) + 32) as char } else { c });
    assert(small =~= lower(s));
    lemma_trim_start_lower(s);
    lemma_trim_end_lower(trim_start(s));
    lemma_trim_start_lower(lower(s));
    lemma_lower_twice(trim(s));
    assert(trim(lower(s)) == lower(trim(s)));
    assert(lower(trim(lower(s))) == lower(trim(s)));
}

/// `String::push`: appends the character `c`.
#[verifier::external_body]
fn push_char(s: &mut String, c: char)
    ensures
        final(s)@ == old(s)@.push(c),
{
    s.push(c);
}

/// Whether `c` is white space.
fn white_space(c: char) -> (b: bool)
    ensures
        b == is_white_space(c),
{
    let n = c as u32;
    (0x09 <= n && n <= 0x0d) || n == 0x20 || n == 0x85 || n == 0xa0 || n == 0x1680 || (0x2000 <= n
        && n <= 0x200a) || n == 0x2028 || n == 0x2029 || n == 0x202f || n == 0x205f || n == 0x3000
}

/// `c` lowercased if it is an ASCII capital.
fn lower_char(c: char) -> (l: char)
    ensures
        l == ascii_lower(c),
{
    if 'A' <= c && c <= 'Z' {
        let n: u8 = (c as u32) as u8 + 32;
        n as char
    } else {
        c
    }
}

/// The word of `s` that starts at `from`, and where it ends: at the end of
/// `s`, or at a space after which the rest of `s` follows.
fn word_from(s: &str, from: usize) -> (r: (String, usize))
    requires
        from <= s@.len(),
    ensures
        r.0@ == before_space(s@.subrange(from as int, s@.len() as int)),
        from <= r.1 <= s@.len(),
        r.1 == s@.len() ==> after_space(s@.subrange(from as int, s@.len() as int)) is None,
        r.1 < s@.len() ==> after_space(s@.subrange(from as int, s@.len() as int)) == Some(
            s@.subrange(r.1 + 1, s@.len() as int),
        ),
{
    let n = s.unicode_len();
    let ghost whole = s@.subrange(from as int, s@.len() as int);
    let mut word = String::new();
    let mut i = from;
    while i < n && s.get_char(i) != ' '
        invariant
            n == s@.len(),
            from <= i <= n,
            whole == s@.subrange(from as int, n as int),
            before_space(whole) == word@ + before_space(s@.subrange(i as int, n as int)),
            after_space(whole) == after_space(s@.subrange(i as int, n as int)),
        decreases n - i,
    {
        let c = s.get_char(i);
        let ghost rest = s@.subrange(i as int, n as int);
        assert(rest[0] == c);
        assert(rest.drop_first() =~= s@.subrange(i + 1, n as int));
        assert(word@.push(c) + before_space(rest.drop_first()) =~= word@ + (seq![c] + before_space(
            rest.drop_first(),
        )));
        push_char(&mut word, c);
        i = i + 1;
    }
    proof {
        let rest = s@.subrange(i as int, n as int);
        if i < n {
            assert(rest[0] == ' ');
            assert(rest.drop_first() =~= s@.subrange(i + 1, n as int));
        } else {
            assert(rest.len() == 0);
        }
        assert(word@ + Seq::<char>::empty() =~= word@);
    }
    (word, i)
}

/// Reads the console line `input`.
pub fn parse_command(input: &str) -> (c: Command)
    ensures
        c@ == spec_parse_command(input@),
{
    let n = input.unicode_len();
    let ghost s = input@;
    let mut start: usize = 0;
    assert(s.subrange(0, n as int) =~= s);
    while start < n && white_space(input.get_char(start))
        invariant
            n == s.len(),
            s == input@,
            start <= n,
            trim_start(s) == trim_start(s.subrange(start as int, n as int)),
        decreases n - start,
    {
        assert(s.subrange(start as int, n as int).drop_first() =~= s.subrange(start + 1, n as int));
        start = start + 1;
    }
    assert(trim_start(s) == s.subrange(start as int, n as int));
    let mut end: usize = n;
    while end > start && white_space(input.get_char(end - 1))
        invariant
            n == s.len(),
            s == input@,
            start <= end <= n,
            trim(s) == trim_end(s.subrange(start as int, end as int)),
        decreases end - start,
    {
        assert(s.subrange(start as int, end as int).drop_last() =~= s.subrange(
            start as int,
            end - 1,
        ));
        end = end - 1;
    }
    assert(trim(s) == s.subrange(start as int, end as int));
    let mut line = String::new();
    let mut i = start;
    while i < end
        invariant
            n == s.len(),
            s == input@,
            start <= i <= end <= n,
            line@ =~= lower(s.subrange(start as int, i as int)),
        decreases end - i,
    {
        let c = input.get_char(i);
        push_char(&mut line, lower_char(c));
        assert(lower(s.subrange(start as int, i + 1)) =~= lower(s.subrange(start as int, i as int)).push(ascii_lower(c)));
        i = i + 1;
    }
    assert(line@ == lower(trim(s)));
    let text = line.as_str();
    let len = text.unicode_len();
    assert(text@.subrange(0, len as int) =~= text@);
    let (word, stop) = word_from(text, 0);
    if word == String::from_str("stop") {
        Command::Stop
    } else if word == String::from_str("pause") {
        Command::Pause
    } else if word == String::from_str("addtime") || word == String::from_str("add") {
        if stop < len {
            let (minutes, _) = word_from(text, stop + 1);
            Command::AddTime(minutes)
        } else {
            Command::AddTimeWithoutAmount
        }
    } else {
        Command::Unrecognized(line)
    }
}

} // verus!
