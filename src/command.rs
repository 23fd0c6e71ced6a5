//! Reading a chat message as a bot command: a `!` prefix, a command name, and
//! the rest of the message as its argument.
use vstd::prelude::*;
use crate::reply::BotError;

verus! {

/// A recognised command.
pub enum Command {
    Ping,
    Join,
    Leave,
    Play { query: String },
    Skip,
    NowPlaying,
}

pub enum CommandView {
    Ping,
    Join,
    Leave,
    Play { query: Seq<char> },
    Skip,
    NowPlaying,
}

impl View for Command {
    type V = CommandView;

    open spec fn view(&self) -> CommandView {
        match self {
            Command::Ping => CommandView::Ping,
            Command::Join => CommandView::Join,
            Command::Leave => CommandView::Leave,
            Command::Play { query } => CommandView::Play { query: query@ },
            Command::Skip => CommandView::Skip,
            Command::NowPlaying => CommandView::NowPlaying,
        }
    }
}

pub open spec fn is_space(c: char) -> bool {
    c == ' ' || c == '\t' || c == '\n' || c == '\r'
}

/// The end of the run of non-space characters that starts at `i`.
pub open spec fn word_end(s: Seq<char>, i: int) -> int
    decreases s.len() - i,
{
    if i < 0 || i >= s.len() || is_space(s[i]) {
        i
    } else {
        word_end(s, i + 1)
    }
}

/// The end of the run of spaces that starts at `i`.
pub open spec fn spaces_end(s: Seq<char>, i: int) -> int
    decreases s.len() - i,
{
    if i < 0 || i >= s.len() || !is_space(s[i]) {
        i
    } else {
        spaces_end(s, i + 1)
    }
}

/// The command name: what follows the prefix up to the first space.
pub open spec fn name_of(s: Seq<char>) -> Seq<char> {
    s.subrange(1, word_end(s, 1))
}

/// The argument: the rest of the message after the name and the spaces after it.
pub open spec fn args_of(s: Seq<char>) -> Seq<char> {
    s.subrange(spaces_end(s, word_end(s, 1)), s.len() as int)
}

/// What a message asks for: `None` when it is no command of this bot (no
/// prefix, or an unknown name), an error when a needed argument is missing.
pub open spec fn parse_spec(s: Seq<char>) -> Option<Result<CommandView, BotError>> {
    if s.len() == 0 || s[0] != '!' {
        None
    } else {
        let name = name_of(s);
        if name == "ping"@ {
            Some(Ok(CommandView::Ping))
        } else if name == "join"@ {
            Some(Ok(CommandView::Join))
        } else if name == "leave"@ {
            Some(Ok(CommandView::Leave))
        } else if name == "play"@ {
            if args_of(s).len() == 0 {
                Some(Err(BotError::ArgumentError))
            } else {
                Some(Ok(CommandView::Play { query: args_of(s) }))
            }
        } else if name == "skip"@ {
            Some(Ok(CommandView::Skip))
        } else if name == "now_playing"@ || name == "np"@ {
            Some(Ok(CommandView::NowPlaying))
        } else {
            None
        }
    }
}

pub open spec fn parsed_view(r: Option<Result<Command, BotError>>) -> Option<
    Result<CommandView, BotError>,
> {
    match r {
        None => None,
        Some(Ok(c)) => Some(Ok(c@)),
        Some(Err(e)) => Some(Err(e)),
    }
}

fn char_is_space(c: char) -> (r: bool)
    ensures
        r == is_space(c),
{
    c == ' ' || c == '\t' || c == '\n' || c == '\r'
}

fn find_word_end(s: &str, start: usize, n: usize) -> (r: usize)
    requires
        n == s@.len(),
        start <= n,
    ensures
        r == word_end(s@, start as int),
        start <= r <= n,
{
    let mut i: usize = start;
    while i < n && !char_is_space(s.get_char(i))
        invariant
            n == s@.len(),
            start <= i <= n,
            word_end(s@, start as int) == word_end(s@, i as int),
        decreases n - i,
    {
        i = i + 1;
    }
    i
}

fn find_spaces_end(s: &str, start: usize, n: usize) -> (r: usize)
    requires
        n == s@.len(),
        start <= n,
    ensures
        r == spaces_end(s@, start as int),
        start <= r <= n,
{
    let mut i: usize = start;
    while i < n && char_is_space(s.get_char(i))
        invariant
            n == s@.len(),
            start <= i <= n,
            spaces_end(s@, start as int) == spaces_end(s@, i as int),
        decreases n - i,
    {
        i = i + 1;
    }
    i
}

/// Whether the characters of `s` from `from` to `to` spell `word`.
fn spells(s: &str, from: usize, to: usize, word: &str) -> (r: bool)
    requires
        from <= to <= s@.len(),
    ensures
        r == (s@.subrange(from as int, to as int) == word@),
{
    let k = word.unicode_len();
    if to - from != k {
        return false;
    }
    let mut j: usize = 0;
    while j < k
        invariant
            from <= to <= s@.len(),
            k == word@.len(),
            to - from == k,
            j <= k,
            forall|m: int| 0 <= m < j ==> s@[from + m] == word@[m],
        decreases k - j,
    {
        if s.get_char(from + j) != word.get_char(j) {
            assert(s@.subrange(from as int, to as int)[j as int] != word@[j as int]);
            return false;
        }
        j = j + 1;
    }
    assert(s@.subrange(from as int, to as int) =~= word@);
    true
}

/// Reads `content` as a command.
pub fn parse_command(content: &str) -> (r: Option<Result<Command, BotError>>)
    ensures
        parsed_view(r) == parse_spec(content@),
{
    let n = content.unicode_len();
    if n == 0 || content.get_char(0) != '!' {
        return None;
    }
    let e = find_word_end(content, 1, n);
    let a = find_spaces_end(content, e, n);
    if spells(content, 1, e, "ping") {
        Some(Ok(Command::Ping))
    } else if spells(content, 1, e, "join") {
        Some(Ok(Command::Join))
    } else if spells(content, 1, e, "leave") {
        Some(Ok(Command::Leave))
    } else if spells(content, 1, e, "play") {
        if a == n {
            Some(Err(BotError::ArgumentError))
        } else {
            let query = String::from_str(content.substring_char(a, n));
            Some(Ok(Command::Play { query }))
        }
    } else if spells(content, 1, e, "skip") {
        Some(Ok(Command::Skip))
    } else if spells(content, 1, e, "now_playing") || spells(content, 1, e, "np") {
        Some(Ok(Command::NowPlaying))
    } else {
        None
    }
}

} // verus!
