//! The line protocol spoken with the recognition engine: commands written to
//! it, one per line, and the lines it answers with.

use crate::text::{
    append_decimal, decimal, free_of, is_word, join, join_spec, lemma_decimal_reads_back,
    lemma_join_of_words_is_word, lemma_split_join, lemma_tokens_end, lemma_tokens_of_three_words,
    lemma_tokens_of_two_words, lemma_tokens_step, parse_u32, parse_u32_spec, same_text,
    split_char, split_spec, split_whitespace, texts, tokens,
};
use vstd::prelude::*;

verus! {

/// A line for the engine.
#[derive(Debug, Clone, PartialEq, Eq)]
pub enum Command {
    /// Warm the engine up.
    Start,
    /// Recognise the face in a still image.
    IdentifyImage(String),
    /// Recognise a face in a video file.
    IdentifyVideo(String),
    /// A person was registered under this id with these photographs.
    Add(u32, Vec<String>),
}

/// A command as a mathematical value.
pub enum CommandView {
    Start,
    IdentifyImage(Seq<char>),
    IdentifyVideo(Seq<char>),
    Add(u32, Seq<Seq<char>>),
}

impl View for Command {
    type V = CommandView;

    open spec fn view(&self) -> CommandView {
        match self {
            Command::Start => CommandView::Start,
            Command::IdentifyImage(path) => CommandView::IdentifyImage(path@),
            Command::IdentifyVideo(path) => CommandView::IdentifyVideo(path@),
            Command::Add(id, paths) => CommandView::Add(*id, texts(paths@)),
        }
    }
}

/// The text of the line that carries `command`, without its terminator.
pub open spec fn line_of(command: CommandView) -> Seq<char> {
    match command {
        CommandView::Start => "start"@,
        CommandView::IdentifyImage(path) => "identify image "@ + path,
        CommandView::IdentifyVideo(path) => "identify video "@ + path,
        CommandView::Add(id, paths) => "add "@ + decimal(id as nat) + " "@ + join_spec(
            paths,
            "&"@,
        ),
    }
}

/// The command that a line of text asks for, going by its first three
/// words; `None` where they name no command.
pub open spec fn parse_command(text: Seq<char>) -> Option<CommandView> {
    let words = tokens(text);
    if words.len() >= 1 && words[0] == "start"@ {
        Some(CommandView::Start)
    } else if words.len() >= 3 && words[0] == "identify"@ && words[1] == "image"@ {
        Some(CommandView::IdentifyImage(words[2]))
    } else if words.len() >= 3 && words[0] == "identify"@ && words[1] == "video"@ {
        Some(CommandView::IdentifyVideo(words[2]))
    } else if words.len() >= 3 && words[0] == "add"@ && parse_u32_spec(words[1]) is Some {
        Some(CommandView::Add(parse_u32_spec(words[1])->0, split_spec(words[2], '&')))
    } else {
        None
    }
}

/// The view of an optional command.
pub open spec fn command_view(command: Option<Command>) -> Option<CommandView> {
    match command {
        Some(c) => Some(c@),
        None => None,
    }
}

impl Command {
    /// The line that carries this command, without its terminator.
    pub fn encode(&self) -> (line: String)
        ensures
            line@ == line_of(self@),
    {
        match self {
            Command::Start => String::from_str("start"),
            Command::IdentifyImage(path) => String::from_str("identify image ").concat(
                path.as_str(),
            ),
            Command::IdentifyVideo(path) => String::from_str("identify video ").concat(
                path.as_str(),
            ),
            Command::Add(id, paths) => {
                let mut line = String::from_str("add ");
                append_decimal(&mut line, *id as u64);
                line.append(" ");
                let joined = join(paths, "&");
                line.append(joined.as_str());
                line
            },
        }
    }

    /// Reads a command from free text. Words after the third are ignored.
    pub fn parse(text: &str) -> (command: Option<Command>)
        ensures
            command_view(command) == parse_command(text@),
    {
        let mut words = split_whitespace(text);
        let ghost all = texts(words@);
        if words.len() >= 1 && same_text(words[0].as_str(), "start") {
            return Some(Command::Start);
        }
        if words.len() < 3 {
            return None;
        }
        if same_text(words[0].as_str(), "identify") {
            if same_text(words[1].as_str(), "image") {
                let path = words.swap_remove(2);
                assert(path@ == all[2]);
                return Some(Command::IdentifyImage(path));
            }
            if same_text(words[1].as_str(), "video") {
                let path = words.swap_remove(2);
                assert(path@ == all[2]);
                return Some(Command::IdentifyVideo(path));
            }
            proof {
                reveal_strlit("identify");
                reveal_strlit("add");
                assert("identify"@.len() != "add"@.len());
            }
            return None;
        }
        if same_text(words[0].as_str(), "add") {
            return match parse_u32(words[1].as_str()) {
                Some(id) => Some(Command::Add(id, split_char(words[2].as_str(), '&'))),
                None => None,
            };
        }
        None
    }
}

/// A line from the engine, read.
#[derive(Debug, Clone, PartialEq, Eq)]
pub enum Event {
    /// The engine matched the face to this person.
    Identity(String),
    /// The engine took note of the person registered under this id.
    Added(String),
    /// Anything else, kept as it came.
    Unrecognized(String),
}

/// An event as a mathematical value.
pub enum EventView {
    Identity(Seq<char>),
    Added(Seq<char>),
    Unrecognized(Seq<char>),
}

impl View for Event {
    type V = EventView;

    open spec fn view(&self) -> EventView {
        match self {
            Event::Identity(id) => EventView::Identity(id@),
            Event::Added(id) => EventView::Added(id@),
            Event::Unrecognized(raw) => EventView::Unrecognized(raw@),
        }
    }
}

/// What a line from the engine means. The first word decides: `identity` or
/// `added` followed by a second word give that word as the id; any other
/// line, a lone keyword included, is unrecognised and kept whole.
pub open spec fn decode_spec(line: Seq<char>) -> EventView {
    let words = tokens(line);
    if words.len() >= 2 && words[0] == "identity"@ {
        EventView::Identity(words[1])
    } else if words.len() >= 2 && words[0] == "added"@ {
        EventView::Added(words[1])
    } else {
        EventView::Unrecognized(line)
    }
}

/// Whether a line is the engine's word that it knows no one: its first word
/// is `unknown`.
pub open spec fn says_unknown(line: Seq<char>) -> bool {
    tokens(line).len() >= 1 && tokens(line)[0] == "unknown"@
}

/// Tells the engine's word that it knows no one from other lines.
pub fn is_unknown_reply(line: &str) -> (unknown: bool)
    ensures
        unknown == says_unknown(line@),
{
    let words = split_whitespace(line);
    words.len() >= 1 && same_text(words[0].as_str(), "unknown")
}

impl Event {
    /// Reads a line from the engine. Every line reads as some event.
    pub fn decode(line: &str) -> (event: Event)
        ensures
            event@ == decode_spec(line@),
    {
        let mut words = split_whitespace(line);
        let ghost all = texts(words@);
        if words.len() >= 2 {
            if same_text(words[0].as_str(), "identity") {
                let id = words.swap_remove(1);
                assert(id@ == all[1]);
                return Event::Identity(id);
            }
            if same_text(words[0].as_str(), "added") {
                let id = words.swap_remove(1);
                assert(id@ == all[1]);
                return Event::Added(id);
            }
        }
        Event::Unrecognized(String::from_str(line))
    }
}

/// The bytes-to-be of one outbound line: the message and a line feed.
pub open spec fn framed(message: Seq<char>) -> Seq<char> {
    message.push('\n')
}

/// Ends a message with the line terminator, ready to be written in one go.
pub fn frame_line(message: &str) -> (line: String)
    ensures
        line@ == framed(message@),
{
    proof {
        reveal_strlit("\n");
    }
    let line = String::from_str(message).concat("\n");
    assert(line@ =~= framed(message@));
    line
}

/// Whether a command survives the trip over the wire: its paths are words,
/// so that white space does not cut them, and a registration names at least
/// one photograph and none with `&` in its path.
pub open spec fn writable(command: CommandView) -> bool {
    match command {
        CommandView::Start => true,
        CommandView::IdentifyImage(path) => is_word(path),
        CommandView::IdentifyVideo(path) => is_word(path),
        CommandView::Add(_, paths) => paths.len() > 0 && forall|i: int|
            0 <= i < paths.len() ==> is_word(#[trigger] paths[i]) && free_of(paths[i], '&'),
    }
}

proof fn lemma_keywords()
    ensures
        is_word("start"@),
        is_word("identify"@),
        is_word("image"@),
        is_word("video"@),
        is_word("add"@),
        is_word("identity"@),
        is_word("added"@),
        "identify image "@ == "identify"@ + seq![' '] + "image"@ + seq![' '],
        "identify video "@ == "identify"@ + seq![' '] + "video"@ + seq![' '],
        "add "@ == "add"@ + seq![' '],
        " "@ == seq![' '],
        "&"@ == seq!['&'],
        "start"@.len() == 5,
        "identify"@.len() == 8,
        "add"@.len() == 3,
        "image"@[0] == 'i',
        "video"@[0] == 'v',
        "identity"@.len() == 8,
        "added"@.len() == 5,
{
    reveal_strlit("start");
    reveal_strlit("identify");
    reveal_strlit("image");
    reveal_strlit("video");
    reveal_strlit("add");
    reveal_strlit("identity");
    reveal_strlit("added");
    reveal_strlit("identify image ");
    reveal_strlit("identify video ");
    reveal_strlit("add ");
    reveal_strlit(" ");
    reveal_strlit("&");
    assert("identify image "@ =~= "identify"@ + seq![' '] + "image"@ + seq![' ']);
    assert("identify video "@ =~= "identify"@ + seq![' '] + "video"@ + seq![' ']);
    assert("add "@ =~= "add"@ + seq![' ']);
    assert(" "@ =~= seq![' ']);
    assert("&"@ =~= seq!['&']);
}

/// Round trip of commands: the line written for a command reads back as
/// that command.
pub proof fn lemma_command_reads_back(command: CommandView)
    requires
        writable(command),
    ensures
        parse_command(line_of(command)) == Some(command),
{
    lemma_keywords();
    match command {
        CommandView::Start => {
            let s = "start"@;
            lemma_tokens_step(s, 0, 0, s.len() as int);
            lemma_tokens_end(s, s.len() as int);
            assert(s.subrange(0, s.len() as int) =~= s);
            assert(tokens(s) =~= seq![s]);
        },
        CommandView::IdentifyImage(path) => {
            lemma_tokens_of_three_words("identify"@, "image"@, path);
            assert(line_of(command) =~= "identify"@ + seq![' '] + "image"@ + seq![' '] + path);
        },
        CommandView::IdentifyVideo(path) => {
            lemma_tokens_of_three_words("identify"@, "video"@, path);
            assert(line_of(command) =~= "identify"@ + seq![' '] + "video"@ + seq![' '] + path);
        },
        CommandView::Add(id, paths) => {
            let joined = join_spec(paths, seq!['&']);
            lemma_decimal_reads_back(id as nat);
            lemma_join_of_words_is_word(paths, '&');
            lemma_split_join(paths, '&');
            lemma_tokens_of_three_words("add"@, decimal(id as nat), joined);
            assert(line_of(command) =~= "add"@ + seq![' '] + decimal(id as nat) + seq![' ']
                + joined);
        },
    }
}

/// The line by which the engine names the person `id`.
pub open spec fn identity_line(id: Seq<char>) -> Seq<char> {
    "identity"@ + seq![' '] + id
}

/// The line by which the engine acknowledges the registration of `id`.
pub open spec fn added_line(id: Seq<char>) -> Seq<char> {
    "added"@ + seq![' '] + id
}

/// Round trip of answers: the line that names `id` reads as an identity
/// with that id, and the line that acknowledges `id` as an acknowledgement
/// with that id.
pub proof fn lemma_reply_reads_back(id: Seq<char>)
    requires
        is_word(id),
    ensures
        decode_spec(identity_line(id)) == EventView::Identity(id),
        decode_spec(added_line(id)) == EventView::Added(id),
{
    lemma_keywords();
    lemma_tokens_of_two_words("identity"@, id);
    lemma_tokens_of_two_words("added"@, id);
}

/// Reading never fails: whatever the line, it reads as an identity, an
/// acknowledgement, or itself unrecognised.
pub proof fn lemma_decode_total(line: Seq<char>)
    ensures
        decode_spec(line) is Identity || decode_spec(line) is Added || decode_spec(line)
            == EventView::Unrecognized(line),
{
}

} // verus!
