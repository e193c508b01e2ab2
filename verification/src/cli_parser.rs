//! Commands as the user types them: flags that name what to do, `$label`
//! and `@index` targets, dice notation such as `2d6`.

use crate::tables::{numbered, DiceResultTable, TableView};
use crate::text::{
    eq_ignoring_ascii_case, lemma_words_bounded, number_up_to, parse_number, pieces,
    same_ignoring_ascii_case, split_on, split_words, text_views, words,
};
use regex::Regex;
use vstd::prelude::*;
use vstd::string::StrSliceExecFns;
use vstd::string::StringExecFns;

verus! {
/// The error of the regex crate for a pattern that does not compile. Nothing
/// is read from it.
#[verifier::external_type_specification]
#[verifier::external_body]
pub struct ExRegexError(regex::Error);

/// A word that names dice by label: `$` and labels between commas.
pub const IDENTITY_FLAG_PATTERN: &'static str = r"^\$(\w+(,\w+)*)";

/// A word that names dice by place: `@` and indices between commas.
pub const INDEX_FLAG_PATTERN: &'static str = r"(?i)^@(\d+(,\d+)*)$";

/// Dice notation: a count, which may be left out, `d`, and a face count.
pub const DICE_NOTATION_PATTERN: &'static str = r"(?i)^(\d*)?[d](\d+)$";

/// What the regex crate finds when the regular expression `pattern` is
/// searched for in `text`: nothing at all where the pattern does not
/// compile; else no match, or the capture groups of the leftmost match, the
/// whole match first, each absent where it took no part.
pub uninterp spec fn regex_search(pattern: Seq<char>, text: Seq<char>) -> Option<
    Option<Seq<Option<Seq<char>>>>,
>;

/// The capture groups as texts.
pub open spec fn group_views(groups: Seq<Option<String>>) -> Seq<Option<Seq<char>>> {
    groups.map_values(
        |g: Option<String>|
            match g {
                Some(text) => Some(text@),
                None => None,
            },
    )
}

/// What a search handed back, as plain values. The error itself tells
/// nothing.
pub open spec fn search_view(found: Result<Option<Vec<Option<String>>>, regex::Error>) -> Option<
    Option<Seq<Option<Seq<char>>>>,
> {
    match found {
        Ok(Some(groups)) => Some(Some(group_views(groups@))),
        Ok(None) => Some(None),
        Err(_) => None,
    }
}

/// Compiles `pattern` with `regex::Regex::new` and searches `text` with
/// `Regex::captures`. The contract gives the result a name and states
/// nothing else of it: that the crate finds the same for the same pattern
/// and text is all that is claimed.
#[verifier::external_body]
fn search(pattern: &str, text: &str) -> (found: Result<Option<Vec<Option<String>>>, regex::Error>)
    ensures
        search_view(found) == regex_search(pattern@, text@),
{
    let regex = Regex::new(pattern)?;
    Ok(
        regex.captures(text).map(
            |caps| caps.iter().map(|group| group.map(|m| m.as_str().to_string())).collect(),
        ),
    )
}

/// The capture groups of a match of `pattern` in `text`, if there is one. A
/// pattern that does not compile matches nothing.
pub open spec fn captures_of(pattern: Seq<char>, text: Seq<char>) -> Option<Seq<Option<Seq<char>>>> {
    match regex_search(pattern, text) {
        Some(Some(groups)) => Some(groups),
        _ => None,
    }
}

/// The capture group at `place`, if the match has one there that took part.
pub open spec fn group_at(groups: Seq<Option<Seq<char>>>, place: int) -> Option<Seq<char>> {
    if 0 <= place < groups.len() {
        groups[place]
    } else {
        None
    }
}

/// Searches `text` for `pattern`.
pub fn captures(pattern: &str, text: &str) -> (found: Option<Vec<Option<String>>>)
    ensures
        match found {
            Some(groups) => captures_of(pattern@, text@) == Some(group_views(groups@)),
            None => captures_of(pattern@, text@) is None,
        },
{
    match search(pattern, text) {
        Ok(Some(groups)) => Some(groups),
        Ok(None) => None,
        Err(_) => None,
    }
}

/// The capture group at `place`.
pub fn get_group(groups: &Vec<Option<String>>, place: usize) -> (group: Option<&str>)
    ensures
        match group {
            Some(text) => group_at(group_views(groups@), place as int) == Some(text@),
            None => group_at(group_views(groups@), place as int) is None,
        },
{
    if place < groups.len() {
        match &groups[place] {
            Some(text) => Some(text.as_str()),
            None => None,
        }
    } else {
        None
    }
}

/// The labels that a match of the label pattern names: the pieces of its
/// first group between commas.
pub open spec fn identities_in(groups: Seq<Option<Seq<char>>>) -> Option<Seq<Seq<char>>> {
    match group_at(groups, 1) {
        Some(text) => Some(pieces(text, ',')),
        None => None,
    }
}

/// The labels that a match of the label pattern names.
pub fn parse_identity_flag(groups: &Vec<Option<String>>) -> (labels: Option<Vec<String>>)
    ensures
        match labels {
            Some(l) => identities_in(group_views(groups@)) == Some(text_views(l@)),
            None => identities_in(group_views(groups@)) is None,
        },
{
    match get_group(groups, 1) {
        Some(text) => Some(split_on(text, ',')),
        None => None,
    }
}

/// The indices among the pieces: each piece that writes a number that fits,
/// in order; the other pieces are passed over.
pub open spec fn indices_among(found: Seq<Seq<char>>) -> Seq<usize>
    decreases found.len(),
{
    if found.len() == 0 {
        Seq::empty()
    } else {
        let before = indices_among(found.drop_last());
        match number_up_to(found.last(), usize::MAX as nat) {
            Some(n) => before.push(n as usize),
            None => before,
        }
    }
}

/// The indices that a match of the index pattern names.
pub open spec fn indices_in(groups: Seq<Option<Seq<char>>>) -> Option<Seq<usize>> {
    match group_at(groups, 1) {
        Some(text) => Some(indices_among(pieces(text, ','))),
        None => None,
    }
}

/// The indices that a match of the index pattern names.
pub fn parse_index_flag(groups: &Vec<Option<String>>) -> (indices: Option<Vec<usize>>)
    ensures
        match indices {
            Some(i) => indices_in(group_views(groups@)) == Some(i@),
            None => indices_in(group_views(groups@)) is None,
        },
{
    match get_group(groups, 1) {
        Some(text) => {
            let found = split_on(text, ',');
            let mut indices: Vec<usize> = Vec::new();
            let mut i: usize = 0;
            while i < found.len()
                invariant
                    0 <= i <= found.len(),
                    indices@ == indices_among(text_views(found@).take(i as int)),
                decreases found.len() - i,
            {
                proof {
                    let upto = text_views(found@).take(i + 1);
                    assert(upto.drop_last() =~= text_views(found@).take(i as int));
                }
                match parse_number(found[i].as_str(), usize::MAX as u64) {
                    Some(n) => {
                        indices.push(n as usize);
                    },
                    None => {},
                }
                i = i + 1;
            }
            assert(text_views(found@).take(i as int) =~= text_views(found@));
            Some(indices)
        },
        None => None,
    }
}

/// How many dice, and of how many faces, a match of the notation pattern
/// asks for: one die where no count is given or the count cannot be read,
/// six faces where the face count cannot be read.
pub open spec fn notation_in(groups: Seq<Option<Seq<char>>>) -> (u32, u32) {
    let count = match group_at(groups, 1) {
        Some(text) => match number_up_to(text, u32::MAX as nat) {
            Some(n) => n as u32,
            None => 1u32,
        },
        None => 1u32,
    };
    let faces = match group_at(groups, 2) {
        Some(text) => match number_up_to(text, u32::MAX as nat) {
            Some(n) => n as u32,
            None => 6u32,
        },
        None => 6u32,
    };
    (count, faces)
}

/// How many dice, and of how many faces, a match of the notation pattern
/// asks for.
pub fn parse_notation_groups(groups: &Vec<Option<String>>) -> (asked: (u32, u32))
    ensures
        asked == notation_in(group_views(groups@)),
{
    let count = match get_group(groups, 1) {
        Some(text) => match parse_number(text, u32::MAX as u64) {
            Some(n) => n as u32,
            None => 1,
        },
        None => 1,
    };
    let faces = match get_group(groups, 2) {
        Some(text) => match parse_number(text, u32::MAX as u64) {
            Some(n) => n as u32,
            None => 6,
        },
        None => 6,
    };
    (count, faces)
}

/// What is said where a command holds no dice notation.
pub open spec fn no_notation_message() -> Seq<char> {
    "No dice notation found in dice command."@
}

/// Reads dice notation such as `2d6`: how many dice, and of how many faces.
pub fn parse_dice_notation(command: &str) -> (asked: Result<(u32, u32), String>)
    ensures
        match asked {
            Ok(pair) => captures_of(DICE_NOTATION_PATTERN@, command@) matches Some(groups)
                && pair == notation_in(groups),
            Err(message) => captures_of(DICE_NOTATION_PATTERN@, command@) is None && message@
                == no_notation_message(),
        },
{
    match captures(DICE_NOTATION_PATTERN, command) {
        Some(groups) => Ok(parse_notation_groups(&groups)),
        None => Err(String::from_str("No dice notation found in dice command.")),
    }
}

/// What a command can ask for.
#[derive(Debug, Clone, Copy, PartialEq, Eq, Structural)]
pub enum DiceTrayCommandType {
    Add,
    Roll,
    ReRollBest,
    ReRollWorst,
    Explode,
    Custom,
    Drop,
    Help,
    Exit,
}

/// What the flag `word` asks for. Capitals count as small letters; a flag
/// that is not known asks for a roll.
pub open spec fn flag_type(word: Seq<char>) -> DiceTrayCommandType {
    if same_ignoring_ascii_case(word, "-a"@) || same_ignoring_ascii_case(word, "-add"@) {
        DiceTrayCommandType::Add
    } else if same_ignoring_ascii_case(word, "-r"@) || same_ignoring_ascii_case(word, "-roll"@) {
        DiceTrayCommandType::Roll
    } else if same_ignoring_ascii_case(word, "-d"@) || same_ignoring_ascii_case(word, "-drop"@) {
        DiceTrayCommandType::Drop
    } else if same_ignoring_ascii_case(word, "-rb"@) || same_ignoring_ascii_case(
        word,
        "-rerollbest"@,
    ) {
        DiceTrayCommandType::ReRollBest
    } else if same_ignoring_ascii_case(word, "-rw"@) || same_ignoring_ascii_case(
        word,
        "-rerollworst"@,
    ) {
        DiceTrayCommandType::ReRollWorst
    } else if same_ignoring_ascii_case(word, "-e"@) || same_ignoring_ascii_case(
        word,
        "-explode"@,
    ) {
        DiceTrayCommandType::Explode
    } else if same_ignoring_ascii_case(word, "-h"@) || same_ignoring_ascii_case(word, "-help"@) {
        DiceTrayCommandType::Help
    } else if same_ignoring_ascii_case(word, "-x"@) || same_ignoring_ascii_case(word, "-exit"@) {
        DiceTrayCommandType::Exit
    } else {
        DiceTrayCommandType::Roll
    }
}

impl DiceTrayCommandType {
    /// What the flag `word` asks for.
    pub fn from_flag(word: &str) -> (command_type: DiceTrayCommandType)
        ensures
            command_type == flag_type(word@),
    {
        if eq_ignoring_ascii_case(word, "-a") || eq_ignoring_ascii_case(word, "-add") {
            DiceTrayCommandType::Add
        } else if eq_ignoring_ascii_case(word, "-r") || eq_ignoring_ascii_case(word, "-roll") {
            DiceTrayCommandType::Roll
        } else if eq_ignoring_ascii_case(word, "-d") || eq_ignoring_ascii_case(word, "-drop") {
            DiceTrayCommandType::Drop
        } else if eq_ignoring_ascii_case(word, "-rb") || eq_ignoring_ascii_case(
            word,
            "-rerollbest",
        ) {
            DiceTrayCommandType::ReRollBest
        } else if eq_ignoring_ascii_case(word, "-rw") || eq_ignoring_ascii_case(
            word,
            "-rerollworst",
        ) {
            DiceTrayCommandType::ReRollWorst
        } else if eq_ignoring_ascii_case(word, "-e") || eq_ignoring_ascii_case(word, "-explode") {
            DiceTrayCommandType::Explode
        } else if eq_ignoring_ascii_case(word, "-h") || eq_ignoring_ascii_case(word, "-help") {
            DiceTrayCommandType::Help
        } else if eq_ignoring_ascii_case(word, "-x") || eq_ignoring_ascii_case(word, "-exit") {
            DiceTrayCommandType::Exit
        } else {
            DiceTrayCommandType::Roll
        }
    }
}

/// The dice a command aims at: by label, by place, or all where neither is
/// given.
#[derive(Debug, PartialEq, Eq)]
pub struct Targets {
    identity_flags: Option<Vec<String>>,
    index_flags: Option<Vec<usize>>,
}

/// The mathematical content of [`Targets`].
pub struct TargetsView {
    pub identity_flags: Option<Seq<Seq<char>>>,
    pub index_flags: Option<Seq<usize>>,
}

impl View for Targets {
    type V = TargetsView;

    closed spec fn view(&self) -> TargetsView {
        TargetsView {
            identity_flags: match self.identity_flags {
                Some(ids) => Some(text_views(ids@)),
                None => None,
            },
            index_flags: match self.index_flags {
                Some(indices) => Some(indices@),
                None => None,
            },
        }
    }
}

impl TargetsView {
    /// Targets that name nothing.
    pub open spec fn none() -> TargetsView {
        TargetsView { identity_flags: None, index_flags: None }
    }
}

impl Targets {
    /// Targets with these labels and places.
    pub fn new(identity_flags: Option<Vec<String>>, index_flags: Option<Vec<usize>>) -> (targets:
        Targets)
        ensures
            targets@ == (TargetsView {
                identity_flags: match identity_flags {
                    Some(ids) => Some(text_views(ids@)),
                    None => None,
                },
                index_flags: match index_flags {
                    Some(indices) => Some(indices@),
                    None => None,
                },
            }),
    {
        Targets { identity_flags, index_flags }
    }

    /// The labels aimed at, if there is one at least.
    pub fn get_identity_flags(&self) -> (labels: Option<&Vec<String>>)
        ensures
            match labels {
                Some(ids) => ids@.len() > 0 && self@.identity_flags == Some(text_views(ids@)),
                None => match self@.identity_flags {
                    Some(ids) => ids.len() == 0,
                    None => true,
                },
            },
    {
        match &self.identity_flags {
            Some(ids) => if ids.len() > 0 {
                Some(ids)
            } else {
                None
            },
            None => None,
        }
    }

    /// The places aimed at, if there is one at least.
    pub fn get_index_flags(&self) -> (places: Option<&Vec<usize>>)
        ensures
            match places {
                Some(indices) => indices@.len() > 0 && self@.index_flags == Some(indices@),
                None => match self@.index_flags {
                    Some(indices) => indices.len() == 0,
                    None => true,
                },
            },
    {
        match &self.index_flags {
            Some(indices) => if indices.len() > 0 {
                Some(indices)
            } else {
                None
            },
            None => None,
        }
    }

    /// Whether neither labels nor places were given.
    pub fn is_empty(&self) -> (empty: bool)
        ensures
            empty == (self@.identity_flags is None && self@.index_flags is None),
    {
        self.identity_flags.is_none() && self.index_flags.is_none()
    }
}

/// The targets that a run of words names. A word that names labels sets the
/// labels, a word that names places sets the places, the later word
/// overruling the earlier; any other word is passed over.
pub open spec fn targets_in(found: Seq<Seq<char>>) -> TargetsView
    decreases found.len(),
{
    if found.len() == 0 {
        TargetsView::none()
    } else {
        let before = targets_in(found.drop_last());
        match captures_of(IDENTITY_FLAG_PATTERN@, found.last()) {
            Some(groups) => TargetsView { identity_flags: identities_in(groups), ..before },
            None => match captures_of(INDEX_FLAG_PATTERN@, found.last()) {
                Some(groups) => TargetsView { index_flags: indices_in(groups), ..before },
                None => before,
            },
        }
    }
}

/// The targets that a command names, or none where there is no command.
pub open spec fn targets_of(command: Option<Seq<char>>) -> TargetsView {
    match command {
        Some(text) => targets_in(words(text)),
        None => TargetsView::none(),
    }
}

/// Reads the targets of a command.
fn parse_targets(command: &str) -> (targets: Targets)
    ensures
        targets@ == targets_in(words(command@)),
{
    let found = split_words(command);
    let mut identity_flags: Option<Vec<String>> = None;
    let mut index_flags: Option<Vec<usize>> = None;
    let mut i: usize = 0;
    while i < found.len()
        invariant
            0 <= i <= found.len(),
            (TargetsView {
                identity_flags: match identity_flags {
                    Some(ids) => Some(text_views(ids@)),
                    None => None,
                },
                index_flags: match index_flags {
                    Some(indices) => Some(indices@),
                    None => None,
                },
            }) == targets_in(text_views(found@).take(i as int)),
        decreases found.len() - i,
    {
        proof {
            let upto = text_views(found@).take(i + 1);
            assert(upto.drop_last() =~= text_views(found@).take(i as int));
        }
        let word = found[i].as_str();
        match captures(IDENTITY_FLAG_PATTERN, word) {
            Some(groups) => {
                identity_flags = parse_identity_flag(&groups);
            },
            None => {
                match captures(INDEX_FLAG_PATTERN, word) {
                    Some(groups) => {
                        index_flags = parse_index_flag(&groups);
                    },
                    None => {},
                }
            },
        }
        i = i + 1;
    }
    assert(text_views(found@).take(i as int) =~= text_views(found@));
    Targets::new(identity_flags, index_flags)
}

/// Reads which dice a roll command aims at. Without a command, or without
/// targets in it, every die is meant.
pub fn parse_roll_command(roll_command: Option<&str>) -> (targets: Targets)
    ensures
        targets@ == targets_of(
            match roll_command {
                Some(text) => Some(text@),
                None => None,
            },
        ),
{
    match roll_command {
        Some(text) => parse_targets(text),
        None => Targets::new(None, None),
    }
}

/// Reads which dice a drop command aims at. Without a command, or without
/// targets in it, every die is meant.
pub fn parse_drop_command(drop_command: Option<&str>) -> (targets: Targets)
    ensures
        targets@ == targets_of(
            match drop_command {
                Some(text) => Some(text@),
                None => None,
            },
        ),
{
    match drop_command {
        Some(text) => parse_targets(text),
        None => Targets::new(None, None),
    }
}

/// One command of a line: what it asks for, and the words that follow its
/// flag, with single spaces between them.
#[derive(Debug, PartialEq, Eq)]
pub struct ParsedDiceTrayCommand {
    pub command_type: DiceTrayCommandType,
    pub command_string: Option<String>,
}

/// The mathematical content of a parsed command.
pub struct ParsedCommandView {
    pub command_type: DiceTrayCommandType,
    pub command_string: Option<Seq<char>>,
}

impl View for ParsedDiceTrayCommand {
    type V = ParsedCommandView;

    open spec fn view(&self) -> ParsedCommandView {
        ParsedCommandView {
            command_type: self.command_type,
            command_string: match self.command_string {
                Some(text) => Some(text@),
                None => None,
            },
        }
    }
}

/// The commands of a run of parsed commands.
pub open spec fn command_views(commands: Seq<ParsedDiceTrayCommand>) -> Seq<ParsedCommandView> {
    commands.map_values(|c: ParsedDiceTrayCommand| c@)
}

/// Whether a word is a flag: it begins with `-`.
pub open spec fn is_flag(word: Seq<char>) -> bool {
    word.len() > 0 && word[0] == '-'
}

/// Where the reading of a line stands: the commands that are complete, and
/// the command that words are still gathered for.
pub struct LineView {
    pub done: Seq<ParsedCommandView>,
    pub gathered: Seq<char>,
    pub command_type: DiceTrayCommandType,
}

/// The reading of a line after a run of words. It begins with a command to
/// add and no words. A flag completes the command at hand, without text
/// where no words were gathered, and begins the command it names; any other
/// word is gathered, a space before it where it is not the first.
pub open spec fn line_after(found: Seq<Seq<char>>) -> LineView
    decreases found.len(),
{
    if found.len() == 0 {
        LineView {
            done: Seq::empty(),
            gathered: Seq::empty(),
            command_type: DiceTrayCommandType::Add,
        }
    } else {
        let before = line_after(found.drop_last());
        let word = found.last();
        if is_flag(word) {
            LineView {
                done: before.done.push(
                    ParsedCommandView {
                        command_type: before.command_type,
                        command_string: if before.gathered.len() > 0 {
                            Some(before.gathered)
                        } else {
                            None
                        },
                    },
                ),
                gathered: Seq::empty(),
                command_type: flag_type(word),
            }
        } else {
            LineView {
                gathered: if before.gathered.len() > 0 {
                    before.gathered + seq![' '] + word
                } else {
                    word
                },
                ..before
            }
        }
    }
}

/// The commands of a line: those that a flag completed, and last the command
/// at hand with the words gathered for it, were they none.
pub open spec fn commands_in(found: Seq<Seq<char>>) -> Seq<ParsedCommandView> {
    let line = line_after(found);
    line.done.push(
        ParsedCommandView { command_type: line.command_type, command_string: Some(line.gathered) },
    )
}

/// Splits a line into its commands. Words up to the first flag belong to a
/// command to add.
pub fn parse_dice_tray_commands(command: &str) -> (commands: Vec<ParsedDiceTrayCommand>)
    ensures
        command_views(commands@) == commands_in(words(command@)),
{
    proof {
        reveal_strlit(" ");
    }
    let found = split_words(command);
    let mut commands: Vec<ParsedDiceTrayCommand> = Vec::new();
    let mut current_command = String::new();
    let mut current_command_type = DiceTrayCommandType::Add;
    let mut i: usize = 0;
    assert(command_views(commands@) =~= Seq::<ParsedCommandView>::empty());
    while i < found.len()
        invariant
            0 <= i <= found.len(),
            " "@ == seq![' '],
            (LineView {
                done: command_views(commands@),
                gathered: current_command@,
                command_type: current_command_type,
            }) == line_after(text_views(found@).take(i as int)),
        decreases found.len() - i,
    {
        proof {
            let upto = text_views(found@).take(i + 1);
            assert(upto.drop_last() =~= text_views(found@).take(i as int));
        }
        let word = found[i].as_str();
        if word.unicode_len() > 0 && word.get_char(0) == '-' {
            let ghost before = command_views(commands@);
            let completed = if current_command.as_str().unicode_len() > 0 {
                ParsedDiceTrayCommand {
                    command_type: current_command_type,
                    command_string: Some(current_command),
                }
            } else {
                ParsedDiceTrayCommand { command_type: current_command_type, command_string: None }
            };
            commands.push(completed);
            assert(command_views(commands@) =~= before.push(completed@));
            current_command = String::new();
            current_command_type = DiceTrayCommandType::from_flag(word);
        } else {
            let ghost before = current_command@;
            if current_command.as_str().unicode_len() > 0 {
                current_command.append(" ");
            }
            current_command.append(word);
            assert(current_command@ =~= if before.len() > 0 {
                before + seq![' '] + word@
            } else {
                word@
            });
        }
        i = i + 1;
    }
    assert(text_views(found@).take(i as int) =~= text_views(found@));
    let last = ParsedDiceTrayCommand {
        command_type: current_command_type,
        command_string: Some(current_command),
    };
    commands.push(last);
    commands
}

/// Labels, where there are any, as texts.
pub open spec fn labels_view(labels: Option<Vec<String>>) -> Option<Seq<Seq<char>>> {
    match labels {
        Some(ids) => Some(text_views(ids@)),
        None => None,
    }
}

/// The label that dice get from the labels named last: the first of them,
/// if there is one.
pub open spec fn label_from(identity: Option<Seq<Seq<char>>>) -> Option<Seq<char>> {
    match identity {
        Some(ids) => if ids.len() > 0 {
            Some(ids[0])
        } else {
            None
        },
        None => None,
    }
}

/// Where the reading of an add command stands: the labels named last, and
/// the dice asked for so far, each with its label and its face count.
pub struct AddView {
    pub identity: Option<Seq<Seq<char>>>,
    pub dice: Seq<(Option<Seq<char>>, u32)>,
}

/// The reading of an add command after a run of words. A word that names
/// labels sets the label for the dice that follow; a word in dice notation
/// asks for as many dice as it counts, of the faces it gives; any other word
/// is passed over.
pub open spec fn add_after(found: Seq<Seq<char>>) -> AddView
    decreases found.len(),
{
    if found.len() == 0 {
        AddView { identity: None, dice: Seq::empty() }
    } else {
        let before = add_after(found.drop_last());
        match captures_of(IDENTITY_FLAG_PATTERN@, found.last()) {
            Some(groups) => AddView { identity: identities_in(groups), ..before },
            None => match captures_of(DICE_NOTATION_PATTERN@, found.last()) {
                Some(groups) => AddView {
                    dice: before.dice + Seq::new(
                        notation_in(groups).0 as nat,
                        |k: int| (label_from(before.identity), notation_in(groups).1),
                    ),
                    ..before
                },
                None => before,
            },
        }
    }
}

/// The dice asked for, as plain values.
pub open spec fn request_views(dice: Seq<(Option<String>, u32)>) -> Seq<(Option<Seq<char>>, u32)> {
    dice.map_values(
        |request: (Option<String>, u32)|
            (
                match request.0 {
                    Some(label) => Some(label@),
                    None => None,
                },
                request.1,
            ),
    )
}

/// Reads which dice an add command asks for: for each die its label, if one
/// was named before it, and its face count. Nothing is read where there is
/// no command.
pub fn parse_add_command(command: Option<&str>) -> (asked: Option<Vec<(Option<String>, u32)>>)
    ensures
        match asked {
            Some(dice) => command matches Some(text) && request_views(dice@) == add_after(
                words(text@),
            ).dice,
            None => command is None,
        },
{
    let text = match command {
        Some(text) => text,
        None => {
            return None;
        },
    };
    let found = split_words(text);
    let mut identity_flag: Option<Vec<String>> = None;
    let mut dice: Vec<(Option<String>, u32)> = Vec::new();
    let mut i: usize = 0;
    assert(request_views(dice@) =~= Seq::<(Option<Seq<char>>, u32)>::empty());
    while i < found.len()
        invariant
            0 <= i <= found.len(),
            (AddView {
                identity: match identity_flag {
                    Some(ids) => Some(text_views(ids@)),
                    None => None,
                },
                dice: request_views(dice@),
            }) == add_after(text_views(found@).take(i as int)),
        decreases found.len() - i,
    {
        proof {
            let upto = text_views(found@).take(i + 1);
            assert(upto.drop_last() =~= text_views(found@).take(i as int));
        }
        let word = found[i].as_str();
        match captures(IDENTITY_FLAG_PATTERN, word) {
            Some(groups) => {
                identity_flag = parse_identity_flag(&groups);
            },
            None => {
                match captures(DICE_NOTATION_PATTERN, word) {
                    Some(groups) => {
                        let (count, faces) = parse_notation_groups(&groups);
                        let ghost before = request_views(dice@);
                        let ghost label = label_from(labels_view(identity_flag));
                        let mut made: u32 = 0;
                        while made < count
                            invariant
                                0 <= made <= count,
                                label == label_from(labels_view(identity_flag)),
                                request_views(dice@) == before + Seq::new(
                                    made as nat,
                                    |k: int| (label, faces),
                                ),
                            decreases count - made,
                        {
                            let identity = match &identity_flag {
                                Some(ids) => if ids.len() > 0 {
                                    Some(ids[0].clone())
                                } else {
                                    None
                                },
                                None => None,
                            };
                            let ghost so_far = request_views(dice@);
                            dice.push((identity, faces));
                            assert(so_far.push((label, faces)) =~= before + Seq::new(
                                (made + 1) as nat,
                                |k: int| (label, faces),
                            ));
                            made = made + 1;
                        }
                    },
                    None => {},
                }
            },
        }
        i = i + 1;
    }
    assert(text_views(found@).take(i as int) =~= text_views(found@));
    Some(dice)
}

/// What is said where a custom command names no table.
pub open spec fn no_identity_message() -> Seq<char> {
    "No identity provided. Cannot create custom dice without an identity."@
}

/// What is said where a custom command gives no texts for the faces.
pub open spec fn no_faces_message() -> Seq<char> {
    "No identity provided. Cannot create a custom dice without at least one option for their face."@
}

/// Where the reading of a custom command stands: the labels named last, and
/// the texts for the faces.
pub struct CustomView {
    pub identity: Option<Seq<Seq<char>>>,
    pub texts: Seq<Seq<char>>,
}

/// The reading of a custom command after a run of words: a word that names
/// labels sets the name, any other word is the text of the next face.
pub open spec fn custom_after(found: Seq<Seq<char>>) -> CustomView
    decreases found.len(),
{
    if found.len() == 0 {
        CustomView { identity: None, texts: Seq::empty() }
    } else {
        let before = custom_after(found.drop_last());
        match captures_of(IDENTITY_FLAG_PATTERN@, found.last()) {
            Some(groups) => CustomView { identity: identities_in(groups), ..before },
            None => if found.last().len() > 0 {
                CustomView { texts: before.texts.push(found.last()), ..before }
            } else {
                before
            },
        }
    }
}

/// The table that a custom command describes, or the message that says what
/// it lacks: a name first of all, then a text for one face at least.
pub open spec fn custom_table(found: Seq<Seq<char>>) -> Result<TableView, Seq<char>> {
    let read = custom_after(found);
    match label_from(read.identity) {
        Some(name) => if read.texts.len() == 0 {
            Err(no_faces_message())
        } else {
            Ok(TableView { name, entries: numbered(read.texts) })
        },
        None => Err(no_identity_message()),
    }
}

/// No more texts are read than there are words.
pub proof fn lemma_custom_texts_bounded(found: Seq<Seq<char>>)
    ensures
        custom_after(found).texts.len() <= found.len(),
    decreases found.len(),
{
    if found.len() > 0 {
        lemma_custom_texts_bounded(found.drop_last());
    }
}

/// Reads a custom command: the name of a result table, given as a label,
/// and the texts of its faces in order.
pub fn parse_custom_command(custom_command: &str) -> (made: Result<DiceResultTable, String>)
    requires
        custom_command@.len() <= u32::MAX,
    ensures
        match made {
            Ok(table) => custom_table(words(custom_command@)) == Ok::<TableView, Seq<char>>(
                table@,
            ),
            Err(message) => custom_table(words(custom_command@)) == Err::<TableView, Seq<char>>(
                message@,
            ),
        },
{
    let found = split_words(custom_command);
    let mut identity_flags: Option<Vec<String>> = None;
    let mut captured_strings: Vec<String> = Vec::new();
    let mut i: usize = 0;
    assert(text_views(captured_strings@) =~= Seq::<Seq<char>>::empty());
    while i < found.len()
        invariant
            0 <= i <= found.len(),
            (CustomView {
                identity: match identity_flags {
                    Some(ids) => Some(text_views(ids@)),
                    None => None,
                },
                texts: text_views(captured_strings@),
            }) == custom_after(text_views(found@).take(i as int)),
        decreases found.len() - i,
    {
        proof {
            let upto = text_views(found@).take(i + 1);
            assert(upto.drop_last() =~= text_views(found@).take(i as int));
        }
        let word = found[i].as_str();
        match captures(IDENTITY_FLAG_PATTERN, word) {
            Some(groups) => {
                identity_flags = parse_identity_flag(&groups);
            },
            None => {
                if word.unicode_len() > 0 {
                    let ghost before = text_views(captured_strings@);
                    captured_strings.push(String::from_str(word));
                    assert(text_views(captured_strings@) =~= before.push(word@));
                }
            },
        }
        i = i + 1;
    }
    proof {
        assert(text_views(found@).take(i as int) =~= text_views(found@));
        lemma_custom_texts_bounded(words(custom_command@));
        lemma_words_bounded(custom_command@);
    }
    match identity_flags {
        Some(flags) => {
            if flags.len() == 0 {
                return Err(
                    String::from_str(
                        "No identity provided. Cannot create custom dice without an identity.",
                    ),
                );
            }
            if captured_strings.len() == 0 {
                return Err(
                    String::from_str(
                        "No identity provided. Cannot create a custom dice without at least one option for their face.",
                    ),
                );
            }
            Ok(DiceResultTable::new(flags[0].clone(), captured_strings))
        },
        None => Err(
            String::from_str("No identity provided. Cannot create custom dice without an identity."),
        ),
    }
}

} // verus!
