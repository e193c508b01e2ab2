//! Result tables: texts that stand for the faces of a die.

use crate::text::{decimal, decimal_string, text_views};
use std::collections::HashMap;
use vstd::prelude::*;
use vstd::string::StringExecFns;

verus! {
broadcast use vstd::std_specs::hash::group_hash_axioms;

/// A named table that gives a text for a face.
#[derive(Debug)]
pub struct DiceResultTable {
    name: String,
    table: HashMap<u32, String>,
}

/// The mathematical content of a result table.
pub struct TableView {
    pub name: Seq<char>,
    pub entries: Map<u32, Seq<char>>,
}

/// The entries of a table made from a run of texts: the first text stands
/// for face `1`, the next for face `2`, and so on.
pub open spec fn numbered(texts: Seq<Seq<char>>) -> Map<u32, Seq<char>> {
    Map::new(|face: u32| 1 <= face <= texts.len(), |face: u32| texts[face - 1])
}

/// What a lookup says where the table has more entries than fit in 32 bits.
pub open spec fn too_large_message() -> Seq<char> {
    "Table length is larger than the max supported by dice-tray. Are you sure you need a table this big?"@
}

/// What a lookup says where the table has no entry for `face`.
pub open spec fn no_entry_message(face: u32, name: Seq<char>) -> Seq<char> {
    "No result found at "@ + decimal(face as nat) + " in table "@ + name + " "@
}

impl TableView {
    /// The face that is looked up for `face`: a face beyond the table's
    /// length is brought back by that length, once.
    pub open spec fn wrapped(self, face: u32) -> u32 {
        if face > self.entries.len() {
            (face - self.entries.len()) as u32
        } else {
            face
        }
    }

    /// What a lookup of `face` gives: the text of the wrapped face, or the
    /// message that says why there is none.
    pub open spec fn lookup(self, face: u32) -> Result<Seq<char>, Seq<char>> {
        if self.entries.len() > u32::MAX {
            Err(too_large_message())
        } else if self.entries.contains_key(self.wrapped(face)) {
            Ok(self.entries[self.wrapped(face)])
        } else {
            Err(no_entry_message(self.wrapped(face), self.name))
        }
    }
}

impl View for DiceResultTable {
    type V = TableView;

    closed spec fn view(&self) -> TableView {
        TableView { name: self.name@, entries: self.table@.map_values(|t: String| t@) }
    }
}

impl DiceResultTable {
    /// A table of the texts given, the first standing for face `1`.
    pub fn new(name: String, table_results: Vec<String>) -> (made: DiceResultTable)
        requires
            table_results@.len() <= u32::MAX,
        ensures
            made@ == (TableView {
                name: name@,
                entries: numbered(text_views(table_results@)),
            }),
    {
        let ghost texts = text_views(table_results@);
        let mut table: HashMap<u32, String> = HashMap::new();
        let mut i: usize = 0;
        while i < table_results.len()
            invariant
                0 <= i <= table_results.len() <= u32::MAX,
                texts == text_views(table_results@),
                table@.map_values(|t: String| t@) == numbered(texts.take(i as int)),
            decreases table_results.len() - i,
        {
            let ghost before = table@.map_values(|t: String| t@);
            let face = (i + 1) as u32;
            let text = table_results[i].clone();
            table.insert(face, text);
            assert(table@.map_values(|t: String| t@) =~= before.insert(face, texts[i as int]));
            i = i + 1;
        }
        assert(texts.take(i as int) =~= texts);
        DiceResultTable { name, table }
    }

    /// A table with these entries, whatever faces they stand for.
    pub fn from_entries(name: String, table: HashMap<u32, String>) -> (made: DiceResultTable)
        ensures
            made@ == (TableView { name: name@, entries: table@.map_values(|t: String| t@) }),
    {
        DiceResultTable { name, table }
    }

    /// The entries of the table.
    pub fn get_entries(&self) -> (table: &HashMap<u32, String>)
        ensures
            table@.map_values(|t: String| t@) == self@.entries,
    {
        &self.table
    }

    /// The text that stands for `face`. A face beyond the table's length is
    /// brought back by that length, once, before it is looked up.
    pub fn lookup(&self, face: u32) -> (found: Result<&str, String>)
        ensures
            match found {
                Ok(text) => self@.lookup(face) == Ok::<Seq<char>, Seq<char>>(text@),
                Err(message) => self@.lookup(face) == Err::<Seq<char>, Seq<char>>(message@),
            },
    {
        let length = self.table.len();
        assert(self@.entries.dom() =~= self.table@.dom());
        if length > u32::MAX as usize {
            return Err(
                String::from_str(
                    "Table length is larger than the max supported by dice-tray. Are you sure you need a table this big?",
                ),
            );
        }
        let table_length = length as u32;
        let mut face = face;
        if face > table_length {
            face = face - table_length;
        }
        match self.table.get(&face) {
            Some(text) => Ok(text.as_str()),
            None => {
                let mut message = String::from_str("No result found at ");
                message.append(decimal_string(face as u64).as_str());
                message.append(" in table ");
                message.append(self.name.as_str());
                message.append(" ");
                Err(message)
            },
        }
    }

    /// The name of the table.
    pub fn get_name(&self) -> (name: &str)
        ensures
            name@ == self@.name,
    {
        self.name.as_str()
    }
}

/// The texts of the table that comes with the library.
pub open spec fn test_table_texts() -> Seq<Seq<char>> {
    seq![
        "Critical Fail"@,
        "Fail"@,
        "Neutral"@,
        "Success"@,
        "Critical Success"@,
        "Unexpected Result"@,
    ]
}

/// The table that comes with the library: six outcomes, named `test`.
pub fn implement_test_table() -> (table: DiceResultTable)
    ensures
        table@ == (TableView { name: "test"@, entries: numbered(test_table_texts()) }),
{
    let mut texts: Vec<String> = Vec::new();
    texts.push(String::from_str("Critical Fail"));
    texts.push(String::from_str("Fail"));
    texts.push(String::from_str("Neutral"));
    texts.push(String::from_str("Success"));
    texts.push(String::from_str("Critical Success"));
    texts.push(String::from_str("Unexpected Result"));
    assert(text_views(texts@) =~= test_table_texts());
    DiceResultTable::new(String::from_str("test"), texts)
}

} // verus!
