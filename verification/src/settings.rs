//! Settings: the result tables that dice can refer to by their labels.

use crate::dice::{Die, DieResult, DieResultType, DieResultView, DieView};
use crate::tables::{DiceResultTable, TableView};
use crate::text::{decimal, decimal_string, same_text};
use vstd::prelude::*;
use vstd::string::StringExecFns;

verus! {
/// The settings of one application: its result tables, each under its name.
#[derive(Debug)]
pub struct DiceTraySettings {
    result_tables: Vec<DiceResultTable>,
}

/// The mathematical content of the settings: the tables in the order they
/// were first added.
pub struct SettingsView {
    pub tables: Seq<TableView>,
}

/// What a lookup says where no table has the name.
pub open spec fn no_table_message(table_name: Seq<char>) -> Seq<char> {
    "No table found with name "@ + table_name
}

/// What a lookup says where the table has no text for the face.
pub open spec fn no_result_message(dice_result: u32, table_name: Seq<char>, error: Seq<char>) -> Seq<
    char,
> {
    "No result found for dice result "@ + decimal(dice_result as nat) + " in table "@ + table_name
        + " | Error "@ + error
}

/// The text a die with a table reports where the lookup fails.
pub open spec fn no_result_found() -> Seq<char> {
    "No result found."@
}

impl SettingsView {
    /// No two tables have the same name.
    pub open spec fn wf(self) -> bool {
        forall|i: int, j: int|
            0 <= i < j < self.tables.len() ==> (#[trigger] self.tables[i]).name
                != (#[trigger] self.tables[j]).name
    }

    /// The place of the table with this name, if there is one.
    pub open spec fn place_of(self, table_name: Seq<char>) -> Option<int> {
        if exists|i: int| 0 <= i < self.tables.len() && (#[trigger] self.tables[i]).name == table_name {
            Some(
                choose|i: int|
                    0 <= i < self.tables.len() && (#[trigger] self.tables[i]).name == table_name,
            )
        } else {
            None
        }
    }

    /// A table has this name.
    pub open spec fn has_table(self, table_name: Seq<char>) -> bool {
        self.place_of(table_name) is Some
    }

    /// The settings after `table` is added: it takes the place of the table
    /// that has its name, or the last place where none has.
    pub open spec fn with_table(self, table: TableView) -> SettingsView {
        match self.place_of(table.name) {
            Some(i) => SettingsView { tables: self.tables.update(i, table) },
            None => SettingsView { tables: self.tables.push(table) },
        }
    }

    /// What a lookup of `dice_result` in the table named `table_name` gives:
    /// the table's text, or the message that says why there is none.
    pub open spec fn lookup(self, table_name: Seq<char>, dice_result: u32) -> Result<
        Seq<char>,
        Seq<char>,
    > {
        match self.place_of(table_name) {
            Some(i) => match self.tables[i].lookup(dice_result) {
                Ok(text) => Ok(text),
                Err(error) => Err(no_result_message(dice_result, table_name, error)),
            },
            None => Err(no_table_message(table_name)),
        }
    }

    /// The result type of a new die with this label: it goes by the table,
    /// if a table has the label, and else reports its face.
    pub open spec fn result_type_for(self, label: Option<Seq<char>>) -> DieResultType {
        match label {
            Some(l) => if self.has_table(l) {
                DieResultType::Table
            } else {
                DieResultType::Face
            },
            None => DieResultType::Face,
        }
    }

    /// What a die reports with these settings: a die that goes by a table
    /// reports the table's text for its face, or that none was found; any
    /// other die reports its own result.
    pub open spec fn die_result(self, die: DieView) -> DieResultView {
        if die.result_type == DieResultType::Table {
            match self.lookup(die.label, die.current_face as u32) {
                Ok(text) => DieResultView::Text(text),
                Err(_) => DieResultView::Text(no_result_found()),
            }
        } else {
            die.result()
        }
    }
}

/// The contents of a run of tables, in order.
pub open spec fn table_views(tables: Seq<DiceResultTable>) -> Seq<TableView> {
    tables.map_values(|t: DiceResultTable| t@)
}

impl View for DiceTraySettings {
    type V = SettingsView;

    closed spec fn view(&self) -> SettingsView {
        SettingsView { tables: table_views(self.result_tables@) }
    }
}

/// In well-formed settings a table's name leads to its place.
pub proof fn lemma_place_of_name(settings: SettingsView, i: int)
    requires
        settings.wf(),
        0 <= i < settings.tables.len(),
    ensures
        settings.place_of(settings.tables[i].name) == Some(i),
{
}

impl DiceTraySettings {
    /// Settings without any table.
    pub fn new() -> (settings: DiceTraySettings)
        ensures
            settings@.wf(),
            settings@.tables == Seq::<TableView>::empty(),
    {
        let settings = DiceTraySettings { result_tables: Vec::new() };
        settings
    }

    /// The place of the table with this name, if there is one.
    fn find(&self, table_name: &str) -> (place: Option<usize>)
        requires
            self@.wf(),
        ensures
            match place {
                Some(i) => self@.place_of(table_name@) == Some(i as int) && i
                    < self.result_tables.len(),
                None => self@.place_of(table_name@) is None,
            },
    {
        let mut i: usize = 0;
        while i < self.result_tables.len()
            invariant
                0 <= i <= self.result_tables.len(),
                self@.wf(),
                forall|k: int| 0 <= k < i ==> (#[trigger] self@.tables[k]).name != table_name@,
            decreases self.result_tables.len() - i,
        {
            if same_text(self.result_tables[i].get_name(), table_name) {
                proof {
                    lemma_place_of_name(self@, i as int);
                }
                return Some(i);
            }
            i = i + 1;
        }
        None
    }

    /// Adds a table under its name. A table that had the name is replaced.
    pub fn add_result_table(&mut self, table: DiceResultTable)
        requires
            old(self)@.wf(),
        ensures
            final(self)@.wf(),
            final(self)@ == old(self)@.with_table(table@),
            final(self)@.has_table(table@.name),
    {
        let place = self.find(table.get_name());
        let ghost before = self@.tables;
        match place {
            Some(i) => {
                self.result_tables[i] = table;
                assert(self@.tables =~= before.update(i as int, table@));
                assert(self@.tables[i as int].name == table@.name);
            },
            None => {
                self.result_tables.push(table);
                assert(self@.tables =~= before.push(table@));
                assert(self@.tables[before.len() as int].name == table@.name);
            },
        }
    }

    /// Looks up what the table named `table_name` says of `dice_result`.
    pub fn dice_table_lookup(&self, table_name: &str, dice_result: u32) -> (found: Result<
        &str,
        String,
    >)
        requires
            self@.wf(),
        ensures
            match found {
                Ok(text) => self@.lookup(table_name@, dice_result) == Ok::<Seq<char>, Seq<char>>(
                    text@,
                ),
                Err(message) => self@.lookup(table_name@, dice_result) == Err::<
                    Seq<char>,
                    Seq<char>,
                >(message@),
            },
    {
        match self.find(table_name) {
            Some(i) => {
                match self.result_tables[i].lookup(dice_result) {
                    Ok(text) => Ok(text),
                    Err(error) => {
                        let mut message = String::from_str("No result found for dice result ");
                        message.append(decimal_string(dice_result as u64).as_str());
                        message.append(" in table ");
                        message.append(table_name);
                        message.append(" | Error ");
                        message.append(error.as_str());
                        Err(message)
                    },
                }
            },
            None => {
                let mut message = String::from_str("No table found with name ");
                message.append(table_name);
                Err(message)
            },
        }
    }

    /// Whether a table has this name.
    pub fn has_table(&self, table_name: &str) -> (has: bool)
        requires
            self@.wf(),
        ensures
            has == self@.has_table(table_name@),
    {
        self.find(table_name).is_some()
    }

    /// The tables, in the order they were first added.
    pub fn get_result_tables(&self) -> (tables: &Vec<DiceResultTable>)
        ensures
            table_views(tables@) == self@.tables,
    {
        &self.result_tables
    }

    /// The result type for a new die with this label: it goes by the table,
    /// if a table has the label, and else reports its face.
    pub fn result_type_for(&self, label: &Option<String>) -> (result_type: DieResultType)
        requires
            self@.wf(),
        ensures
            result_type == self@.result_type_for(
                match *label {
                    Some(l) => Some(l@),
                    None => None,
                },
            ),
    {
        match label {
            Some(l) => {
                if self.has_table(l.as_str()) {
                    DieResultType::Table
                } else {
                    DieResultType::Face
                }
            },
            None => DieResultType::Face,
        }
    }

    /// What `die` reports with these settings: a die that goes by a table
    /// reports the text that the table of its label has for its face, or
    /// that none was found; any other die reports its own result.
    pub fn die_result(&self, die: &Die) -> (result: DieResult)
        requires
            self@.wf(),
            die@.wf(),
        ensures
            result@ == self@.die_result(die@),
    {
        match die.get_result_type() {
            DieResultType::Table => {
                match self.dice_table_lookup(die.get_label(), die.get_current_face()) {
                    Ok(text) => DieResult::String(String::from_str(text)),
                    Err(_) => DieResult::String(String::from_str("No result found.")),
                }
            },
            _ => die.get_result(),
        }
    }
}

} // verus!
