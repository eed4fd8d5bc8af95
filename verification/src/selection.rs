//! The choices of a run outside the interactive viewer: which sheet to show,
//! and in which format to export it.

use vstd::prelude::*;
use crate::display::{joined, push_joined};
use crate::text::{
    decimal, parse_usize, parsed_usize, push_decimal, push_str, str_is, texts,
};

verus! {

/// Why no sheet could be chosen.
#[derive(Debug)]
pub enum SheetError {
    /// The workbook has no sheets.
    NoSheets,
    /// A sheet was asked for by a number that no sheet has.
    IndexOutOfRange { index: usize, count: usize },
    /// A sheet was asked for by a name that no sheet has and that is no number.
    NotFound { name: String, available: String },
}

/// A format of export.
#[derive(Debug, Clone, Copy, PartialEq, Eq, Structural)]
pub enum ExportFormat {
    Csv,
    Json,
    Text,
}

/// The place of the first of `names` that is `name`, if one is.
pub open spec fn first_named(names: Seq<String>, name: Seq<char>) -> Option<int>
    decreases names.len(),
{
    if names.len() == 0 {
        None
    } else if names[0]@ == name {
        Some(0)
    } else {
        match first_named(names.drop_first(), name) {
            Some(i) => Some(i + 1),
            None => None,
        }
    }
}

/// The first holder of a name is its place.
pub proof fn lemma_first_named_found(names: Seq<String>, name: Seq<char>, i: int)
    requires
        0 <= i < names.len(),
        names[i]@ == name,
        forall|k: int| 0 <= k < i ==> (#[trigger] names[k])@ != name,
    ensures
        first_named(names, name) == Some(i),
    decreases i,
{
    if i > 0 {
        let rest = names.drop_first();
        lemma_first_named_found(rest, name, i - 1);
    }
}

/// A name that none of the names is has no place.
pub proof fn lemma_first_named_absent(names: Seq<String>, name: Seq<char>)
    requires
        forall|k: int| 0 <= k < names.len() ==> (#[trigger] names[k])@ != name,
    ensures
        first_named(names, name) is None,
    decreases names.len(),
{
    if names.len() > 0 {
        let rest = names.drop_first();
        lemma_first_named_absent(rest, name);
    }
}

/// The index of the sheet that is asked for: without a request the first
/// sheet; else the first sheet of the requested name; else, where the request
/// is a number from 1 to the number of sheets, the sheet of that number.
pub open spec fn chosen_sheet(names: Seq<String>, requested: Option<Seq<char>>) -> Option<int> {
    if names.len() == 0 {
        None
    } else {
        match requested {
            None => Some(0),
            Some(name) => match first_named(names, name) {
                Some(i) => Some(i),
                None => match parsed_usize(name) {
                    Some(n) => if 0 < n <= names.len() {
                        Some(n - 1)
                    } else {
                        None
                    },
                    None => None,
                },
            },
        }
    }
}

/// The error is the one that the request earns.
pub open spec fn sheet_error_for(e: SheetError, names: Seq<String>, requested: Option<Seq<char>>) -> bool {
    if names.len() == 0 {
        e is NoSheets
    } else {
        requested matches Some(name) && (match parsed_usize(name) {
            Some(n) => e matches SheetError::IndexOutOfRange { index, count } && index == n
                && count == names.len(),
            None => e matches SheetError::NotFound { name: asked, available } && asked@ == name
                && available@ == joined(texts(names), ", "@),
        })
    }
}

/// The message of an error.
pub open spec fn sheet_error_text(e: SheetError) -> Seq<char> {
    match e {
        SheetError::NoSheets => "No sheets found in workbook"@,
        SheetError::IndexOutOfRange { index, count } => "Sheet index "@ + decimal(index as nat)
            + " out of range (1-"@ + decimal(count as nat) + ")"@,
        SheetError::NotFound { name, available } => "Sheet '"@ + name@
            + "' not found. Available sheets: "@ + available@,
    }
}

/// The format that a word names.
pub open spec fn format_named(word: Seq<char>) -> Option<ExportFormat> {
    if word == "csv"@ {
        Some(ExportFormat::Csv)
    } else if word == "json"@ {
        Some(ExportFormat::Json)
    } else if word == "text"@ {
        Some(ExportFormat::Text)
    } else {
        None
    }
}

/// The message on a word that names no format.
pub open spec fn unknown_format_text(word: Seq<char>) -> Seq<char> {
    "Unknown export format: "@ + word + ". Use: csv, json, or text"@
}

impl SheetError {
    /// The message of the error.
    pub fn message(&self) -> (out: String)
        ensures
            out@ == sheet_error_text(*self),
    {
        let mut out = String::new();
        match self {
            SheetError::NoSheets => {
                push_str(&mut out, "No sheets found in workbook");
            },
            SheetError::IndexOutOfRange { index, count } => {
                push_str(&mut out, "Sheet index ");
                push_decimal(&mut out, *index as u64);
                push_str(&mut out, " out of range (1-");
                push_decimal(&mut out, *count as u64);
                push_str(&mut out, ")");
            },
            SheetError::NotFound { name, available } => {
                push_str(&mut out, "Sheet '");
                push_str(&mut out, name.as_str());
                push_str(&mut out, "' not found. Available sheets: ");
                push_str(&mut out, available.as_str());
            },
        }
        out
    }
}

/// Chooses the sheet to show: the index of the sheet that is asked for, or the
/// reason why there is none.
pub fn choose_sheet(sheet_names: &Vec<String>, requested: Option<&str>) -> (r: Result<
    usize,
    SheetError,
>)
    ensures
        match r {
            Ok(i) => chosen_sheet(
                sheet_names@,
                match requested {
                    Some(name) => Some(name@),
                    None => None,
                },
            ) == Some(i as int) && i < sheet_names@.len(),
            Err(e) => chosen_sheet(
                sheet_names@,
                match requested {
                    Some(name) => Some(name@),
                    None => None,
                },
            ) is None && sheet_error_for(
                e,
                sheet_names@,
                match requested {
                    Some(name) => Some(name@),
                    None => None,
                },
            ),
        },
{
    if sheet_names.len() == 0 {
        return Err(SheetError::NoSheets);
    }
    let name: &str = match requested {
        Some(name) => name,
        None => {
            return Ok(0);
        },
    };
    let mut i: usize = 0;
    while i < sheet_names.len()
        invariant
            0 <= i <= sheet_names.len(),
            requested is Some,
            requested->0@ == name@,
            forall|k: int| 0 <= k < i ==> (#[trigger] sheet_names@[k])@ != name@,
        decreases sheet_names.len() - i,
    {
        if str_is(sheet_names[i].as_str(), name) {
            proof {
                lemma_first_named_found(sheet_names@, name@, i as int);
            }
            return Ok(i);
        }
        i += 1;
    }
    proof {
        lemma_first_named_absent(sheet_names@, name@);
    }
    match parse_usize(name) {
        Some(index) => {
            if index > 0 && index <= sheet_names.len() {
                Ok(index - 1)
            } else {
                Err(SheetError::IndexOutOfRange { index, count: sheet_names.len() })
            }
        },
        None => {
            let mut available = String::new();
            push_joined(&mut available, sheet_names, ", ");
            let mut asked = String::new();
            push_str(&mut asked, name);
            Err(SheetError::NotFound { name: asked, available })
        },
    }
}

/// The format that a word names: "csv", "json" or "text".
pub fn parse_export_format(word: &str) -> (r: Option<ExportFormat>)
    ensures
        r == format_named(word@),
{
    if str_is(word, "csv") {
        Some(ExportFormat::Csv)
    } else if str_is(word, "json") {
        Some(ExportFormat::Json)
    } else if str_is(word, "text") {
        Some(ExportFormat::Text)
    } else {
        None
    }
}

/// The message on a word that names no format.
pub fn unknown_format_message(word: &str) -> (out: String)
    ensures
        out@ == unknown_format_text(word@),
{
    let mut out = String::new();
    push_str(&mut out, "Unknown export format: ");
    push_str(&mut out, word);
    push_str(&mut out, ". Use: csv, json, or text");
    out
}

} // verus!
