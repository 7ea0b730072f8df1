//! The record loader: one JSON document per line of input. A line whose
//! document has a textual `description` becomes a record; any other valid
//! line is skipped and reported; a line that is not JSON fails the load.

use crate::json::{json_parse, json_view, member, parse_json};
use vstd::prelude::*;

verus! {

/// The text that a line of input describes itself by: the string stored
/// under `description` in the line's document.
pub open spec fn description(line: Seq<char>) -> Option<Seq<char>> {
    match json_parse(line) {
        Some(document) => document.text_member("description"@),
        None => None,
    }
}

/// The positions in `lines`, ascending, of the lines that have a
/// description (`described`) or of those that have none (`!described`).
pub open spec fn positions(lines: Seq<Seq<char>>, described: bool) -> Seq<int>
    decreases lines.len(),
{
    if lines.len() == 0 {
        Seq::empty()
    } else {
        let before = positions(lines.drop_last(), described);
        if (description(lines.last()) is Some) == described {
            before.push(lines.len() - 1)
        } else {
            before
        }
    }
}

/// The position of the first line that is not valid JSON.
pub open spec fn first_invalid(lines: Seq<Seq<char>>) -> Option<int>
    decreases lines.len(),
{
    if lines.len() == 0 {
        None
    } else {
        match first_invalid(lines.drop_last()) {
            Some(position) => Some(position),
            None => if json_parse(lines.last()) is None {
                Some(lines.len() - 1)
            } else {
                None
            },
        }
    }
}

/// The characters of each line.
pub open spec fn line_texts(lines: Seq<String>) -> Seq<Seq<char>> {
    Seq::new(lines.len(), |i: int| lines[i]@)
}

/// What a successful load hands back.
pub struct LoadedData {
    /// The description of each record, in input order.
    pub documents: Vec<String>,
    /// The whole document of each record; `payloads[i]` belongs to `documents[i]`.
    pub payloads: Vec<serde_json::Value>,
    /// The positions of the lines that were skipped for want of a description.
    pub skipped: Vec<usize>,
}

/// The load failed: the line at position `line` is not valid JSON.
#[derive(Debug, PartialEq, Eq)]
pub struct InvalidJson {
    pub line: usize,
    /// The positions of the lines before it that were skipped for want of a
    /// description.
    pub skipped: Vec<usize>,
}

impl LoadedData {
    /// Every record has its payload, and the payload's `description` is the
    /// record's text.
    pub open spec fn well_formed(self) -> bool {
        &&& self.documents.len() == self.payloads.len()
        &&& forall|k: int|
            0 <= k < self.payloads.len() ==> json_view(#[trigger] self.payloads[k]).text_member(
                "description"@,
            ) == Some(self.documents[k]@)
    }

    /// This is the load of `lines`: the records are the described lines in
    /// input order, each with its description and its whole document, and
    /// the skipped positions are those of all the other lines.
    pub open spec fn is_load_of(self, lines: Seq<Seq<char>>) -> bool {
        let kept = positions(lines, true);
        &&& self.documents.len() == kept.len()
        &&& self.payloads.len() == kept.len()
        &&& forall|k: int|
            0 <= k < kept.len() ==> {
                &&& description(lines[kept[k]]) == Some((#[trigger] self.documents[k])@)
                &&& json_parse(lines[kept[k]]) == Some(json_view(self.payloads[k]))
            }
        &&& self.skipped@.map_values(|position: usize| position as int) =~= positions(lines, false)
    }
}

/// What `positions` lists: exactly the positions of the lines that are
/// described as asked, each once, in ascending order.
pub proof fn lemma_positions(lines: Seq<Seq<char>>, described: bool)
    ensures
        positions(lines, described).len() <= lines.len(),
        forall|k: int|
            0 <= k < positions(lines, described).len() ==> {
                let at = #[trigger] positions(lines, described)[k];
                0 <= at < lines.len() && (description(lines[at]) is Some) == described
            },
        forall|j: int, k: int|
            0 <= j < k < positions(lines, described).len() ==> positions(lines, described)[j]
                < positions(lines, described)[k],
        forall|i: int|
            0 <= i < lines.len() && (description(lines[i]) is Some) == described
                ==> #[trigger] positions(lines, described).contains(i),
    decreases lines.len(),
{
    if lines.len() > 0 {
        let shorter = lines.drop_last();
        let before = positions(shorter, described);
        let all = positions(lines, described);
        lemma_positions(shorter, described);
        assert forall|i: int|
            0 <= i < lines.len() && (description(lines[i]) is Some) == described implies all.contains(
            i,
        ) by {
            if i < lines.len() - 1 {
                assert(shorter[i] == lines[i]);
                assert(before.contains(i));
                let k = choose|k: int| 0 <= k < before.len() && before[k] == i;
                assert(all[k] == i);
            } else {
                assert(all[all.len() - 1] == i);
            }
        }
    }
}

/// What `first_invalid` names: the least position of a line that is not
/// valid JSON, and `None` exactly when every line is valid.
pub proof fn lemma_first_invalid(lines: Seq<Seq<char>>)
    ensures
        match first_invalid(lines) {
            Some(position) => {
                &&& 0 <= position < lines.len()
                &&& json_parse(lines[position]) is None
                &&& forall|i: int| 0 <= i < position ==> json_parse(#[trigger] lines[i]) is Some
            },
            None => forall|i: int| 0 <= i < lines.len() ==> json_parse(#[trigger] lines[i]) is Some,
        },
    decreases lines.len(),
{
    if lines.len() > 0 {
        let shorter = lines.drop_last();
        lemma_first_invalid(shorter);
        assert(forall|i: int| 0 <= i < shorter.len() ==> shorter[i] == lines[i]);
    }
}

/// Every line is either kept or skipped: the records and the skipped
/// positions together are as many as the lines.
pub proof fn lemma_kept_or_skipped(lines: Seq<Seq<char>>)
    ensures
        positions(lines, true).len() + positions(lines, false).len() == lines.len(),
    decreases lines.len(),
{
    if lines.len() > 0 {
        lemma_kept_or_skipped(lines.drop_last());
    }
}

/// A line that is valid JSON but has no textual `description` does not fail
/// the load, yields no record, and is listed among the skipped exactly once.
pub proof fn lemma_undescribed_line(lines: Seq<Seq<char>>, i: int)
    requires
        0 <= i < lines.len(),
        json_parse(lines[i]) is Some,
        description(lines[i]) is None,
    ensures
        first_invalid(lines) != Some(i),
        !positions(lines, true).contains(i),
        positions(lines, false).contains(i),
        forall|j: int, k: int|
            0 <= j < positions(lines, false).len() && 0 <= k < positions(lines, false).len()
                && positions(lines, false)[j] == i && positions(lines, false)[k] == i ==> j == k,
{
    lemma_first_invalid(lines);
    lemma_positions(lines, true);
    lemma_positions(lines, false);
    let kept = positions(lines, true);
    if kept.contains(i) {
        let k = choose|k: int| 0 <= k < kept.len() && kept[k] == i;
        assert(description(lines[kept[k]]) is Some);
    }
}

/// Once a prefix of the lines is valid and the next line is not, that line
/// is the first invalid one whatever follows it.
proof fn lemma_first_invalid_found(lines: Seq<Seq<char>>, i: int)
    requires
        0 <= i < lines.len(),
        first_invalid(lines.take(i)) is None,
        json_parse(lines[i]) is None,
    ensures
        first_invalid(lines) == Some(i),
    decreases lines.len(),
{
    if lines.len() == i + 1 {
        assert(lines.drop_last() =~= lines.take(i));
    } else {
        assert(lines.drop_last().take(i) =~= lines.take(i));
        lemma_first_invalid_found(lines.drop_last(), i);
    }
}

/// Reads the records out of the lines of an input file.
///
/// Fails at the first line that is not valid JSON, and only then; the error
/// names that line and the lines skipped before it. Otherwise every line
/// with a textual `description` yields a record, in input order, and the
/// position of every other line is listed in `skipped`.
pub fn load_data(lines: &Vec<String>) -> (r: Result<LoadedData, InvalidJson>)
    ensures
        match r {
            Ok(data) => {
                &&& first_invalid(line_texts(lines@)) is None
                &&& data.is_load_of(line_texts(lines@))
                &&& data.well_formed()
            },
            Err(error) => {
                &&& error.line < lines.len()
                &&& json_parse(lines[error.line as int]@) is None
                &&& first_invalid(line_texts(lines@)) == Some(error.line as int)
                &&& error.skipped@.map_values(|position: usize| position as int) == positions(
                    line_texts(lines@).take(error.line as int),
                    false,
                )
            },
        },
{
    let ghost texts = line_texts(lines@);
    let mut documents: Vec<String> = Vec::new();
    let mut payloads: Vec<serde_json::Value> = Vec::new();
    let mut skipped: Vec<usize> = Vec::new();
    let mut i: usize = 0;
    while i < lines.len()
        invariant
            i <= lines.len(),
            texts == line_texts(lines@),
            first_invalid(texts.take(i as int)) is None,
            (LoadedData { documents, payloads, skipped }).is_load_of(texts.take(i as int)),
            forall|k: int|
                0 <= k < payloads.len() ==> json_view(#[trigger] payloads[k]).text_member(
                    "description"@,
                ) == Some(documents[k]@),
        decreases lines.len() - i,
    {
        let ghost before = texts.take(i as int);
        let ghost upto = texts.take(i + 1);
        proof {
            assert(upto.drop_last() =~= before);
            assert(upto.last() == lines[i as int]@);
        }
        match parse_json(lines[i].as_str()) {
            Err(_) => {
                proof {
                    lemma_first_invalid_found(texts, i as int);
                }
                return Err(InvalidJson { line: i, skipped });
            },
            Ok(value) => {
                proof {
                    lemma_positions(before, true);
                    assert forall|k: int| 0 <= k < positions(before, true).len() implies upto[positions(
                        before,
                        true,
                    )[k]] == before[positions(before, true)[k]] by {}
                }
                let found: Option<String> = match member(&value, "description") {
                    Some(inner) => match inner.as_str() {
                        Some(chars) => Some(chars.to_owned()),
                        None => None,
                    },
                    None => None,
                };
                match found {
                    Some(text) => {
                        documents.push(text);
                        payloads.push(value);
                    },
                    None => {
                        skipped.push(i);
                    },
                }
            },
        }
        i += 1;
    }
    proof {
        assert(texts.take(i as int) =~= texts);
    }
    Ok(LoadedData { documents, payloads, skipped })
}

} // verus!
