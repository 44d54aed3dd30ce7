//! The typed records that the rows of a result store decode to, and the text
//! that shows each of them.

use crate::algorithm::{
    basic_block_algorithm_of, basic_block_algorithm_text, function_algorithm_of,
    function_algorithm_text, AlgorithmView, BasicBlockAlgorithm, FunctionAlgorithm,
};
use crate::error::Error;
use crate::text::{decimal, decimal_string, prefixed_hex, prefixed_hex_string};
use crate::value::{
    counter_of, flag_of, integer_of, score_of, text_of, timestamp_of, timestamp_text, Row, Score,
    Timestamp, Value,
};
use vstd::prelude::*;
use vstd::string::StringExecFns;

verus! {

/// Whether a column has the given name, letter for letter.
pub fn name_is(name: &String, expected: &str) -> (r: bool)
    ensures
        r == (name@ == expected@),
{
    let expected = expected.to_owned();
    *name == expected
}

/// The columns that a row of the `file` table must have.
pub const FILE_COLUMNS: usize = 13;

/// What the description of one of the compared files holds.
pub struct FileView {
    pub id: int,
    pub filename: Seq<char>,
    pub exe_filename: Seq<char>,
    pub hash: Seq<char>,
    pub functions: int,
    pub lib_functions: int,
    pub calls: int,
    pub basic_blocks: int,
    pub lib_basic_blocks: int,
    pub edges: int,
    pub lib_edges: int,
    pub instructions: int,
    pub lib_instructions: int,
}

/// The description of one of the compared files: one row of the `file` table.
#[derive(Debug, Clone, PartialEq, Eq)]
pub struct File {
    pub id: i64,
    pub filename: String,
    pub exe_filename: String,
    pub hash: String,
    pub functions: i64,
    pub lib_functions: i64,
    pub calls: i64,
    pub basic_blocks: i64,
    pub lib_basic_blocks: i64,
    pub edges: i64,
    pub lib_edges: i64,
    pub instructions: i64,
    pub lib_instructions: i64,
}

impl View for File {
    type V = FileView;

    open spec fn view(&self) -> FileView {
        FileView {
            id: self.id as int,
            filename: self.filename@,
            exe_filename: self.exe_filename@,
            hash: self.hash@,
            functions: self.functions as int,
            lib_functions: self.lib_functions as int,
            calls: self.calls as int,
            basic_blocks: self.basic_blocks as int,
            lib_basic_blocks: self.lib_basic_blocks as int,
            edges: self.edges as int,
            lib_edges: self.lib_edges as int,
            instructions: self.instructions as int,
            lib_instructions: self.lib_instructions as int,
        }
    }
}

impl DeepView for File {
    type V = FileView;

    open spec fn deep_view(&self) -> FileView {
        self@
    }
}

/// True when a table has the columns of the `file` table: the names
/// that the store gives them, each in its place. Columns after these are
/// left alone.
pub open spec fn file_columns_fit(columns: Seq<String>) -> bool {
    &&& columns.len() >= FILE_COLUMNS
    &&& columns[0]@ == "id"@
    &&& columns[1]@ == "filename"@
    &&& columns[2]@ == "exefilename"@
    &&& columns[3]@ == "hash"@
    &&& columns[4]@ == "functions"@
    &&& columns[5]@ == "libfunctions"@
    &&& columns[6]@ == "calls"@
    &&& columns[7]@ == "basicblocks"@
    &&& columns[8]@ == "libbasicblocks"@
    &&& columns[9]@ == "edges"@
    &&& columns[10]@ == "libedges"@
    &&& columns[11]@ == "instructions"@
    &&& columns[12]@ == "libinstructions"@
}

/// What a row of the `file` table decodes to. The columns are taken by
/// position. A row with too few columns does not fit the schema; a cell
/// that its column cannot hold is a decode error. Columns beyond the last
/// one that is read are left alone.
pub open spec fn file_of_row(row: Seq<Value>) -> Result<FileView, Error> {
    if row.len() < FILE_COLUMNS {
        Err(Error::SchemaMismatch)
    } else if integer_of(row[0]) is Err
        || text_of(row[1]) is Err
        || text_of(row[2]) is Err
        || text_of(row[3]) is Err
        || counter_of(row[4]) is Err
        || counter_of(row[5]) is Err
        || counter_of(row[6]) is Err
        || counter_of(row[7]) is Err
        || counter_of(row[8]) is Err
        || counter_of(row[9]) is Err
        || counter_of(row[10]) is Err
        || counter_of(row[11]) is Err
        || counter_of(row[12]) is Err {
        Err(Error::DecodeError)
    } else {
        Ok(
            FileView {
                id: integer_of(row[0])->Ok_0 as int,
                filename: text_of(row[1])->Ok_0,
                exe_filename: text_of(row[2])->Ok_0,
                hash: text_of(row[3])->Ok_0,
                functions: counter_of(row[4])->Ok_0 as int,
                lib_functions: counter_of(row[5])->Ok_0 as int,
                calls: counter_of(row[6])->Ok_0 as int,
                basic_blocks: counter_of(row[7])->Ok_0 as int,
                lib_basic_blocks: counter_of(row[8])->Ok_0 as int,
                edges: counter_of(row[9])->Ok_0 as int,
                lib_edges: counter_of(row[10])->Ok_0 as int,
                instructions: counter_of(row[11])->Ok_0 as int,
                lib_instructions: counter_of(row[12])->Ok_0 as int,
            },
        )
    }
}

/// The block of labelled lines that shows a file description: a heading,
/// then one line for each field, the values starting in one column.
pub open spec fn file_text(f: FileView) -> Seq<char> {
    "FILE:\n  id:               "@
        + decimal(f.id)
        + "\n  filename:         "@
        + f.filename
        + "\n  exe_filename:     "@
        + f.exe_filename
        + "\n  hash:             "@
        + f.hash
        + "\n  functions:        "@
        + decimal(f.functions)
        + "\n  lib_functions:    "@
        + decimal(f.lib_functions)
        + "\n  calls:            "@
        + decimal(f.calls)
        + "\n  basic_blocks:     "@
        + decimal(f.basic_blocks)
        + "\n  lib_basic_blocks: "@
        + decimal(f.lib_basic_blocks)
        + "\n  edges:            "@
        + decimal(f.edges)
        + "\n  lib_edges:        "@
        + decimal(f.lib_edges)
        + "\n  instructions:     "@
        + decimal(f.instructions)
        + "\n  lib_instructions: "@
        + decimal(f.lib_instructions)
        + "\n"@
}

impl File {
    /// True when no counter is negative.
    pub open spec fn well_formed(&self) -> bool {
        &&& self.functions >= 0
        &&& self.lib_functions >= 0
        &&& self.calls >= 0
        &&& self.basic_blocks >= 0
        &&& self.lib_basic_blocks >= 0
        &&& self.edges >= 0
        &&& self.lib_edges >= 0
        &&& self.instructions >= 0
        &&& self.lib_instructions >= 0
    }

    /// Whether these are the columns of the `file` table.
    pub fn columns_fit(columns: &Vec<String>) -> (r: bool)
        ensures
            r == file_columns_fit(columns@),
    {
        columns.len() >= FILE_COLUMNS
            && name_is(&columns[0], "id")
            && name_is(&columns[1], "filename")
            && name_is(&columns[2], "exefilename")
            && name_is(&columns[3], "hash")
            && name_is(&columns[4], "functions")
            && name_is(&columns[5], "libfunctions")
            && name_is(&columns[6], "calls")
            && name_is(&columns[7], "basicblocks")
            && name_is(&columns[8], "libbasicblocks")
            && name_is(&columns[9], "edges")
            && name_is(&columns[10], "libedges")
            && name_is(&columns[11], "instructions")
            && name_is(&columns[12], "libinstructions")
    }

    /// Decodes one row of the `file` table.
    pub fn from_row(row: &Row) -> (r: Result<File, Error>)
        ensures
            match r {
                Ok(x) => file_of_row(row@) == Ok::<FileView, Error>(x@),
                Err(e) => file_of_row(row@) == Err::<FileView, Error>(e),
            },
            r matches Ok(x) ==> x.well_formed(),
    {
        if row.len() < FILE_COLUMNS {
            return Err(Error::SchemaMismatch);
        }
        let id = row[0].as_i64()?;
        let filename = row[1].as_string()?;
        let exe_filename = row[2].as_string()?;
        let hash = row[3].as_string()?;
        let functions = row[4].as_counter()?;
        let lib_functions = row[5].as_counter()?;
        let calls = row[6].as_counter()?;
        let basic_blocks = row[7].as_counter()?;
        let lib_basic_blocks = row[8].as_counter()?;
        let edges = row[9].as_counter()?;
        let lib_edges = row[10].as_counter()?;
        let instructions = row[11].as_counter()?;
        let lib_instructions = row[12].as_counter()?;
        Ok(File { id, filename, exe_filename, hash, functions, lib_functions, calls, basic_blocks, lib_basic_blocks, edges, lib_edges, instructions, lib_instructions })
    }

    /// The text that shows this file description.
    pub fn to_string(&self) -> (s: String)
        ensures
            s@ == file_text(self@),
    {
        let id = decimal_string(self.id);
        let functions = decimal_string(self.functions);
        let lib_functions = decimal_string(self.lib_functions);
        let calls = decimal_string(self.calls);
        let basic_blocks = decimal_string(self.basic_blocks);
        let lib_basic_blocks = decimal_string(self.lib_basic_blocks);
        let edges = decimal_string(self.edges);
        let lib_edges = decimal_string(self.lib_edges);
        let instructions = decimal_string(self.instructions);
        let lib_instructions = decimal_string(self.lib_instructions);
        let mut out = String::from_str("FILE:\n  id:               ");
        out.append(id.as_str());
        out.append("\n  filename:         ");
        out.append(self.filename.as_str());
        out.append("\n  exe_filename:     ");
        out.append(self.exe_filename.as_str());
        out.append("\n  hash:             ");
        out.append(self.hash.as_str());
        out.append("\n  functions:        ");
        out.append(functions.as_str());
        out.append("\n  lib_functions:    ");
        out.append(lib_functions.as_str());
        out.append("\n  calls:            ");
        out.append(calls.as_str());
        out.append("\n  basic_blocks:     ");
        out.append(basic_blocks.as_str());
        out.append("\n  lib_basic_blocks: ");
        out.append(lib_basic_blocks.as_str());
        out.append("\n  edges:            ");
        out.append(edges.as_str());
        out.append("\n  lib_edges:        ");
        out.append(lib_edges.as_str());
        out.append("\n  instructions:     ");
        out.append(instructions.as_str());
        out.append("\n  lib_instructions: ");
        out.append(lib_instructions.as_str());
        out.append("\n");
        out
    }
}

/// The columns that a row of the `metadata` table must have.
pub const METADATA_COLUMNS: usize = 8;

/// What the description of a comparison holds.
pub struct MetadataView {
    pub version: Seq<char>,
    pub file1: int,
    pub file2: int,
    pub description: Seq<char>,
    pub created: Timestamp,
    pub modified: Timestamp,
    pub similarity: Score,
    pub confidence: Score,
}

/// The description of a comparison: one row of the `metadata` table.
#[derive(Debug, Clone, PartialEq, Eq)]
pub struct Metadata {
    pub version: String,
    /// The identifier of the first file; it is not looked up here.
    pub file1: i64,
    /// The identifier of the second file; it is not looked up here.
    pub file2: i64,
    pub description: String,
    pub created: Timestamp,
    pub modified: Timestamp,
    pub similarity: Score,
    pub confidence: Score,
}

impl View for Metadata {
    type V = MetadataView;

    open spec fn view(&self) -> MetadataView {
        MetadataView {
            version: self.version@,
            file1: self.file1 as int,
            file2: self.file2 as int,
            description: self.description@,
            created: self.created,
            modified: self.modified,
            similarity: self.similarity,
            confidence: self.confidence,
        }
    }
}

impl DeepView for Metadata {
    type V = MetadataView;

    open spec fn deep_view(&self) -> MetadataView {
        self@
    }
}

/// True when a table has the columns of the `metadata` table: the names
/// that the store gives them, each in its place. Columns after these are
/// left alone.
pub open spec fn metadata_columns_fit(columns: Seq<String>) -> bool {
    &&& columns.len() >= METADATA_COLUMNS
    &&& columns[0]@ == "version"@
    &&& columns[1]@ == "file1"@
    &&& columns[2]@ == "file2"@
    &&& columns[3]@ == "description"@
    &&& columns[4]@ == "created"@
    &&& columns[5]@ == "modified"@
    &&& columns[6]@ == "similarity"@
    &&& columns[7]@ == "confidence"@
}

/// What a row of the `metadata` table decodes to. The columns are taken by
/// position. A row with too few columns does not fit the schema; a cell
/// that its column cannot hold is a decode error. Columns beyond the last
/// one that is read are left alone.
pub open spec fn metadata_of_row(row: Seq<Value>) -> Result<MetadataView, Error> {
    if row.len() < METADATA_COLUMNS {
        Err(Error::SchemaMismatch)
    } else if text_of(row[0]) is Err
        || integer_of(row[1]) is Err
        || integer_of(row[2]) is Err
        || text_of(row[3]) is Err
        || timestamp_of(row[4]) is Err
        || timestamp_of(row[5]) is Err
        || score_of(row[6]) is Err
        || score_of(row[7]) is Err {
        Err(Error::DecodeError)
    } else {
        Ok(
            MetadataView {
                version: text_of(row[0])->Ok_0,
                file1: integer_of(row[1])->Ok_0 as int,
                file2: integer_of(row[2])->Ok_0 as int,
                description: text_of(row[3])->Ok_0,
                created: timestamp_of(row[4])->Ok_0,
                modified: timestamp_of(row[5])->Ok_0,
                similarity: score_of(row[6])->Ok_0,
                confidence: score_of(row[7])->Ok_0,
            },
        )
    }
}

/// The block of labelled lines that shows a comparison, given the text of
/// its two points in time and of its two scores.
pub open spec fn metadata_text(m: MetadataView,
    created: Seq<char>,
    modified: Seq<char>,
    similarity: Seq<char>,
    confidence: Seq<char>,
) -> Seq<char> {
    "METADATA:\n  version:      "@
        + m.version
        + "\n  file1:        "@
        + decimal(m.file1)
        + "\n  file2:        "@
        + decimal(m.file2)
        + "\n  description:  "@
        + m.description
        + "\n  created:      "@
        + created
        + "\n  modified:     "@
        + modified
        + "\n  similarity:   "@
        + similarity
        + "\n  confidence:   "@
        + confidence
        + "\n"@
}

/// The text that shows a comparison whose scores have the given text: the
/// block above with both points in time as date and time of day, or nothing
/// where one of them is no calendar date.
pub open spec fn metadata_text_at(
    m: MetadataView,
    similarity: Seq<char>,
    confidence: Seq<char>,
) -> Option<Seq<char>> {
    match (
        timestamp_text(m.created.secs, m.created.nanos),
        timestamp_text(m.modified.secs, m.modified.nanos),
    ) {
        (Some(created), Some(modified)) => Some(
            metadata_text(m, created, modified, similarity, confidence),
        ),
        _ => None,
    }
}

impl Metadata {
    /// True when the calendar holds both points in time and both scores lie
    /// between 0.0 and 1.0.
    pub open spec fn well_formed(&self) -> bool {
        &&& self.created.well_formed()
        &&& self.modified.well_formed()
        &&& self.similarity.well_formed()
        &&& self.confidence.well_formed()
    }

    /// Whether these are the columns of the `metadata` table.
    pub fn columns_fit(columns: &Vec<String>) -> (r: bool)
        ensures
            r == metadata_columns_fit(columns@),
    {
        columns.len() >= METADATA_COLUMNS
            && name_is(&columns[0], "version")
            && name_is(&columns[1], "file1")
            && name_is(&columns[2], "file2")
            && name_is(&columns[3], "description")
            && name_is(&columns[4], "created")
            && name_is(&columns[5], "modified")
            && name_is(&columns[6], "similarity")
            && name_is(&columns[7], "confidence")
    }

    /// Decodes one row of the `metadata` table.
    pub fn from_row(row: &Row) -> (r: Result<Metadata, Error>)
        ensures
            match r {
                Ok(x) => metadata_of_row(row@) == Ok::<MetadataView, Error>(x@),
                Err(e) => metadata_of_row(row@) == Err::<MetadataView, Error>(e),
            },
            r matches Ok(x) ==> x.well_formed(),
    {
        if row.len() < METADATA_COLUMNS {
            return Err(Error::SchemaMismatch);
        }
        let version = row[0].as_string()?;
        let file1 = row[1].as_i64()?;
        let file2 = row[2].as_i64()?;
        let description = row[3].as_string()?;
        let created = row[4].as_timestamp()?;
        let modified = row[5].as_timestamp()?;
        let similarity = row[6].as_score()?;
        let confidence = row[7].as_score()?;
        Ok(Metadata { version, file1, file2, description, created, modified, similarity, confidence })
    }

    /// The text that shows this comparison, given the text of its two points
    /// in time and of its two scores.
    pub fn render(&self, created: &str, modified: &str, similarity: &str, confidence: &str) -> (s:
        String)
        ensures
            s@ == metadata_text(self@, created@, modified@, similarity@, confidence@),
    {
        let file1 = decimal_string(self.file1);
        let file2 = decimal_string(self.file2);
        let mut out = String::from_str("METADATA:\n  version:      ");
        out.append(self.version.as_str());
        out.append("\n  file1:        ");
        out.append(file1.as_str());
        out.append("\n  file2:        ");
        out.append(file2.as_str());
        out.append("\n  description:  ");
        out.append(self.description.as_str());
        out.append("\n  created:      ");
        out.append(created);
        out.append("\n  modified:     ");
        out.append(modified);
        out.append("\n  similarity:   ");
        out.append(similarity);
        out.append("\n  confidence:   ");
        out.append(confidence);
        out.append("\n");
        out
    }

    /// The text that shows this comparison, given the text of its two
    /// scores. The points in time are shown as date and time of day; where
    /// one of them is no calendar date there is no text.
    pub fn render_with_scores(&self, similarity: &str, confidence: &str) -> (r: Option<String>)
        ensures
            match r {
                Some(s) => metadata_text_at(self@, similarity@, confidence@) == Some(s@),
                None => metadata_text_at(self@, similarity@, confidence@) is None,
            },
            self.well_formed() ==> r is Some,
    {
        let created = match self.created.to_text() {
            Some(t) => t,
            None => {
                return None;
            },
        };
        let modified = match self.modified.to_text() {
            Some(t) => t,
            None => {
                return None;
            },
        };
        Some(self.render(created.as_str(), modified.as_str(), similarity, confidence))
    }
}

/// The columns that a row of the `function` table must have.
pub const FUNCTION_MATCH_COLUMNS: usize = 14;

/// What a pair of matched functions holds.
pub struct FunctionMatchView {
    pub id: int,
    pub address1: int,
    pub name1: Seq<char>,
    pub address2: int,
    pub name2: Seq<char>,
    pub similarity: Score,
    pub confidence: Score,
    pub flags: int,
    pub algorithm: AlgorithmView,
    pub evaluate: bool,
    pub comment_supported: bool,
    pub basic_blocks: int,
    pub edges: int,
    pub instructions: int,
}

/// A pair of matched functions: one row of the `function` table.
#[derive(Debug, Clone, PartialEq, Eq)]
pub struct FunctionMatch {
    pub id: i64,
    pub address1: i64,
    pub name1: String,
    pub address2: i64,
    pub name2: String,
    pub similarity: Score,
    pub confidence: Score,
    /// Bit flags, as the store holds them.
    pub flags: i64,
    pub algorithm: FunctionAlgorithm,
    pub evaluate: bool,
    pub comment_supported: bool,
    pub basic_blocks: i64,
    pub edges: i64,
    pub instructions: i64,
}

impl View for FunctionMatch {
    type V = FunctionMatchView;

    open spec fn view(&self) -> FunctionMatchView {
        FunctionMatchView {
            id: self.id as int,
            address1: self.address1 as int,
            name1: self.name1@,
            address2: self.address2 as int,
            name2: self.name2@,
            similarity: self.similarity,
            confidence: self.confidence,
            flags: self.flags as int,
            algorithm: self.algorithm@,
            evaluate: self.evaluate,
            comment_supported: self.comment_supported,
            basic_blocks: self.basic_blocks as int,
            edges: self.edges as int,
            instructions: self.instructions as int,
        }
    }
}

impl DeepView for FunctionMatch {
    type V = FunctionMatchView;

    open spec fn deep_view(&self) -> FunctionMatchView {
        self@
    }
}

/// True when a table has the columns of the `function` table: the names
/// that the store gives them, each in its place. Columns after these are
/// left alone.
pub open spec fn function_match_columns_fit(columns: Seq<String>) -> bool {
    &&& columns.len() >= FUNCTION_MATCH_COLUMNS
    &&& columns[0]@ == "id"@
    &&& columns[1]@ == "address1"@
    &&& columns[2]@ == "name1"@
    &&& columns[3]@ == "address2"@
    &&& columns[4]@ == "name2"@
    &&& columns[5]@ == "similarity"@
    &&& columns[6]@ == "confidence"@
    &&& columns[7]@ == "flags"@
    &&& columns[8]@ == "algorithm"@
    &&& columns[9]@ == "evaluate"@
    &&& columns[10]@ == "commentsported"@
    &&& columns[11]@ == "basicblocks"@
    &&& columns[12]@ == "edges"@
    &&& columns[13]@ == "instructions"@
}

/// What a row of the `function` table decodes to. The columns are taken by
/// position. A row with too few columns does not fit the schema; a cell
/// that its column cannot hold is a decode error. Columns beyond the last
/// one that is read are left alone.
pub open spec fn function_match_of_row(row: Seq<Value>) -> Result<FunctionMatchView, Error> {
    if row.len() < FUNCTION_MATCH_COLUMNS {
        Err(Error::SchemaMismatch)
    } else if integer_of(row[0]) is Err
        || integer_of(row[1]) is Err
        || text_of(row[2]) is Err
        || integer_of(row[3]) is Err
        || text_of(row[4]) is Err
        || score_of(row[5]) is Err
        || score_of(row[6]) is Err
        || integer_of(row[7]) is Err
        || function_algorithm_of(row[8]) is Err
        || flag_of(row[9]) is Err
        || flag_of(row[10]) is Err
        || integer_of(row[11]) is Err
        || integer_of(row[12]) is Err
        || integer_of(row[13]) is Err {
        Err(Error::DecodeError)
    } else {
        Ok(
            FunctionMatchView {
                id: integer_of(row[0])->Ok_0 as int,
                address1: integer_of(row[1])->Ok_0 as int,
                name1: text_of(row[2])->Ok_0,
                address2: integer_of(row[3])->Ok_0 as int,
                name2: text_of(row[4])->Ok_0,
                similarity: score_of(row[5])->Ok_0,
                confidence: score_of(row[6])->Ok_0,
                flags: integer_of(row[7])->Ok_0 as int,
                algorithm: function_algorithm_of(row[8])->Ok_0,
                evaluate: flag_of(row[9])->Ok_0,
                comment_supported: flag_of(row[10])->Ok_0,
                basic_blocks: integer_of(row[11])->Ok_0 as int,
                edges: integer_of(row[12])->Ok_0 as int,
                instructions: integer_of(row[13])->Ok_0 as int,
            },
        )
    }
}

/// The line that shows a pair of matched functions, given the text of its
/// two scores. Where the two names differ both are shown, with an arrow
/// between them, and the algorithm at the end; where they are equal the name
/// is shown once, and no algorithm.
pub open spec fn function_match_text(
    m: FunctionMatchView,
    similarity: Seq<char>,
    confidence: Seq<char>,
) -> Seq<char> {
    if m.name1 != m.name2 {
        m.name1 + " -> "@ + m.name2 + "\tsimilarity: "@ + similarity + ", confidence: "@
            + confidence + ", algorithm: "@ + function_algorithm_text(m.algorithm)
    } else {
        m.name1 + ":\tsimilarity: "@ + similarity + ", confidence: "@ + confidence
    }
}

impl FunctionMatch {
    /// True when both scores lie between 0.0 and 1.0.
    pub open spec fn well_formed(&self) -> bool {
        self.similarity.well_formed() && self.confidence.well_formed()
    }

    /// Whether these are the columns of the `function` table.
    pub fn columns_fit(columns: &Vec<String>) -> (r: bool)
        ensures
            r == function_match_columns_fit(columns@),
    {
        columns.len() >= FUNCTION_MATCH_COLUMNS
            && name_is(&columns[0], "id")
            && name_is(&columns[1], "address1")
            && name_is(&columns[2], "name1")
            && name_is(&columns[3], "address2")
            && name_is(&columns[4], "name2")
            && name_is(&columns[5], "similarity")
            && name_is(&columns[6], "confidence")
            && name_is(&columns[7], "flags")
            && name_is(&columns[8], "algorithm")
            && name_is(&columns[9], "evaluate")
            && name_is(&columns[10], "commentsported")
            && name_is(&columns[11], "basicblocks")
            && name_is(&columns[12], "edges")
            && name_is(&columns[13], "instructions")
    }

    /// Decodes one row of the `function` table.
    pub fn from_row(row: &Row) -> (r: Result<FunctionMatch, Error>)
        ensures
            match r {
                Ok(x) => function_match_of_row(row@) == Ok::<FunctionMatchView, Error>(x@),
                Err(e) => function_match_of_row(row@) == Err::<FunctionMatchView, Error>(e),
            },
            r matches Ok(x) ==> x.well_formed(),
    {
        if row.len() < FUNCTION_MATCH_COLUMNS {
            return Err(Error::SchemaMismatch);
        }
        let id = row[0].as_i64()?;
        let address1 = row[1].as_i64()?;
        let name1 = row[2].as_string()?;
        let address2 = row[3].as_i64()?;
        let name2 = row[4].as_string()?;
        let similarity = row[5].as_score()?;
        let confidence = row[6].as_score()?;
        let flags = row[7].as_i64()?;
        let algorithm = FunctionAlgorithm::column_result(&row[8])?;
        let evaluate = row[9].as_bool()?;
        let comment_supported = row[10].as_bool()?;
        let basic_blocks = row[11].as_i64()?;
        let edges = row[12].as_i64()?;
        let instructions = row[13].as_i64()?;
        Ok(FunctionMatch { id, address1, name1, address2, name2, similarity, confidence, flags, algorithm, evaluate, comment_supported, basic_blocks, edges, instructions })
    }

    /// The line that shows this pair, given the text of its two scores.
    pub fn render(&self, similarity: &str, confidence: &str) -> (s: String)
        ensures
            s@ == function_match_text(self@, similarity@, confidence@),
    {
        let mut out = self.name1.clone();
        if self.name1 != self.name2 {
            let algorithm = self.algorithm.to_string();
            out.append(" -> ");
            out.append(self.name2.as_str());
            out.append("\tsimilarity: ");
            out.append(similarity);
            out.append(", confidence: ");
            out.append(confidence);
            out.append(", algorithm: ");
            out.append(algorithm.as_str());
        } else {
            out.append(":\tsimilarity: ");
            out.append(similarity);
            out.append(", confidence: ");
            out.append(confidence);
        }
        out
    }
}

/// The columns that a row of the `basicblock` table must have.
pub const BASIC_BLOCK_MATCH_COLUMNS: usize = 6;

/// What a pair of matched basic blocks holds.
pub struct BasicBlockMatchView {
    pub id: int,
    pub function_id: int,
    pub address1: int,
    pub address2: int,
    pub algorithm: AlgorithmView,
    pub evaluate: bool,
}

/// A pair of matched basic blocks: one row of the `basicblock` table.
#[derive(Debug, Clone, PartialEq, Eq)]
pub struct BasicBlockMatch {
    pub id: i64,
    /// The identifier of the function match that the pair lies in; it is
    /// not looked up here.
    pub function_id: i64,
    pub address1: i64,
    pub address2: i64,
    pub algorithm: BasicBlockAlgorithm,
    pub evaluate: bool,
}

impl View for BasicBlockMatch {
    type V = BasicBlockMatchView;

    open spec fn view(&self) -> BasicBlockMatchView {
        BasicBlockMatchView {
            id: self.id as int,
            function_id: self.function_id as int,
            address1: self.address1 as int,
            address2: self.address2 as int,
            algorithm: self.algorithm@,
            evaluate: self.evaluate,
        }
    }
}

impl DeepView for BasicBlockMatch {
    type V = BasicBlockMatchView;

    open spec fn deep_view(&self) -> BasicBlockMatchView {
        self@
    }
}

/// True when a table has the columns of the `basicblock` table: the names
/// that the store gives them, each in its place. Columns after these are
/// left alone.
pub open spec fn basic_block_match_columns_fit(columns: Seq<String>) -> bool {
    &&& columns.len() >= BASIC_BLOCK_MATCH_COLUMNS
    &&& columns[0]@ == "id"@
    &&& columns[1]@ == "functionid"@
    &&& columns[2]@ == "address1"@
    &&& columns[3]@ == "address2"@
    &&& columns[4]@ == "algorithm"@
    &&& columns[5]@ == "evaluate"@
}

/// What a row of the `basicblock` table decodes to. The columns are taken by
/// position. A row with too few columns does not fit the schema; a cell
/// that its column cannot hold is a decode error. Columns beyond the last
/// one that is read are left alone.
pub open spec fn basic_block_match_of_row(row: Seq<Value>) -> Result<BasicBlockMatchView, Error> {
    if row.len() < BASIC_BLOCK_MATCH_COLUMNS {
        Err(Error::SchemaMismatch)
    } else if integer_of(row[0]) is Err
        || integer_of(row[1]) is Err
        || integer_of(row[2]) is Err
        || integer_of(row[3]) is Err
        || basic_block_algorithm_of(row[4]) is Err
        || flag_of(row[5]) is Err {
        Err(Error::DecodeError)
    } else {
        Ok(
            BasicBlockMatchView {
                id: integer_of(row[0])->Ok_0 as int,
                function_id: integer_of(row[1])->Ok_0 as int,
                address1: integer_of(row[2])->Ok_0 as int,
                address2: integer_of(row[3])->Ok_0 as int,
                algorithm: basic_block_algorithm_of(row[4])->Ok_0,
                evaluate: flag_of(row[5])->Ok_0,
            },
        )
    }
}

/// The line that shows a pair of matched basic blocks: the two addresses in
/// hexadecimal, then the algorithm in parentheses.
pub open spec fn basic_block_match_text(m: BasicBlockMatchView) -> Seq<char> {
    prefixed_hex(m.address1) + " -> "@ + prefixed_hex(m.address2) + " ("@
        + basic_block_algorithm_text(m.algorithm) + ")"@
}

impl BasicBlockMatch {
    /// Whether these are the columns of the `basicblock` table.
    pub fn columns_fit(columns: &Vec<String>) -> (r: bool)
        ensures
            r == basic_block_match_columns_fit(columns@),
    {
        columns.len() >= BASIC_BLOCK_MATCH_COLUMNS
            && name_is(&columns[0], "id")
            && name_is(&columns[1], "functionid")
            && name_is(&columns[2], "address1")
            && name_is(&columns[3], "address2")
            && name_is(&columns[4], "algorithm")
            && name_is(&columns[5], "evaluate")
    }

    /// Decodes one row of the `basicblock` table.
    pub fn from_row(row: &Row) -> (r: Result<BasicBlockMatch, Error>)
        ensures
            match r {
                Ok(x) => basic_block_match_of_row(row@) == Ok::<BasicBlockMatchView, Error>(x@),
                Err(e) => basic_block_match_of_row(row@) == Err::<BasicBlockMatchView, Error>(e),
            },
    {
        if row.len() < BASIC_BLOCK_MATCH_COLUMNS {
            return Err(Error::SchemaMismatch);
        }
        let id = row[0].as_i64()?;
        let function_id = row[1].as_i64()?;
        let address1 = row[2].as_i64()?;
        let address2 = row[3].as_i64()?;
        let algorithm = BasicBlockAlgorithm::column_result(&row[4])?;
        let evaluate = row[5].as_bool()?;
        Ok(BasicBlockMatch { id, function_id, address1, address2, algorithm, evaluate })
    }

    /// The line that shows this pair.
    pub fn to_string(&self) -> (s: String)
        ensures
            s@ == basic_block_match_text(self@),
    {
        let algorithm = self.algorithm.to_string();
        let address2 = prefixed_hex_string(self.address2);
        let mut out = prefixed_hex_string(self.address1);
        out.append(" -> ");
        out.append(address2.as_str());
        out.append(" (");
        out.append(algorithm.as_str());
        out.append(")");
        out
    }
}

/// The columns that a row of the `instruction` table must have.
pub const INSTRUCTION_COLUMNS: usize = 3;

/// What a pair of matched instructions holds.
pub struct InstructionView {
    pub id: int,
    pub address1: int,
    pub address2: int,
}

/// A pair of matched instructions: one row of the `instruction` table.
#[derive(Debug, Clone, PartialEq, Eq)]
pub struct Instruction {
    pub id: i64,
    pub address1: i64,
    pub address2: i64,
}

impl View for Instruction {
    type V = InstructionView;

    open spec fn view(&self) -> InstructionView {
        InstructionView {
            id: self.id as int,
            address1: self.address1 as int,
            address2: self.address2 as int,
        }
    }
}

impl DeepView for Instruction {
    type V = InstructionView;

    open spec fn deep_view(&self) -> InstructionView {
        self@
    }
}

/// True when a table has the columns of the `instruction` table: the names
/// that the store gives them, each in its place. Columns after these are
/// left alone.
pub open spec fn instruction_columns_fit(columns: Seq<String>) -> bool {
    &&& columns.len() >= INSTRUCTION_COLUMNS
    &&& columns[0]@ == "basicblockid"@
    &&& columns[1]@ == "address1"@
    &&& columns[2]@ == "address2"@
}

/// What a row of the `instruction` table decodes to. The columns are taken by
/// position. A row with too few columns does not fit the schema; a cell
/// that its column cannot hold is a decode error. Columns beyond the last
/// one that is read are left alone.
pub open spec fn instruction_of_row(row: Seq<Value>) -> Result<InstructionView, Error> {
    if row.len() < INSTRUCTION_COLUMNS {
        Err(Error::SchemaMismatch)
    } else if integer_of(row[0]) is Err
        || integer_of(row[1]) is Err
        || integer_of(row[2]) is Err {
        Err(Error::DecodeError)
    } else {
        Ok(
            InstructionView {
                id: integer_of(row[0])->Ok_0 as int,
                address1: integer_of(row[1])->Ok_0 as int,
                address2: integer_of(row[2])->Ok_0 as int,
            },
        )
    }
}

/// The line that shows a pair of matched instructions: the two addresses in
/// decimal.
pub open spec fn instruction_text(m: InstructionView) -> Seq<char> {
    decimal(m.address1) + " -> "@ + decimal(m.address2)
}

impl Instruction {
    /// Whether these are the columns of the `instruction` table.
    pub fn columns_fit(columns: &Vec<String>) -> (r: bool)
        ensures
            r == instruction_columns_fit(columns@),
    {
        columns.len() >= INSTRUCTION_COLUMNS
            && name_is(&columns[0], "basicblockid")
            && name_is(&columns[1], "address1")
            && name_is(&columns[2], "address2")
    }

    /// Decodes one row of the `instruction` table.
    pub fn from_row(row: &Row) -> (r: Result<Instruction, Error>)
        ensures
            match r {
                Ok(x) => instruction_of_row(row@) == Ok::<InstructionView, Error>(x@),
                Err(e) => instruction_of_row(row@) == Err::<InstructionView, Error>(e),
            },
    {
        if row.len() < INSTRUCTION_COLUMNS {
            return Err(Error::SchemaMismatch);
        }
        let id = row[0].as_i64()?;
        let address1 = row[1].as_i64()?;
        let address2 = row[2].as_i64()?;
        Ok(Instruction { id, address1, address2 })
    }

    /// The line that shows this pair.
    pub fn to_string(&self) -> (s: String)
        ensures
            s@ == instruction_text(self@),
    {
        let address2 = decimal_string(self.address2);
        let mut out = decimal_string(self.address1);
        out.append(" -> ");
        out.append(address2.as_str());
        out
    }
}

} // verus!
