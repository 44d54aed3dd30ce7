//! A result store, once its tables have been read: typed access to the file
//! description, the comparison and the three tables of matches.

use crate::error::Error;
use crate::records::{
    basic_block_match_columns_fit, basic_block_match_of_row, file_columns_fit, file_of_row,
    function_match_columns_fit, function_match_of_row, instruction_columns_fit,
    instruction_of_row, metadata_columns_fit, metadata_of_row, BasicBlockMatch,
    BasicBlockMatchView, File, FileView, FunctionMatch, FunctionMatchView, Instruction,
    InstructionView, Metadata, MetadataView,
};
use crate::value::{Row, Value};
use vstd::prelude::*;

verus! {

/// A table as it was read: the names of its columns, in the order of the
/// schema, and its rows, in the order in which the store gave them.
pub struct Table {
    pub columns: Vec<String>,
    pub rows: Vec<Row>,
}

/// The five tables of a result store. A table that the store does not have
/// is `None`.
pub struct Tables {
    pub file: Option<Table>,
    pub metadata: Option<Table>,
    pub function: Option<Table>,
    pub basicblock: Option<Table>,
    pub instruction: Option<Table>,
}

impl Tables {
    /// True when all five tables are there.
    pub open spec fn complete(&self) -> bool {
        &&& self.file is Some
        &&& self.metadata is Some
        &&& self.function is Some
        &&& self.basicblock is Some
        &&& self.instruction is Some
    }
}

/// A result store whose five tables were found. It holds the tables as they
/// were read and no handle to where they came from.
pub struct BinDiff {
    file: Table,
    metadata: Table,
    function: Table,
    basicblock: Table,
    instruction: Table,
}

/// The only row of a table: a table with no row or with several has none.
pub open spec fn only_row(rows: Seq<Row>) -> Result<Seq<Value>, Error> {
    if rows.len() == 1 {
        Ok(rows[0]@)
    } else {
        Err(Error::CardinalityError)
    }
}

/// The file description that a `file` table gives: that of its only row. A
/// table with other columns does not fit the schema.
pub open spec fn file_of_table(table: Table) -> Result<FileView, Error> {
    if !file_columns_fit(table.columns@) {
        Err(Error::SchemaMismatch)
    } else {
        match only_row(table.rows@) {
            Ok(row) => file_of_row(row),
            Err(e) => Err(e),
        }
    }
}

/// The comparison that a `metadata` table gives: that of its only row. A
/// table with other columns does not fit the schema.
pub open spec fn metadata_of_table(table: Table) -> Result<MetadataView, Error> {
    if !metadata_columns_fit(table.columns@) {
        Err(Error::SchemaMismatch)
    } else {
        match only_row(table.rows@) {
            Ok(row) => metadata_of_row(row),
            Err(e) => Err(e),
        }
    }
}

/// What the rows of a table decode to, each by `decode`: the records in the
/// order of the rows, or the error of the first row that does not decode.
pub open spec fn rows_decoded<T>(
    rows: Seq<Row>,
    decode: spec_fn(Seq<Value>) -> Result<T, Error>,
) -> Result<Seq<T>, Error>
    decreases rows.len(),
{
    if rows.len() == 0 {
        Ok(Seq::empty())
    } else {
        match rows_decoded(rows.drop_last(), decode) {
            Err(e) => Err(e),
            Ok(before) => match decode(rows.last()@) {
                Err(e) => Err(e),
                Ok(record) => Ok(before.push(record)),
            },
        }
    }
}

/// How a row of the `function` table decodes.
pub open spec fn function_decoder() -> spec_fn(Seq<Value>) -> Result<FunctionMatchView, Error> {
    |row: Seq<Value>| function_match_of_row(row)
}

/// The function matches that a `function` table gives. A table with other columns
/// does not fit the schema.
pub open spec fn function_matches_of(table: Table) -> Result<Seq<FunctionMatchView>, Error> {
    if !function_match_columns_fit(table.columns@) {
        Err(Error::SchemaMismatch)
    } else {
        rows_decoded(table.rows@, function_decoder())
    }
}

/// How a row of the `basicblock` table decodes.
pub open spec fn basic_block_decoder() -> spec_fn(Seq<Value>) -> Result<BasicBlockMatchView, Error> {
    |row: Seq<Value>| basic_block_match_of_row(row)
}

/// The basic block matches that a `basicblock` table gives. A table with other columns
/// does not fit the schema.
pub open spec fn basic_block_matches_of(table: Table) -> Result<Seq<BasicBlockMatchView>, Error> {
    if !basic_block_match_columns_fit(table.columns@) {
        Err(Error::SchemaMismatch)
    } else {
        rows_decoded(table.rows@, basic_block_decoder())
    }
}

/// How a row of the `instruction` table decodes.
pub open spec fn instruction_decoder() -> spec_fn(Seq<Value>) -> Result<InstructionView, Error> {
    |row: Seq<Value>| instruction_of_row(row)
}

/// The instruction matches that an `instruction` table gives. A table with other columns
/// does not fit the schema.
pub open spec fn instruction_matches_of(table: Table) -> Result<Seq<InstructionView>, Error> {
    if !instruction_columns_fit(table.columns@) {
        Err(Error::SchemaMismatch)
    } else {
        rows_decoded(table.rows@, instruction_decoder())
    }
}

/// Where a table decodes, it gives one record for each row.
pub proof fn lemma_one_record_per_row<T>(
    rows: Seq<Row>,
    decode: spec_fn(Seq<Value>) -> Result<T, Error>,
)
    ensures
        rows_decoded(rows, decode) matches Ok(records) ==> records.len() == rows.len(),
    decreases rows.len(),
{
    if rows.len() > 0 {
        lemma_one_record_per_row(rows.drop_last(), decode);
    }
}

/// The records come in the order of the rows: where a table decodes, each
/// record is what its own row decodes to.
pub proof fn lemma_records_follow_rows<T>(
    rows: Seq<Row>,
    decode: spec_fn(Seq<Value>) -> Result<T, Error>,
    i: int,
)
    requires
        rows_decoded(rows, decode) is Ok,
        0 <= i < rows.len(),
    ensures
        rows_decoded(rows, decode)->Ok_0.len() == rows.len(),
        decode(rows[i]@) == Ok::<T, Error>(rows_decoded(rows, decode)->Ok_0[i]),
    decreases rows.len(),
{
    lemma_one_record_per_row(rows, decode);
    lemma_one_record_per_row(rows.drop_last(), decode);
    if i < rows.len() - 1 {
        lemma_records_follow_rows(rows.drop_last(), decode, i);
    }
}

/// For every store, the count of each table of matches is the number of
/// records that reading it gives, whenever the read succeeds.
pub proof fn lemma_count_is_number_read(store: BinDiff)
    ensures
        function_matches_of(store.function_table()) matches Ok(records) ==> records.len()
            == store.function_table().rows@.len(),
        basic_block_matches_of(store.basic_block_table()) matches Ok(records) ==> records.len()
            == store.basic_block_table().rows@.len(),
        instruction_matches_of(store.instruction_table()) matches Ok(records) ==> records.len()
            == store.instruction_table().rows@.len(),
{
    lemma_one_record_per_row(store.function_table().rows@, function_decoder());
    lemma_one_record_per_row(store.basic_block_table().rows@, basic_block_decoder());
    lemma_one_record_per_row(store.instruction_table().rows@, instruction_decoder());
}

/// A store whose table of function matches has its columns and no row
/// reads as the empty sequence, not as an error; so do the other two tables
/// of matches.
pub proof fn lemma_empty_table_reads_empty(store: BinDiff)
    ensures
        function_match_columns_fit(store.function_table().columns@)
            && store.function_table().rows@.len() == 0 ==> function_matches_of(
            store.function_table(),
        ) == Ok::<Seq<FunctionMatchView>, Error>(Seq::empty()),
        basic_block_match_columns_fit(store.basic_block_table().columns@)
            && store.basic_block_table().rows@.len() == 0 ==> basic_block_matches_of(
            store.basic_block_table(),
        ) == Ok::<Seq<BasicBlockMatchView>, Error>(Seq::empty()),
        instruction_columns_fit(store.instruction_table().columns@)
            && store.instruction_table().rows@.len() == 0 ==> instruction_matches_of(
            store.instruction_table(),
        ) == Ok::<Seq<InstructionView>, Error>(Seq::empty()),
{
}

/// In a table whose columns stand in another order, or carry other names,
/// nothing is read: no record is filled from a column that is not its own.
pub proof fn lemma_other_columns_read_nothing(store: BinDiff)
    ensures
        !file_columns_fit(store.file_table().columns@) ==> file_of_table(store.file_table())
            == Err::<FileView, Error>(Error::SchemaMismatch),
        !metadata_columns_fit(store.metadata_table().columns@) ==> metadata_of_table(
            store.metadata_table(),
        ) == Err::<MetadataView, Error>(Error::SchemaMismatch),
        !function_match_columns_fit(store.function_table().columns@) ==> function_matches_of(
            store.function_table(),
        ) == Err::<Seq<FunctionMatchView>, Error>(Error::SchemaMismatch),
        !basic_block_match_columns_fit(store.basic_block_table().columns@)
            ==> basic_block_matches_of(store.basic_block_table()) == Err::<
            Seq<BasicBlockMatchView>,
            Error,
        >(Error::SchemaMismatch),
        !instruction_columns_fit(store.instruction_table().columns@) ==> instruction_matches_of(
            store.instruction_table(),
        ) == Err::<Seq<InstructionView>, Error>(Error::SchemaMismatch),
{
}

/// The only row of a table.
pub fn single_row(rows: &Vec<Row>) -> (r: Result<&Row, Error>)
    ensures
        match r {
            Ok(row) => only_row(rows@) == Ok::<Seq<Value>, Error>(row@),
            Err(e) => only_row(rows@) == Err::<Seq<Value>, Error>(e),
        },
{
    if rows.len() == 1 {
        Ok(&rows[0])
    } else {
        Err(Error::CardinalityError)
    }
}

impl BinDiff {
    /// The `file` table.
    pub closed spec fn file_table(&self) -> Table {
        self.file
    }

    /// The `metadata` table.
    pub closed spec fn metadata_table(&self) -> Table {
        self.metadata
    }

    /// The `function` table.
    pub closed spec fn function_table(&self) -> Table {
        self.function
    }

    /// The `basicblock` table.
    pub closed spec fn basic_block_table(&self) -> Table {
        self.basicblock
    }

    /// The `instruction` table.
    pub closed spec fn instruction_table(&self) -> Table {
        self.instruction
    }

    /// Makes a store of the tables that were read. A store that lacks one
    /// of the five tables does not fit the schema.
    pub fn open(tables: Tables) -> (r: Result<BinDiff, Error>)
        ensures
            match r {
                Ok(store) => {
                    &&& tables.complete()
                    &&& store.file_table() == tables.file->Some_0
                    &&& store.metadata_table() == tables.metadata->Some_0
                    &&& store.function_table() == tables.function->Some_0
                    &&& store.basic_block_table() == tables.basicblock->Some_0
                    &&& store.instruction_table() == tables.instruction->Some_0
                },
                Err(e) => !tables.complete() && e == Error::SchemaMismatch,
            },
    {
        match (tables.file, tables.metadata, tables.function, tables.basicblock, tables.instruction) {
            (Some(file), Some(metadata), Some(function), Some(basicblock), Some(instruction)) => {
                Ok(BinDiff { file, metadata, function, basicblock, instruction })
            },
            _ => Err(Error::SchemaMismatch),
        }
    }

    /// The description of the comparison. The `metadata` table must hold
    /// exactly one row.
    pub fn read_metadata(&self) -> (r: Result<Metadata, Error>)
        ensures
            match r {
                Ok(m) => metadata_of_table(self.metadata_table()) == Ok::<MetadataView, Error>(m@),
                Err(e) => metadata_of_table(self.metadata_table()) == Err::<MetadataView, Error>(
                    e,
                ),
            },
            r matches Ok(m) ==> m.well_formed(),
    {
        if !Metadata::columns_fit(&self.metadata.columns) {
            return Err(Error::SchemaMismatch);
        }
        let row = single_row(&self.metadata.rows)?;
        Metadata::from_row(row)
    }

    /// The description of the compared file. The `file` table must hold
    /// exactly one row.
    pub fn read_file(&self) -> (r: Result<File, Error>)
        ensures
            match r {
                Ok(f) => file_of_table(self.file_table()) == Ok::<FileView, Error>(f@),
                Err(e) => file_of_table(self.file_table()) == Err::<FileView, Error>(e),
            },
            r matches Ok(f) ==> f.well_formed(),
    {
        if !File::columns_fit(&self.file.columns) {
            return Err(Error::SchemaMismatch);
        }
        let row = single_row(&self.file.rows)?;
        File::from_row(row)
    }

    /// The number of function matches: the rows of the `function` table,
    /// whatever its columns.
    pub fn count_function_matches(&self) -> (r: Result<usize, Error>)
        ensures
            r == Ok::<usize, Error>(self.function_table().rows@.len() as usize),
            self.function_table().rows@.len() <= usize::MAX,
    {
        Ok(self.function.rows.len())
    }

    /// All function matches, in the order of the rows. One row that does
    /// not decode fails the whole read.
    pub fn read_function_matches(&self) -> (r: Result<Vec<FunctionMatch>, Error>)
        ensures
            match r {
                Ok(v) => function_matches_of(self.function_table()) == Ok::<
                    Seq<FunctionMatchView>,
                    Error,
                >(v.deep_view()),
                Err(e) => function_matches_of(self.function_table()) == Err::<
                    Seq<FunctionMatchView>,
                    Error,
                >(e),
            },
            r matches Ok(v) ==> v.len() == self.function_table().rows@.len(),
            r matches Ok(v) ==> forall|i: int| 0 <= i < v.len() ==> (#[trigger] v[i]).well_formed(),
    {
        if !FunctionMatch::columns_fit(&self.function.columns) {
            return Err(Error::SchemaMismatch);
        }
        let ghost decode = function_decoder();
        let mut out: Vec<FunctionMatch> = Vec::new();
        let mut i: usize = 0;
        proof {
            assert(out.deep_view() =~= Seq::empty());
        }
        while i < self.function.rows.len()
            invariant
                function_match_columns_fit(self.function.columns@),
                i <= self.function.rows.len(),
                out.len() == i,
                decode == function_decoder(),
                rows_decoded(self.function.rows@.take(i as int), decode) == Ok::<
                    Seq<FunctionMatchView>,
                    Error,
                >(out.deep_view()),
                forall|k: int| 0 <= k < out.len() ==> (#[trigger] out[k]).well_formed(),
            decreases self.function.rows.len() - i,
        {
            let ghost before = out.deep_view();
            proof {
                assert(self.function.rows@.take(i + 1).drop_last() =~= self.function.rows@.take(i as int));
            }
            match FunctionMatch::from_row(&self.function.rows[i]) {
                Ok(record) => {
                    out.push(record);
                    proof {
                        assert(out.deep_view() =~= before.push(record@));
                    }
                },
                Err(e) => {
                    proof {
                        lemma_failed_row_fails_table(self.function.rows@, decode, i as int);
                    }
                    return Err(e);
                },
            }
            i = i + 1;
        }
        proof {
            assert(self.function.rows@.take(i as int) =~= self.function.rows@);
        }
        Ok(out)
    }

    /// The number of basic block matches: the rows of the `basicblock`
    /// table, whatever its columns.
    pub fn count_basic_block_matches(&self) -> (r: Result<usize, Error>)
        ensures
            r == Ok::<usize, Error>(self.basic_block_table().rows@.len() as usize),
            self.basic_block_table().rows@.len() <= usize::MAX,
    {
        Ok(self.basicblock.rows.len())
    }

    /// All basic block matches, in the order of the rows. One row that does
    /// not decode fails the whole read.
    pub fn read_basic_block_matches(&self) -> (r: Result<Vec<BasicBlockMatch>, Error>)
        ensures
            match r {
                Ok(v) => basic_block_matches_of(self.basic_block_table()) == Ok::<
                    Seq<BasicBlockMatchView>,
                    Error,
                >(v.deep_view()),
                Err(e) => basic_block_matches_of(self.basic_block_table()) == Err::<
                    Seq<BasicBlockMatchView>,
                    Error,
                >(e),
            },
            r matches Ok(v) ==> v.len() == self.basic_block_table().rows@.len(),
    {
        if !BasicBlockMatch::columns_fit(&self.basicblock.columns) {
            return Err(Error::SchemaMismatch);
        }
        let ghost decode = basic_block_decoder();
        let mut out: Vec<BasicBlockMatch> = Vec::new();
        let mut i: usize = 0;
        proof {
            assert(out.deep_view() =~= Seq::empty());
        }
        while i < self.basicblock.rows.len()
            invariant
                basic_block_match_columns_fit(self.basicblock.columns@),
                i <= self.basicblock.rows.len(),
                out.len() == i,
                decode == basic_block_decoder(),
                rows_decoded(self.basicblock.rows@.take(i as int), decode) == Ok::<
                    Seq<BasicBlockMatchView>,
                    Error,
                >(out.deep_view()),
            decreases self.basicblock.rows.len() - i,
        {
            let ghost before = out.deep_view();
            proof {
                assert(self.basicblock.rows@.take(i + 1).drop_last() =~= self.basicblock.rows@.take(i as int));
            }
            match BasicBlockMatch::from_row(&self.basicblock.rows[i]) {
                Ok(record) => {
                    out.push(record);
                    proof {
                        assert(out.deep_view() =~= before.push(record@));
                    }
                },
                Err(e) => {
                    proof {
                        lemma_failed_row_fails_table(self.basicblock.rows@, decode, i as int);
                    }
                    return Err(e);
                },
            }
            i = i + 1;
        }
        proof {
            assert(self.basicblock.rows@.take(i as int) =~= self.basicblock.rows@);
        }
        Ok(out)
    }

    /// The number of instruction matches: the rows of the `instruction`
    /// table, whatever its columns.
    pub fn count_instruction_matches(&self) -> (r: Result<usize, Error>)
        ensures
            r == Ok::<usize, Error>(self.instruction_table().rows@.len() as usize),
            self.instruction_table().rows@.len() <= usize::MAX,
    {
        Ok(self.instruction.rows.len())
    }

    /// All instruction matches, in the order of the rows. One row that does
    /// not decode fails the whole read.
    pub fn read_instruction_matches(&self) -> (r: Result<Vec<Instruction>, Error>)
        ensures
            match r {
                Ok(v) => instruction_matches_of(self.instruction_table()) == Ok::<
                    Seq<InstructionView>,
                    Error,
                >(v.deep_view()),
                Err(e) => instruction_matches_of(self.instruction_table()) == Err::<
                    Seq<InstructionView>,
                    Error,
                >(e),
            },
            r matches Ok(v) ==> v.len() == self.instruction_table().rows@.len(),
    {
        if !Instruction::columns_fit(&self.instruction.columns) {
            return Err(Error::SchemaMismatch);
        }
        let ghost decode = instruction_decoder();
        let mut out: Vec<Instruction> = Vec::new();
        let mut i: usize = 0;
        proof {
            assert(out.deep_view() =~= Seq::empty());
        }
        while i < self.instruction.rows.len()
            invariant
                instruction_columns_fit(self.instruction.columns@),
                i <= self.instruction.rows.len(),
                out.len() == i,
                decode == instruction_decoder(),
                rows_decoded(self.instruction.rows@.take(i as int), decode) == Ok::<
                    Seq<InstructionView>,
                    Error,
                >(out.deep_view()),
            decreases self.instruction.rows.len() - i,
        {
            let ghost before = out.deep_view();
            proof {
                assert(self.instruction.rows@.take(i + 1).drop_last() =~= self.instruction.rows@.take(i as int));
            }
            match Instruction::from_row(&self.instruction.rows[i]) {
                Ok(record) => {
                    out.push(record);
                    proof {
                        assert(out.deep_view() =~= before.push(record@));
                    }
                },
                Err(e) => {
                    proof {
                        lemma_failed_row_fails_table(self.instruction.rows@, decode, i as int);
                    }
                    return Err(e);
                },
            }
            i = i + 1;
        }
        proof {
            assert(self.instruction.rows@.take(i as int) =~= self.instruction.rows@);
        }
        Ok(out)
    }
}

/// Where the rows before row `i` decode and row `i` does not, the table
/// fails with the error of row `i`.
proof fn lemma_failed_row_fails_table<T>(
    rows: Seq<Row>,
    decode: spec_fn(Seq<Value>) -> Result<T, Error>,
    i: int,
)
    requires
        0 <= i < rows.len(),
        rows_decoded(rows.take(i), decode) is Ok,
        decode(rows[i]@) is Err,
    ensures
        rows_decoded(rows, decode) == Err::<Seq<T>, Error>(decode(rows[i]@)->Err_0),
    decreases rows.len(),
{
    if i == rows.len() - 1 {
        assert(rows.drop_last() =~= rows.take(i));
    } else {
        assert(rows.drop_last().take(i) =~= rows.take(i));
        lemma_failed_row_fails_table(rows.drop_last(), decode, i);
    }
}

} // verus!
