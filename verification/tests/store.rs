use bindiff_rs::algorithm::{BasicBlockAlgorithm, FunctionAlgorithm};
use bindiff_rs::bindiff::{single_row, BinDiff, Table, Tables};
use bindiff_rs::error::Error;
use bindiff_rs::value::{Timestamp, Value};

fn cell_text(s: &str) -> Value {
    Value::Text(s.as_bytes().to_vec())
}

fn one_file_row() -> Vec<Value> {
    vec![
        Value::Integer(1),
        cell_text("a.out"),
        cell_text("a.out.exe"),
        cell_text("0123abcd"),
        Value::Integer(120),
        Value::Integer(0),
        Value::Integer(0),
        Value::Integer(450),
        Value::Integer(0),
        Value::Integer(0),
        Value::Integer(0),
        Value::Integer(0),
        Value::Integer(0),
    ]
}

fn one_metadata_row() -> Vec<Value> {
    vec![
        cell_text("BinDiff 8"),
        Value::Integer(1),
        Value::Integer(2),
        cell_text(""),
        cell_text("2024-05-17 08:30:00"),
        Value::Integer(1715934600),
        Value::Real(1.0f64.to_bits()),
        Value::Integer(1),
    ]
}

fn one_function_row(id: i64, name1: &str, name2: &str) -> Vec<Value> {
    vec![
        Value::Integer(id),
        Value::Integer(16 * id),
        cell_text(name1),
        Value::Integer(32 * id),
        cell_text(name2),
        Value::Real(0.5f64.to_bits()),
        Value::Real(0.25f64.to_bits()),
        Value::Integer(0),
        Value::Integer(id),
        Value::Integer(0),
        Value::Integer(1),
        Value::Integer(1),
        Value::Integer(2),
        Value::Integer(3),
    ]
}

fn one_basic_block_row(id: i64) -> Vec<Value> {
    vec![
        Value::Integer(id),
        Value::Integer(1),
        Value::Integer(16 * id),
        Value::Integer(32 * id),
        Value::Integer(20),
        Value::Integer(0),
    ]
}

fn one_instruction_row(id: i64) -> Vec<Value> {
    vec![Value::Integer(id), Value::Integer(16 * id), Value::Integer(32 * id)]
}

const FILE_NAMES: [&str; 13] = [
    "id", "filename", "exefilename", "hash", "functions", "libfunctions", "calls", "basicblocks",
    "libbasicblocks", "edges", "libedges", "instructions", "libinstructions",
];
const METADATA_NAMES: [&str; 8] = [
    "version", "file1", "file2", "description", "created", "modified", "similarity", "confidence",
];
const FUNCTION_NAMES: [&str; 14] = [
    "id", "address1", "name1", "address2", "name2", "similarity", "confidence", "flags",
    "algorithm", "evaluate", "commentsported", "basicblocks", "edges", "instructions",
];
const BASIC_BLOCK_NAMES: [&str; 6] =
    ["id", "functionid", "address1", "address2", "algorithm", "evaluate"];
const INSTRUCTION_NAMES: [&str; 3] = ["basicblockid", "address1", "address2"];

fn table(names: &[&str], rows: Vec<Vec<Value>>) -> Option<Table> {
    Some(Table { columns: names.iter().map(|n| n.to_string()).collect(), rows })
}

fn file_table(rows: Vec<Vec<Value>>) -> Option<Table> {
    table(&FILE_NAMES, rows)
}

fn metadata_table(rows: Vec<Vec<Value>>) -> Option<Table> {
    table(&METADATA_NAMES, rows)
}

fn function_table(rows: Vec<Vec<Value>>) -> Option<Table> {
    table(&FUNCTION_NAMES, rows)
}

fn basic_block_table(rows: Vec<Vec<Value>>) -> Option<Table> {
    table(&BASIC_BLOCK_NAMES, rows)
}

fn instruction_table(rows: Vec<Vec<Value>>) -> Option<Table> {
    table(&INSTRUCTION_NAMES, rows)
}

fn full_tables() -> Tables {
    Tables {
        file: file_table(vec![one_file_row()]),
        metadata: metadata_table(vec![one_metadata_row()]),
        function: function_table(vec![
            one_function_row(1, "main", "main"),
            one_function_row(2, "init", "setup"),
            one_function_row(3, "exit", "exit"),
        ]),
        basicblock: basic_block_table(vec![one_basic_block_row(1), one_basic_block_row(2)]),
        instruction: instruction_table(vec![
            one_instruction_row(1),
            one_instruction_row(2),
            one_instruction_row(3),
            one_instruction_row(4),
        ]),
    }
}

#[test]
fn store_with_all_tables_opens() {
    assert!(BinDiff::open(full_tables()).is_ok());
}

#[test]
fn store_without_a_table_does_not_fit_the_schema() {
    let mut tables = full_tables();
    tables.file = None;
    assert_eq!(BinDiff::open(tables).err(), Some(Error::SchemaMismatch));
    let mut tables = full_tables();
    tables.metadata = None;
    assert_eq!(BinDiff::open(tables).err(), Some(Error::SchemaMismatch));
    let mut tables = full_tables();
    tables.function = None;
    assert_eq!(BinDiff::open(tables).err(), Some(Error::SchemaMismatch));
    let mut tables = full_tables();
    tables.basicblock = None;
    assert_eq!(BinDiff::open(tables).err(), Some(Error::SchemaMismatch));
    let mut tables = full_tables();
    tables.instruction = None;
    assert_eq!(BinDiff::open(tables).err(), Some(Error::SchemaMismatch));
    let none =
        Tables { file: None, metadata: None, function: None, basicblock: None, instruction: None };
    assert_eq!(BinDiff::open(none).err(), Some(Error::SchemaMismatch));
}

#[test]
fn file_record_has_the_integers_of_its_row() {
    let store = BinDiff::open(full_tables()).unwrap();
    let file = store.read_file().unwrap();
    assert_eq!(file.functions, 120);
    assert_eq!(file.basic_blocks, 450);
    assert_eq!(file.filename, "a.out");
    assert!(file.to_string().lines().any(|line| line == "  functions:        120"));
}

#[test]
fn file_table_must_hold_exactly_one_row() {
    let mut tables = full_tables();
    tables.file = file_table(Vec::new());
    assert_eq!(BinDiff::open(tables).unwrap().read_file(), Err(Error::CardinalityError));
    let mut tables = full_tables();
    tables.file = file_table(vec![one_file_row(), one_file_row()]);
    assert_eq!(BinDiff::open(tables).unwrap().read_file(), Err(Error::CardinalityError));
}

#[test]
fn metadata_table_must_hold_exactly_one_row() {
    let mut tables = full_tables();
    tables.metadata = metadata_table(Vec::new());
    assert_eq!(BinDiff::open(tables).unwrap().read_metadata(), Err(Error::CardinalityError));
    let mut tables = full_tables();
    tables.metadata = metadata_table(vec![one_metadata_row(), one_metadata_row(), one_metadata_row()]);
    assert_eq!(BinDiff::open(tables).unwrap().read_metadata(), Err(Error::CardinalityError));
}

#[test]
fn single_row_is_the_only_row() {
    let none: Vec<Vec<Value>> = Vec::new();
    assert_eq!(single_row(&none), Err(Error::CardinalityError));
    let one = vec![vec![Value::Integer(1)]];
    assert_eq!(single_row(&one), Ok(&vec![Value::Integer(1)]));
    let two = vec![vec![Value::Integer(1)], vec![Value::Integer(2)]];
    assert_eq!(single_row(&two), Err(Error::CardinalityError));
}

#[test]
fn metadata_record_reads_its_row() {
    let store = BinDiff::open(full_tables()).unwrap();
    let metadata = store.read_metadata().unwrap();
    assert_eq!(metadata.version, "BinDiff 8");
    assert_eq!(metadata.created, Timestamp { secs: 1715934600, nanos: 0 });
    assert_eq!(metadata.modified, Timestamp { secs: 1715934600, nanos: 0 });
    assert_eq!(f64::from_bits(metadata.similarity.bits), 1.0);
    assert_eq!(f64::from_bits(metadata.confidence.bits), 1.0);
}

#[test]
fn a_malformed_only_row_fails_the_read() {
    let mut tables = full_tables();
    let mut row = one_file_row();
    row[4] = cell_text("120");
    tables.file = file_table(vec![row]);
    assert_eq!(BinDiff::open(tables).unwrap().read_file(), Err(Error::DecodeError));
    let mut tables = full_tables();
    tables.file = file_table(vec![vec![Value::Integer(1)]]);
    assert_eq!(BinDiff::open(tables).unwrap().read_file(), Err(Error::SchemaMismatch));
}

#[test]
fn counts_equal_the_lengths_of_what_is_read() {
    let store = BinDiff::open(full_tables()).unwrap();
    assert_eq!(store.count_function_matches(), Ok(3));
    assert_eq!(store.read_function_matches().unwrap().len(), 3);
    assert_eq!(store.count_basic_block_matches(), Ok(2));
    assert_eq!(store.read_basic_block_matches().unwrap().len(), 2);
    assert_eq!(store.count_instruction_matches(), Ok(4));
    assert_eq!(store.read_instruction_matches().unwrap().len(), 4);
}

#[test]
fn counts_equal_the_lengths_for_many_sizes() {
    for n in [0usize, 1, 2, 17, 100] {
        let mut tables = full_tables();
        tables.function = function_table((0..n).map(|i| one_function_row(i as i64, "f", "g")).collect());
        tables.basicblock = basic_block_table((0..2 * n).map(|i| one_basic_block_row(i as i64)).collect());
        tables.instruction = instruction_table((0..3 * n).map(|i| one_instruction_row(i as i64)).collect());
        let store = BinDiff::open(tables).unwrap();
        assert_eq!(store.count_function_matches().unwrap(), store.read_function_matches().unwrap().len());
        assert_eq!(store.count_function_matches().unwrap(), n);
        assert_eq!(
            store.count_basic_block_matches().unwrap(),
            store.read_basic_block_matches().unwrap().len()
        );
        assert_eq!(store.count_basic_block_matches().unwrap(), 2 * n);
        assert_eq!(
            store.count_instruction_matches().unwrap(),
            store.read_instruction_matches().unwrap().len()
        );
        assert_eq!(store.count_instruction_matches().unwrap(), 3 * n);
    }
}

#[test]
fn empty_tables_read_as_empty_sequences() {
    let mut tables = full_tables();
    tables.function = function_table(Vec::new());
    tables.basicblock = basic_block_table(Vec::new());
    tables.instruction = instruction_table(Vec::new());
    let store = BinDiff::open(tables).unwrap();
    assert_eq!(store.count_function_matches(), Ok(0));
    assert_eq!(store.read_function_matches(), Ok(Vec::new()));
    assert_eq!(store.count_basic_block_matches(), Ok(0));
    assert_eq!(store.read_basic_block_matches(), Ok(Vec::new()));
    assert_eq!(store.count_instruction_matches(), Ok(0));
    assert_eq!(store.read_instruction_matches(), Ok(Vec::new()));
}

#[test]
fn function_matches_come_in_row_order() {
    let store = BinDiff::open(full_tables()).unwrap();
    let matches = store.read_function_matches().unwrap();
    assert_eq!(matches.len(), 3);
    assert_eq!(matches.iter().map(|m| m.id).collect::<Vec<i64>>(), vec![1, 2, 3]);
    assert_eq!(matches[0].name1, "main");
    assert_eq!(matches[1].name1, "init");
    assert_eq!(matches[1].name2, "setup");
    assert_eq!(matches[2].name1, "exit");
    assert_eq!(matches[0].algorithm, FunctionAlgorithm::NameHashMatching);
    assert_eq!(matches[1].algorithm, FunctionAlgorithm::HashMatching);
    assert_eq!(matches[2].algorithm, FunctionAlgorithm::EdgesFlowgraphMdIndex);
}

#[test]
fn function_matches_with_equal_names_use_the_single_name_form() {
    let store = BinDiff::open(full_tables()).unwrap();
    let matches = store.read_function_matches().unwrap();
    assert_eq!(matches.len(), 3);
    let lines: Vec<String> = matches
        .iter()
        .map(|m| {
            m.render(
                &format!("{:.2}", f64::from_bits(m.similarity.bits)),
                &format!("{:.2}", f64::from_bits(m.confidence.bits)),
            )
        })
        .collect();
    assert_eq!(lines[0], "main:\tsimilarity: 0.50, confidence: 0.25");
    assert_eq!(
        lines[1],
        "init -> setup\tsimilarity: 0.50, confidence: 0.25, algorithm: hash matching"
    );
    assert_eq!(lines[2], "exit:\tsimilarity: 0.50, confidence: 0.25");
    assert!(!lines[0].contains("->"));
    assert!(!lines[2].contains("->"));
}

#[test]
fn rows_are_not_sorted() {
    let mut tables = full_tables();
    tables.instruction = instruction_table(vec![
        one_instruction_row(9),
        one_instruction_row(2),
        one_instruction_row(5),
    ]);
    tables.basicblock = basic_block_table(vec![one_basic_block_row(4), one_basic_block_row(1)]);
    let store = BinDiff::open(tables).unwrap();
    let instructions = store.read_instruction_matches().unwrap();
    assert_eq!(instructions.iter().map(|m| m.id).collect::<Vec<i64>>(), vec![9, 2, 5]);
    let blocks = store.read_basic_block_matches().unwrap();
    assert_eq!(blocks.iter().map(|m| m.id).collect::<Vec<i64>>(), vec![4, 1]);
    assert_eq!(blocks[0].algorithm, BasicBlockAlgorithm::Manual);
}

#[test]
fn one_malformed_row_fails_the_whole_table() {
    let mut tables = full_tables();
    let mut bad = one_function_row(2, "init", "setup");
    bad[2] = Value::Null;
    tables.function = function_table(vec![
        one_function_row(1, "main", "main"),
        bad,
        one_function_row(3, "exit", "exit"),
    ]);
    let store = BinDiff::open(tables).unwrap();
    assert_eq!(store.read_function_matches(), Err(Error::DecodeError));
    assert_eq!(store.count_function_matches(), Ok(3));
}

#[test]
fn the_first_malformed_row_gives_the_error() {
    let mut tables = full_tables();
    let mut wrong_cell = one_instruction_row(2);
    wrong_cell[1] = Value::Null;
    let short = vec![Value::Integer(3)];
    tables.instruction = instruction_table(vec![one_instruction_row(1), short.clone(), wrong_cell.clone()]);
    let store = BinDiff::open(tables).unwrap();
    assert_eq!(store.read_instruction_matches(), Err(Error::SchemaMismatch));
    let mut tables = full_tables();
    tables.instruction = instruction_table(vec![one_instruction_row(1), wrong_cell, short]);
    let store = BinDiff::open(tables).unwrap();
    assert_eq!(store.read_instruction_matches(), Err(Error::DecodeError));
    let mut tables = full_tables();
    tables.basicblock = basic_block_table(vec![one_basic_block_row(1), vec![Value::Null]]);
    let store = BinDiff::open(tables).unwrap();
    assert_eq!(store.read_basic_block_matches(), Err(Error::SchemaMismatch));
}

#[test]
fn a_table_with_its_columns_in_another_order_does_not_fit_the_schema() {
    let mut names: Vec<&str> = FUNCTION_NAMES.to_vec();
    names.swap(1, 3);
    let mut rows = vec![one_function_row(1, "main", "main")];
    rows[0].swap(1, 3);
    let mut tables = full_tables();
    tables.function = table(&names, rows);
    let store = BinDiff::open(tables).unwrap();
    assert_eq!(store.read_function_matches(), Err(Error::SchemaMismatch));
    assert_eq!(store.count_function_matches(), Ok(1));

    let mut names: Vec<&str> = FILE_NAMES.to_vec();
    names.swap(4, 7);
    let mut tables = full_tables();
    tables.file = table(&names, vec![one_file_row()]);
    assert_eq!(BinDiff::open(tables).unwrap().read_file(), Err(Error::SchemaMismatch));

    let mut names: Vec<&str> = METADATA_NAMES.to_vec();
    names.swap(1, 2);
    let mut tables = full_tables();
    tables.metadata = table(&names, vec![one_metadata_row()]);
    assert_eq!(BinDiff::open(tables).unwrap().read_metadata(), Err(Error::SchemaMismatch));

    let mut names: Vec<&str> = BASIC_BLOCK_NAMES.to_vec();
    names.swap(2, 3);
    let mut tables = full_tables();
    tables.basicblock = table(&names, vec![one_basic_block_row(1)]);
    assert_eq!(BinDiff::open(tables).unwrap().read_basic_block_matches(), Err(Error::SchemaMismatch));

    let mut names: Vec<&str> = INSTRUCTION_NAMES.to_vec();
    names.swap(1, 2);
    let mut tables = full_tables();
    tables.instruction = table(&names, vec![one_instruction_row(1)]);
    assert_eq!(BinDiff::open(tables).unwrap().read_instruction_matches(), Err(Error::SchemaMismatch));
}

#[test]
fn a_table_with_a_renamed_or_missing_column_does_not_fit_the_schema() {
    let mut names: Vec<&str> = FUNCTION_NAMES.to_vec();
    names[10] = "commentsupported";
    let mut tables = full_tables();
    tables.function = table(&names, vec![one_function_row(1, "main", "main")]);
    assert_eq!(BinDiff::open(tables).unwrap().read_function_matches(), Err(Error::SchemaMismatch));

    let mut names: Vec<&str> = FUNCTION_NAMES.to_vec();
    names[0] = "ID";
    let mut tables = full_tables();
    tables.function = table(&names, Vec::new());
    assert_eq!(BinDiff::open(tables).unwrap().read_function_matches(), Err(Error::SchemaMismatch));

    let mut tables = full_tables();
    tables.instruction = table(&INSTRUCTION_NAMES[..2], Vec::new());
    assert_eq!(BinDiff::open(tables).unwrap().read_instruction_matches(), Err(Error::SchemaMismatch));

    let mut tables = full_tables();
    tables.file = table(&[], vec![one_file_row()]);
    assert_eq!(BinDiff::open(tables).unwrap().read_file(), Err(Error::SchemaMismatch));
}

#[test]
fn the_columns_are_looked_at_before_the_rows() {
    let mut names: Vec<&str> = FILE_NAMES.to_vec();
    names.swap(1, 2);
    let mut tables = full_tables();
    tables.file = table(&names, Vec::new());
    assert_eq!(BinDiff::open(tables).unwrap().read_file(), Err(Error::SchemaMismatch));
    let mut tables = full_tables();
    tables.file = file_table(Vec::new());
    assert_eq!(BinDiff::open(tables).unwrap().read_file(), Err(Error::CardinalityError));
}

#[test]
fn a_table_may_have_more_columns_after_its_own() {
    let mut names: Vec<&str> = INSTRUCTION_NAMES.to_vec();
    names.push("note");
    let mut row = one_instruction_row(1);
    row.push(Value::Null);
    let mut tables = full_tables();
    tables.instruction = table(&names, vec![row]);
    let store = BinDiff::open(tables).unwrap();
    assert_eq!(store.read_instruction_matches().unwrap().len(), 1);
}

fn rows_of(connection: &rusqlite::Connection, table: &str) -> Option<Table> {
    let mut statement = connection.prepare(&format!("SELECT * FROM {}", table)).ok()?;
    let names: Vec<String> = statement.column_names().iter().map(|n| n.to_string()).collect();
    let columns = statement.column_count();
    let mut rows = statement.query(()).ok()?;
    let mut out = Vec::new();
    while let Some(row) = rows.next().ok()? {
        let mut cells = Vec::new();
        for i in 0..columns {
            cells.push(match row.get_ref(i).ok()? {
                rusqlite::types::ValueRef::Null => Value::Null,
                rusqlite::types::ValueRef::Integer(n) => Value::Integer(n),
                rusqlite::types::ValueRef::Real(x) => Value::Real(x.to_bits()),
                rusqlite::types::ValueRef::Text(t) => Value::Text(t.to_vec()),
                rusqlite::types::ValueRef::Blob(b) => Value::Blob(b.to_vec()),
            });
        }
        out.push(cells);
    }
    Some(Table { columns: names, rows: out })
}

fn tables_of(connection: &rusqlite::Connection) -> Tables {
    Tables {
        file: rows_of(connection, "file"),
        metadata: rows_of(connection, "metadata"),
        function: rows_of(connection, "function"),
        basicblock: rows_of(connection, "basicblock"),
        instruction: rows_of(connection, "instruction"),
    }
}

const SCHEMA: &str = "CREATE TABLE file (id INTEGER PRIMARY KEY, filename TEXT, exefilename TEXT, hash CHARACTER(40), functions INT, libfunctions INT, calls INT, basicblocks INT, libbasicblocks INT, edges INT, libedges INT, instructions INT, libinstructions INT);
CREATE TABLE metadata (version TEXT, file1 INTEGER, file2 INTEGER, description TEXT, created DATE, modified DATE, similarity DOUBLE PRECISION, confidence DOUBLE PRECISION);
CREATE TABLE function (id INTEGER PRIMARY KEY, address1 BIGINT, name1 TEXT, address2 BIGINT, name2 TEXT, similarity DOUBLE PRECISION, confidence DOUBLE PRECISION, flags INTEGER, algorithm SMALLINT, evaluate BOOLEAN, commentsported BOOLEAN, basicblocks INTEGER, edges INTEGER, instructions INTEGER);
CREATE TABLE basicblock (id INTEGER, functionid INT, address1 BIGINT, address2 BIGINT, algorithm SMALLINT, evaluate BOOLEAN);
CREATE TABLE instruction (basicblockid INT, address1 BIGINT, address2 BIGINT);";

#[test]
fn store_read_through_the_driver() {
    let connection = rusqlite::Connection::open_in_memory().unwrap();
    connection.execute_batch(SCHEMA).unwrap();
    connection
        .execute_batch(
            "INSERT INTO file VALUES (1, 'a.out', 'a.out.exe', '0123abcd', 120, 1, 2, 450, 3, 4, 5, 6, 7);
             INSERT INTO metadata VALUES ('BinDiff 8', 1, 2, 'test', '2024-05-17 08:30:00', '2023-01-02 03:04:05', 0.75, 1);
             INSERT INTO function VALUES (1, 4096, 'main', 8192, 'main', 1.0, 0.5, 0, 1, 0, 0, 3, 4, 5);
             INSERT INTO function VALUES (2, 4112, 'init', 8208, 'setup', 0.25, 0.5, 0, 37, 1, 0, 3, 4, 5);
             INSERT INTO function VALUES (3, 4128, 'exit', 8224, 'exit', 0, 0.5, 0, 19, 0, 1, 3, 4, 5);
             INSERT INTO basicblock VALUES (1, 1, 4096, 8192, 20, 0);
             INSERT INTO instruction VALUES (1, 4096, 8192);
             INSERT INTO instruction VALUES (1, 4100, 8196);",
        )
        .unwrap();
    let store = BinDiff::open(tables_of(&connection)).unwrap();

    let file = store.read_file().unwrap();
    assert_eq!(file.functions, 120);
    assert_eq!(file.basic_blocks, 450);
    assert_eq!(file.lib_instructions, 7);
    assert_eq!(file.hash, "0123abcd");

    let metadata = store.read_metadata().unwrap();
    assert_eq!(metadata.created.to_text(), Some("2024-05-17 08:30:00".to_string()));
    assert_eq!(metadata.modified.to_text(), Some("2023-01-02 03:04:05".to_string()));
    assert_eq!(f64::from_bits(metadata.similarity.bits), 0.75);
    assert_eq!(f64::from_bits(metadata.confidence.bits), 1.0);

    let matches = store.read_function_matches().unwrap();
    assert_eq!(matches.len(), store.count_function_matches().unwrap());
    assert_eq!(matches.len(), 3);
    assert_eq!(matches[0].name1, "main");
    assert_eq!(matches[1].algorithm, FunctionAlgorithm::Other("37".to_string()));
    assert_eq!(matches[1].evaluate, true);
    assert_eq!(matches[2].algorithm, FunctionAlgorithm::Manual);
    assert_eq!(matches[2].comment_supported, true);
    assert_eq!(f64::from_bits(matches[2].similarity.bits), 0.0);

    let blocks = store.read_basic_block_matches().unwrap();
    assert_eq!(blocks.len(), store.count_basic_block_matches().unwrap());
    assert_eq!(blocks[0].to_string(), "0x1000 -> 0x2000 (manual)");

    let instructions = store.read_instruction_matches().unwrap();
    assert_eq!(instructions.len(), store.count_instruction_matches().unwrap());
    assert_eq!(instructions[1].to_string(), "4100 -> 8196");
    connection.close().map_err(|(_, e)| e).unwrap();
}

#[test]
fn driver_store_with_columns_in_another_order_reads_nothing() {
    let connection = rusqlite::Connection::open_in_memory().unwrap();
    connection
        .execute_batch(&SCHEMA.replace("address1 BIGINT, address2 BIGINT);", "address2 BIGINT, address1 BIGINT);"))
        .unwrap();
    connection.execute_batch("INSERT INTO instruction VALUES (1, 8192, 4096);").unwrap();
    let store = BinDiff::open(tables_of(&connection)).unwrap();
    assert_eq!(store.count_instruction_matches(), Ok(1));
    assert_eq!(store.read_instruction_matches(), Err(Error::SchemaMismatch));
    assert_eq!(store.read_function_matches(), Ok(Vec::new()));
}

#[test]
fn driver_store_without_a_table_does_not_open() {
    let connection = rusqlite::Connection::open_in_memory().unwrap();
    connection.execute_batch("CREATE TABLE file (id INTEGER)").unwrap();
    assert_eq!(BinDiff::open(tables_of(&connection)).err(), Some(Error::SchemaMismatch));
}

#[test]
fn driver_store_with_a_null_cell_fails_the_read() {
    let connection = rusqlite::Connection::open_in_memory().unwrap();
    connection.execute_batch(SCHEMA).unwrap();
    connection
        .execute_batch(
            "INSERT INTO instruction VALUES (1, 4096, 8192);
             INSERT INTO instruction VALUES (1, NULL, 8196);",
        )
        .unwrap();
    let store = BinDiff::open(tables_of(&connection)).unwrap();
    assert_eq!(store.count_instruction_matches(), Ok(2));
    assert_eq!(store.read_instruction_matches(), Err(Error::DecodeError));
    assert_eq!(store.read_file(), Err(Error::CardinalityError));
    assert_eq!(store.read_function_matches(), Ok(Vec::new()));
}

#[test]
fn test_database_operations() {
    let test_file_path = "tests/kernel.release_vs_kernel.release.BinDiff";

    // Check if the test file exists before running the test
    if !std::path::Path::new(test_file_path).exists() {
        println!("Test file {} not found. Skipping test.", test_file_path);
        return;
    }

    let connection = rusqlite::Connection::open(test_file_path).unwrap();
    let db = BinDiff::open(tables_of(&connection)).unwrap();

    let file = db.read_file().unwrap();
    println!("{}", file.to_string());

    let metadata = db.read_metadata().unwrap();
    println!(
        "{}",
        metadata
            .render_with_scores(
                &format!("{:.2}", f64::from_bits(metadata.similarity.bits)),
                &format!("{:.2}", f64::from_bits(metadata.confidence.bits)),
            )
            .unwrap()
    );

    let count = db.count_function_matches().unwrap();
    println!("Total Matches: {}", count);

    let matches = db.read_function_matches().unwrap();
    assert_eq!(matches.len(), count);
    for func_match in matches {
        println!(
            "{}",
            func_match.render(
                &format!("{:.2}", f64::from_bits(func_match.similarity.bits)),
                &format!("{:.2}", f64::from_bits(func_match.confidence.bits)),
            )
        );
    }

    let count = db.count_basic_block_matches().unwrap();
    println!("Total Basic Block Matches: {}", count);

    let basic_block_matches = db.read_basic_block_matches().unwrap();
    assert_eq!(basic_block_matches.len(), count);

    let count = db.count_instruction_matches().unwrap();
    println!("Total Instruction Matches: {}", count);

    let instruction_matches = db.read_instruction_matches().unwrap();
    assert_eq!(instruction_matches.len(), count);

    connection.close().map_err(|(_, e)| e).unwrap();
}
