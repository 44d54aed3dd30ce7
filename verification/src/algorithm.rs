//! The two tables that name the matching algorithms: one for functions, one
//! for basic blocks. Several codes occur in both with different meanings.

use crate::error::Error;
use crate::text::{decimal, decimal_string};
use crate::value::Value;
use vstd::prelude::*;
use vstd::string::StringExecFns;

verus! {

/// What an algorithm value is: a code that its table names, or the text of
/// a code that it does not name.
pub enum AlgorithmView {
    Named(int),
    Other(Seq<char>),
}

/// How a code without a name is shown: its text in `other(` and `)`.
pub open spec fn other_text(text: Seq<char>) -> Seq<char> {
    "other("@ + text + ")"@
}

/// The algorithm by which a pair of functions was matched. The named variants
/// are the codes 0 to 19, in this order.
#[derive(Debug, Clone, PartialEq, Eq)]
pub enum FunctionAlgorithm {
    /// No algorithm: code 0.
    NoAlgorithm,
    NameHashMatching,
    HashMatching,
    EdgesFlowgraphMdIndex,
    EdgesCallgraphMdIndex,
    MdIndexMatchingFlowgraphTopDown,
    MdIndexMatchingFlowgraphBottomUp,
    PrimeSignatureMatching,
    MdIndexMatchingCallGraphTopDown,
    MdIndexMatchingCallGraphBottomUp,
    RelaxedMdIndexMatching,
    InstructionCount,
    AddressSequence,
    StringReferences,
    LoopCountMatching,
    CallSequenceMatchingExact,
    CallSequenceMatchingTopology,
    CallSequenceMatchingSequence,
    CallReferenceMatching,
    Manual,
    /// A code that has no name here, kept as its decimal text.
    Other(String),
}

/// The label of the function-level algorithm with the given code.
pub open spec fn function_label(code: int) -> Seq<char> {
    if code == 0 {
        "none"@
    } else if code == 1 {
        "name hash matching"@
    } else if code == 2 {
        "hash matching"@
    } else if code == 3 {
        "edges flowgraph MD index"@
    } else if code == 4 {
        "edges callgraph MD index"@
    } else if code == 5 {
        "MD index matching (flowgraph MD index, top down)"@
    } else if code == 6 {
        "MD index matching (flowgraph MD index, bottom up)"@
    } else if code == 7 {
        "signature matching"@
    } else if code == 8 {
        "MD index matching (callGraph MD index, top down)"@
    } else if code == 9 {
        "MD index matching (callGraph MD index, bottom up)"@
    } else if code == 10 {
        "MD index matching"@
    } else if code == 11 {
        "instruction count"@
    } else if code == 12 {
        "address sequence"@
    } else if code == 13 {
        "string references"@
    } else if code == 14 {
        "loop count matching"@
    } else if code == 15 {
        "call sequence matching(exact)"@
    } else if code == 16 {
        "call sequence matching(topology)"@
    } else if code == 17 {
        "call sequence matching(sequence)"@
    } else if code == 18 {
        "call references matching"@
    } else {
        "manual"@
    }
}

/// The function-level algorithm that a code stands for: the named one for a
/// code from 0 to 19, and for any other code the fallback that carries the
/// code's decimal text.
pub open spec fn function_algorithm(code: int) -> AlgorithmView {
    if 0 <= code <= 19 {
        AlgorithmView::Named(code)
    } else {
        AlgorithmView::Other(decimal(code))
    }
}

/// What a cell of the algorithm column stands for. The cell must hold an
/// integer, which is the code, however large.
pub open spec fn function_algorithm_of(v: Value) -> Result<AlgorithmView, Error> {
    match v {
        Value::Integer(i) => Ok(function_algorithm(i as int)),
        _ => Err(Error::DecodeError),
    }
}

/// How a function-level algorithm is shown.
pub open spec fn function_algorithm_text(a: AlgorithmView) -> Seq<char> {
    match a {
        AlgorithmView::Named(code) => function_label(code),
        AlgorithmView::Other(text) => other_text(text),
    }
}

impl View for FunctionAlgorithm {
    type V = AlgorithmView;

    open spec fn view(&self) -> AlgorithmView {
        match self {
            FunctionAlgorithm::NoAlgorithm => AlgorithmView::Named(0),
            FunctionAlgorithm::NameHashMatching => AlgorithmView::Named(1),
            FunctionAlgorithm::HashMatching => AlgorithmView::Named(2),
            FunctionAlgorithm::EdgesFlowgraphMdIndex => AlgorithmView::Named(3),
            FunctionAlgorithm::EdgesCallgraphMdIndex => AlgorithmView::Named(4),
            FunctionAlgorithm::MdIndexMatchingFlowgraphTopDown => AlgorithmView::Named(5),
            FunctionAlgorithm::MdIndexMatchingFlowgraphBottomUp => AlgorithmView::Named(6),
            FunctionAlgorithm::PrimeSignatureMatching => AlgorithmView::Named(7),
            FunctionAlgorithm::MdIndexMatchingCallGraphTopDown => AlgorithmView::Named(8),
            FunctionAlgorithm::MdIndexMatchingCallGraphBottomUp => AlgorithmView::Named(9),
            FunctionAlgorithm::RelaxedMdIndexMatching => AlgorithmView::Named(10),
            FunctionAlgorithm::InstructionCount => AlgorithmView::Named(11),
            FunctionAlgorithm::AddressSequence => AlgorithmView::Named(12),
            FunctionAlgorithm::StringReferences => AlgorithmView::Named(13),
            FunctionAlgorithm::LoopCountMatching => AlgorithmView::Named(14),
            FunctionAlgorithm::CallSequenceMatchingExact => AlgorithmView::Named(15),
            FunctionAlgorithm::CallSequenceMatchingTopology => AlgorithmView::Named(16),
            FunctionAlgorithm::CallSequenceMatchingSequence => AlgorithmView::Named(17),
            FunctionAlgorithm::CallReferenceMatching => AlgorithmView::Named(18),
            FunctionAlgorithm::Manual => AlgorithmView::Named(19),
            FunctionAlgorithm::Other(text) => AlgorithmView::Other(text@),
        }
    }
}

impl FunctionAlgorithm {
    /// The algorithm that `code` stands for. Every code has one: a code
    /// without a name gives the fallback.
    pub fn from_code(code: i32) -> (r: Self)
        ensures
            r@ == function_algorithm(code as int),
    {
        match code {
            0 => FunctionAlgorithm::NoAlgorithm,
            1 => FunctionAlgorithm::NameHashMatching,
            2 => FunctionAlgorithm::HashMatching,
            3 => FunctionAlgorithm::EdgesFlowgraphMdIndex,
            4 => FunctionAlgorithm::EdgesCallgraphMdIndex,
            5 => FunctionAlgorithm::MdIndexMatchingFlowgraphTopDown,
            6 => FunctionAlgorithm::MdIndexMatchingFlowgraphBottomUp,
            7 => FunctionAlgorithm::PrimeSignatureMatching,
            8 => FunctionAlgorithm::MdIndexMatchingCallGraphTopDown,
            9 => FunctionAlgorithm::MdIndexMatchingCallGraphBottomUp,
            10 => FunctionAlgorithm::RelaxedMdIndexMatching,
            11 => FunctionAlgorithm::InstructionCount,
            12 => FunctionAlgorithm::AddressSequence,
            13 => FunctionAlgorithm::StringReferences,
            14 => FunctionAlgorithm::LoopCountMatching,
            15 => FunctionAlgorithm::CallSequenceMatchingExact,
            16 => FunctionAlgorithm::CallSequenceMatchingTopology,
            17 => FunctionAlgorithm::CallSequenceMatchingSequence,
            18 => FunctionAlgorithm::CallReferenceMatching,
            19 => FunctionAlgorithm::Manual,
            other => FunctionAlgorithm::Other(decimal_string(other as i64)),
        }
    }

    /// Reads the algorithm from a cell of a row.
    pub fn column_result(value: &Value) -> (r: Result<Self, Error>)
        ensures
            match r {
                Ok(a) => function_algorithm_of(*value) == Ok::<AlgorithmView, Error>(a@),
                Err(e) => function_algorithm_of(*value) == Err::<AlgorithmView, Error>(e),
            },
    {
        let id = value.as_i64()?;
        if 0 <= id && id <= 19 {
            Ok(Self::from_code(id as i32))
        } else {
            Ok(FunctionAlgorithm::Other(decimal_string(id)))
        }
    }

    /// The text that shows this algorithm: its label, or `other(..)` round
    /// the text of a code without a name.
    pub fn to_string(&self) -> (s: String)
        ensures
            s@ == function_algorithm_text(self@),
    {
        match self {
            FunctionAlgorithm::NoAlgorithm => "none".to_owned(),
            FunctionAlgorithm::NameHashMatching => "name hash matching".to_owned(),
            FunctionAlgorithm::HashMatching => "hash matching".to_owned(),
            FunctionAlgorithm::EdgesFlowgraphMdIndex => "edges flowgraph MD index".to_owned(),
            FunctionAlgorithm::EdgesCallgraphMdIndex => "edges callgraph MD index".to_owned(),
            FunctionAlgorithm::MdIndexMatchingFlowgraphTopDown => "MD index matching (flowgraph MD index, top down)".to_owned(),
            FunctionAlgorithm::MdIndexMatchingFlowgraphBottomUp => "MD index matching (flowgraph MD index, bottom up)".to_owned(),
            FunctionAlgorithm::PrimeSignatureMatching => "signature matching".to_owned(),
            FunctionAlgorithm::MdIndexMatchingCallGraphTopDown => "MD index matching (callGraph MD index, top down)".to_owned(),
            FunctionAlgorithm::MdIndexMatchingCallGraphBottomUp => "MD index matching (callGraph MD index, bottom up)".to_owned(),
            FunctionAlgorithm::RelaxedMdIndexMatching => "MD index matching".to_owned(),
            FunctionAlgorithm::InstructionCount => "instruction count".to_owned(),
            FunctionAlgorithm::AddressSequence => "address sequence".to_owned(),
            FunctionAlgorithm::StringReferences => "string references".to_owned(),
            FunctionAlgorithm::LoopCountMatching => "loop count matching".to_owned(),
            FunctionAlgorithm::CallSequenceMatchingExact => "call sequence matching(exact)".to_owned(),
            FunctionAlgorithm::CallSequenceMatchingTopology => "call sequence matching(topology)".to_owned(),
            FunctionAlgorithm::CallSequenceMatchingSequence => "call sequence matching(sequence)".to_owned(),
            FunctionAlgorithm::CallReferenceMatching => "call references matching".to_owned(),
            FunctionAlgorithm::Manual => "manual".to_owned(),
            FunctionAlgorithm::Other(text) => {
                let mut out = String::from_str("other(");
                out.append(text.as_str());
                out.append(")");
                out
            },
        }
    }
}

/// The algorithm by which a pair of basic blocks was matched. The named variants
/// are the codes 0 to 20, in this order.
#[derive(Debug, Clone, PartialEq, Eq)]
pub enum BasicBlockAlgorithm {
    /// No algorithm: code 0.
    NoAlgorithm,
    EdgesPrimeProduct,
    HashMatchingFourInstMin,
    PrimeMatchingFourInstMin,
    CallReferenceMatching,
    StringReferencesMatching,
    EdgesMdIndexTopDown,
    MdIndexMatchingTopDown,
    EdgesMdIndexBottomUp,
    MdIndexMatchingBottomUp,
    RelaxedMdIndexMatching,
    PrimeMatchingNoInstMin,
    EdgesLengauerTarjanDominated,
    LoopEntryMatching,
    SelfLoopMatching,
    EntryPointMatching,
    ExitPointMatching,
    InstructionCountMatching,
    JumpSequenceMatching,
    PropagationSizeOne,
    Manual,
    /// A code that has no name here, kept as its decimal text.
    Other(String),
}

/// The label of the basic block-level algorithm with the given code.
pub open spec fn basic_block_label(code: int) -> Seq<char> {
    if code == 0 {
        "none"@
    } else if code == 1 {
        "edges prime product"@
    } else if code == 2 {
        "hash matching (4 instructions minimum)"@
    } else if code == 3 {
        "prime matching (4 instructions minimum)"@
    } else if code == 4 {
        "call reference matching"@
    } else if code == 5 {
        "string reference matching"@
    } else if code == 6 {
        "edges MD index (top down)"@
    } else if code == 7 {
        "MD index matching (top down)"@
    } else if code == 8 {
        "edges MD index (bottom up)"@
    } else if code == 9 {
        "MD index matching (bottom up)"@
    } else if code == 10 {
        "relaxed MD index matching"@
    } else if code == 11 {
        "prime matching (0 instructions minimum)"@
    } else if code == 12 {
        "edges Lengauer Tarjan dominated"@
    } else if code == 13 {
        "loop entry matching"@
    } else if code == 14 {
        "self loop matching"@
    } else if code == 15 {
        "entry point matching"@
    } else if code == 16 {
        "exit point matching"@
    } else if code == 17 {
        "instruction count matching"@
    } else if code == 18 {
        "jump sequence matching"@
    } else if code == 19 {
        "propagation (size==1)"@
    } else {
        "manual"@
    }
}

/// The basic block-level algorithm that a code stands for: the named one for a
/// code from 0 to 20, and for any other code the fallback that carries the
/// code's decimal text.
pub open spec fn basic_block_algorithm(code: int) -> AlgorithmView {
    if 0 <= code <= 20 {
        AlgorithmView::Named(code)
    } else {
        AlgorithmView::Other(decimal(code))
    }
}

/// What a cell of the algorithm column stands for. The cell must hold an
/// integer, which is the code, however large.
pub open spec fn basic_block_algorithm_of(v: Value) -> Result<AlgorithmView, Error> {
    match v {
        Value::Integer(i) => Ok(basic_block_algorithm(i as int)),
        _ => Err(Error::DecodeError),
    }
}

/// How a basic block-level algorithm is shown.
pub open spec fn basic_block_algorithm_text(a: AlgorithmView) -> Seq<char> {
    match a {
        AlgorithmView::Named(code) => basic_block_label(code),
        AlgorithmView::Other(text) => other_text(text),
    }
}

impl View for BasicBlockAlgorithm {
    type V = AlgorithmView;

    open spec fn view(&self) -> AlgorithmView {
        match self {
            BasicBlockAlgorithm::NoAlgorithm => AlgorithmView::Named(0),
            BasicBlockAlgorithm::EdgesPrimeProduct => AlgorithmView::Named(1),
            BasicBlockAlgorithm::HashMatchingFourInstMin => AlgorithmView::Named(2),
            BasicBlockAlgorithm::PrimeMatchingFourInstMin => AlgorithmView::Named(3),
            BasicBlockAlgorithm::CallReferenceMatching => AlgorithmView::Named(4),
            BasicBlockAlgorithm::StringReferencesMatching => AlgorithmView::Named(5),
            BasicBlockAlgorithm::EdgesMdIndexTopDown => AlgorithmView::Named(6),
            BasicBlockAlgorithm::MdIndexMatchingTopDown => AlgorithmView::Named(7),
            BasicBlockAlgorithm::EdgesMdIndexBottomUp => AlgorithmView::Named(8),
            BasicBlockAlgorithm::MdIndexMatchingBottomUp => AlgorithmView::Named(9),
            BasicBlockAlgorithm::RelaxedMdIndexMatching => AlgorithmView::Named(10),
            BasicBlockAlgorithm::PrimeMatchingNoInstMin => AlgorithmView::Named(11),
            BasicBlockAlgorithm::EdgesLengauerTarjanDominated => AlgorithmView::Named(12),
            BasicBlockAlgorithm::LoopEntryMatching => AlgorithmView::Named(13),
            BasicBlockAlgorithm::SelfLoopMatching => AlgorithmView::Named(14),
            BasicBlockAlgorithm::EntryPointMatching => AlgorithmView::Named(15),
            BasicBlockAlgorithm::ExitPointMatching => AlgorithmView::Named(16),
            BasicBlockAlgorithm::InstructionCountMatching => AlgorithmView::Named(17),
            BasicBlockAlgorithm::JumpSequenceMatching => AlgorithmView::Named(18),
            BasicBlockAlgorithm::PropagationSizeOne => AlgorithmView::Named(19),
            BasicBlockAlgorithm::Manual => AlgorithmView::Named(20),
            BasicBlockAlgorithm::Other(text) => AlgorithmView::Other(text@),
        }
    }
}

impl BasicBlockAlgorithm {
    /// The algorithm that `code` stands for. Every code has one: a code
    /// without a name gives the fallback.
    pub fn from_code(code: i32) -> (r: Self)
        ensures
            r@ == basic_block_algorithm(code as int),
    {
        match code {
            0 => BasicBlockAlgorithm::NoAlgorithm,
            1 => BasicBlockAlgorithm::EdgesPrimeProduct,
            2 => BasicBlockAlgorithm::HashMatchingFourInstMin,
            3 => BasicBlockAlgorithm::PrimeMatchingFourInstMin,
            4 => BasicBlockAlgorithm::CallReferenceMatching,
            5 => BasicBlockAlgorithm::StringReferencesMatching,
            6 => BasicBlockAlgorithm::EdgesMdIndexTopDown,
            7 => BasicBlockAlgorithm::MdIndexMatchingTopDown,
            8 => BasicBlockAlgorithm::EdgesMdIndexBottomUp,
            9 => BasicBlockAlgorithm::MdIndexMatchingBottomUp,
            10 => BasicBlockAlgorithm::RelaxedMdIndexMatching,
            11 => BasicBlockAlgorithm::PrimeMatchingNoInstMin,
            12 => BasicBlockAlgorithm::EdgesLengauerTarjanDominated,
            13 => BasicBlockAlgorithm::LoopEntryMatching,
            14 => BasicBlockAlgorithm::SelfLoopMatching,
            15 => BasicBlockAlgorithm::EntryPointMatching,
            16 => BasicBlockAlgorithm::ExitPointMatching,
            17 => BasicBlockAlgorithm::InstructionCountMatching,
            18 => BasicBlockAlgorithm::JumpSequenceMatching,
            19 => BasicBlockAlgorithm::PropagationSizeOne,
            20 => BasicBlockAlgorithm::Manual,
            other => BasicBlockAlgorithm::Other(decimal_string(other as i64)),
        }
    }

    /// Reads the algorithm from a cell of a row.
    pub fn column_result(value: &Value) -> (r: Result<Self, Error>)
        ensures
            match r {
                Ok(a) => basic_block_algorithm_of(*value) == Ok::<AlgorithmView, Error>(a@),
                Err(e) => basic_block_algorithm_of(*value) == Err::<AlgorithmView, Error>(e),
            },
    {
        let id = value.as_i64()?;
        if 0 <= id && id <= 20 {
            Ok(Self::from_code(id as i32))
        } else {
            Ok(BasicBlockAlgorithm::Other(decimal_string(id)))
        }
    }

    /// The text that shows this algorithm: its label, or `other(..)` round
    /// the text of a code without a name.
    pub fn to_string(&self) -> (s: String)
        ensures
            s@ == basic_block_algorithm_text(self@),
    {
        match self {
            BasicBlockAlgorithm::NoAlgorithm => "none".to_owned(),
            BasicBlockAlgorithm::EdgesPrimeProduct => "edges prime product".to_owned(),
            BasicBlockAlgorithm::HashMatchingFourInstMin => "hash matching (4 instructions minimum)".to_owned(),
            BasicBlockAlgorithm::PrimeMatchingFourInstMin => "prime matching (4 instructions minimum)".to_owned(),
            BasicBlockAlgorithm::CallReferenceMatching => "call reference matching".to_owned(),
            BasicBlockAlgorithm::StringReferencesMatching => "string reference matching".to_owned(),
            BasicBlockAlgorithm::EdgesMdIndexTopDown => "edges MD index (top down)".to_owned(),
            BasicBlockAlgorithm::MdIndexMatchingTopDown => "MD index matching (top down)".to_owned(),
            BasicBlockAlgorithm::EdgesMdIndexBottomUp => "edges MD index (bottom up)".to_owned(),
            BasicBlockAlgorithm::MdIndexMatchingBottomUp => "MD index matching (bottom up)".to_owned(),
            BasicBlockAlgorithm::RelaxedMdIndexMatching => "relaxed MD index matching".to_owned(),
            BasicBlockAlgorithm::PrimeMatchingNoInstMin => "prime matching (0 instructions minimum)".to_owned(),
            BasicBlockAlgorithm::EdgesLengauerTarjanDominated => "edges Lengauer Tarjan dominated".to_owned(),
            BasicBlockAlgorithm::LoopEntryMatching => "loop entry matching".to_owned(),
            BasicBlockAlgorithm::SelfLoopMatching => "self loop matching".to_owned(),
            BasicBlockAlgorithm::EntryPointMatching => "entry point matching".to_owned(),
            BasicBlockAlgorithm::ExitPointMatching => "exit point matching".to_owned(),
            BasicBlockAlgorithm::InstructionCountMatching => "instruction count matching".to_owned(),
            BasicBlockAlgorithm::JumpSequenceMatching => "jump sequence matching".to_owned(),
            BasicBlockAlgorithm::PropagationSizeOne => "propagation (size==1)".to_owned(),
            BasicBlockAlgorithm::Manual => "manual".to_owned(),
            BasicBlockAlgorithm::Other(text) => {
                let mut out = String::from_str("other(");
                out.append(text.as_str());
                out.append(")");
                out
            },
        }
    }
}

} // verus!
