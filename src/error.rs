//! What can go wrong in a session.
use vstd::prelude::*;
use vstd::string::*;

verus! {

/// An error of a session: a caller's broken contract, or a failed engine call.
#[derive(Clone, Debug, PartialEq, Eq)]
pub enum WriterError {
    /// The output path is empty.
    EmptyPath,
    /// The chromosome names and lengths differ in number.
    LengthMismatch { names: usize, lengths: usize },
    /// No chromosome was given.
    NoChromosomes,
    /// The output path holds a NUL character, which the engine cannot take.
    NulInPath,
    /// The catalog name at `index` holds a NUL character.
    NulInCatalogName { index: usize },
    /// The chromosome name of an append holds a NUL character.
    NulInName,
    /// A block has more values than the engine can count.
    TooManyValues { values: usize },
    /// A variable-step block has a different number of positions and values.
    PositionValueMismatch { positions: usize, values: usize },
    /// Global initialisation returned a non-zero code.
    Init { code: i32 },
    /// The engine could not open the path for writing.
    Open { path: String },
    /// Creating the header returned a non-zero code.
    CreateHeader { code: i32 },
    /// The engine could not build the chromosome catalog.
    CreateCatalog,
    /// Writing the header returned a non-zero code.
    WriteHeader { code: i32 },
    /// Appending a fixed-step block returned a non-zero code.
    FixedStepAppend { code: i32, chrom_name: String },
    /// Appending a variable-step block returned a non-zero code.
    VariableStepAppend { code: i32, chrom_name: String },
}

pub open spec fn violates_contract(e: WriterError) -> bool {
    match e {
        WriterError::EmptyPath => true,
        WriterError::LengthMismatch { .. } => true,
        WriterError::NoChromosomes => true,
        WriterError::NulInPath => true,
        WriterError::NulInCatalogName { .. } => true,
        WriterError::NulInName => true,
        WriterError::TooManyValues { .. } => true,
        WriterError::PositionValueMismatch { .. } => true,
        _ => false,
    }
}

/// Whether `s` holds a NUL character.
pub open spec fn has_nul(s: Seq<char>) -> bool {
    s.contains('\0')
}

/// Whether `s` holds a NUL character.
pub fn contains_nul(s: &str) -> (r: bool)
    ensures
        r == has_nul(s@),
{
    let n = s.unicode_len();
    let mut i: usize = 0;
    while i < n
        invariant
            n == s@.len(),
            i <= n,
            forall|j: int| 0 <= j < i ==> s@[j] != '\0',
        decreases n - i,
    {
        if s.get_char(i) == '\0' {
            assert(s@[i as int] == '\0');
            return true;
        }
        i = i + 1;
    }
    false
}

impl WriterError {
    /// Whether the error is a broken caller contract, found before any engine call.
    pub fn is_contract_violation(&self) -> (r: bool)
        ensures
            r == violates_contract(*self),
    {
        match self {
            WriterError::EmptyPath => true,
            WriterError::LengthMismatch { .. } => true,
            WriterError::NoChromosomes => true,
            WriterError::NulInPath => true,
            WriterError::NulInCatalogName { .. } => true,
            WriterError::NulInName => true,
            WriterError::TooManyValues { .. } => true,
            WriterError::PositionValueMismatch { .. } => true,
            _ => false,
        }
    }
}

} // verus!
