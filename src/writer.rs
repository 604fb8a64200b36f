//! A writing session: the protocol of `protocol`, with the record of the
//! calls that it made.
use vstd::prelude::*;
use crate::error::{WriterError, contains_nul, has_nul, violates_contract};
use crate::protocol::{
    EngineCall, Failure, Reply, Stage, after, advance, call_of, next_call_at, status_code,
    status_of, succeeded,
};

verus! {

/// A fixed-step block, as handed to the engine.
#[derive(Clone, Copy, Debug, PartialEq, Eq, Structural)]
pub struct FixedStepBlock {
    pub start_pos: u32,
    pub span_size: u32,
    pub step_size: u32,
    /// The number of values.
    pub count: u32,
}

/// A variable-step block, as handed to the engine.
#[derive(Clone, Copy, Debug, PartialEq, Eq, Structural)]
pub struct VariableStepBlock {
    pub span_size: u32,
    /// The number of positions, which is also the number of values.
    pub count: u32,
}

/// `e` is the error that setup reports after `f` on the output `path`.
pub open spec fn setup_error(f: Failure, path: Seq<char>, e: WriterError) -> bool {
    match f {
        Failure::Init { code } => e == WriterError::Init { code },
        Failure::Open => match e {
            WriterError::Open { path: p } => p@ == path,
            _ => false,
        },
        Failure::CreateHeader { code } => e == WriterError::CreateHeader { code },
        Failure::CreateCatalog => e == WriterError::CreateCatalog,
        Failure::WriteHeader { code } => e == WriterError::WriteHeader { code },
    }
}

/// `e` is the error that an append of the given kind reports for `code` on `chrom`.
pub open spec fn append_error(variable: bool, code: i32, chrom: Seq<char>, e: WriterError) -> bool {
    match e {
        WriterError::FixedStepAppend { code: c, chrom_name } => !variable && c == code
            && chrom_name@ == chrom,
        WriterError::VariableStepAppend { code: c, chrom_name } => variable && c == code
            && chrom_name@ == chrom,
        _ => false,
    }
}

/// What answering the call due at `s` with `reply` finishes: `None` while an
/// operation goes on, else the result of setup, of an append or of closing.
pub open spec fn outcome(
    s: Stage,
    reply: Reply,
    path: Seq<char>,
    chrom: Seq<char>,
    r: Option<Result<(), WriterError>>,
) -> bool {
    match s {
        Stage::Init => if succeeded(reply) {
            r is None
        } else {
            r == Some(Err::<(), WriterError>(WriterError::Init { code: status_of(reply) as i32 }))
        },
        Stage::WriteHeader => if succeeded(reply) {
            r == Some(Ok::<(), WriterError>(()))
        } else {
            r is None
        },
        Stage::UnwindCleanup { failure } => match r {
            Some(Err(e)) => setup_error(failure, path, e),
            _ => false,
        },
        Stage::ReleasingName { variable, code } => if code == 0 {
            r == Some(Ok::<(), WriterError>(()))
        } else {
            match r {
                Some(Err(e)) => append_error(variable, code, chrom, e),
                _ => false,
            }
        },
        Stage::CleaningUp => r == Some(Ok::<(), WriterError>(())),
        _ => r is None,
    }
}

/// The names of a catalog, as character sequences.
pub open spec fn name_views(names: Seq<String>) -> Seq<Seq<char>> {
    names.map_values(|n: String| n@)
}

/// One session with the track engine, from global initialisation to cleanup.
pub struct BigWigWriter {
    filename: String,
    chrom_names: Vec<String>,
    chrom_lens: Vec<u32>,
    stage: Stage,
    chrom_name: String,
    calls: Ghost<Seq<EngineCall>>,
}

impl BigWigWriter {
    pub closed spec fn stage(&self) -> Stage {
        self.stage
    }

    /// The output path.
    pub closed spec fn path(&self) -> Seq<char> {
        self.filename@
    }

    /// The chromosome names of the catalog, in order.
    pub closed spec fn catalog_names(&self) -> Seq<Seq<char>> {
        name_views(self.chrom_names@)
    }

    /// The chromosome lengths of the catalog, in order.
    pub closed spec fn catalog_lens(&self) -> Seq<u32> {
        self.chrom_lens@
    }

    /// The chromosome of the latest append.
    pub closed spec fn chrom_name(&self) -> Seq<char> {
        self.chrom_name@
    }

    /// Every engine call made so far, in order.
    pub closed spec fn calls(&self) -> Seq<EngineCall> {
        self.calls@
    }

    /// The parts of a session that only setup and `new` decide.
    pub open spec fn same_catalog(&self, other: &BigWigWriter) -> bool {
        &&& self.path() == other.path()
        &&& self.catalog_names() == other.catalog_names()
        &&& self.catalog_lens() == other.catalog_lens()
    }

    /// Starts a session on `filename` with the given chromosome catalog, after
    /// checking the caller's contract. No engine call is made here: the first
    /// is global initialisation, which `next_call` then names.
    pub fn new(filename: &str, chrom_names: &[String], chrom_lens: &[u32]) -> (r: Result<
        BigWigWriter,
        WriterError,
    >)
        ensures
            filename@.len() == 0 ==> r == Err::<BigWigWriter, WriterError>(WriterError::EmptyPath),
            filename@.len() > 0 && chrom_names@.len() != chrom_lens@.len() ==> r == Err::<
                BigWigWriter,
                WriterError,
            >(
                WriterError::LengthMismatch {
                    names: chrom_names@.len() as usize,
                    lengths: chrom_lens@.len() as usize,
                },
            ),
            filename@.len() > 0 && chrom_names@.len() == chrom_lens@.len() && chrom_names@.len()
                == 0 ==> r == Err::<BigWigWriter, WriterError>(WriterError::NoChromosomes),
            filename@.len() > 0 && chrom_names@.len() == chrom_lens@.len() && chrom_names@.len()
                > 0 && has_nul(filename@) ==> r == Err::<BigWigWriter, WriterError>(
                WriterError::NulInPath,
            ),
            r matches Err(WriterError::NulInCatalogName { index }) ==> {
                &&& index < chrom_names@.len()
                &&& has_nul(chrom_names@[index as int]@)
                &&& forall|j: int| 0 <= j < index ==> !has_nul(#[trigger] chrom_names@[j]@)
            },
            r is Err ==> violates_contract(r->Err_0),
            r is Ok <==> {
                &&& filename@.len() > 0
                &&& chrom_names@.len() == chrom_lens@.len()
                &&& chrom_names@.len() > 0
                &&& !has_nul(filename@)
                &&& forall|j: int| 0 <= j < chrom_names@.len() ==> !has_nul(
                    #[trigger] chrom_names@[j]@,
                )
            },
            r matches Ok(w) ==> {
                &&& w.stage() == Stage::Init
                &&& w.calls() == Seq::<EngineCall>::empty()
                &&& w.path() == filename@
                &&& w.catalog_names() == name_views(chrom_names@)
                &&& w.catalog_lens() == chrom_lens@
            },
    {
        if filename.is_empty() {
            return Err(WriterError::EmptyPath);
        }
        if chrom_names.len() != chrom_lens.len() {
            return Err(
                WriterError::LengthMismatch { names: chrom_names.len(), lengths: chrom_lens.len() },
            );
        }
        if chrom_names.len() == 0 {
            return Err(WriterError::NoChromosomes);
        }
        if contains_nul(filename) {
            return Err(WriterError::NulInPath);
        }
        let mut names: Vec<String> = Vec::new();
        let mut i: usize = 0;
        while i < chrom_names.len()
            invariant
                filename@.len() > 0,
                !has_nul(filename@),
                chrom_names@.len() == chrom_lens@.len(),
                i <= chrom_names@.len(),
                names@.len() == i,
                forall|j: int| 0 <= j < i ==> names@[j] == chrom_names@[j],
                forall|j: int| 0 <= j < i ==> !has_nul(#[trigger] chrom_names@[j]@),
            decreases chrom_names@.len() - i,
        {
            if contains_nul(chrom_names[i].as_str()) {
                return Err(WriterError::NulInCatalogName { index: i });
            }
            names.push(chrom_names[i].clone());
            i = i + 1;
        }
        assert(names@ =~= chrom_names@);
        Ok(
            BigWigWriter {
                filename: filename.to_owned(),
                chrom_names: names,
                chrom_lens: vstd::slice::slice_to_vec(chrom_lens),
                stage: Stage::Init,
                chrom_name: String::new(),
                calls: Ghost(Seq::empty()),
            },
        )
    }

    /// The output path.
    pub fn filename(&self) -> (r: &str)
        ensures
            r@ == self.path(),
    {
        self.filename.as_str()
    }

    /// The chromosome names of the catalog, in order.
    pub fn chrom_names(&self) -> (r: &Vec<String>)
        ensures
            name_views(r@) == self.catalog_names(),
    {
        &self.chrom_names
    }

    /// The chromosome lengths of the catalog, in order.
    pub fn chrom_lens(&self) -> (r: &Vec<u32>)
        ensures
            r@ == self.catalog_lens(),
    {
        &self.chrom_lens
    }

    /// The engine call that is due, or `None` where the session waits for its owner.
    pub fn next_call(&self) -> (r: Option<EngineCall>)
        ensures
            r == call_of(self.stage()),
    {
        next_call_at(self.stage)
    }

    pub fn current_stage(&self) -> (r: Stage)
        ensures
            r == self.stage(),
    {
        self.stage
    }

    fn error_of(&self, f: Failure) -> (e: WriterError)
        ensures
            setup_error(f, self.path(), e),
    {
        match f {
            Failure::Init { code } => WriterError::Init { code },
            Failure::Open => WriterError::Open { path: self.filename.clone() },
            Failure::CreateHeader { code } => WriterError::CreateHeader { code },
            Failure::CreateCatalog => WriterError::CreateCatalog,
            Failure::WriteHeader { code } => WriterError::WriteHeader { code },
        }
    }

    /// Hands the engine's reply to the call that `next_call` named; returns the
    /// result of setup, of an append or of closing where the reply finishes one.
    pub fn record(&mut self, reply: Reply) -> (r: Option<Result<(), WriterError>>)
        requires
            call_of(old(self).stage()) is Some,
        ensures
            final(self).stage() == after(old(self).stage(), reply),
            final(self).calls() == old(self).calls().push(call_of(old(self).stage())->Some_0),
            final(self).same_catalog(old(self)),
            final(self).chrom_name() == old(self).chrom_name(),
            outcome(old(self).stage(), reply, old(self).path(), old(self).chrom_name(), r),
    {
        let s = self.stage;
        let code = status_code(reply);
        let r = match s {
            Stage::Init => if code == 0 {
                None
            } else {
                Some(Err(WriterError::Init { code }))
            },
            Stage::WriteHeader => if code == 0 {
                Some(Ok(()))
            } else {
                None
            },
            Stage::UnwindCleanup { failure } => Some(Err(self.error_of(failure))),
            Stage::ReleasingName { variable, code } => if code == 0 {
                Some(Ok(()))
            } else if variable {
                Some(Err(WriterError::VariableStepAppend { code, chrom_name: self.chrom_name.clone() }))
            } else {
                Some(Err(WriterError::FixedStepAppend { code, chrom_name: self.chrom_name.clone() }))
            },
            Stage::CleaningUp => Some(Ok(())),
            _ => None,
        };
        self.stage = advance(s, reply);
        self.calls = Ghost(self.calls@.push(call_of(s)->Some_0));
        r
    }

    /// Starts a fixed-step append of `n_values` values on `chrom_name`; the
    /// append call and the release of its name buffer follow through
    /// `next_call`. Refused, with no engine call, where the name holds a NUL
    /// character or the values are more than the engine can count.
    pub fn add_interval_span_steps(
        &mut self,
        chrom_name: &str,
        start_pos: u32,
        span_size: u32,
        step_size: u32,
        n_values: usize,
    ) -> (r: Result<FixedStepBlock, WriterError>)
        requires
            old(self).stage() == Stage::Ready,
        ensures
            has_nul(chrom_name@) ==> r == Err::<FixedStepBlock, WriterError>(
                WriterError::NulInName,
            ),
            !has_nul(chrom_name@) && n_values > u32::MAX ==> r == Err::<
                FixedStepBlock,
                WriterError,
            >(WriterError::TooManyValues { values: n_values }),
            r is Err ==> *final(self) == *old(self),
            r is Ok <==> !has_nul(chrom_name@) && n_values <= u32::MAX,
            r is Ok ==> {
                &&& r == Ok::<FixedStepBlock, WriterError>(
                    FixedStepBlock { start_pos, span_size, step_size, count: n_values as u32 },
                )
                &&& final(self).stage() == (Stage::Appending { variable: false })
                &&& final(self).chrom_name() == chrom_name@
                &&& final(self).calls() == old(self).calls()
                &&& final(self).same_catalog(old(self))
            },
    {
        if contains_nul(chrom_name) {
            return Err(WriterError::NulInName);
        }
        if n_values > u32::MAX as usize {
            return Err(WriterError::TooManyValues { values: n_values });
        }
        self.chrom_name = chrom_name.to_owned();
        self.stage = Stage::Appending { variable: false };
        Ok(FixedStepBlock { start_pos, span_size, step_size, count: n_values as u32 })
    }

    /// Starts a variable-step append on `chrom_name` of the positions
    /// `start_pos` and `n_values` values. Refused, with no engine call, where
    /// the two counts differ, the name holds a NUL character or the values are
    /// more than the engine can count, in that order.
    pub fn add_interval_spans(
        &mut self,
        chrom_name: &str,
        start_pos: &[u32],
        span_size: u32,
        n_values: usize,
    ) -> (r: Result<VariableStepBlock, WriterError>)
        requires
            old(self).stage() == Stage::Ready,
        ensures
            start_pos@.len() != n_values ==> r == Err::<VariableStepBlock, WriterError>(
                WriterError::PositionValueMismatch {
                    positions: start_pos@.len() as usize,
                    values: n_values,
                },
            ),
            start_pos@.len() == n_values && has_nul(chrom_name@) ==> r == Err::<
                VariableStepBlock,
                WriterError,
            >(WriterError::NulInName),
            start_pos@.len() == n_values && !has_nul(chrom_name@) && n_values > u32::MAX ==> r
                == Err::<VariableStepBlock, WriterError>(
                WriterError::TooManyValues { values: n_values },
            ),
            r is Err ==> *final(self) == *old(self),
            r is Ok <==> start_pos@.len() == n_values && !has_nul(chrom_name@) && n_values
                <= u32::MAX,
            r is Ok ==> {
                &&& r == Ok::<VariableStepBlock, WriterError>(
                    VariableStepBlock { span_size, count: n_values as u32 },
                )
                &&& final(self).stage() == (Stage::Appending { variable: true })
                &&& final(self).chrom_name() == chrom_name@
                &&& final(self).calls() == old(self).calls()
                &&& final(self).same_catalog(old(self))
            },
    {
        if start_pos.len() != n_values {
            return Err(
                WriterError::PositionValueMismatch { positions: start_pos.len(), values: n_values },
            );
        }
        if contains_nul(chrom_name) {
            return Err(WriterError::NulInName);
        }
        if n_values > u32::MAX as usize {
            return Err(WriterError::TooManyValues { values: n_values });
        }
        self.chrom_name = chrom_name.to_owned();
        self.stage = Stage::Appending { variable: true };
        Ok(VariableStepBlock { span_size, count: n_values as u32 })
    }

    /// Starts closing an open session: the close call and global cleanup follow
    /// through `next_call`.
    pub fn close(&mut self)
        requires
            old(self).stage() == Stage::Ready,
        ensures
            final(self).stage() == Stage::Closing,
            final(self).calls() == old(self).calls(),
            final(self).same_catalog(old(self)),
            final(self).chrom_name() == old(self).chrom_name(),
    {
        self.stage = Stage::Closing;
    }
}

} // verus!
