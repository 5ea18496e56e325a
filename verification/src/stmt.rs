//! The prepared-statement binder: the state machine of prepare, naming the
//! target table (with optional tags), binding rows into a batch, and
//! executing the batch — together with the release discipline for the
//! buffer descriptors each bind allocates.
//!
//! The engine itself is an outside collaborator reached through an opaque
//! handle; what it returned for each call — a raw status and, on failure,
//! an error text — is handed to the `*_outcome` methods as plain values,
//! and every decision this library makes about them is verified.

use vstd::prelude::*;

verus! {

use crate::bind::{BindParam, BufferLedger, encode_row, release_row, spec_encoded_param};
use crate::error::{TaosCode, TaosError, spec_classify, classify_status, stmt_result_from_status};
use crate::field::{Field, FieldView};

/// Conversion of a whole row of values into bind parameters, one
/// descriptor per value. Descriptors made this way stand outside any
/// ledger; rows bound through a `Stmt` should use its `encode_row`, which
/// also counts the allocations.
pub trait IntoParams {
    /// The views of the field values this row encodes as.
    spec fn spec_params(&self) -> Seq<FieldView>;

    fn into_params(self) -> (r: Vec<BindParam>)
        ensures
            r@.len() == self.spec_params().len(),
            forall|i: int|
                0 <= i < r@.len() ==> (#[trigger] r@[i])@ == spec_encoded_param(
                    self.spec_params()[i],
                ),
    ;
}

impl IntoParams for &Vec<Field> {
    open spec fn spec_params(&self) -> Seq<FieldView> {
        (*self)@.map_values(|f: Field| f@)
    }

    fn into_params(self) -> (r: Vec<BindParam>) {
        let mut r: Vec<BindParam> = Vec::new();
        let mut i: usize = 0;
        while i < self.len()
            invariant
                i <= self@.len(),
                r@.len() == i,
                forall|j: int|
                    0 <= j < i ==> (#[trigger] r@[j])@ == spec_encoded_param(self@[j]@),
            decreases self@.len() - i,
        {
            r.push(BindParam::from_field(&self[i]));
            i = i + 1;
        }
        r
    }
}

/// An engine status that classifies to the distinguished success value.
pub open spec fn spec_status_ok(status: i32) -> bool {
    spec_classify(status) == TaosCode::Success
}

/// The states of the binding protocol: a fresh statement, one holding
/// prepared SQL text, one bound to a destination table, one with rows in
/// its batch, one whose batch was flushed, and a closed one. From
/// `Executed` the statement may name another table and bind again; it may
/// be closed from any state, exactly once.
#[derive(Debug, Clone, Copy, PartialEq, Eq, Structural)]
pub enum StmtState {
    Created,
    Prepared,
    TableBound,
    RowsBound,
    Executed,
    Closed,
}

/// The mathematical shape of a statement binder: its protocol state, the
/// rows in the current batch, the rows flushed by executes so far, and the
/// descriptor allocation/release counts.
pub struct StmtView {
    pub state: StmtState,
    pub batched: int,
    pub submitted: int,
    pub allocated: int,
    pub released: int,
}

impl StmtView {
    /// Releases never outnumber allocations.
    pub open spec fn wf(self) -> bool {
        0 <= self.released <= self.allocated
    }

    /// Every allocated descriptor has been released.
    pub open spec fn balanced(self) -> bool {
        self.released == self.allocated
    }
}

/// The view after encoding a row of `n` values: `n` fresh descriptors are
/// allocated, nothing else changes.
pub open spec fn spec_after_encode(m: StmtView, n: int) -> StmtView {
    StmtView { allocated: m.allocated + n, ..m }
}

/// The view after releasing a row of `n` descriptors: `n` releases are
/// counted, nothing else changes.
pub open spec fn spec_after_release(m: StmtView, n: int) -> StmtView {
    StmtView { released: m.released + n, ..m }
}

/// The view after a successful bind of a row of `n` descriptors: the row's
/// descriptors are released, the batch grows by one row, and the statement
/// holds bound rows.
pub open spec fn spec_after_bind(m: StmtView, n: int) -> StmtView {
    StmtView { state: StmtState::RowsBound, batched: m.batched + 1, released: m.released + n, ..m }
}

/// The view after a successful execute: the whole batch is flushed to the
/// engine, so the submitted count grows by exactly the batch size.
pub open spec fn spec_after_execute(m: StmtView) -> StmtView {
    StmtView { state: StmtState::Executed, batched: 0, submitted: m.submitted + m.batched, ..m }
}

/// The statement binder. It never touches the engine itself: callers make
/// the native calls while the descriptors are lent out, and feed each raw
/// status back in; the binder tracks the protocol state, the batch, and
/// the exactly-once release of every descriptor it encoded.
#[derive(Debug)]
pub struct Stmt {
    state: StmtState,
    batched: u64,
    submitted: u64,
    ledger: BufferLedger,
}

impl View for Stmt {
    type V = StmtView;

    closed spec fn view(&self) -> StmtView {
        StmtView {
            state: self.state,
            batched: self.batched as int,
            submitted: self.submitted as int,
            allocated: self.ledger.allocated as int,
            released: self.ledger.released as int,
        }
    }
}

impl Stmt {
    /// A fresh statement binder.
    pub fn new() -> (r: Stmt)
        ensures
            r@ == (StmtView {
                state: StmtState::Created,
                batched: 0,
                submitted: 0,
                allocated: 0,
                released: 0,
            }),
    {
        Stmt {
            state: StmtState::Created,
            batched: 0,
            submitted: 0,
            ledger: BufferLedger::new(),
        }
    }

    pub fn state(&self) -> (r: StmtState)
        ensures
            r == self@.state,
    {
        self.state
    }

    /// Rows bound into the current batch and not yet executed.
    pub fn batched_rows(&self) -> (r: u64)
        ensures
            r == self@.batched,
    {
        self.batched
    }

    /// Rows flushed to the engine by successful executes.
    pub fn submitted_rows(&self) -> (r: u64)
        ensures
            r == self@.submitted,
    {
        self.submitted
    }

    /// The descriptor allocation/release ledger.
    pub fn ledger(&self) -> (r: BufferLedger)
        ensures
            r.allocated == self@.allocated,
            r.released == self@.released,
    {
        self.ledger
    }

    /// Record the outcome of preparing the SQL text: on success the
    /// statement is `Prepared`, on failure it stays `Created` and the
    /// classified (code, message) pair is surfaced.
    pub fn prepare_outcome(&mut self, status: i32, errmsg: Option<String>) -> (r: Result<
        (),
        TaosError,
    >)
        requires
            old(self)@.state == StmtState::Created,
        ensures
            r is Ok <==> spec_status_ok(status),
            spec_status_ok(status) ==> final(self)@ == (StmtView {
                state: StmtState::Prepared,
                ..old(self)@
            }),
            !spec_status_ok(status) ==> final(self)@ == old(self)@,
            r matches Err(e) ==> e.code == spec_classify(status) && e.err@ == (match errmsg {
                Some(m) => m@,
                None => "unknown"@,
            }),
    {
        let r = stmt_result_from_status(status, errmsg);
        if r.is_ok() {
            self.state = StmtState::Prepared;
        }
        r
    }

    /// Record the outcome of naming the destination table: on success the
    /// statement is `TableBound`; the batch is kept either way, so rows
    /// already bound still execute.
    pub fn set_tbname_outcome(&mut self, status: i32, errmsg: Option<String>) -> (r: Result<
        (),
        TaosError,
    >)
        requires
            old(self)@.state != StmtState::Created,
            old(self)@.state != StmtState::Closed,
        ensures
            r is Ok <==> spec_status_ok(status),
            spec_status_ok(status) ==> final(self)@ == (StmtView {
                state: StmtState::TableBound,
                ..old(self)@
            }),
            !spec_status_ok(status) ==> final(self)@ == old(self)@,
            r matches Err(e) ==> e.code == spec_classify(status) && e.err@ == (match errmsg {
                Some(m) => m@,
                None => "unknown"@,
            }),
    {
        let r = stmt_result_from_status(status, errmsg);
        if r.is_ok() {
            self.state = StmtState::TableBound;
        }
        r
    }

    /// Record the outcome of naming the destination table together with a
    /// tag vector: the tag descriptors, lent to the call, are released
    /// exactly once whatever the outcome.
    pub fn set_tbname_tags_outcome(
        &mut self,
        tags: Vec<BindParam>,
        status: i32,
        errmsg: Option<String>,
    ) -> (r: Result<(), TaosError>)
        requires
            old(self)@.state != StmtState::Created,
            old(self)@.state != StmtState::Closed,
            forall|i: int| 0 <= i < tags@.len() ==> (#[trigger] tags@[i])@.live,
            old(self)@.released + tags@.len() <= old(self)@.allocated,
        ensures
            r is Ok <==> spec_status_ok(status),
            spec_status_ok(status) ==> final(self)@ == (StmtView {
                state: StmtState::TableBound,
                ..spec_after_release(old(self)@, tags@.len() as int)
            }),
            !spec_status_ok(status) ==> final(self)@ == spec_after_release(
                old(self)@,
                tags@.len() as int,
            ),
            r matches Err(e) ==> e.code == spec_classify(status) && e.err@ == (match errmsg {
                Some(m) => m@,
                None => "unknown"@,
            }),
    {
        let mut tags = tags;
        release_row(&mut tags, &mut self.ledger);
        let r = stmt_result_from_status(status, errmsg);
        if r.is_ok() {
            self.state = StmtState::TableBound;
        }
        r
    }

    /// Encode one row of values into fresh descriptors, counting the
    /// allocations. The descriptors are lent to the engine's bind call and
    /// must then be handed to `bind_outcome`, which releases each exactly
    /// once.
    pub fn encode_row(&mut self, params: &Vec<Field>) -> (r: Vec<BindParam>)
        requires
            old(self)@.wf(),
            old(self)@.allocated + params@.len() < 0x10000000000000000,
        ensures
            final(self)@ == spec_after_encode(old(self)@, params@.len() as int),
            r@.len() == params@.len(),
            forall|i: int|
                0 <= i < r@.len() ==> (#[trigger] r@[i])@ == spec_encoded_param(params@[i]@),
            forall|i: int| 0 <= i < r@.len() ==> (#[trigger] r@[i])@.live,
    {
        encode_row(params, &mut self.ledger)
    }

    /// Record the outcome of binding one row and adding it to the batch:
    /// every descriptor of the row is released exactly once, on the
    /// success path and on both failure paths alike, so a bind failure
    /// leaks nothing. On success the batch grows by one row; the first
    /// failing status is surfaced as the classified (code, message) pair.
    pub fn bind_outcome(
        &mut self,
        row: Vec<BindParam>,
        bind_status: i32,
        batch_status: i32,
        errmsg: Option<String>,
    ) -> (r: Result<(), TaosError>)
        requires
            old(self)@.state == StmtState::Prepared || old(self)@.state == StmtState::TableBound
                || old(self)@.state == StmtState::RowsBound,
            forall|i: int| 0 <= i < row@.len() ==> (#[trigger] row@[i])@.live,
            old(self)@.released + row@.len() <= old(self)@.allocated,
            old(self)@.batched + 1 < 0x10000000000000000,
        ensures
            r is Ok <==> spec_status_ok(bind_status) && spec_status_ok(batch_status),
            r is Ok ==> final(self)@ == spec_after_bind(old(self)@, row@.len() as int),
            !(r is Ok) ==> final(self)@ == spec_after_release(old(self)@, row@.len() as int),
            r matches Err(e) ==> e.code == (if !spec_status_ok(bind_status) {
                spec_classify(bind_status)
            } else {
                spec_classify(batch_status)
            }) && e.err@ == (match errmsg {
                Some(m) => m@,
                None => "unknown"@,
            }),
    {
        let mut row = row;
        release_row(&mut row, &mut self.ledger);
        let bind_code = classify_status(bind_status);
        let failing: i32 = if !bind_code.success() {
            bind_status
        } else {
            batch_status
        };
        let r = stmt_result_from_status(failing, errmsg);
        if r.is_ok() {
            self.batched = self.batched + 1;
            self.state = StmtState::RowsBound;
        }
        r
    }

    /// Record the outcome of executing the batch: on success every row of
    /// the batch — exactly as many as were bound since the last execute —
    /// is flushed to the engine, and the batch starts over.
    pub fn execute_outcome(&mut self, status: i32, errmsg: Option<String>) -> (r: Result<
        (),
        TaosError,
    >)
        requires
            old(self)@.state == StmtState::RowsBound,
            old(self)@.submitted + old(self)@.batched < 0x10000000000000000,
        ensures
            r is Ok <==> spec_status_ok(status),
            spec_status_ok(status) ==> final(self)@ == spec_after_execute(old(self)@),
            !spec_status_ok(status) ==> final(self)@ == old(self)@,
            r matches Err(e) ==> e.code == spec_classify(status) && e.err@ == (match errmsg {
                Some(m) => m@,
                None => "unknown"@,
            }),
    {
        let r = stmt_result_from_status(status, errmsg);
        if r.is_ok() {
            self.submitted = self.submitted + self.batched;
            self.batched = 0;
            self.state = StmtState::Executed;
        }
        r
    }

    /// Close the statement. A statement can be closed from any state, and
    /// only once: the underlying handle is freed exactly once.
    pub fn close(&mut self)
        requires
            old(self)@.state != StmtState::Closed,
        ensures
            final(self)@ == (StmtView { state: StmtState::Closed, ..old(self)@ }),
    {
        self.state = StmtState::Closed;
    }
}

} // verus!
