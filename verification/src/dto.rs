//! The shapes in which segments and edits are stored, and the checks made
//! when they are read back.
use vstd::prelude::*;

use crate::error::{ApplicationError, ApplicationResult};
use crate::operation::{OperationType, parse_operation_type};
use crate::permission::{parse_permission, Permission, PermissionType};
use crate::route_info::RouteId;
use crate::user::UserId;
use crate::segment::{DrawingMode, drawing_mode_name, parse_drawing_mode};
use crate::text::owned;
use crate::types::Polyline;

verus! {

/// A stored segment: the route it belongs to, its place in the route, and
/// its points as an encoded polyline.
pub struct SegmentDto {
    pub route_id: String,
    pub index: u32,
    pub polyline: String,
}

impl SegmentDto {
    /// The stored form of the segment at `index` of route `route_id`, whose
    /// points encode to `polyline`.
    pub fn from_model(route_id: &RouteId, index: u32, polyline: Polyline) -> (dto: SegmentDto)
        ensures
            dto.route_id@ == route_id@,
            dto.index == index,
            dto.polyline@ == polyline@,
    {
        SegmentDto { route_id: route_id.to_string(), index, polyline: polyline.into_string() }
    }

    /// The id of the route.
    pub fn route_id(&self) -> (s: &String)
        ensures
            s == &self.route_id,
    {
        &self.route_id
    }

    /// The place in the route.
    pub fn index(&self) -> (i: &u32)
        ensures
            *i == self.index,
    {
        &self.index
    }

    /// The encoded points.
    pub fn polyline(&self) -> (s: &String)
        ensures
            s == &self.polyline,
    {
        &self.polyline
    }
}

/// A stored segment template: its two ends, each an encoded polyline of one
/// point, and the name of its drawing mode.
pub struct SegmentTemplateDto {
    pub start: String,
    pub goal: String,
    pub mode: String,
}

impl SegmentTemplateDto {
    /// The stored form of a template whose ends encode to `start` and `goal`.
    pub fn new(start: Polyline, goal: Polyline, mode: DrawingMode) -> (dto: SegmentTemplateDto)
        ensures
            dto.start@ == start@,
            dto.goal@ == goal@,
            dto.mode@ == drawing_mode_name(mode),
    {
        SegmentTemplateDto { start: start.into_string(), goal: goal.into_string(), mode: owned(mode.as_str()) }
    }

    /// The drawing mode named in storage; a database error when the name is unknown.
    pub fn drawing_mode(&self) -> (r: ApplicationResult<DrawingMode>)
        ensures
            r is Ok <==> parse_drawing_mode(self.mode@) is Some,
            r matches Ok(m) ==> Some(m) == parse_drawing_mode(self.mode@),
            r matches Err(e) ==> e is DataBaseError,
    {
        match DrawingMode::from_str(self.mode.as_str()) {
            Some(m) => Ok(m),
            None => Err(ApplicationError::DataBaseError(owned("Invalid mode found in DB"))),
        }
    }
}

/// The kind of a stored edit from its code; a domain error when the code is unknown.
pub fn operation_type_from_code(code: &str) -> (r: ApplicationResult<OperationType>)
    ensures
        r is Ok <==> parse_operation_type(code@) is Some,
        r matches Ok(t) ==> Some(t) == parse_operation_type(code@),
        r matches Err(e) ==> e is DomainError,
        r matches Err(ApplicationError::DomainError(m)) ==> m@ == "Invalid type code: "@ + code@,
{
    match OperationType::from_str(code) {
        Some(t) => Ok(t),
        None => {
            let mut m = owned("Invalid type code: ");
            m.append(code);
            Err(ApplicationError::DomainError(m))
        },
    }
}

/// The permission stored in a row of route `route_id`, user `user_id` and
/// level name `permission_type`; a database error when the level name is
/// unknown.
pub fn permission_from_row(route_id: String, user_id: String, permission_type: &str) -> (r: ApplicationResult<Permission>)
    ensures
        r is Ok <==> parse_permission(permission_type@) is Some,
        r matches Ok(p) ==> p.route_id@ == route_id@ && p.user_id@ == user_id@ && Some(p.permission_type)
            == parse_permission(permission_type@),
        r matches Err(e) ==> e is DataBaseError,
        r matches Err(ApplicationError::DataBaseError(m)) ==> m@
            == "Failed to parse permission.permission_type (VariantNotFound)"@,
{
    match PermissionType::from_str(permission_type) {
        Some(t) => Ok(Permission::new(RouteId::from_string(route_id), UserId::from_string(user_id), t)),
        None => Err(ApplicationError::DataBaseError(owned("Failed to parse permission.permission_type (VariantNotFound)"))),
    }
}

/// How a storage transaction ends once its work is done.
#[derive(Clone, Copy, Debug, PartialEq, Eq, Structural)]
pub enum TransactionEnd {
    Commit,
    Rollback,
}

/// A transaction whose work succeeded (`work_ok`) is committed; one whose
/// work failed is rolled back, and the work's result is answered either way.
pub fn transaction_end(work_ok: bool) -> (e: TransactionEnd)
    ensures
        (e == TransactionEnd::Commit) == work_ok,
{
    if work_ok {
        TransactionEnd::Commit
    } else {
        TransactionEnd::Rollback
    }
}

/// The next thing a storage transaction does: run its work, end (by the
/// way given) with the work's result pending, or answer.
pub enum TransactionStep<T> {
    RunWork,
    End(TransactionEnd, ApplicationResult<T>),
    Answer(ApplicationResult<T>),
}

/// The step after beginning: run the work when the transaction began, else
/// answer the error of beginning.
pub open spec fn begin_step<T>(begin: ApplicationResult<()>) -> TransactionStep<T> {
    match begin {
        Ok(()) => TransactionStep::RunWork,
        Err(e) => TransactionStep::Answer(Err(e)),
    }
}

/// The step after the work: end by commit when the work succeeded and by
/// rollback when it failed, with the work's result pending.
pub open spec fn work_step<T>(work: ApplicationResult<T>) -> TransactionStep<T> {
    TransactionStep::End(if work is Ok { TransactionEnd::Commit } else { TransactionEnd::Rollback }, work)
}

/// The answer after ending: the pending result, unless ending failed.
pub open spec fn end_answer<T>(pending: ApplicationResult<T>, end: ApplicationResult<()>) -> ApplicationResult<T> {
    match end {
        Ok(()) => pending,
        Err(e) => Err(e),
    }
}

/// After beginning: the work runs when the transaction began; else the
/// transaction answers the error of beginning, and the work never runs.
pub fn after_begin<T>(begin: ApplicationResult<()>) -> (step: TransactionStep<T>)
    ensures
        step == begin_step::<T>(begin),
{
    match begin {
        Ok(()) => TransactionStep::RunWork,
        Err(e) => TransactionStep::Answer(Err(e)),
    }
}

/// After the work: the transaction ends, committed when the work succeeded
/// and rolled back when it failed (see [`transaction_end`]), with the
/// work's result pending.
pub fn after_work<T>(work: ApplicationResult<T>) -> (step: TransactionStep<T>)
    ensures
        step == work_step(work),
{
    let end = transaction_end(work.is_ok());
    TransactionStep::End(end, work)
}

/// After ending: the transaction answers the pending result of the work,
/// unless committing or rolling back failed, whose error it answers instead.
pub fn after_end<T>(pending: ApplicationResult<T>, end: ApplicationResult<()>) -> (r: ApplicationResult<T>)
    ensures
        r == end_answer(pending, end),
{
    match end {
        Ok(()) => pending,
        Err(e) => Err(e),
    }
}

/// What following the steps ([`after_begin`], then [`after_work`], then
/// [`after_end`]) comes to for a transaction whose beginning gave `begin`,
/// whose work gave `work` when it ran, and whose commit or rollback gave
/// `end`: the answer, and how the transaction was ended, if it was.
pub open spec fn transaction_run<T>(
    begin: ApplicationResult<()>,
    work: ApplicationResult<T>,
    end: ApplicationResult<()>,
) -> (ApplicationResult<T>, Option<TransactionEnd>) {
    match begin_step::<T>(begin) {
        TransactionStep::RunWork => match work_step(work) {
            TransactionStep::End(kind, pending) => (end_answer(pending, end), Some(kind)),
            _ => (work, None),
        },
        TransactionStep::Answer(a) => (a, None),
        TransactionStep::End(kind, pending) => (end_answer(pending, end), Some(kind)),
    }
}

/// A transaction begins first; when beginning fails it answers that error,
/// its work never runs and it is neither committed nor rolled back.
/// Otherwise its work runs once, it is committed exactly when the work
/// succeeded and rolled back exactly when the work failed, and it answers
/// the work's result, unless the commit or rollback failed, whose error it
/// answers instead.
pub proof fn transaction_law<T>(begin: ApplicationResult<()>, work: ApplicationResult<T>, end: ApplicationResult<()>)
    ensures
        transaction_run(begin, work, end) == (match begin {
            Err(e) => (Err::<T, ApplicationError>(e), None::<TransactionEnd>),
            Ok(()) => (
                match end {
                    Ok(()) => work,
                    Err(e) => Err(e),
                },
                Some(if work is Ok { TransactionEnd::Commit } else { TransactionEnd::Rollback }),
            ),
        }),
{
}

/// A stand-in for a storage connection, for exercising code that only
/// passes a connection along: its transactions always begin and end well.
pub struct MockConnection {}

impl MockConnection {
    /// Begins a transaction; always succeeds.
    pub fn begin_transaction(&self) -> (r: ApplicationResult<()>)
        ensures
            r is Ok,
    {
        Ok(())
    }

    /// Commits the transaction; always succeeds.
    pub fn commit_transaction(&self) -> (r: ApplicationResult<()>)
        ensures
            r is Ok,
    {
        Ok(())
    }

    /// Rolls the transaction back; always succeeds.
    pub fn rollback_transaction(&self) -> (r: ApplicationResult<()>)
        ensures
            r is Ok,
    {
        Ok(())
    }
}

} // verus!
