//! Many targets in one request, and answers that are given again.

use vstd::prelude::*;
use vstd::string::*;

use crate::codec::Id;
use crate::domain::Target;
use crate::error::{bad_request, AppError};
use crate::idempotency::CachedResponse;
use crate::text::owned;
use crate::time::Moment;

verus! {

/// How many targets one request may make.
pub const MAX_CREATED: usize = 200;

/// How many targets one request may act on.
pub const MAX_ACTED_ON: usize = 500;

/// What became of one target that was to be made.
#[derive(Clone, Debug)]
pub enum CreateOutcome {
    Created(Target),
    /// It was refused; `shown` is the error in words.
    Refused { error: AppError, shown: String },
}

/// One target that was not made.
#[derive(Clone, Debug)]
pub struct BulkCreateError {
    pub index: usize,
    pub code: String,
    pub message: String,
}

/// What became of all the targets that were to be made.
#[derive(Clone, Debug)]
pub struct BulkCreateResult {
    pub created: Vec<Target>,
    pub errors: Vec<BulkCreateError>,
}

/// The targets that were made, in order.
pub open spec fn made(outcomes: Seq<CreateOutcome>) -> Seq<Target>
    decreases outcomes.len(),
{
    if outcomes.len() == 0 {
        Seq::empty()
    } else {
        match outcomes.last() {
            CreateOutcome::Created(t) => made(outcomes.drop_last()).push(t),
            CreateOutcome::Refused { .. } => made(outcomes.drop_last()),
        }
    }
}

/// Whether an error is told by its own code and message: those that the request
/// caused are, and a fault of the store is told as one.
pub open spec fn is_told_as_is(e: AppError) -> bool {
    e is Conflict || e is BadRequest || e is Unprocessable
}

/// What is told of a refused target: its place in the request, a code and a
/// message.
pub open spec fn telling(index: int, e: AppError, shown: Seq<char>) -> (int, Seq<char>, Seq<char>) {
    if is_told_as_is(e) {
        (index, crate::error::code_of(e), crate::error::message_of(e))
    } else {
        (index, "STORAGE_ERROR"@, shown)
    }
}

/// What is told of the targets that were not made, in order.
pub open spec fn told(outcomes: Seq<CreateOutcome>) -> Seq<(int, Seq<char>, Seq<char>)>
    decreases outcomes.len(),
{
    if outcomes.len() == 0 {
        Seq::empty()
    } else {
        match outcomes.last() {
            CreateOutcome::Created(_) => told(outcomes.drop_last()),
            CreateOutcome::Refused { error, shown } => told(outcomes.drop_last()).push(
                telling(outcomes.len() - 1, error, shown@),
            ),
        }
    }
}

/// What errors say, as plain values.
pub open spec fn sayings(errors: Seq<BulkCreateError>) -> Seq<(int, Seq<char>, Seq<char>)> {
    errors.map_values(|e: BulkCreateError| (e.index as int, e.code@, e.message@))
}

/// Whether so many targets may be made by one request.
pub fn check_bulk_create(count: usize) -> (r: Result<(), AppError>)
    ensures
        match r {
            Ok(_) => 1 <= count <= MAX_CREATED,
            Err(e) => {
                ||| count == 0 && crate::error::is_bad_request(
                    e,
                    "EMPTY_BATCH"@,
                    "bulk create requires at least one target spec"@,
                )
                ||| count > MAX_CREATED && crate::error::is_bad_request(
                    e,
                    "BATCH_TOO_LARGE"@,
                    "bulk create accepts at most 200 targets per request"@,
                )
            },
        },
{
    if count == 0 {
        return Err(
            bad_request("EMPTY_BATCH", owned("bulk create requires at least one target spec")),
        );
    }
    if count > MAX_CREATED {
        return Err(
            bad_request(
                "BATCH_TOO_LARGE",
                owned("bulk create accepts at most 200 targets per request"),
            ),
        );
    }
    Ok(())
}

/// What is told of a refused target.
fn create_error(index: usize, error: AppError, shown: String) -> (r: BulkCreateError)
    ensures
        (r.index as int, r.code@, r.message@) == telling(index as int, error, shown@),
{
    match error {
        AppError::Conflict { code, message } => BulkCreateError {
            index,
            code: owned(code),
            message,
        },
        AppError::BadRequest { code, message, field: _ } => BulkCreateError {
            index,
            code: owned(code),
            message,
        },
        AppError::Unprocessable { code, message } => BulkCreateError {
            index,
            code: owned(code),
            message,
        },
        _ => BulkCreateError { index, code: owned("STORAGE_ERROR"), message: shown },
    }
}

/// Puts together what became of the targets of one request, and says whether public
/// pages have to be read anew: they have once any target was made.
pub fn bulk_create_targets(outcomes: Vec<CreateOutcome>) -> (r: (BulkCreateResult, bool))
    ensures
        r.0.created@ == made(outcomes@),
        sayings(r.0.errors@) == told(outcomes@),
        r.1 == (made(outcomes@).len() > 0),
{
    let ghost all = outcomes@;
    let mut rest = outcomes;
    let mut created: Vec<Target> = Vec::new();
    let mut errors: Vec<BulkCreateError> = Vec::new();
    let total: usize = rest.len();
    let mut n: usize = 0;
    while rest.len() > 0
        invariant
            n + rest.len() == total,
            total == all.len(),
            rest@ == all.skip(n as int),
            created@ == made(all.take(n as int)),
            sayings(errors@) == told(all.take(n as int)),
        decreases rest.len(),
    {
        let outcome = rest.remove(0);
        let ghost next = all.take(n + 1);
        assert(next.last() == outcome);
        assert(next.drop_last() =~= all.take(n as int));
        match outcome {
            CreateOutcome::Created(t) => {
                created.push(t);
            },
            CreateOutcome::Refused { error, shown } => {
                let ghost before = errors@;
                let entry = create_error(n, error, shown);
                errors.push(entry);
                assert(sayings(errors@) =~= sayings(before).push(
                    telling(n as int, error, shown@),
                ));
            },
        }
        n += 1;
        assert(rest@ =~= all.skip(n as int));
    }
    assert(all.take(n as int) =~= all);
    let changed = created.len() > 0;
    (BulkCreateResult { created, errors }, changed)
}

/// Every target of a request is either made or told of: none is dropped, and none
/// is counted twice.
pub proof fn law_every_target_is_accounted_for(outcomes: Seq<CreateOutcome>)
    ensures
        made(outcomes).len() + told(outcomes).len() == outcomes.len(),
    decreases outcomes.len(),
{
    if outcomes.len() > 0 {
        law_every_target_is_accounted_for(outcomes.drop_last());
    }
}

/// What is told of a target names its place in the request, and in order.
pub proof fn law_errors_name_their_targets(outcomes: Seq<CreateOutcome>, i: int)
    requires
        0 <= i < told(outcomes).len(),
    ensures
        0 <= told(outcomes)[i].0 < outcomes.len(),
        outcomes[told(outcomes)[i].0] is Refused,
        i > 0 ==> told(outcomes)[i - 1].0 < told(outcomes)[i].0,
    decreases outcomes.len(),
{
    if outcomes.len() > 0 {
        let before = told(outcomes.drop_last());
        if i < before.len() {
            law_errors_name_their_targets(outcomes.drop_last(), i);
            assert(outcomes.drop_last()[before[i].0] == outcomes[before[i].0]);
        } else if i > 0 {
            law_errors_name_their_targets(outcomes.drop_last(), i - 1);
        }
    }
}

/// What can be done to many targets at once.
#[derive(Clone, Copy, Debug, PartialEq, Eq, Structural)]
pub enum BulkActionKind {
    Enable,
    Disable,
    Delete,
}

/// Whether so many targets may be acted on by one request.
pub fn check_bulk_action(count: usize) -> (r: Result<(), AppError>)
    ensures
        match r {
            Ok(_) => 1 <= count <= MAX_ACTED_ON,
            Err(e) => {
                ||| count == 0 && crate::error::is_bad_request(
                    e,
                    "EMPTY_BATCH"@,
                    "bulk action requires at least one target id"@,
                )
                ||| count > MAX_ACTED_ON && crate::error::is_bad_request(
                    e,
                    "BATCH_TOO_LARGE"@,
                    "bulk action accepts at most 500 target ids per request"@,
                )
            },
        },
{
    if count == 0 {
        return Err(
            bad_request("EMPTY_BATCH", owned("bulk action requires at least one target id")),
        );
    }
    if count > MAX_ACTED_ON {
        return Err(
            bad_request(
                "BATCH_TOO_LARGE",
                owned("bulk action accepts at most 500 target ids per request"),
            ),
        );
    }
    Ok(())
}

/// Each identifier once, where it first stands.
pub open spec fn first_occurrences(ids: Seq<Id>) -> Seq<Id>
    decreases ids.len(),
{
    if ids.len() == 0 {
        Seq::empty()
    } else if ids.drop_last().contains(ids.last()) {
        first_occurrences(ids.drop_last())
    } else {
        first_occurrences(ids.drop_last()).push(ids.last())
    }
}

/// The identifiers kept are those that are there, and each is kept once.
pub proof fn law_each_target_is_acted_on_once(ids: Seq<Id>)
    ensures
        first_occurrences(ids).no_duplicates(),
        forall|id: Id| #[trigger] first_occurrences(ids).contains(id) <==> ids.contains(id),
    decreases ids.len(),
{
    if ids.len() > 0 {
        let head = ids.drop_last();
        law_each_target_is_acted_on_once(head);
        let kept = first_occurrences(ids);
        assert forall|id: Id| #[trigger] kept.contains(id) <==> ids.contains(id) by {
            if ids.contains(id) {
                let k = choose|k: int| 0 <= k < ids.len() && ids[k] == id;
                if k < head.len() {
                    assert(head[k] == id);
                    assert(first_occurrences(head).contains(id));
                    let j = choose|j: int|
                        0 <= j < first_occurrences(head).len() && first_occurrences(head)[j] == id;
                    assert(kept[j] == id);
                } else if head.contains(id) {
                    assert(first_occurrences(head).contains(id));
                } else {
                    assert(kept[kept.len() - 1] == id);
                }
            }
            if kept.contains(id) {
                let j = choose|j: int| 0 <= j < kept.len() && kept[j] == id;
                if j < first_occurrences(head).len() {
                    assert(first_occurrences(head)[j] == id);
                    assert(first_occurrences(head).contains(id));
                    let k = choose|k: int| 0 <= k < head.len() && head[k] == id;
                    assert(ids[k] == id);
                } else {
                    assert(ids[ids.len() - 1] == id);
                }
            }
        }
        if !head.contains(ids.last()) {
            assert(!first_occurrences(head).contains(ids.last()));
            assert forall|i: int, j: int|
                0 <= i < kept.len() && 0 <= j < kept.len() && i != j implies kept[i] != kept[j] by {
                if i == kept.len() - 1 {
                    assert(first_occurrences(head)[j] == kept[j]);
                } else if j == kept.len() - 1 {
                    assert(first_occurrences(head)[i] == kept[i]);
                } else {
                    assert(first_occurrences(head)[i] != first_occurrences(head)[j]);
                }
            }
        }
    }
}

/// Each identifier once, where it first stands.
pub fn unique_ids(ids: &Vec<Id>) -> (r: Vec<Id>)
    ensures
        r@ == first_occurrences(ids@),
{
    let mut out: Vec<Id> = Vec::new();
    let mut i: usize = 0;
    while i < ids.len()
        invariant
            i <= ids.len(),
            out@ == first_occurrences(ids@.take(i as int)),
        decreases ids.len() - i,
    {
        let id = ids[i];
        let mut k: usize = 0;
        while k < out.len() && out[k] != id
            invariant
                k <= out.len(),
                forall|j: int| 0 <= j < k ==> out@[j] != id,
            decreases out.len() - k,
        {
            k += 1;
        }
        proof {
            let next = ids@.take(i + 1);
            assert(next.last() == id);
            assert(next.drop_last() =~= ids@.take(i as int));
            law_each_target_is_acted_on_once(ids@.take(i as int));
            if k < out@.len() {
                assert(out@[k as int] == id);
                assert(out@.contains(id));
            } else {
                assert(!out@.contains(id));
            }
            assert(ids@.take(i as int).contains(id) <==> k < out@.len());
        }
        if k == out.len() {
            out.push(id);
        }
        i += 1;
    }
    assert(ids@.take(i as int) =~= ids@);
    out
}

/// What became of an action on one target.
#[derive(Clone, Debug)]
pub enum Acted {
    /// Nothing had to be done.
    Unchanged,
    Changed,
    Missing,
    /// It failed; the error in words.
    Failed(String),
}

/// Whether a target that is `enabled` has to be written for an action, and how: a
/// switch that stands as asked for is left alone.
pub fn switch_to(action: BulkActionKind, enabled: bool) -> (r: Option<bool>)
    ensures
        r == match action {
            BulkActionKind::Enable => if enabled {
                None
            } else {
                Some(true)
            },
            BulkActionKind::Disable => if enabled {
                Some(false)
            } else {
                None
            },
            BulkActionKind::Delete => None,
        },
{
    match action {
        BulkActionKind::Enable => if enabled {
            None
        } else {
            Some(true)
        },
        BulkActionKind::Disable => if enabled {
            Some(false)
        } else {
            None
        },
        BulkActionKind::Delete => None,
    }
}

/// A target with its switch thrown, and nothing else changed but the time of its
/// last change.
pub fn switched(target: Target, enable: bool, now: Moment) -> (r: Target)
    ensures
        r == (Target { enabled: enable, updated_at: now, ..target }),
{
    let mut t = target;
    t.enabled = enable;
    t.updated_at = now;
    t
}

/// What an error of the store makes of an action, where a missing target is told
/// apart.
pub fn acted_error(error: &AppError, shown: String) -> (r: Acted)
    ensures
        error is NotFound ==> r is Missing,
        !(error is NotFound) ==> r == Acted::Failed(shown),
{
    match error {
        AppError::NotFound { .. } => Acted::Missing,
        _ => Acted::Failed(shown),
    }
}

/// Whether an action has to write to a target that was looked up with the result
/// `found`, which says whether the target is enabled. To delete a target, it is not
/// looked up first.
pub open spec fn has_to_write(action: BulkActionKind, found: Result<bool, AppError>) -> bool {
    match action {
        BulkActionKind::Enable => found matches Ok(enabled) && !enabled,
        BulkActionKind::Disable => found matches Ok(enabled) && enabled,
        BulkActionKind::Delete => true,
    }
}

/// What became of an action on one target. A target that is not there when it is
/// looked up or deleted is missing; any other error of the store is a failure, and so
/// is every error in writing a target that was found.
pub open spec fn outcome(
    action: BulkActionKind,
    found: Result<bool, AppError>,
    written: Option<Result<(), AppError>>,
    shown: String,
) -> Acted {
    if has_to_write(action, found) {
        match written->0 {
            Ok(_) => Acted::Changed,
            Err(e) => if action is Delete && e is NotFound {
                Acted::Missing
            } else {
                Acted::Failed(shown)
            },
        }
    } else {
        match found {
            Ok(_) => Acted::Unchanged,
            Err(e) => if e is NotFound {
                Acted::Missing
            } else {
                Acted::Failed(shown)
            },
        }
    }
}

/// What became of an action on one target: `found` is what looking it up gave, and
/// says whether it is enabled; `written` is what writing or deleting it gave, where
/// that had to be done; `shown` is the error in words, where there was one. Where a
/// target is deleted, `found` makes no difference.
pub fn acted(
    action: BulkActionKind,
    found: Result<bool, AppError>,
    written: Option<Result<(), AppError>>,
    shown: String,
) -> (r: Acted)
    requires
        has_to_write(action, found) ==> written is Some,
    ensures
        r == outcome(action, found, written, shown),
{
    match action {
        BulkActionKind::Delete => match written {
            Some(Ok(_)) => Acted::Changed,
            Some(Err(e)) => acted_error(&e, shown),
            None => Acted::Unchanged,
        },
        _ => match found {
            Err(e) => acted_error(&e, shown),
            Ok(enabled) => match switch_to(action, enabled) {
                None => Acted::Unchanged,
                Some(_) => match written {
                    Some(Ok(_)) => Acted::Changed,
                    Some(Err(_)) => Acted::Failed(shown),
                    None => Acted::Unchanged,
                },
            },
        },
    }
}

/// What is told of an action on one target.
#[derive(Clone, Debug)]
pub struct BulkActionResult {
    pub id: Id,
    pub status: String,
    /// Empty where there is nothing to say.
    pub message: String,
}

/// The status and the message for what became of an action.
pub open spec fn action_words(acted: Acted) -> (Seq<char>, Seq<char>) {
    match acted {
        Acted::Unchanged => ("ok"@, Seq::empty()),
        Acted::Changed => ("ok"@, Seq::empty()),
        Acted::Missing => ("not_found"@, "target not found"@),
        Acted::Failed(shown) => ("storage_error"@, shown@),
    }
}

/// Whether any of the actions changed anything.
pub open spec fn any_changed(acted: Seq<(Id, Acted)>) -> bool {
    exists|i: int| 0 <= i < acted.len() && (#[trigger] acted[i]).1 is Changed
}

/// Puts together what became of the actions of one request, and says whether public
/// pages have to be read anew: they have once anything was changed.
pub fn bulk_action_targets(acted: Vec<(Id, Acted)>) -> (r: (Vec<BulkActionResult>, bool))
    ensures
        r.0@.len() == acted@.len(),
        forall|i: int|
            0 <= i < acted@.len() ==> {
                &&& (#[trigger] r.0@[i]).id == acted@[i].0
                &&& (r.0@[i].status@, r.0@[i].message@) == action_words(acted@[i].1)
            },
        r.1 == any_changed(acted@),
{
    let ghost all = acted@;
    let mut rest = acted;
    let mut results: Vec<BulkActionResult> = Vec::new();
    let mut changed = false;
    while rest.len() > 0
        invariant
            results.len() + rest.len() == all.len(),
            rest@ == all.skip(results.len() as int),
            forall|i: int|
                0 <= i < results.len() ==> {
                    &&& (#[trigger] results@[i]).id == all[i].0
                    &&& (results@[i].status@, results@[i].message@) == action_words(all[i].1)
                },
            changed == exists|i: int| 0 <= i < results.len() && (#[trigger] all[i]).1 is Changed,
        decreases rest.len(),
    {
        let (id, one) = rest.remove(0);
        assert((id, one) == all[results.len() as int]);
        let result = match one {
            Acted::Unchanged => BulkActionResult {
                id,
                status: owned("ok"),
                message: String::new(),
            },
            Acted::Changed => {
                changed = true;
                BulkActionResult { id, status: owned("ok"), message: String::new() }
            },
            Acted::Missing => BulkActionResult {
                id,
                status: owned("not_found"),
                message: owned("target not found"),
            },
            Acted::Failed(shown) => BulkActionResult {
                id,
                status: owned("storage_error"),
                message: shown,
            },
        };
        results.push(result);
        assert(rest@ =~= all.skip(results.len() as int));
    }
    (results, changed)
}

/// The error for a body that is no JSON of the shape that is asked for.
pub fn invalid_create_body(reason: &str) -> (e: AppError)
    ensures
        crate::error::is_bad_request(
            e,
            "INVALID_JSON"@,
            "failed to parse bulk create body: "@ + reason@,
        ),
{
    let mut message = owned("failed to parse bulk create body: ");
    message.append(reason);
    bad_request("INVALID_JSON", message)
}

/// The error for a body that is no JSON of the shape that is asked for.
pub fn invalid_action_body(reason: &str) -> (e: AppError)
    ensures
        crate::error::is_bad_request(
            e,
            "INVALID_JSON"@,
            "failed to parse bulk action body: "@ + reason@,
        ),
{
    let mut message = owned("failed to parse bulk action body: ");
    message.append(reason);
    bad_request("INVALID_JSON", message)
}

/// Whether a text may stand as the value of a header: it holds no control
/// character but the tab.
pub open spec fn is_header_value(text: Seq<char>) -> bool {
    forall|i: int|
        0 <= i < text.len() ==> {
            let c = #[trigger] text[i] as int;
            (32 <= c && c != 127) || c == 9
        }
}

/// Asks `HeaderValue::from_str` whether a text may stand as the value of a header,
/// which it may where each of its bytes is a tab, or at least 32 and not 127. The
/// bytes of a character beyond ASCII are all above 127.
#[verifier::external_body]
fn header_value_ok(text: &str) -> (r: bool)
    ensures
        r == is_header_value(text@),
{
    axum::http::HeaderValue::from_str(text).is_ok()
}

/// An answer that is given again, as it was kept. Where its content type cannot
/// stand in a header, it is given as JSON.
pub fn idempotent_response(cached: CachedResponse) -> (r: CachedResponse)
    ensures
        r.status == cached.status,
        r.body == cached.body,
        is_header_value(cached.content_type@) ==> r.content_type
            == cached.content_type,
        !is_header_value(cached.content_type@) ==> r.content_type@
            == "application/json"@,
{
    if header_value_ok(cached.content_type.as_str()) {
        cached
    } else {
        CachedResponse {
            status: cached.status,
            content_type: owned("application/json"),
            body: cached.body,
        }
    }
}

} // verus!
