//! The decisions behind the enroll and unenroll commands.
//!
//! A command handler never mutates the registry directly: it records intent
//! as a pending key, or removes a pending key that records the opposite
//! intent. Which of the two, and which answer the invoker gets, is decided
//! here from plain observations — whether the opposite key is present,
//! whether the invoker is enrolled — and from whether the store and the
//! notification calls succeeded. The calls themselves happen outside.

use vstd::prelude::*;

use crate::interaction::SimpleMessageResponse;
use crate::users::{BotUser, spec_contains_id};

verus! {

/// A failure of a command handler.
#[derive(Debug)]
pub enum CommandHandlerError {
    /// Unenrolling removed no entry or more than one; the list lengths
    /// before and after.
    DropUser { before: usize, after: usize },
    /// Notifying the invoker failed; their uid and the failure's text.
    Notify { uid: String, error: String },
}

/// Whether the invoker counts as enrolled when an enrollment is handled:
/// they stand in the registry snapshot, or an addition of them is already
/// pending.
pub fn already_active(users: &Vec<BotUser>, uid: &Vec<u8>, add_pending: bool) -> (r: bool)
    ensures
        r == (spec_contains_id(users.deep_view(), uid@) || add_pending),
{
    crate::users::contains_id(users, uid) || add_pending
}

/// Whether the invoker counts as unenrolled when an unenrollment is
/// handled: they are missing from the registry snapshot, or a deletion of
/// them is already pending.
pub fn not_active(users: &Vec<BotUser>, uid: &Vec<u8>, delete_pending: bool) -> (r: bool)
    ensures
        r == (!spec_contains_id(users.deep_view(), uid@) || delete_pending),
{
    !crate::users::contains_id(users, uid) || delete_pending
}

/// Remove the invoker from an in-memory registry copy: exactly one entry
/// must go, anything else is an inconsistency reported with both lengths.
/// The copy is filtered either way; the store is only written by callers
/// and only through pending keys.
pub fn drop_user(users: &mut Vec<BotUser>, uid: &Vec<u8>) -> (r: Result<
    (),
    CommandHandlerError,
>)
    ensures
        final(users).deep_view() == old(users).deep_view().filter(
            |u: (Seq<u8>, Seq<u8>)| u.0 != uid@,
        ),
        r is Ok <==> old(users)@.len() == final(users)@.len() + 1,
        r matches Err(CommandHandlerError::DropUser { before, after }) ==> before == old(
            users,
        )@.len() && after == final(users)@.len(),
        r matches Err(e) ==> e is DropUser,
{
    let before = users.len();
    let ghost orig = old(users).deep_view();
    let ghost pred = |u: (Seq<u8>, Seq<u8>)| u.0 != uid@;
    let mut kept: Vec<BotUser> = Vec::new();
    let mut i: usize = 0;
    proof {
        reveal(Seq::filter);
        assert(orig.take(0).filter(pred) =~= Seq::<(Seq<u8>, Seq<u8>)>::empty());
    }
    while i < users.len()
        invariant
            i <= users.len(),
            orig == users.deep_view(),
            users.deep_view() == old(users).deep_view(),
            pred == (|u: (Seq<u8>, Seq<u8>)| u.0 != uid@),
            kept.deep_view() == orig.take(i as int).filter(pred),
        decreases users.len() - i,
    {
        let keep = !crate::users::bytes_eq(&users[i].uid, uid);
        proof {
            reveal(Seq::filter);
            let t = orig.take(i + 1int);
            assert(t.drop_last() =~= orig.take(i as int));
            assert(t.last() == orig[i as int]);
        }
        if keep {
            kept.push(users[i].clone());
            assert(kept.deep_view() =~= orig.take(i + 1int).filter(pred));
        }
        i += 1;
    }
    proof {
        assert(orig.take(users@.len() as int) =~= orig);
    }
    *users = kept;
    let after = users.len();
    if after < before && before - after == 1 {
        Ok(())
    } else {
        Err(CommandHandlerError::DropUser { before, after })
    }
}

/// The step an enrollment takes before notifying: withdraw the pending
/// deletion that would cancel it, report the invoker already enrolled, or
/// record the pending addition.
#[derive(Debug, PartialEq, Eq, Structural, Clone, Copy)]
pub enum StartAction {
    /// A pending deletion of this uid exists: remove that key.
    RemoveDeleteKey,
    /// The invoker is already enrolled: answer so, touch nothing.
    ReportAlreadyActive,
    /// Record the pending addition key.
    InsertAddKey,
}

/// Decide an enrollment's store step: a pending deletion is withdrawn
/// first of all; otherwise an enrolled invoker is only told so; otherwise
/// the addition is recorded.
pub fn start_action(delete_pending: bool, active: bool) -> (r: StartAction)
    ensures
        r == if delete_pending {
            StartAction::RemoveDeleteKey
        } else if active {
            StartAction::ReportAlreadyActive
        } else {
            StartAction::InsertAddKey
        },
{
    if delete_pending {
        StartAction::RemoveDeleteKey
    } else if active {
        StartAction::ReportAlreadyActive
    } else {
        StartAction::InsertAddKey
    }
}

/// The step an unenrollment takes before notifying: withdraw the pending
/// addition that would cancel it, report the invoker not enrolled, or drop
/// them from the snapshot copy and record the pending deletion.
#[derive(Debug, PartialEq, Eq, Structural, Clone, Copy)]
pub enum StopAction {
    /// A pending addition of this uid exists: remove that key.
    RemoveAddKey,
    /// The invoker is not enrolled: answer so, touch nothing.
    ReportNotActive,
    /// Drop the invoker and record the pending deletion key.
    DropAndInsertDeleteKey,
}

/// Decide an unenrollment's store step, mirroring [`start_action`].
pub fn stop_action(add_pending: bool, inactive: bool) -> (r: StopAction)
    ensures
        r == if add_pending {
            StopAction::RemoveAddKey
        } else if inactive {
            StopAction::ReportNotActive
        } else {
            StopAction::DropAndInsertDeleteKey
        },
{
    if add_pending {
        StopAction::RemoveAddKey
    } else if inactive {
        StopAction::ReportNotActive
    } else {
        StopAction::DropAndInsertDeleteKey
    }
}

/// How a handled command is answered.
#[derive(Debug, PartialEq, Eq, Structural, Clone, Copy)]
pub enum Verdict {
    /// A store step failed: the command did not take effect.
    Failed,
    /// An enrollment found the invoker already enrolled.
    AlreadyActive,
    /// An unenrollment found the invoker not enrolled.
    NotActive,
    /// The steps succeeded but the invoker could not be messaged.
    DmsClosed,
    /// Everything took effect.
    Success,
}

/// Judge a handled enrollment: a failed store step fails the command; an
/// already enrolled invoker is only told so; otherwise a failed
/// notification reports closed direct messages, and success reports
/// success.
pub fn start_verdict(action: StartAction, store_ok: bool, notify_ok: bool) -> (r: Verdict)
    ensures
        r == if action is ReportAlreadyActive {
            Verdict::AlreadyActive
        } else if !store_ok {
            Verdict::Failed
        } else if !notify_ok {
            Verdict::DmsClosed
        } else {
            Verdict::Success
        },
{
    match action {
        StartAction::ReportAlreadyActive => Verdict::AlreadyActive,
        _ => {
            if !store_ok {
                Verdict::Failed
            } else if !notify_ok {
                Verdict::DmsClosed
            } else {
                Verdict::Success
            }
        },
    }
}

/// Judge a handled unenrollment: a failed store step or an inconsistent
/// drop fails the command; a not-enrolled invoker is only told so;
/// otherwise the notification decides between closed direct messages and
/// success.
pub fn stop_verdict(action: StopAction, drop_ok: bool, store_ok: bool, notify_ok: bool) -> (r:
    Verdict)
    ensures
        r == if action is ReportNotActive {
            Verdict::NotActive
        } else if action is DropAndInsertDeleteKey && !drop_ok {
            Verdict::Failed
        } else if !store_ok {
            Verdict::Failed
        } else if !notify_ok {
            Verdict::DmsClosed
        } else {
            Verdict::Success
        },
{
    match action {
        StopAction::ReportNotActive => Verdict::NotActive,
        StopAction::DropAndInsertDeleteKey => {
            if !drop_ok {
                Verdict::Failed
            } else if !store_ok {
                Verdict::Failed
            } else if !notify_ok {
                Verdict::DmsClosed
            } else {
                Verdict::Success
            }
        },
        StopAction::RemoveAddKey => {
            if !store_ok {
                Verdict::Failed
            } else if !notify_ok {
                Verdict::DmsClosed
            } else {
                Verdict::Success
            }
        },
    }
}

/// Judge a handled journal-entry command: only the notification can fail.
pub fn entry_verdict(notify_ok: bool) -> (r: Verdict)
    ensures
        r == if notify_ok {
            Verdict::Success
        } else {
            Verdict::DmsClosed
        },
{
    if notify_ok {
        Verdict::Success
    } else {
        Verdict::DmsClosed
    }
}

/// The answer each verdict sends back to the invoker.
pub fn respond(verdict: Verdict) -> (r: SimpleMessageResponse)
    ensures
        match verdict {
            Verdict::Failed => crate::interaction::spec_plain_message(
                r.data,
                crate::interaction::spec_error_text(),
                Some(crate::interaction::EPHEMERAL),
            ),
            Verdict::AlreadyActive => crate::interaction::spec_plain_message(
                r.data,
                crate::interaction::spec_already_active_text(),
                Some(crate::interaction::EPHEMERAL),
            ),
            Verdict::NotActive => crate::interaction::spec_plain_message(
                r.data,
                crate::interaction::spec_not_active_text(),
                Some(crate::interaction::EPHEMERAL),
            ),
            Verdict::DmsClosed => crate::interaction::spec_plain_message(
                r.data,
                crate::interaction::spec_dms_closed_text(),
                Some(crate::interaction::EPHEMERAL),
            ),
            Verdict::Success => crate::interaction::spec_plain_message(
                r.data,
                crate::interaction::spec_success_text(),
                Some(crate::interaction::EPHEMERAL),
            ),
        },
        r.kind == crate::interaction::InteractionResponseType::ChannelMessageWithSource,
{
    match verdict {
        Verdict::Failed => SimpleMessageResponse::error(),
        Verdict::AlreadyActive => SimpleMessageResponse::already_active(),
        Verdict::NotActive => SimpleMessageResponse::not_active(),
        Verdict::DmsClosed => SimpleMessageResponse::dms_closed(),
        Verdict::Success => SimpleMessageResponse::success(),
    }
}

} // verus!
