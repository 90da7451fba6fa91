//! The login slot, which one flow at a time can have.

use vstd::prelude::*;

use crate::events::LoginSubscriptionEvent;
use crate::login_ws::{handle_login_ws, next_stage, LoginInput, LoginStage, LoginWsParams};
use crate::outside::new_lock;

verus! {

/// The login slot.
pub struct LoginSlot {
    lock: tokio::sync::Mutex<()>,
}

impl LoginSlot {
    /// The lock that the flow with the slot holds.
    pub closed spec fn lock(self) -> tokio::sync::Mutex<()> {
        self.lock
    }

    /// A slot that no flow has. Whether a lock is held changes behind a shared reference and so is
    /// no part of its value: no clause can say of the value that it is free.
    pub fn new() -> (slot: LoginSlot) {
        LoginSlot { lock: new_lock() }
    }

    /// Tries to let a flow in. It goes on with a pass, which it has to keep until it is closed, or
    /// is refused without one, as the lock says when it is tried: whatever the flow, it is refused
    /// only where `try_lock` on the lock of this slot gave an error. Whether the lock is free
    /// depends on the passes that are out, of which nothing is said here.
    pub fn enter(&self, stage: LoginStage) -> (entered: (
        LoginStage,
        Option<tokio::sync::MutexGuard<'_, ()>>,
    ))
        requires
            stage@ is Enter,
        ensures
            entered.0@ == next_stage(stage@, LoginInput::Entered(entered.1 is Some)),
            exists|tried: Result<tokio::sync::MutexGuard<'_, ()>, tokio::sync::TryLockError>|
                {
                    &&& #[trigger] call_ensures(
                        tokio::sync::Mutex::<()>::try_lock,
                        (&self.lock(),),
                        tried,
                    )
                    &&& match tried {
                        Ok(pass) => entered.1 == Some(pass),
                        Err(_) => entered.1 is None,
                    }
                },
    {
        let try_lock = tokio::sync::Mutex::<()>::try_lock;
        let tried = try_lock(&self.lock);
        let ghost outcome = tried;
        let entered = match tried {
            Ok(pass) => (handle_login_ws(stage, LoginInput::Entered(true)), Some(pass)),
            Err(_) => (handle_login_ws(stage, LoginInput::Entered(false)), None),
        };
        assert(call_ensures(tokio::sync::Mutex::<()>::try_lock, (&self.lock(),), outcome));
        entered
    }
}

/// A flow is let in, or refused, as the lock of the slot answered when it was tried, and nothing
/// about the flow has a part in it: one that is let in looks for the session with its own
/// parameters, and one that is refused is told that a login is under way.
pub proof fn lock_decides<'a>(
    slot: LoginSlot,
    params: LoginWsParams,
    entered: (LoginStage, Option<tokio::sync::MutexGuard<'a, ()>>),
)
    requires
        call_ensures(LoginSlot::enter, (&slot, LoginStage::Enter { params }), entered),
    ensures
        exists|tried: Result<tokio::sync::MutexGuard<'a, ()>, tokio::sync::TryLockError>|
            {
                &&& #[trigger] call_ensures(
                    tokio::sync::Mutex::<()>::try_lock,
                    (&slot.lock(),),
                    tried,
                )
                &&& match tried {
                    Ok(pass) => {
                        &&& entered.1 == Some(pass)
                        &&& entered.0 matches LoginStage::FindSession { params: kept, name }
                        &&& kept == params
                        &&& name@ == "default"@
                    },
                    Err(_) => {
                        &&& entered.1 is None
                        &&& entered.0 matches LoginStage::Refuse { event }
                        &&& event matches LoginSubscriptionEvent::Error { message }
                        &&& message@
                            == "A login session is already in progress; reuse the active QR code"@
                    },
                }
            },
{
    let lock = slot.lock();
    let tried = choose|tried: Result<tokio::sync::MutexGuard<'a, ()>, tokio::sync::TryLockError>|
        {
            &&& #[trigger] call_ensures(tokio::sync::Mutex::<()>::try_lock, (&lock,), tried)
            &&& match tried {
                Ok(pass) => entered.1 == Some(pass),
                Err(_) => entered.1 is None,
            }
        };
    assert(call_ensures(tokio::sync::Mutex::<()>::try_lock, (&lock,), tried));
}

} // verus!
