use vstd::prelude::*;
use crate::state::{FlappyError, GameState};

verus! {

/// What the caller of an operation presents: who signed, and what the
/// session-key verifier found of the session token, if one came along.
#[derive(Clone, Copy, Debug, PartialEq, Eq)]
pub struct GameAction {
    /// Identity of the signer.
    pub signer: [u8; 32],
    /// `None` where no session token was presented; otherwise whether the
    /// token presented is valid for this signer and the record's authority.
    pub session_token: Option<bool>,
}

/// The caller may act on a record owned by `authority`: with a session token
/// the token decides, without one the signer must be the authority.
pub open spec fn authorized(authority: Seq<u8>, action: GameAction) -> bool {
    match action.session_token {
        Some(valid) => valid,
        None => action.signer@ == authority,
    }
}

/// Whether two identities are the same.
pub fn same_key(a: &[u8; 32], b: &[u8; 32]) -> (r: bool)
    ensures
        r == (a@ == b@),
{
    let mut i: usize = 0;
    while i < 32
        invariant
            i <= 32,
            forall|j: int| 0 <= j < i ==> a@[j] == b@[j],
        decreases 32 - i,
    {
        if a[i] != b[i] {
            return false;
        }
        i += 1;
    }
    assert(a@ =~= b@);
    true
}

/// The check made before any operation touches the record.
pub fn check_auth(game: &GameState, action: &GameAction) -> (r: Result<(), FlappyError>)
    ensures
        r == if authorized(game.authority@, *action) {
            Ok::<(), FlappyError>(())
        } else {
            Err::<(), FlappyError>(FlappyError::InvalidAuth)
        },
{
    let ok = match action.session_token {
        Some(valid) => valid,
        None => same_key(&action.signer, &game.authority),
    };
    if ok {
        Ok(())
    } else {
        Err(FlappyError::InvalidAuth)
    }
}

} // verus!
