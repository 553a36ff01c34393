use crate::hub::{Hub, CAPACITY};
use crate::stream::Shutdown;
use crate::message::{code_units, fields_valid, Message, ValidationError, MAX_ROOM_LEN, MAX_USERNAME_LEN};
use vstd::prelude::*;

verus! {

/// Accepts one message candidate: applies the length rules and, when they
/// hold, publishes it. A publish with no subscription (or on a closed hub)
/// discards the message and is still a success to the caller.
pub fn post(hub: &mut Hub, room: String, username: String, message: String) -> (r: Result<
    (),
    ValidationError,
>)
    requires
        old(hub).wf(),
        old(hub).subscriber_count() > 0 && !old(hub).is_closed() ==> old(hub).history().len()
            < u64::MAX,
    ensures
        final(hub).wf(),
        final(hub).held().len() <= CAPACITY,
        final(hub).subscriber_count() == old(hub).subscriber_count(),
        final(hub).is_closed() == old(hub).is_closed(),
        r is Ok <==> fields_valid(room@, username@),
        code_units(room@) > MAX_ROOM_LEN ==> r == Err::<(), ValidationError>(
            ValidationError::RoomTooLong,
        ),
        code_units(room@) <= MAX_ROOM_LEN && code_units(username@) > MAX_USERNAME_LEN ==> r == Err::<
            (),
            ValidationError,
        >(ValidationError::UsernameTooLong),
        r is Err ==> final(hub).history() == old(hub).history(),
        r is Ok && old(hub).subscriber_count() > 0 && !old(hub).is_closed() ==> final(hub).history() == old(hub).history().push((Message { room, username, message })),
        r is Ok && (old(hub).subscriber_count() == 0 || old(hub).is_closed()) ==> final(hub).history() == old(hub).history(),
{
    match Message::validate(room, username, message) {
        Ok(msg) => {
            let _delivered_to = hub.publish(msg);
            Ok(())
        },
        Err(e) => {
            proof {
                hub.lemma_held();
            }
            Err(e)
        },
    }
}

/// The relay's shared state at start-up: an open hub with nothing buffered
/// and no subscription, and a shutdown signal that has not fired.
pub fn rocket() -> (r: (Hub, Shutdown))
    ensures
        r.0.wf(),
        r.0.history() == Seq::<Message>::empty(),
        r.0.subscriber_count() == 0,
        !r.0.is_closed(),
        !r.1.raised(),
{
    (Hub::new(), Shutdown::new())
}

} // verus!
