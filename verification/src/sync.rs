//! The decision side of the long-poll loop: adopting the next sync
//! token before any event of a cycle is handled, and extracting the
//! plain-text message events of a sync response in order.
use vstd::prelude::*;

verus! {

/// One event of a room's timeline, collapsed to the closed set of
/// shapes the bot distinguishes: a plain-text message, or anything
/// else, which is dropped.
#[derive(Debug, Clone)]
pub enum TimelineEvent {
    Message { sender: String, body: String },
    Other,
}

/// The events one joined room contributed to a sync response, in the
/// order the backend supplied them.
#[derive(Debug, Clone)]
pub struct RoomUpdate {
    pub room_id: String,
    pub events: Vec<TimelineEvent>,
}

/// One sync response: the cursor to resume from, and the joined rooms
/// with their new timeline events.
#[derive(Debug, Clone)]
pub struct SyncUpdate {
    pub next_token: String,
    pub rooms: Vec<RoomUpdate>,
}

/// One observed message in a room, handed to the dispatcher once and
/// never persisted.
#[derive(Debug, Clone)]
pub struct RoomEvent {
    pub room_id: String,
    pub sender: String,
    pub body: String,
}

/// The mathematical shape of a room event.
pub struct RoomEventModel {
    pub room_id: Seq<char>,
    pub sender: Seq<char>,
    pub body: Seq<char>,
}

/// The model of an executable room event.
pub open spec fn room_event_model(e: RoomEvent) -> RoomEventModel {
    RoomEventModel { room_id: e.room_id@, sender: e.sender@, body: e.body@ }
}

/// The models of a sequence of executable room events.
pub open spec fn room_events_model(events: Seq<RoomEvent>) -> Seq<RoomEventModel> {
    events.map_values(|e: RoomEvent| room_event_model(e))
}

/// The message events of one room's timeline, in timeline order, each
/// tagged with the room's id; non-message events are dropped.
pub open spec fn room_messages(room_id: Seq<char>, events: Seq<TimelineEvent>) -> Seq<
    RoomEventModel,
>
    decreases events.len(),
{
    if events.len() == 0 {
        Seq::empty()
    } else {
        room_messages(room_id, events.drop_last()) + (match events.last() {
            TimelineEvent::Message { sender, body } => seq![
                RoomEventModel { room_id: room_id, sender: sender@, body: body@ },
            ],
            TimelineEvent::Other => Seq::empty(),
        })
    }
}

/// The message events of a whole sync response: each room's messages
/// in timeline order, rooms in the order the response lists them.
pub open spec fn extracted_events(rooms: Seq<RoomUpdate>) -> Seq<RoomEventModel>
    decreases rooms.len(),
{
    if rooms.len() == 0 {
        Seq::empty()
    } else {
        extracted_events(rooms.drop_last()) + room_messages(
            rooms.last().room_id@,
            rooms.last().events@,
        )
    }
}

/// The single mutable state of the poll loop: the sync token supplied
/// back into the next poll call.
#[derive(Debug, Clone)]
pub struct SyncLoopState {
    pub token: String,
}

impl SyncLoopState {
    /// Seeds the loop with the token of the initial handshake.
    pub fn new(initial_token: String) -> (s: Self)
        ensures
            s.token@ == initial_token@,
    {
        SyncLoopState { token: initial_token }
    }

    /// Begins one polling cycle: adopts the response's cursor before
    /// any event is handed out, so a crash mid-processing does not
    /// replay acknowledged events, and returns the response's message
    /// events in order.
    pub fn begin_cycle(&mut self, update: &SyncUpdate) -> (events: Vec<RoomEvent>)
        ensures
            final(self).token@ == update.next_token@,
            room_events_model(events@) == extracted_events(update.rooms@),
    {
        self.token = update.next_token.clone();
        let mut out: Vec<RoomEvent> = Vec::new();
        let n = update.rooms.len();
        proof {
            assert(room_events_model(out@) =~= extracted_events(update.rooms@.take(0)));
        }
        let mut i: usize = 0;
        while i < n
            invariant
                i <= n,
                n == update.rooms@.len(),
                self.token@ == update.next_token@,
                room_events_model(out@) == extracted_events(update.rooms@.take(i as int)),
            decreases n - i,
        {
            let room = &update.rooms[i];
            let m = room.events.len();
            proof {
                assert(room_messages(room.room_id@, room.events@.take(0)) =~= Seq::<
                    RoomEventModel,
                >::empty());
                assert(room_events_model(out@) =~= extracted_events(update.rooms@.take(i as int))
                    + room_messages(room.room_id@, room.events@.take(0)));
            }
            let mut j: usize = 0;
            while j < m
                invariant
                    j <= m,
                    i < n,
                    n == update.rooms@.len(),
                    m == room.events@.len(),
                    room == update.rooms@[i as int],
                    self.token@ == update.next_token@,
                    room_events_model(out@) == extracted_events(update.rooms@.take(i as int))
                        + room_messages(room.room_id@, room.events@.take(j as int)),
                decreases m - j,
            {
                let ghost prev = out@;
                match &room.events[j] {
                    TimelineEvent::Message { sender, body } => {
                        let ev = RoomEvent {
                            room_id: room.room_id.clone(),
                            sender: sender.clone(),
                            body: body.clone(),
                        };
                        out.push(ev);
                        proof {
                            assert(room_event_model(ev) == (RoomEventModel {
                                room_id: room.room_id@,
                                sender: sender@,
                                body: body@,
                            }));
                            assert(room_events_model(prev.push(ev)) =~= room_events_model(prev)
                                + seq![room_event_model(ev)]);
                        }
                    },
                    TimelineEvent::Other => {},
                }
                proof {
                    let t = room.events@.take(j + 1 as int);
                    assert(t.drop_last() =~= room.events@.take(j as int));
                    assert(t.last() == room.events@[j as int]);
                    assert(room_events_model(out@) =~= extracted_events(
                        update.rooms@.take(i as int),
                    ) + room_messages(room.room_id@, t));
                }
                j = j + 1;
            }
            proof {
                assert(room.events@.take(m as int) =~= room.events@);
                let t = update.rooms@.take(i + 1 as int);
                assert(t.drop_last() =~= update.rooms@.take(i as int));
                assert(t.last() == update.rooms@[i as int]);
                assert(room_events_model(out@) =~= extracted_events(t));
            }
            i = i + 1;
        }
        proof {
            assert(update.rooms@.take(n as int) =~= update.rooms@);
        }
        out
    }
}

} // verus!
