//! The connections of a run as a whole: what holds however their steps and the steps of their
//! common service follow one another.

use crate::bridge::{AuthRequestView, Exit};
use crate::error::Error;
use crate::session::{
    client_begun, client_expects, client_next, ClientActionView, ClientEventView, ClientStage,
    ConnectionsView, ServeAction, ServeEvent, ServeStage,
};
use vstd::prelude::*;

verus! {

/// One connection, from the start of its coding server on.
pub struct Member {
    pub stage: ClientStage,
    /// How often it asked the host for credentials.
    pub asked: nat,
    /// What stopping its coding server came to, once that was done.
    pub stopped: Option<Result<(), Error>>,
    /// How it ended, once it has.
    pub result: Option<Result<Exit, Error>>,
    /// Whether its end was taken note of.
    pub joined: bool,
    /// Whether it was found not to have come to an end of its own.
    pub lost: bool,
}

/// How often an action asks the host for credentials.
pub open spec fn asks(action: ClientActionView) -> nat {
    if action == ClientActionView::AskHost(AuthRequestView::Login) {
        1
    } else {
        0
    }
}

impl Member {
    /// A connection whose coding server has just been started.
    pub open spec fn begun() -> Member {
        let (stage, action) = client_begun();
        Member {
            stage,
            asked: asks(action),
            stopped: None,
            result: None,
            joined: false,
            lost: false,
        }
    }

    /// One step of the connection.
    pub open spec fn next(self, event: ClientEventView) -> Member {
        let (stage, action) = client_next(self.stage, event);
        Member {
            stage,
            asked: self.asked + asks(action),
            stopped: match event {
                ClientEventView::Stopped(result) => Some(result),
                _ => self.stopped,
            },
            result: match action {
                ClientActionView::Finish(result) => Some(result),
                _ => self.result,
            },
            ..self
        }
    }

    /// Whether the connection is over, and that is known.
    pub open spec fn is_over(self) -> bool {
        self.joined || self.lost
    }

    /// Whether the connection failed, and that is known.
    pub open spec fn has_failed(self) -> bool {
        self.lost || self.joined && (self.result matches Some(Err(_)))
    }

    /// Whether the terminal logged out on this connection, and that is known.
    pub open spec fn has_logged_out(self) -> bool {
        self.joined && self.result == Some(Ok::<Exit, Error>(Exit::LoggedOut))
    }

    /// What holds of a connection at all times: it asked the host for credentials once, it has
    /// ended only when its coding server was stopped, and it failed where that failed.
    pub open spec fn wf(self) -> bool {
        &&& self.asked == 1
        &&& self.result is Some <==> self.stage is Ended
        &&& self.stopped is Some <==> self.stage is Ended
        &&& self.joined ==> self.result is Some
        &&& self.stopped matches Some(Err(_)) ==> self.result matches Some(Err(_))
    }
}

/// The connections of a run, and the service that they have in common.
pub struct Service {
    pub connections: ConnectionsView,
    /// What the service is to do next.
    pub action: ServeAction,
    /// Every connection that got a coding server, in the order of their beginning.
    pub members: Seq<Member>,
}

/// What can happen.
pub enum Occurrence {
    /// To the service.
    Service(ServeEvent),
    /// On a connection.
    Client(int, ClientEventView),
    /// The service takes note that a connection has ended.
    Joined(int),
    /// The service finds that a connection did not come to an end of its own.
    Lost(int),
}

/// How many connections are not over.
pub open spec fn open_members(members: Seq<Member>) -> nat
    decreases members.len(),
{
    if members.len() == 0 {
        0
    } else {
        let others = open_members(members.drop_last());
        if members.last().is_over() {
            others
        } else {
            others + 1
        }
    }
}

/// Whether something goes wrong with the service itself.
pub open spec fn is_fault(occurrence: Occurrence) -> bool {
    match occurrence {
        Occurrence::Service(event) => event is DeadlinePassed || event is AcceptFailed || (
        event matches ServeEvent::Started(Err(_))),
        _ => false,
    }
}

/// Whether the run is told to end.
pub open spec fn is_stop(occurrence: Occurrence) -> bool {
    occurrence matches Occurrence::Service(ServeEvent::Stopped)
}

/// Whether a coding server was started for a connection.
pub open spec fn is_start(occurrence: Occurrence) -> bool {
    occurrence matches Occurrence::Service(ServeEvent::Started(Ok(_)))
}

impl Service {
    /// Before the first connection.
    pub open spec fn begun() -> Service {
        let (connections, action) = (ConnectionsView {
            stage: ServeStage::Serving,
            clients: 0,
            connected: false,
        }).awaiting();
        Service { connections, action, members: Seq::empty() }
    }

    /// Whether a connection can take a step, or be found to be over.
    pub open spec fn is_open(self, i: int) -> bool {
        0 <= i < self.members.len() && !self.members[i].is_over()
    }

    /// Whether something can happen: to the service what it awaits, and on a connection what
    /// it awaits; connections are told to end only when no more are accepted.
    pub open spec fn allows(self, occurrence: Occurrence) -> bool {
        match occurrence {
            Occurrence::Service(event) => !(event is ClientEnded) && !(event is ClientLost)
                && self.connections.expects(event),
            Occurrence::Client(i, event) => {
                &&& self.is_open(i)
                &&& client_expects(self.members[i].stage, event)
                &&& event is Cancelled ==> self.connections.stage is Draining
            },
            Occurrence::Joined(i) => {
                &&& self.is_open(i)
                &&& self.members[i].result is Some
                &&& self.connections.expects(ServeEvent::ClientEnded(self.members[i].result->0))
            },
            Occurrence::Lost(i) => {
                &&& self.is_open(i)
                &&& self.members[i].result is None
                &&& self.connections.expects(ServeEvent::ClientLost)
            },
        }
    }

    /// What comes of it.
    pub open spec fn next(self, occurrence: Occurrence) -> Service {
        match occurrence {
            Occurrence::Service(event) => {
                let (connections, action) = self.connections.next(event);
                let members = if is_start(occurrence) {
                    self.members.push(Member::begun())
                } else {
                    self.members
                };
                Service { connections, action, members }
            },
            Occurrence::Client(i, event) => Service {
                members: self.members.update(i, self.members[i].next(event)),
                ..self
            },
            Occurrence::Joined(i) => {
                let (connections, action) = self.connections.next(
                    ServeEvent::ClientEnded(self.members[i].result->0),
                );
                let member = Member { joined: true, ..self.members[i] };
                Service { connections, action, members: self.members.update(i, member) }
            },
            Occurrence::Lost(i) => {
                let (connections, action) = self.connections.next(ServeEvent::ClientLost);
                let member = Member { lost: true, ..self.members[i] };
                Service { connections, action, members: self.members.update(i, member) }
            },
        }
    }

    /// What all came to so far, once no more connections are accepted.
    pub open spec fn outcome(self) -> Option<Result<(), Error>> {
        match (self.connections.stage, self.action) {
            (ServeStage::Draining(result), _) => Some(result),
            (ServeStage::Ended, ServeAction::Finish(result)) => Some(result),
            _ => None,
        }
    }

    /// Whether a connection failed.
    pub open spec fn some_failed(self) -> bool {
        exists|i: int| 0 <= i < self.members.len() && (#[trigger] self.members[i]).has_failed()
    }

    /// Whether the terminal logged out on a connection.
    pub open spec fn some_logged_out(self) -> bool {
        exists|i: int|
            0 <= i < self.members.len() && (#[trigger] self.members[i]).has_logged_out()
    }

    /// What holds at all times.
    pub open spec fn wf(self) -> bool {
        &&& self.connections.wf()
        &&& self.connections.clients == open_members(self.members)
        &&& self.connections.connected <==> self.members.len() > 0
        &&& self.connections.stage is Draining ==> self.connections.clients > 0
        &&& self.connections.stage is Ended ==> self.connections.clients == 0
        &&& self.connections.stage is Ended <==> self.action is Finish
        &&& forall|i: int| 0 <= i < self.members.len() ==> (#[trigger] self.members[i]).wf()
    }
}

/// The service after all that has happened.
pub open spec fn service_after(course: Seq<Occurrence>) -> Service
    decreases course.len(),
{
    if course.len() == 0 {
        Service::begun()
    } else {
        service_after(course.drop_last()).next(course.last())
    }
}

/// Whether each of these things can happen when its turn is.
pub open spec fn can_happen(course: Seq<Occurrence>) -> bool
    decreases course.len(),
{
    course.len() == 0 || (can_happen(course.drop_last()) && service_after(
        course.drop_last(),
    ).allows(course.last()))
}

/// How many coding servers were started.
pub open spec fn starts(course: Seq<Occurrence>) -> nat
    decreases course.len(),
{
    if course.len() == 0 {
        0
    } else {
        let earlier = starts(course.drop_last());
        if is_start(course.last()) {
            earlier + 1
        } else {
            earlier
        }
    }
}

/// Whether something went wrong with the service itself.
pub open spec fn some_fault(course: Seq<Occurrence>) -> bool {
    exists|k: int| 0 <= k < course.len() && is_fault(#[trigger] course[k])
}

/// Whether the run was told to end.
pub open spec fn some_stop(course: Seq<Occurrence>) -> bool {
    exists|k: int| 0 <= k < course.len() && is_stop(#[trigger] course[k])
}

proof fn lemma_open_members_update(members: Seq<Member>, i: int, member: Member)
    requires
        0 <= i < members.len(),
        !members[i].is_over(),
    ensures
        member.is_over() ==> open_members(members.update(i, member)) == open_members(members) - 1,
        !member.is_over() ==> open_members(members.update(i, member)) == open_members(members),
        open_members(members) > 0,
    decreases members.len(),
{
    let changed = members.update(i, member);
    if i == members.len() - 1 {
        assert(changed.drop_last() =~= members.drop_last());
    } else {
        lemma_open_members_update(members.drop_last(), i, member);
        assert(changed.drop_last() =~= members.drop_last().update(i, member));
    }
}

proof fn lemma_open_members_none(members: Seq<Member>)
    ensures
        open_members(members) == 0 <==> forall|i: int|
            0 <= i < members.len() ==> (#[trigger] members[i]).is_over(),
    decreases members.len(),
{
    if members.len() > 0 {
        let others = members.drop_last();
        lemma_open_members_none(others);
        assert forall|i: int| 0 <= i < others.len() implies others[i] == members[i] by {}
        if open_members(members) == 0 {
            assert forall|i: int| 0 <= i < members.len() implies (
            #[trigger] members[i]).is_over() by {
                if i < others.len() {
                    assert(others[i].is_over());
                }
            }
        }
        if forall|i: int| 0 <= i < members.len() ==> (#[trigger] members[i]).is_over() {
            assert(members[members.len() - 1].is_over());
            assert forall|i: int| 0 <= i < others.len() implies (
            #[trigger] others[i]).is_over() by {
                assert(members[i].is_over());
            }
        }
    }
}

proof fn lemma_service(course: Seq<Occurrence>)
    requires
        can_happen(course),
    ensures
        service_after(course).wf(),
        service_after(course).members.len() == starts(course),
    decreases course.len(),
{
    if course.len() > 0 {
        lemma_service(course.drop_last());
        lemma_service_next(service_after(course.drop_last()), course.last());
    }
}

proof fn lemma_service_next(before: Service, occurrence: Occurrence)
    requires
        before.wf(),
        before.allows(occurrence),
    ensures
        before.next(occurrence).wf(),
        before.next(occurrence).members.len() == before.members.len() + if is_start(occurrence) {
            1int
        } else {
            0int
        },
{
    let after = before.next(occurrence);
    match occurrence {
        Occurrence::Service(event) => {
            if is_start(occurrence) {
                assert(after.members.drop_last() =~= before.members);
            }
            lemma_open_members_none(before.members);
        },
        Occurrence::Client(i, event) => {
            lemma_open_members_update(before.members, i, before.members[i].next(event));
        },
        Occurrence::Joined(i) => {
            let member = Member { joined: true, ..before.members[i] };
            lemma_open_members_update(before.members, i, member);
        },
        Occurrence::Lost(i) => {
            let member = Member { lost: true, ..before.members[i] };
            lemma_open_members_update(before.members, i, member);
        },
    }
}

/// However a run goes, each connection has a coding server of its own and asks the host for
/// credentials once, and it counts as ended only when its server was stopped. When the service
/// is over, no connection is left open: the server of each was stopped, except of one that was
/// lost on the way.
pub proof fn law_every_server_is_stopped(course: Seq<Occurrence>)
    requires
        can_happen(course),
    ensures
        ({
            let service = service_after(course);
            &&& service.members.len() == starts(course)
            &&& service.connections.clients == open_members(service.members)
            &&& forall|i: int|
                0 <= i < service.members.len() ==> {
                    let member = #[trigger] service.members[i];
                    &&& member.asked == 1
                    &&& member.result is Some ==> member.stopped is Some
                    &&& service.action is Finish ==> member.lost || member.joined
                        && member.stopped is Some
                }
        }),
{
    lemma_service(course);
    lemma_open_members_none(service_after(course).members);
}

/// The service goes on, accepting connections and serving them, until the run is told to end,
/// the terminal logs out on a connection, or something fails: terminals that only go away do
/// not end it. It ends well if and only if nothing failed, and then every coding server that it
/// started was stopped well.
pub proof fn law_what_ends_the_service(course: Seq<Occurrence>)
    requires
        can_happen(course),
    ensures
        ({
            let service = service_after(course);
            let failed = some_fault(course) || service.some_failed();
            &&& service.outcome() is Some <==> some_stop(course) || service.some_logged_out()
                || failed
            &&& service.outcome() matches Some(result) ==> (result is Ok <==> !failed)
            &&& service.action is Finish <==> service.outcome() is Some && open_members(
                service.members,
            ) == 0
            &&& service.action matches ServeAction::Finish(result) ==> {
                &&& service.outcome() == Some(result)
                &&& result is Ok ==> forall|i: int|
                    0 <= i < service.members.len() ==> (#[trigger] service.members[i]).stopped
                        matches Some(Ok(_))
            }
        }),
{
    lemma_outcome(course);
    lemma_service(course);
    let service = service_after(course);
    lemma_open_members_none(service.members);
    if let ServeAction::Finish(result) = service.action {
        if result is Ok {
            assert forall|i: int| 0 <= i < service.members.len() implies (
            #[trigger] service.members[i]).stopped matches Some(Ok(_)) by {
                let member = service.members[i];
                assert(member.is_over());
                assert(!member.has_failed());
            }
        }
    }
}

proof fn lemma_outcome(course: Seq<Occurrence>)
    requires
        can_happen(course),
    ensures
        ({
            let service = service_after(course);
            let failed = some_fault(course) || service.some_failed();
            &&& service.outcome() is Some <==> some_stop(course) || service.some_logged_out()
                || failed
            &&& service.outcome() matches Some(result) ==> (result is Ok <==> !failed)
        }),
    decreases course.len(),
{
    let after = service_after(course);
    lemma_service(course);
    if course.len() > 0 {
        let earlier = course.drop_last();
        let last = course.last();
        let n = course.len() - 1;
        let before = service_after(earlier);
        lemma_outcome(earlier);
        lemma_service(earlier);
        assert forall|k: int| 0 <= k < n implies earlier[k] == #[trigger] course[k] by {}
        assert(course[n] == last);
        assert(some_fault(course) <==> some_fault(earlier) || is_fault(last)) by {
            if some_fault(earlier) {
                let k = choose|k: int| 0 <= k < earlier.len() && is_fault(#[trigger] earlier[k]);
                assert(is_fault(course[k]));
            }
        }
        assert(some_stop(course) <==> some_stop(earlier) || is_stop(last)) by {
            if some_stop(earlier) {
                let k = choose|k: int| 0 <= k < earlier.len() && is_stop(#[trigger] earlier[k]);
                assert(is_stop(course[k]));
            }
        }
        lemma_members_remember(before, last);
    }
}

proof fn lemma_members_remember(before: Service, occurrence: Occurrence)
    requires
        before.wf(),
        before.allows(occurrence),
    ensures
        ({
            let after = before.next(occurrence);
            let now = match occurrence {
                Occurrence::Joined(i) => Some(Member { joined: true, ..before.members[i] }),
                Occurrence::Lost(i) => Some(Member { lost: true, ..before.members[i] }),
                _ => None,
            };
            &&& after.some_failed() <==> before.some_failed() || (now matches Some(member)
                && member.has_failed())
            &&& after.some_logged_out() <==> before.some_logged_out() || (now matches Some(member)
                && member.has_logged_out())
        }),
{
    let after = before.next(occurrence);
    if before.some_failed() {
        let i = choose|i: int|
            0 <= i < before.members.len() && (#[trigger] before.members[i]).has_failed();
        assert(after.members[i].has_failed());
    }
    if before.some_logged_out() {
        let i = choose|i: int|
            0 <= i < before.members.len() && (#[trigger] before.members[i]).has_logged_out();
        assert(after.members[i].has_logged_out());
    }
    if let Occurrence::Joined(i) = occurrence {
        assert(after.members[i] == Member { joined: true, ..before.members[i] });
    }
    if let Occurrence::Lost(i) = occurrence {
        assert(after.members[i] == Member { lost: true, ..before.members[i] });
    }
    if after.some_failed() {
        let i = choose|i: int|
            0 <= i < after.members.len() && (#[trigger] after.members[i]).has_failed();
        if i < before.members.len() && after.members[i] == before.members[i] {
            assert(before.members[i].has_failed());
        }
    }
    if after.some_logged_out() {
        let i = choose|i: int|
            0 <= i < after.members.len() && (#[trigger] after.members[i]).has_logged_out();
        if i < before.members.len() && after.members[i] == before.members[i] {
            assert(before.members[i].has_logged_out());
        }
    }
}

/// A terminal that does not connect in time ends the service with an error at once, and no
/// coding server was started.
pub proof fn law_terminal_connects_in_time(course: Seq<Occurrence>)
    requires
        can_happen(course),
        course.len() > 0,
        course.last() == Occurrence::Service(ServeEvent::DeadlinePassed),
    ensures
        starts(course) == 0,
        service_after(course).action == ServeAction::Finish(
            Err::<(), Error>(Error::TerminalNotConnected),
        ),
{
    lemma_service(course);
    lemma_service(course.drop_last());
}

/// What happens on one connection changes no other; and while connections are accepted none is
/// told to end, so a terminal that goes away leaves the others where they are and makes room
/// for new ones.
pub proof fn law_connections_leave_each_other_alone(
    course: Seq<Occurrence>,
    occurrence: Occurrence,
    i: int,
    j: int,
)
    requires
        can_happen(course.push(occurrence)),
        0 <= j < service_after(course).members.len(),
        i != j,
        occurrence is Client && occurrence->Client_0 == i || occurrence == Occurrence::Joined(i)
            || occurrence == Occurrence::Lost(i),
    ensures
        ({
            let before = service_after(course);
            let after = service_after(course.push(occurrence));
            &&& after.members.len() == before.members.len()
            &&& after.members[j] == before.members[j]
            &&& occurrence is Client ==> after.connections == before.connections && after.action
                == before.action
            &&& before.connections.stage is Serving && occurrence == Occurrence::Joined(i)
                && before.members[i].result == Some(Ok::<Exit, Error>(Exit::Disconnected)) ==> {
                &&& after.connections.stage is Serving
                &&& after.action matches ServeAction::Await { accept: true, .. }
            }
            &&& before.connections.stage is Serving ==> !before.allows(
                Occurrence::Client(j, ClientEventView::Cancelled),
            )
        }),
{
    assert(course.push(occurrence).drop_last() =~= course);
    lemma_service(course);
}

/// When no more connections are accepted, each that is still open can be brought to its end,
/// whatever it was about: one that asks or serves is told to end, a server that is being
/// stopped is stopped or not, and an end is taken note of. The last one ends the service.
pub proof fn law_open_connections_can_end(
    course: Seq<Occurrence>,
    i: int,
    stopped: Result<(), Error>,
)
    requires
        can_happen(course),
        service_after(course).connections.stage is Draining,
        service_after(course).is_open(i),
    ensures
        ({
            let service = service_after(course);
            let step = match service.members[i].stage {
                ClientStage::Stopping(_) => Occurrence::Client(
                    i,
                    ClientEventView::Stopped(stopped),
                ),
                ClientStage::Ended => Occurrence::Joined(i),
                _ => Occurrence::Client(i, ClientEventView::Cancelled),
            };
            let after = service_after(course.push(step));
            &&& can_happen(course.push(step))
            &&& match service.members[i].stage {
                ClientStage::Stopping(_) => after.members[i].stage is Ended,
                ClientStage::Ended => {
                    &&& after.members[i].joined
                    &&& open_members(after.members) == open_members(service.members) - 1
                    &&& open_members(after.members) == 0 ==> after.action is Finish
                },
                _ => after.members[i].stage is Stopping,
            }
        }),
{
    let service = service_after(course);
    let step = match service.members[i].stage {
        ClientStage::Stopping(_) => Occurrence::Client(i, ClientEventView::Stopped(stopped)),
        ClientStage::Ended => Occurrence::Joined(i),
        _ => Occurrence::Client(i, ClientEventView::Cancelled),
    };
    lemma_service(course);
    assert(course.push(step).drop_last() =~= course);
    assert(service.members[i].wf());
    lemma_service(course.push(step));
}

} // verus!
