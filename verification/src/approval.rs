//! Approval requests that wait for a client's answer, shared by the permission
//! and the network broker.

use crate::protocol::{ConnectionId, RequestId, RequestIdView};
use crate::table::{names_entries, without, Table};
use crate::text::{decimal, decimal_text, joined, lemma_decimal_injective};
use vstd::prelude::*;
use vstd::string::*;

verus! {

/// Whether a network rule lets connections through.
#[derive(Clone, Copy, Debug, PartialEq, Eq, Structural)]
pub enum NetworkPolicyRuleAction {
    Allow,
    Deny,
}

/// A client's answer to an approval request.
#[derive(Debug, Clone, PartialEq, Eq)]
pub enum ApprovalDecision {
    Accept,
    AcceptForSession,
    AcceptWithExecpolicyAmendment,
    /// The host is in its normalized form.
    ApplyNetworkPolicyAmendment { host: String, action: NetworkPolicyRuleAction },
    Decline,
    Cancel,
}

/// What a waiting approval request is told: the client's decision, or why there
/// is none.
pub type ApprovalResponse = Result<ApprovalDecision, String>;

/// A response as far as its text matters: the decision itself, or the characters
/// of the reason.
pub open spec fn response_view(response: ApprovalResponse) -> Result<ApprovalDecision, Seq<char>> {
    match response {
        Ok(decision) => Ok(decision),
        Err(reason) => Err(reason@),
    }
}

/// An approval request that waits for its answer.
pub struct PendingApproval<T> {
    /// The connection that was asked.
    pub connection_id: ConnectionId,
    /// The client's id of the command, where the broker tracks it.
    pub process_id: Option<String>,
    /// Where the answer goes.
    pub response_tx: T,
}

/// An answer on its way to the request that waits for it.
#[derive(Debug, PartialEq, Eq)]
pub struct Delivery<T> {
    pub response_tx: T,
    pub response: ApprovalResponse,
}

/// The text of an approval request id.
pub open spec fn approval_id(prefix: Seq<char>, number: u64) -> Seq<char> {
    prefix + decimal(number as nat)
}

/// Whether a reply with this id, from this connection, answers a waiting request.
pub open spec fn answers<T>(
    pending: Map<Seq<char>, PendingApproval<T>>,
    connection_id: ConnectionId,
    request_id: RequestIdView,
) -> bool {
    request_id matches RequestIdView::Text(id) && pending.contains_key(id)
        && pending[id].connection_id == connection_id
}

/// The requests that wait after a reply: the answered one is gone.
pub open spec fn after_answer<T>(
    pending: Map<Seq<char>, PendingApproval<T>>,
    connection_id: ConnectionId,
    request_id: RequestIdView,
) -> Map<Seq<char>, PendingApproval<T>> {
    if answers(pending, connection_id, request_id) {
        pending.remove(request_id->Text_0)
    } else {
        pending
    }
}

/// Whether a delivery hands the response to the request that the reply answers,
/// and to none if it answers none.
pub open spec fn answer_delivered<T>(
    delivery: Option<Delivery<T>>,
    pending: Map<Seq<char>, PendingApproval<T>>,
    connection_id: ConnectionId,
    request_id: RequestIdView,
    response: Result<ApprovalDecision, Seq<char>>,
) -> bool {
    match delivery {
        Some(sent) => {
            &&& answers(pending, connection_id, request_id)
            &&& sent.response_tx == pending[request_id->Text_0].response_tx
            &&& response_view(sent.response) == response
        },
        None => !answers(pending, connection_id, request_id),
    }
}

/// The requests of a connection.
pub open spec fn owned_by<T>(connection_id: ConnectionId) -> spec_fn(
    Seq<char>,
    PendingApproval<T>,
) -> bool {
    |id: Seq<char>, approval: PendingApproval<T>| approval.connection_id == connection_id
}

/// Whether the deliveries tell every waiting request of a connection, once each,
/// that it failed for this reason.
pub open spec fn all_refused<T>(
    deliveries: Seq<Delivery<T>>,
    pending: Map<Seq<char>, PendingApproval<T>>,
    connection_id: ConnectionId,
    reason: Seq<char>,
) -> bool {
    exists|ids: Seq<Seq<char>>| #[trigger]
        names_entries(ids, pending, owned_by(connection_id)) && deliveries.len() == ids.len() && (
        forall|i: int|
            0 <= i < ids.len() ==> (#[trigger] deliveries[i]).response_tx
                == pending[ids[i]].response_tx && response_view(deliveries[i].response) == Err::<
                ApprovalDecision,
                Seq<char>,
            >(reason))
}

/// The approval requests of one broker.
pub struct PendingApprovals<T> {
    next_request_id: u64,
    pending: Table<String, PendingApproval<T>>,
}

impl<T> PendingApprovals<T> {
    /// The number of the next approval request.
    pub closed spec fn next_number(self) -> u64 {
        self.next_request_id
    }

    /// The requests that wait for an answer, by id.
    pub closed spec fn pending(self) -> Map<Seq<char>, PendingApproval<T>> {
        self.pending@
    }

    pub(crate) fn new() -> (approvals: Self)
        ensures
            approvals.next_number() == 1,
            approvals.pending() == Map::<Seq<char>, PendingApproval<T>>::empty(),
    {
        PendingApprovals { next_request_id: 1, pending: Table::new() }
    }

    /// Makes the id of the next request. The number after the largest is zero.
    pub(crate) fn take_id(&mut self, prefix: &str) -> (id: String)
        ensures
            id@ == approval_id(prefix@, old(self).next_number()),
            final(self).next_number() == next_u64(old(self).next_number()),
            final(self).pending() == old(self).pending(),
    {
        let number: u64 = self.next_request_id;
        self.next_request_id = number.wrapping_add(1);
        let digits = decimal_text(number);
        joined(prefix, digits.as_str())
    }

    pub(crate) fn insert(&mut self, id: String, approval: PendingApproval<T>)
        ensures
            final(self).pending() == old(self).pending().insert(id@, approval),
            final(self).next_number() == old(self).next_number(),
    {
        let _ = self.pending.insert(id, approval);
    }

    /// Drops a request that no longer waits.
    pub(crate) fn forget(&mut self, id: &String)
        ensures
            final(self).pending() == old(self).pending().remove(id@),
            final(self).next_number() == old(self).next_number(),
    {
        let _ = self.pending.remove(id);
    }

    /// Hands a response to the request with this id, if it waits for an answer
    /// from this connection.
    pub(crate) fn resolve(
        &mut self,
        connection_id: ConnectionId,
        request_id: &RequestId,
        response: ApprovalResponse,
    ) -> (delivery: Option<Delivery<T>>)
        ensures
            final(self).pending() == after_answer(
                old(self).pending(),
                connection_id,
                request_id@,
            ),
            final(self).next_number() == old(self).next_number(),
            answer_delivered(
                delivery,
                old(self).pending(),
                connection_id,
                request_id@,
                response_view(response),
            ),
    {
        let id = match request_id {
            RequestId::Text(id) => id,
            RequestId::Integer(_) => {
                return None;
            },
        };
        let owned = match self.pending.get(id) {
            Some(approval) => approval.connection_id == connection_id,
            None => false,
        };
        if !owned {
            return None;
        }
        match self.pending.remove(id) {
            Some(approval) => Some(Delivery { response_tx: approval.response_tx, response }),
            None => None,
        }
    }

    /// Whether a request of this connection waits for this command.
    pub(crate) fn find(&self, connection_id: ConnectionId, process_id: &String) -> (id: Option<
        String,
    >)
        ensures
            id matches Some(found) ==> awaits(
                self.pending(),
                found@,
                connection_id,
                process_id@,
            ),
            id is None ==> forall|other: Seq<char>|
                !awaits(self.pending(), other, connection_id, process_id@),
    {
        let ghost chosen = |id: Seq<char>, approval: PendingApproval<T>|
            is_for(approval, connection_id, process_id@);
        let test = |id: &String, approval: &PendingApproval<T>| -> (matched: bool)
            ensures
                matched == is_for(*approval, connection_id, process_id@),
            {
                approval.connection_id == connection_id && match &approval.process_id {
                    Some(other) => *other == *process_id,
                    None => false,
                }
            };
        match self.pending.find_key(test, Ghost(chosen)) {
            Some(id) => Some(id.clone()),
            None => {
                assert forall|other: Seq<char>| !awaits(
                    self.pending(),
                    other,
                    connection_id,
                    process_id@,
                ) by {
                    if self.pending().contains_key(other) {
                        assert(!chosen(other, self.pending@[other]));
                    }
                }
                None
            },
        }
    }

    /// Fails every waiting request of a connection.
    pub(crate) fn refuse_all(&mut self, connection_id: ConnectionId, reason: &str) -> (deliveries:
        Vec<Delivery<T>>)
        ensures
            final(self).pending() == without(old(self).pending(), owned_by(connection_id)),
            final(self).next_number() == old(self).next_number(),
            all_refused(deliveries@, old(self).pending(), connection_id, reason@),
    {
        let ghost chosen = owned_by::<T>(connection_id);
        let test = |id: &String, approval: &PendingApproval<T>| -> (matched: bool)
            ensures
                matched == (approval.connection_id == connection_id),
            { approval.connection_id == connection_id };
        let mut taken = self.pending.take_values(test, Ghost(chosen));
        let ghost list = taken@;
        let ghost before = old(self).pending();
        let mut deliveries: Vec<Delivery<T>> = Vec::new();
        while taken.len() > 0
            invariant
                taken@ == list.take(taken@.len() as int),
                taken@.len() <= list.len(),
                deliveries@.len() == list.len() - taken@.len(),
                forall|i: int|
                    0 <= i < deliveries@.len() ==> (#[trigger] deliveries@[i]).response_tx
                        == list[list.len() - 1 - i].response_tx && response_view(
                        deliveries@[i].response,
                    ) == Err::<ApprovalDecision, Seq<char>>(reason@),
            decreases taken@.len(),
        {
            match taken.pop() {
                Some(approval) => {
                    deliveries.push(
                        Delivery {
                            response_tx: approval.response_tx,
                            response: Err(reason.to_owned()),
                        },
                    );
                },
                None => {},
            }
        }
        proof {
            let keys = choose|keys: Seq<Seq<char>>| #[trigger]
                names_entries(keys, before, chosen) && list.len() == keys.len() && forall|i: int|
                    0 <= i < keys.len() ==> #[trigger] list[i] == before[keys[i]];
            let ids = keys.reverse();
            assert forall|id: Seq<char>| keys.contains(id) implies ids.contains(id) by {
                let i = keys.index_of(id);
                assert(ids[ids.len() - 1 - i] == id);
            }
            assert(names_entries(ids, before, chosen));
            assert forall|i: int| 0 <= i < ids.len() implies (
            #[trigger] deliveries@[i]).response_tx == before[ids[i]].response_tx by {
                assert(list[ids.len() - 1 - i] == before[keys[ids.len() - 1 - i]]);
            }
        }
        deliveries
    }
}

/// The number after `n`; the one after the largest is zero.
pub open spec fn next_u64(n: u64) -> u64 {
    if n == u64::MAX {
        0
    } else {
        (n + 1) as u64
    }
}

/// Whether an approval request belongs to this command of this connection.
pub open spec fn is_for<T>(
    approval: PendingApproval<T>,
    connection_id: ConnectionId,
    process_id: Seq<char>,
) -> bool {
    &&& approval.connection_id == connection_id
    &&& approval.process_id matches Some(own) && own@ == process_id
}

/// Whether the request with this id waits for this command of this connection.
pub open spec fn awaits<T>(
    pending: Map<Seq<char>, PendingApproval<T>>,
    id: Seq<char>,
    connection_id: ConnectionId,
    process_id: Seq<char>,
) -> bool {
    pending.contains_key(id) && is_for(pending[id], connection_id, process_id)
}

/// Approval requests of one broker with different numbers have different ids.
pub proof fn law_approval_ids_are_distinct(prefix: Seq<char>, a: u64, b: u64)
    requires
        approval_id(prefix, a) == approval_id(prefix, b),
    ensures
        a == b,
{
    let left = approval_id(prefix, a);
    let right = approval_id(prefix, b);
    assert(left.skip(prefix.len() as int) =~= decimal(a as nat));
    assert(right.skip(prefix.len() as int) =~= decimal(b as nat));
    lemma_decimal_injective(a as nat, b as nat);
}

/// A reply from another connection, or with an id that no request waits under,
/// is ignored: nothing is delivered and every request goes on waiting.
pub proof fn law_foreign_replies_are_ignored<T>(
    pending: Map<Seq<char>, PendingApproval<T>>,
    connection_id: ConnectionId,
    request_id: RequestIdView,
    delivery: Option<Delivery<T>>,
    response: Result<ApprovalDecision, Seq<char>>,
)
    requires
        answer_delivered(delivery, pending, connection_id, request_id, response),
        match request_id {
            RequestIdView::Text(id) => pending.contains_key(id) ==> pending[id].connection_id
                != connection_id,
            RequestIdView::Integer(_) => true,
        },
    ensures
        delivery is None,
        after_answer(pending, connection_id, request_id) == pending,
{
}

/// A waiting request is answered by a reply with its id from the connection that
/// was asked, and no longer waits then.
pub proof fn law_requests_are_answered_by_their_id<T>(
    pending: Map<Seq<char>, PendingApproval<T>>,
    id: Seq<char>,
    approval: PendingApproval<T>,
    delivery: Option<Delivery<T>>,
    response: Result<ApprovalDecision, Seq<char>>,
)
    requires
        answer_delivered(
            delivery,
            pending.insert(id, approval),
            approval.connection_id,
            RequestIdView::Text(id),
            response,
        ),
    ensures
        delivery matches Some(sent) && sent.response_tx == approval.response_tx && response_view(
            sent.response,
        ) == response,
        after_answer(
            pending.insert(id, approval),
            approval.connection_id,
            RequestIdView::Text(id),
        ) == pending.remove(id),
{
    assert(pending.insert(id, approval).remove(id) =~= pending.remove(id));
}

/// A request is answered at most once: a second reply with its id is ignored.
pub proof fn law_requests_are_answered_once<T>(
    pending: Map<Seq<char>, PendingApproval<T>>,
    connection_id: ConnectionId,
    request_id: RequestIdView,
)
    ensures
        !answers(
            after_answer(pending, connection_id, request_id),
            connection_id,
            request_id,
        ),
{
}

/// Closing a connection leaves it without waiting requests and touches no other
/// connection's requests.
pub proof fn law_closing_is_confined_to_the_connection<T>(
    pending: Map<Seq<char>, PendingApproval<T>>,
    closed: ConnectionId,
    id: Seq<char>,
)
    ensures
        ({
            let rest = without(pending, owned_by(closed));
            &&& rest.contains_key(id) ==> rest[id].connection_id != closed
            &&& pending.contains_key(id) && pending[id].connection_id != closed
                ==> rest.contains_key(id) && rest[id] == pending[id]
        }),
{
}

/// The ids of approval requests are counted up in decimal behind their prefix.
pub proof fn law_approval_ids_are_counted(prefix: Seq<char>, number: u64)
    ensures
        approval_id(prefix, number) == prefix + decimal(number as nat),
        number < u64::MAX ==> next_u64(number) == number + 1,
        next_u64(u64::MAX) == 0,
{
}

/// A response is seen with its decision or its reason.
pub proof fn law_responses_are_seen_whole(response: ApprovalResponse)
    ensures
        response matches Ok(decision) ==> (response_view(response) matches Ok(seen) && seen
            == decision),
        response matches Err(reason) ==> (response_view(response) matches Err(seen) && seen
            == reason@),
{
}

/// A reply is handed over, with what it says, exactly if it comes from the connection
/// that was asked and has the text id of a waiting request, and to that very request,
/// which then waits no more; all others go on waiting.
pub proof fn law_replies_go_to_the_request_they_answer<T>(
    delivery: Option<Delivery<T>>,
    pending: Map<Seq<char>, PendingApproval<T>>,
    connection_id: ConnectionId,
    id: Seq<char>,
    response: Result<ApprovalDecision, Seq<char>>,
    other: Seq<char>,
)
    requires
        answer_delivered(delivery, pending, connection_id, RequestIdView::Text(id), response),
    ensures
        ({
            let after = after_answer(pending, connection_id, RequestIdView::Text(id));
            let waited = pending.contains_key(id) && pending[id].connection_id == connection_id;
            &&& delivery is Some <==> waited
            &&& delivery matches Some(sent) ==> {
                &&& sent.response_tx == pending[id].response_tx
                &&& response matches Ok(decision) ==> (sent.response matches Ok(told) && told
                    == decision)
                &&& response matches Err(reason) ==> (sent.response matches Err(told) && told@
                    == reason)
            }
            &&& waited ==> !after.contains_key(id)
            &&& other != id || !waited ==> after.contains_key(other) == pending.contains_key(other)
                && (pending.contains_key(other) ==> after[other] == pending[other])
        }),
{
}

/// A number never answers a request: the ids of approval requests are texts.
pub proof fn law_numbers_answer_nothing<T>(
    delivery: Option<Delivery<T>>,
    pending: Map<Seq<char>, PendingApproval<T>>,
    connection_id: ConnectionId,
    number: int,
    response: Result<ApprovalDecision, Seq<char>>,
)
    requires
        answer_delivered(delivery, pending, connection_id, RequestIdView::Integer(number), response),
    ensures
        delivery is None,
        after_answer(pending, connection_id, RequestIdView::Integer(number)) == pending,
{
}

/// Whether a delivery goes to a waiting request of a connection.
pub open spec fn goes_to_request_of<T>(
    delivery: Delivery<T>,
    pending: Map<Seq<char>, PendingApproval<T>>,
    connection_id: ConnectionId,
) -> bool {
    exists|id: Seq<char>| #[trigger]
        pending.contains_key(id) && pending[id].connection_id == connection_id
            && pending[id].response_tx == delivery.response_tx
}

/// Whether one of the deliveries goes to this request.
pub open spec fn is_told<T>(deliveries: Seq<Delivery<T>>, approval: PendingApproval<T>) -> bool {
    exists|i: int|
        0 <= i < deliveries.len() && (#[trigger] deliveries[i]).response_tx == approval.response_tx
}

/// When a connection closes, each of its waiting requests is told the reason, and no
/// request of another connection is told anything.
pub proof fn law_closing_tells_every_waiting_request<T>(
    deliveries: Seq<Delivery<T>>,
    pending: Map<Seq<char>, PendingApproval<T>>,
    connection_id: ConnectionId,
    reason: Seq<char>,
)
    requires
        all_refused(deliveries, pending, connection_id, reason),
    ensures
        forall|i: int|
            0 <= i < deliveries.len() ==> ((#[trigger] deliveries[i]).response matches Err(told)
                && told@ == reason),
        forall|i: int|
            0 <= i < deliveries.len() ==> goes_to_request_of(
                #[trigger] deliveries[i],
                pending,
                connection_id,
            ),
        forall|id: Seq<char>| #[trigger]
            pending.contains_key(id) && pending[id].connection_id == connection_id ==> is_told(
                deliveries,
                pending[id],
            ),
{
    let ids = choose|ids: Seq<Seq<char>>| #[trigger]
        names_entries(ids, pending, owned_by(connection_id)) && deliveries.len() == ids.len() && (
        forall|i: int|
            0 <= i < ids.len() ==> (#[trigger] deliveries[i]).response_tx
                == pending[ids[i]].response_tx && response_view(deliveries[i].response) == Err::<
                ApprovalDecision,
                Seq<char>,
            >(reason));
    assert forall|i: int| 0 <= i < deliveries.len() implies goes_to_request_of(
        #[trigger] deliveries[i],
        pending,
        connection_id,
    ) by {
        assert(pending.contains_key(ids[i]));
    }
    assert forall|id: Seq<char>| #[trigger]
        pending.contains_key(id) && pending[id].connection_id == connection_id implies is_told(
        deliveries,
        pending[id],
    ) by {
        assert(ids.contains(id));
        let i = ids.index_of(id);
        assert(deliveries[i].response_tx == pending[ids[i]].response_tx);
    }
}

/// A request waits for a command exactly if it was made on its connection and under
/// its id.
pub proof fn law_requests_wait_for_their_own_command<T>(
    pending: Map<Seq<char>, PendingApproval<T>>,
    id: Seq<char>,
    connection_id: ConnectionId,
    process_id: Seq<char>,
)
    ensures
        awaits(pending, id, connection_id, process_id) <==> {
            &&& pending.contains_key(id)
            &&& pending[id].connection_id == connection_id
            &&& pending[id].process_id matches Some(own) && own@ == process_id
        },
        owned_by::<T>(connection_id)(id, pending[id]) <==> pending[id].connection_id
            == connection_id,
{
}

} // verus!
